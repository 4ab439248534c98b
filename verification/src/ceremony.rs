//! The WebAuthn ceremonies of passkey sign-up and sign-in, as the webauthn-rs
//! crate performs them, with each failure answered as the passkey requests
//! answer it (see `passkey::step_refusal`).
//!
//! The ceremony's results rest on fresh random challenges and on cryptographic
//! checks, so of the outside calls little is stated; what is verified here is
//! which answer each failure gets and which keys and texts are stored.
use vstd::prelude::*;
use vstd::utf8::*;
use webauthn_rs::prelude::{
    AuthenticationResult, CreationChallengeResponse, Passkey, PasskeyAuthentication, PasskeyRegistration,
    PublicKeyCredential, RegisterPublicKeyCredential, RequestChallengeResponse, Url,
};
use webauthn_rs::{Webauthn, WebauthnBuilder};
use crate::json::{json_parse_error, json_text_at, json_text_member, read_json};
use crate::passkey::{dns_uuid_v5, base64_url, credential_key, decode_credential_key, encodes_bytes, step_refusal, Outcome, PasskeyStep};

verus! {

#[verifier::external_type_specification]
#[verifier::external_body]
pub struct ExWebauthn(Webauthn);

#[verifier::external_type_specification]
#[verifier::external_body]
pub struct ExWebauthnBuilder<'a>(WebauthnBuilder<'a>);

#[verifier::external_type_specification]
#[verifier::external_body]
pub struct ExUrl(Url);

#[verifier::external_type_specification]
#[verifier::external_body]
pub struct ExCreationChallengeResponse(CreationChallengeResponse);

#[verifier::external_type_specification]
#[verifier::external_body]
pub struct ExRequestChallengeResponse(RequestChallengeResponse);

#[verifier::external_type_specification]
#[verifier::external_body]
pub struct ExPasskeyRegistration(PasskeyRegistration);

#[verifier::external_type_specification]
#[verifier::external_body]
pub struct ExPasskeyAuthentication(PasskeyAuthentication);

#[verifier::external_type_specification]
#[verifier::external_body]
pub struct ExPasskey(Passkey);

#[verifier::external_type_specification]
#[verifier::external_body]
pub struct ExRegisterPublicKeyCredential(RegisterPublicKeyCredential);

#[verifier::external_type_specification]
#[verifier::external_body]
pub struct ExPublicKeyCredential(PublicKeyCredential);

#[verifier::external_type_specification]
#[verifier::external_body]
pub struct ExAuthenticationResult(AuthenticationResult);


// ========== OUTSIDE CALLS ==========

/// The text of the error with which the url crate's `Url::parse` refuses
/// `text`; `None` when it parses.
pub uninterp spec fn url_parse_error(text: Seq<char>) -> Option<Seq<char>>;

/// A URL read by the url crate, with the text it was read from. Only
/// `parse_url` makes one, so its view is the text that `url` was parsed from.
pub struct ParsedUrl {
    url: Url,
    text: String,
}

impl View for ParsedUrl {
    type V = Seq<char>;

    closed spec fn view(&self) -> Seq<char> {
        self.text@
    }
}

/// `Url::parse` (the url crate, re-exported by webauthn-rs). Trusted: whether
/// the text parses, and the text of the error when it does not, are a function
/// of the text alone; the parsed URL is kept with the text it was read from.
#[verifier::external_body]
fn parse_url(text: &str) -> (r: Result<ParsedUrl, String>)
    ensures
        match url_parse_error(text@) {
            None => r matches Ok(p) && p@ == text@,
            Some(e) => r matches Err(m) && m@ == e,
        },
{
    match Url::parse(text) {
        Ok(u) => Ok(ParsedUrl { url: u, text: text.to_owned() }),
        Err(e) => Err(e.to_string()),
    }
}

/// The domain of the URL that the url crate reads from `text` (`Url::domain`:
/// its host when that is a domain, `None` when it is an IP address or there is
/// none).
pub uninterp spec fn origin_domain(text: Seq<char>) -> Option<Seq<char>>;

/// `domain` is `rp_id` or one of its subdomains: it equals `rp_id` or ends with
/// `"." + rp_id`. `None` (no domain) is never accepted.
pub open spec fn domain_accepts(domain: Option<Seq<char>>, rp_id: Seq<char>) -> bool {
    match domain {
        Some(d) => {
            ||| d == rp_id
            ||| (d.len() > rp_id.len() && d.subrange(d.len() - rp_id.len() - 1, d.len() as int) == seq!['.'] + rp_id)
        },
        None => false,
    }
}

/// `WebauthnBuilder::new`. Trusted: as the crate's source shows, it accepts the
/// origin exactly when the origin's domain is the relying party id or ends with
/// `"."` and the id, and otherwise fails with `WebauthnError::Configuration`,
/// whose text is `The configuration was invalid`; the builder itself is opaque.
#[verifier::external_body]
fn builder_new<'a>(rp_id: &'a str, origin: &'a ParsedUrl) -> (r: Result<WebauthnBuilder<'a>, String>)
    ensures
        r is Ok <==> domain_accepts(origin_domain(origin@), rp_id@),
        r matches Err(e) ==> e@ == "The configuration was invalid"@,
{
    match WebauthnBuilder::new(rp_id, &origin.url) {
        Ok(b) => Ok(b),
        Err(e) => Err(e.to_string()),
    }
}

/// `WebauthnBuilder::rp_name`, which sets the name shown to users. Trusted:
/// nothing is stated of the result.
#[verifier::external_body]
fn builder_named<'a>(builder: WebauthnBuilder<'a>, rp_name: &'a str) -> (r: WebauthnBuilder<'a>) {
    builder.rp_name(rp_name)
}

/// `WebauthnBuilder::build`. Trusted: as the crate's source shows, it always
/// succeeds; the instance itself is opaque.
#[verifier::external_body]
fn builder_build(builder: WebauthnBuilder<'_>) -> (r: Result<Webauthn, String>)
    ensures
        r is Ok,
{
    match builder.build() {
        Ok(w) => Ok(w),
        Err(e) => Err(e.to_string()),
    }
}

/// `Webauthn::start_passkey_registration` for the user `user`: its handle (16
/// bytes of a UUID), user name and display name, excluding its credentials
/// `exclude`. Trusted: the challenge is random, so nothing is stated of the
/// result.
#[verifier::external_body]
fn start_registration(
    w: &Webauthn,
    user: &RegistrationUser,
) -> (r: Result<(CreationChallengeResponse, PasskeyRegistration), String>)
    requires
        user.handle@.len() == 16,
{
    let mut bytes = [0u8; 16];
    bytes.copy_from_slice(&user.handle);
    let exclude = user.exclude.iter().cloned().map(webauthn_rs::prelude::CredentialID::from).collect();
    match w.start_passkey_registration(uuid::Uuid::from_bytes(bytes), &user.user_name, &user.display_name, Some(exclude)) {
        Ok(pair) => Ok(pair),
        Err(e) => Err(e.to_string()),
    }
}

/// `Webauthn::finish_passkey_registration`. Trusted: nothing is stated of the
/// result, which rests on the client's attestation.
#[verifier::external_body]
fn finish_registration(
    w: &Webauthn,
    response: &RegisterPublicKeyCredential,
    state: &PasskeyRegistration,
) -> (r: Result<Passkey, String>) {
    match w.finish_passkey_registration(response, state) {
        Ok(p) => Ok(p),
        Err(e) => Err(e.to_string()),
    }
}

/// `Webauthn::start_passkey_authentication` offering `creds`. Trusted: the
/// challenge is random, so nothing is stated of the result.
#[verifier::external_body]
fn start_authentication(
    w: &Webauthn,
    creds: &Vec<Passkey>,
) -> (r: Result<(RequestChallengeResponse, PasskeyAuthentication), String>) {
    match w.start_passkey_authentication(creds.as_slice()) {
        Ok(pair) => Ok(pair),
        Err(e) => Err(e.to_string()),
    }
}

/// `Webauthn::finish_passkey_authentication`. Trusted: nothing is stated of the
/// result, which rests on the client's signature.
#[verifier::external_body]
fn finish_authentication(
    w: &Webauthn,
    response: &PublicKeyCredential,
    state: &PasskeyAuthentication,
) -> (r: Result<AuthenticationResult, String>) {
    match w.finish_passkey_authentication(response, state) {
        Ok(a) => Ok(a),
        Err(e) => Err(e.to_string()),
    }
}

/// `Passkey::cred_id`, as bytes. Trusted: nothing is stated of the bytes but
/// that, as any vector's, they number at most `isize::MAX`.
#[verifier::external_body]
fn passkey_id(p: &Passkey) -> (r: Vec<u8>)
    ensures
        r@.len() <= isize::MAX,
{
    p.cred_id().as_ref().to_vec()
}

/// `AuthenticationResult::counter`: the authenticator's signature counter.
/// Trusted: nothing is stated of the value.
#[verifier::external_body]
fn authentication_counter(a: &AuthenticationResult) -> (r: u32) {
    a.counter()
}

/// The challenge of a registration's options (the field
/// `public_key.challenge`), as bytes. Trusted: nothing is stated of the bytes
/// but that, as any vector's, they number at most `isize::MAX`.
#[verifier::external_body]
fn creation_challenge(c: &CreationChallengeResponse) -> (r: Vec<u8>)
    ensures
        r@.len() <= isize::MAX,
{
    c.public_key.challenge.as_ref().to_vec()
}

/// The challenge of a sign-in's options (the field `public_key.challenge`), as
/// bytes. Trusted: nothing is stated of the bytes but that, as any vector's,
/// they number at most `isize::MAX`.
#[verifier::external_body]
fn request_challenge(c: &RequestChallengeResponse) -> (r: Vec<u8>)
    ensures
        r@.len() <= isize::MAX,
{
    c.public_key.challenge.as_ref().to_vec()
}

/// The client data of a registration response (the field
/// `response.client_data_json`), as bytes. Trusted: nothing is stated of them.
#[verifier::external_body]
fn registration_client_data(c: &RegisterPublicKeyCredential) -> (r: Vec<u8>) {
    c.response.client_data_json.as_ref().to_vec()
}

/// The client data of a sign-in response (the field
/// `response.client_data_json`), as bytes. Trusted: nothing is stated of them.
#[verifier::external_body]
fn authentication_client_data(c: &PublicKeyCredential) -> (r: Vec<u8>) {
    c.response.client_data_json.as_ref().to_vec()
}

/// The raw credential id of a sign-in response (the field `raw_id`), as bytes.
/// Trusted: nothing is stated of them but that, as any vector's, they number at
/// most `isize::MAX`.
#[verifier::external_body]
fn credential_raw_id(c: &PublicKeyCredential) -> (r: Vec<u8>)
    ensures
        r@.len() <= isize::MAX,
{
    c.raw_id.as_ref().to_vec()
}

/// `serde_json::from_value` into a registration response. Trusted: nothing is
/// stated of the result; an error is given back as its text.
#[verifier::external_body]
fn read_registration_response(v: serde_json::Value) -> (r: Result<RegisterPublicKeyCredential, String>) {
    match serde_json::from_value(v) {
        Ok(c) => Ok(c),
        Err(e) => Err(e.to_string()),
    }
}

/// `serde_json::from_value` into a sign-in response. Trusted: nothing is stated
/// of the result; an error is given back as its text.
#[verifier::external_body]
fn read_authentication_response(v: serde_json::Value) -> (r: Result<PublicKeyCredential, String>) {
    match serde_json::from_value(v) {
        Ok(c) => Ok(c),
        Err(e) => Err(e.to_string()),
    }
}

/// `serde_json::to_string` of a registration state. Trusted: the text it gives
/// reads back as a registration state (the state's serde impls are derived and
/// read what they write); nothing else is stated of the text.
#[verifier::external_body]
fn registration_state_text(s: &PasskeyRegistration) -> (r: Result<String, String>)
    ensures
        r matches Ok(t) ==> reads_as_registration_state(t@),
{
    match serde_json::to_string(s) {
        Ok(t) => Ok(t),
        Err(e) => Err(e.to_string()),
    }
}

/// `serde_json::to_string` of a sign-in state. Trusted: the text it gives reads
/// back as a sign-in state (the state's serde impls are derived and read what
/// they write); nothing else is stated of the text.
#[verifier::external_body]
fn authentication_state_text(s: &PasskeyAuthentication) -> (r: Result<String, String>)
    ensures
        r matches Ok(t) ==> reads_as_authentication_state(t@),
{
    match serde_json::to_string(s) {
        Ok(t) => Ok(t),
        Err(e) => Err(e.to_string()),
    }
}

/// Whether `serde_json::from_str` reads `text` as a registration state.
pub uninterp spec fn reads_as_registration_state(text: Seq<char>) -> bool;

/// `serde_json::from_str` into a registration state, `None` when it fails.
/// Trusted: whether the text reads is a function of the text alone; nothing is
/// stated of the state.
#[verifier::external_body]
fn read_registration_state(text: &str) -> (r: Option<PasskeyRegistration>)
    ensures
        r is Some <==> reads_as_registration_state(text@),
{
    serde_json::from_str(text).ok()
}

/// Whether `serde_json::from_str` reads `text` as a sign-in state.
pub uninterp spec fn reads_as_authentication_state(text: Seq<char>) -> bool;

/// `serde_json::from_str` into a sign-in state, `None` when it fails. Trusted:
/// whether the text reads is a function of the text alone; nothing is stated
/// of the state.
#[verifier::external_body]
fn read_authentication_state(text: &str) -> (r: Option<PasskeyAuthentication>)
    ensures
        r is Some <==> reads_as_authentication_state(text@),
{
    serde_json::from_str(text).ok()
}

/// `serde_json::to_vec` of a passkey. Trusted: the bytes it gives read back as
/// a passkey (the passkey's serde impls are derived and read what they write);
/// nothing else is stated of them.
#[verifier::external_body]
fn passkey_record(p: &Passkey) -> (r: Result<Vec<u8>, String>)
    ensures
        r matches Ok(b) ==> passkey_read_error(b@) is None,
{
    match serde_json::to_vec(p) {
        Ok(b) => Ok(b),
        Err(e) => Err(e.to_string()),
    }
}

/// The text of the error with which `serde_json::from_slice` refuses `bytes` as
/// a stored passkey; `None` when they read as one.
pub uninterp spec fn passkey_read_error(bytes: Seq<u8>) -> Option<Seq<char>>;

/// `serde_json::from_slice` into a passkey. Trusted: whether the bytes read as
/// a passkey, and the text of the error when they do not, are a function of the
/// bytes alone; nothing is stated of the passkey.
#[verifier::external_body]
fn read_passkey(bytes: &Vec<u8>) -> (r: Result<Passkey, String>)
    ensures
        match passkey_read_error(bytes@) {
            None => r is Ok,
            Some(e) => r matches Err(m) && m@ == e,
        },
{
    match serde_json::from_slice(bytes.as_slice()) {
        Ok(p) => Ok(p),
        Err(e) => Err(e.to_string()),
    }
}

/// `serde_json::to_value` of registration options. Trusted: nothing is stated
/// of the result.
#[verifier::external_body]
fn creation_options(c: &CreationChallengeResponse) -> (r: Result<serde_json::Value, String>) {
    match serde_json::to_value(c) {
        Ok(v) => Ok(v),
        Err(e) => Err(e.to_string()),
    }
}

/// `serde_json::to_value` of sign-in options. Trusted: nothing is stated of the
/// result.
#[verifier::external_body]
fn request_options(c: &RequestChallengeResponse) -> (r: Result<serde_json::Value, String>) {
    match serde_json::to_value(c) {
        Ok(v) => Ok(v),
        Err(e) => Err(e.to_string()),
    }
}

/// `Value::default()`: JSON `null`. Trusted: nothing is stated of it.
#[verifier::external_body]
fn json_null() -> (r: serde_json::Value) {
    serde_json::Value::Null
}

// ========== THE CEREMONIES ==========

/// An answer that ends a passkey request.
pub type Refusal = (u16, String);

/// `r` is the answer with which `step` ends a request, for some outcome of it.
pub open spec fn refused_at(r: Refusal, step: PasskeyStep) -> bool {
    exists|o: Outcome| #[trigger] step_refusal(step, o) == Some((r.0, r.1@))
}

/// `r` is the answer with which `step` ends a request when it failed with the
/// error text `e`.
pub open spec fn failed_at(r: Refusal, step: PasskeyStep, e: Seq<char>) -> bool {
    exists|s: String| s@ == e && #[trigger] step_refusal(step, Outcome::Failed(s)) == Some((r.0, r.1@))
}

/// The answer that ends a request when `step` failed with `e`.
fn refuse(step: PasskeyStep, e: String) -> (r: Refusal)
    requires
        step_refusal(step, Outcome::Failed(e)) is Some,
    ensures
        step_refusal(step, Outcome::Failed(e)) == Some((r.0, r.1@)),
        refused_at(r, step),
{
    let o = Outcome::Failed(e);
    crate::passkey::passkey_refusal(step, &o).unwrap()
}

/// The answer that ends a request when what `step` looked for is missing.
fn refuse_missing(step: PasskeyStep) -> (r: Refusal)
    requires
        step_refusal(step, Outcome::Missing) is Some,
    ensures
        step_refusal(step, Outcome::Missing) == Some((r.0, r.1@)),
        refused_at(r, step),
{
    crate::passkey::passkey_refusal(step, &Outcome::Missing).unwrap()
}

/// Sets up WebAuthn for the relying party `rp_id` at `rp_origin`, shown to
/// users as `rp_name`. An origin that does not parse is refused with
/// `Invalid RP origin: ` and the url crate's error; one whose domain is neither
/// `rp_id` nor a subdomain of it with `WebAuthn builder error: The
/// configuration was invalid`; any other origin is accepted.
pub fn get_webauthn(rp_id: &str, rp_name: &str, rp_origin: &str) -> (r: Result<Webauthn, String>)
    ensures
        match url_parse_error(rp_origin@) {
            Some(e) => r matches Err(m) && m@ == "Invalid RP origin: "@ + e,
            None => if domain_accepts(origin_domain(rp_origin@), rp_id@) {
                r is Ok
            } else {
                r matches Err(m) && m@ == "WebAuthn builder error: "@ + "The configuration was invalid"@
            },
        },
{
    let origin = match parse_url(rp_origin) {
        Ok(u) => u,
        Err(e) => {
            let mut m = "Invalid RP origin: ".to_owned();
            m.append(e.as_str());
            return Err(m);
        },
    };
    let builder = match builder_new(rp_id, &origin) {
        Ok(b) => b,
        Err(e) => {
            let mut m = "WebAuthn builder error: ".to_owned();
            m.append(e.as_str());
            return Err(m);
        },
    };
    match builder_build(builder_named(builder, rp_name)) {
        Ok(w) => Ok(w),
        Err(e) => {
            let mut m = "WebAuthn build error: ".to_owned();
            m.append(e.as_str());
            Err(m)
        },
    }
}

/// The user a registration ceremony is started for: the user handle, the user
/// name and display name shown by the authenticator, and the credential ids it
/// must not register again.
#[derive(Debug, Clone)]
pub struct RegistrationUser {
    pub handle: Vec<u8>,
    pub user_name: String,
    pub display_name: String,
    pub exclude: Vec<Vec<u8>>,
}

/// `user` is the registration user for the account with `email`, shown as
/// `display_name`, excluding `exclude`: the handle is the version-5 UUID of the
/// email and the user name is the email.
pub open spec fn registers_as(user: RegistrationUser, email: Seq<char>, display_name: Seq<char>, exclude: Seq<Vec<u8>>) -> bool {
    &&& user.handle@ == dns_uuid_v5(encode_utf8(email))
    &&& user.handle@.len() == 16
    &&& user.user_name@ == email
    &&& user.display_name@ == display_name
    &&& user.exclude@ == exclude
}

/// The user a registration for the account with `email` is started for.
pub fn registration_user(email: &str, display_name: &str, exclude: Vec<Vec<u8>>) -> (r: RegistrationUser)
    ensures
        registers_as(r, email@, display_name@, exclude@),
{
    RegistrationUser {
        handle: crate::passkey::passkey_user_handle(email),
        user_name: email.to_owned(),
        display_name: display_name.to_owned(),
        exclude,
    }
}

/// A started registration: the user it was started for, the options for the
/// client, their challenge, the state to store (as text) and the key under
/// which the challenge is stored.
pub struct RegistrationStarted {
    pub user: RegistrationUser,
    pub challenge: CreationChallengeResponse,
    pub challenge_bytes: Vec<u8>,
    pub state: String,
    pub challenge_key: String,
}

/// Starts a passkey registration for the account with `email`, whose user
/// handle is the version-5 UUID of the email. With `lenient` (adding a passkey
/// to an account) a state that cannot be serialised is stored as empty text;
/// otherwise it ends the request. The challenge is stored under its URL-safe
/// base64 text.
pub fn begin_registration(
    w: &Webauthn,
    email: &str,
    display_name: &str,
    exclude: Vec<Vec<u8>>,
    lenient: bool,
) -> (r: Result<RegistrationStarted, Refusal>)
    ensures
        r matches Err(f) ==> refused_at(f, PasskeyStep::StartCeremony) || (!lenient && refused_at(f, PasskeyStep::EncodeState)),
        r matches Ok(started) ==> started.challenge_key@ == base64_url(started.challenge_bytes@),
        r matches Ok(started) ==> registers_as(started.user, email@, display_name@, exclude@),
        r matches Ok(started) ==> reads_as_registration_state(started.state@) || (lenient && started.state@.len() == 0),
{
    let user = registration_user(email, display_name, exclude);
    let (challenge, state) = match start_registration(w, &user) {
        Ok(pair) => pair,
        Err(e) => return Err(refuse(PasskeyStep::StartCeremony, e)),
    };
    let state_text = match registration_state_text(&state) {
        Ok(t) => t,
        Err(e) => {
            if lenient {
                String::new()
            } else {
                return Err(refuse(PasskeyStep::EncodeState, e));
            }
        },
    };
    let challenge_bytes = creation_challenge(&challenge);
    let challenge_key = credential_key(challenge_bytes.as_slice());
    Ok(RegistrationStarted { user, challenge, challenge_bytes, state: state_text, challenge_key })
}

/// The options of a started registration as JSON; with `lenient` a failure
/// gives JSON `null`, else it ends the request.
pub fn registration_options(c: &CreationChallengeResponse, lenient: bool) -> (r: Result<serde_json::Value, Refusal>)
    ensures
        r matches Err(f) ==> !lenient && refused_at(f, PasskeyStep::EncodeOptions),
{
    match creation_options(c) {
        Ok(v) => Ok(v),
        Err(e) => if lenient {
            Ok(json_null())
        } else {
            Err(refuse(PasskeyStep::EncodeOptions, e))
        },
    }
}

/// The challenge text in the client data `client_data`: its `challenge` member,
/// or empty text when there is none. With `lenient` unreadable client data
/// counts as having none; otherwise it ends the request.
fn challenge_of(client_data: &Vec<u8>, lenient: bool) -> (r: Result<String, Refusal>)
    ensures
        r matches Err(f) ==> !lenient && refused_at(f, PasskeyStep::ReadClientData),
        match json_parse_error(client_data@) {
            None => r matches Ok(c) && c@ == match json_text_at(client_data@, "challenge"@) {
                Some(t) => t,
                None => Seq::<char>::empty(),
            },
            Some(e) => if lenient {
                r matches Ok(c) && c@.len() == 0
            } else {
                r matches Err(f) && failed_at(f, PasskeyStep::ReadClientData, e)
            },
        },
{
    match read_json(client_data) {
        Ok(v) => match json_text_member(&v, "challenge") {
            Some(c) => Ok(c),
            None => Ok(String::new()),
        },
        Err(e) => if lenient {
            Ok(String::new())
        } else {
            Err(refuse(PasskeyStep::ReadClientData, e))
        },
    }
}

/// Reads a registration response sent as JSON: the credential and the
/// challenge it answers (empty when the client data names none).
pub fn read_registration(credential: serde_json::Value, lenient: bool) -> (r: Result<(RegisterPublicKeyCredential, String), Refusal>)
    ensures
        r matches Err(f) ==> refused_at(f, PasskeyStep::ReadCredential) || (!lenient && refused_at(
            f,
            PasskeyStep::ReadClientData,
        )),
{
    let response = match read_registration_response(credential) {
        Ok(c) => c,
        Err(e) => return Err(refuse(PasskeyStep::ReadCredential, e)),
    };
    let client_data = registration_client_data(&response);
    match challenge_of(&client_data, lenient) {
        Ok(c) => Ok((response, c)),
        Err(f) => Err(f),
    }
}

/// A finished registration: the passkey, its id, the key it is stored under
/// (the id in URL-safe base64) and its stored form.
pub struct RegistrationFinished {
    pub passkey: Passkey,
    pub id: Vec<u8>,
    pub key: String,
    pub record: Vec<u8>,
}

/// `done` is a finished registration: its key is its id in URL-safe base64,
/// and its stored form reads back as a passkey (with `lenient`, it may instead
/// be empty).
pub open spec fn registration_done(done: RegistrationFinished, lenient: bool) -> bool {
    &&& done.key@ == base64_url(done.id@)
    &&& passkey_read_error(done.record@) is None || (lenient && done.record@.len() == 0)
}

/// Finishes a registration with the stored state text `state` (`None` when no
/// state was found). With `lenient` a passkey that cannot be serialised is
/// stored as no bytes; otherwise that ends the request.
pub fn complete_registration(
    w: &Webauthn,
    response: &RegisterPublicKeyCredential,
    state: Option<String>,
    lenient: bool,
) -> (r: Result<RegistrationFinished, Refusal>)
    ensures
        state is None ==> (r matches Err(f) && step_refusal(PasskeyStep::ReadRegistrationState, Outcome::Missing) == Some((f.0, f.1@))),
        state matches Some(t) && !reads_as_registration_state(t@)
            ==> (r matches Err(f) && step_refusal(PasskeyStep::ReadRegistrationState, Outcome::Missing) == Some((f.0, f.1@))),
        state matches Some(t) && reads_as_registration_state(t@) ==> (r matches Err(f) ==> {
            ||| refused_at(f, PasskeyStep::FinishRegistration)
            ||| (!lenient && refused_at(f, PasskeyStep::EncodePasskey))
        }),
        r matches Err(f) ==> {
            ||| refused_at(f, PasskeyStep::ReadRegistrationState)
            ||| refused_at(f, PasskeyStep::FinishRegistration)
            ||| (!lenient && refused_at(f, PasskeyStep::EncodePasskey))
        },
        r matches Ok(done) ==> registration_done(done, lenient),
{
    let reg_state = match &state {
        Some(t) => match read_registration_state(t.as_str()) {
            Some(s) => s,
            None => return Err(refuse_missing(PasskeyStep::ReadRegistrationState)),
        },
        None => return Err(refuse_missing(PasskeyStep::ReadRegistrationState)),
    };
    let passkey = match finish_registration(w, response, &reg_state) {
        Ok(p) => p,
        Err(e) => return Err(refuse(PasskeyStep::FinishRegistration, e)),
    };
    let id = passkey_id(&passkey);
    let key = credential_key(id.as_slice());
    let record = match passkey_record(&passkey) {
        Ok(b) => b,
        Err(e) => if lenient {
            Vec::new()
        } else {
            return Err(refuse(PasskeyStep::EncodePasskey, e));
        },
    };
    Ok(RegistrationFinished { passkey, id, key, record })
}

/// Some key of `keys` is `b` in URL-safe base64.
pub open spec fn encoded_among(keys: Seq<String>, b: Seq<u8>) -> bool {
    exists|k: int| 0 <= k < keys.len() && keys[k]@ == base64_url(b)
}

/// The keys of `keys` that are the URL-safe base64 text of some bytes, in
/// order.
pub open spec fn decodable_keys(keys: Seq<String>) -> Seq<Seq<char>>
    decreases keys.len(),
{
    if keys.len() == 0 {
        Seq::empty()
    } else {
        let rest = decodable_keys(keys.drop_last());
        if encodes_bytes(keys.last()@) {
            rest.push(keys.last()@)
        } else {
            rest
        }
    }
}

/// The credentials to exclude when an account adds a passkey: the ids of its
/// stored passkeys, decoded from their keys, in order; a key that does not
/// decode is left out.
pub fn exclusion_ids(keys: &Vec<String>) -> (r: Vec<Vec<u8>>)
    ensures
        r@.len() == decodable_keys(keys@).len(),
        forall|j: int| 0 <= j < r@.len() ==> base64_url(#[trigger] r@[j]@) == decodable_keys(keys@)[j],
        r@.len() <= keys@.len(),
        forall|j: int| 0 <= j < r@.len() ==> encoded_among(keys@, #[trigger] r@[j]@),
{
    let mut out: Vec<Vec<u8>> = Vec::new();
    let mut i: usize = 0;
    assert(keys@.subrange(0, 0) =~= Seq::<String>::empty());
    while i < keys.len()
        invariant
            i <= keys@.len(),
            out@.len() <= i,
            forall|j: int| 0 <= j < out@.len() ==> encoded_among(keys@, #[trigger] out@[j]@),
            out@.len() == decodable_keys(keys@.subrange(0, i as int)).len(),
            forall|j: int| 0 <= j < out@.len()
                ==> base64_url(#[trigger] out@[j]@) == decodable_keys(keys@.subrange(0, i as int))[j],
        decreases keys@.len() - i,
    {
        let ghost before = out@;
        let ghost pre = keys@.subrange(0, i as int);
        let ghost next = keys@.subrange(0, i + 1);
        assert(next.drop_last() =~= pre);
        assert(next.last() == keys@[i as int]);
        match decode_credential_key(keys[i].as_str()) {
            Some(id) => {
                assert(keys@[i as int]@ == base64_url(id@));
                assert(encodes_bytes(keys@[i as int]@));
                out.push(id);
                assert forall|j: int| 0 <= j < out@.len()
                    implies base64_url(#[trigger] out@[j]@) == decodable_keys(next)[j] by {
                    if j < before.len() {
                        assert(out@[j] == before[j]);
                    }
                }
                assert forall|j: int| 0 <= j < out@.len() implies encoded_among(keys@, #[trigger] out@[j]@) by {
                    if j < before.len() {
                        assert(out@[j] == before[j]);
                    } else {
                        assert(keys@[i as int]@ == base64_url(out@[j]@));
                    }
                }
            },
            None => {},
        }
        i += 1;
    }
    assert(keys@.subrange(0, keys@.len() as int) =~= keys@);
    out
}

/// A started sign-in: the options for the client, their challenge, the state to
/// store (as text) and the key under which the challenge is stored.
pub struct AuthenticationStarted {
    pub challenge: RequestChallengeResponse,
    pub challenge_bytes: Vec<u8>,
    pub state: String,
    pub challenge_key: String,
}

/// Starts a passkey sign-in offering the stored passkeys `records` (their
/// stored forms; one that cannot be read is left out). With none to offer the
/// request ends: an email is needed to find them.
pub fn begin_authentication(w: &Webauthn, records: &Vec<Vec<u8>>) -> (r: Result<AuthenticationStarted, Refusal>)
    ensures
        (forall|i: int| 0 <= i < records@.len() ==> #[trigger] passkey_read_error(records@[i]@) is Some)
            ==> (r matches Err(f) && step_refusal(PasskeyStep::RequireCredentials, Outcome::Missing) == Some((f.0, f.1@))),
        (exists|i: int| 0 <= i < records@.len() && #[trigger] passkey_read_error(records@[i]@) is None)
            ==> (r matches Err(f) ==> refused_at(f, PasskeyStep::StartCeremony) || refused_at(f, PasskeyStep::EncodeState)),
        r matches Err(f) ==> {
            ||| refused_at(f, PasskeyStep::RequireCredentials)
            ||| refused_at(f, PasskeyStep::StartCeremony)
            ||| refused_at(f, PasskeyStep::EncodeState)
        },
        r matches Ok(started) ==> started.challenge_key@ == base64_url(started.challenge_bytes@),
        r matches Ok(started) ==> reads_as_authentication_state(started.state@),
{
    let mut creds: Vec<Passkey> = Vec::new();
    let mut i: usize = 0;
    while i < records.len()
        invariant
            i <= records@.len(),
            creds@.len() <= i,
            creds@.len() == 0 <==> forall|j: int| 0 <= j < i ==> #[trigger] passkey_read_error(records@[j]@) is Some,
        decreases records@.len() - i,
    {
        match read_passkey(&records[i]) {
            Ok(p) => creds.push(p),
            Err(_) => {},
        }
        i += 1;
    }
    if creds.len() == 0 {
        return Err(refuse_missing(PasskeyStep::RequireCredentials));
    }
    let (challenge, state) = match start_authentication(w, &creds) {
        Ok(pair) => pair,
        Err(e) => return Err(refuse(PasskeyStep::StartCeremony, e)),
    };
    let state_text = match authentication_state_text(&state) {
        Ok(t) => t,
        Err(e) => return Err(refuse(PasskeyStep::EncodeState, e)),
    };
    let challenge_bytes = request_challenge(&challenge);
    let challenge_key = credential_key(challenge_bytes.as_slice());
    Ok(AuthenticationStarted { challenge, challenge_bytes, state: state_text, challenge_key })
}

/// The options of a started sign-in as JSON; a failure ends the request.
pub fn authentication_options(c: &RequestChallengeResponse) -> (r: Result<serde_json::Value, Refusal>)
    ensures
        r matches Err(f) ==> refused_at(f, PasskeyStep::EncodeOptions),
{
    match request_options(c) {
        Ok(v) => Ok(v),
        Err(e) => Err(refuse(PasskeyStep::EncodeOptions, e)),
    }
}

/// A sign-in response read from its JSON: the credential, the challenge it
/// answers (empty when the client data names none), and the credential's raw
/// id with the key it is stored under.
pub struct AuthenticationResponse {
    pub credential: PublicKeyCredential,
    pub challenge: String,
    pub raw_id: Vec<u8>,
    pub key: String,
}

/// Reads a sign-in response sent as JSON.
pub fn read_authentication(credential: serde_json::Value) -> (r: Result<AuthenticationResponse, Refusal>)
    ensures
        r matches Err(f) ==> refused_at(f, PasskeyStep::ReadCredential) || refused_at(f, PasskeyStep::ReadClientData),
        r matches Ok(resp) ==> resp.key@ == base64_url(resp.raw_id@),
{
    let response = match read_authentication_response(credential) {
        Ok(c) => c,
        Err(e) => return Err(refuse(PasskeyStep::ReadCredential, e)),
    };
    let client_data = authentication_client_data(&response);
    let challenge = match challenge_of(&client_data, false) {
        Ok(c) => c,
        Err(f) => return Err(f),
    };
    let raw_id = credential_raw_id(&response);
    let key = credential_key(raw_id.as_slice());
    Ok(AuthenticationResponse { credential: response, challenge, raw_id, key })
}

/// Checks that a stored passkey record can be read; a failure ends the request.
pub fn check_stored_passkey(record: &Vec<u8>) -> (r: Result<(), Refusal>)
    ensures
        r matches Err(f) ==> refused_at(f, PasskeyStep::ReadStoredPasskey),
        match passkey_read_error(record@) {
            None => r is Ok,
            Some(e) => r matches Err(f) && failed_at(f, PasskeyStep::ReadStoredPasskey, e),
        },
{
    match read_passkey(record) {
        Ok(_) => Ok(()),
        Err(e) => Err(refuse(PasskeyStep::ReadStoredPasskey, e)),
    }
}

/// What a finished sign-in gives, from what the ceremony's finish gave: the
/// authenticator's new signature counter, or the refusal with the finish's
/// error.
pub fn authentication_finished(finished: Result<u32, String>) -> (r: Result<u32, Refusal>)
    ensures
        match finished {
            Ok(c) => r == Ok::<u32, Refusal>(c),
            Err(e) => r matches Err(f) && failed_at(f, PasskeyStep::FinishAuthentication, e@),
        },
{
    match finished {
        Ok(c) => Ok(c),
        Err(e) => Err(refuse(PasskeyStep::FinishAuthentication, e)),
    }
}

/// Finishes a sign-in with the stored state text `state` (`None` when no state
/// was found); gives the authenticator's new signature counter.
pub fn complete_authentication(w: &Webauthn, response: &PublicKeyCredential, state: Option<String>) -> (r: Result<u32, Refusal>)
    ensures
        state is None ==> (r matches Err(f) && step_refusal(PasskeyStep::ReadAuthenticationState, Outcome::Missing) == Some((f.0, f.1@))),
        state matches Some(t) && !reads_as_authentication_state(t@)
            ==> (r matches Err(f) && step_refusal(PasskeyStep::ReadAuthenticationState, Outcome::Missing) == Some((f.0, f.1@))),
        state matches Some(t) && reads_as_authentication_state(t@)
            ==> (r matches Err(f) ==> refused_at(f, PasskeyStep::FinishAuthentication)),
        r matches Err(f) ==> refused_at(f, PasskeyStep::ReadAuthenticationState) || refused_at(f, PasskeyStep::FinishAuthentication),
{
    let auth_state = match &state {
        Some(t) => match read_authentication_state(t.as_str()) {
            Some(s) => s,
            None => return Err(refuse_missing(PasskeyStep::ReadAuthenticationState)),
        },
        None => return Err(refuse_missing(PasskeyStep::ReadAuthenticationState)),
    };
    let finished = match finish_authentication(w, response, &auth_state) {
        Ok(a) => Ok(authentication_counter(&a)),
        Err(e) => Err(e),
    };
    authentication_finished(finished)
}

} // verus!
