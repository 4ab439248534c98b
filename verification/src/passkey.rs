//! Passkey sign-up, sign-in and management, one outside step at a time.
//!
//! Each request runs a fixed sequence of outside steps (reading the request,
//! the WebAuthn ceremony, database queries, serialisation). After each step the
//! caller reports how it came out; `passkey_next` says whether the request goes
//! on, is done, or ends with an HTTP status and an error text.
use vstd::prelude::*;
use vstd::utf8::*;
use crate::db::PasskeyCredential;
use crate::text::{str_chars, string_from_chars};

verus! {

/// How one outside step came out.
#[derive(Debug, Clone)]
pub enum Outcome {
    /// It succeeded (and found what it looked for).
    Done,
    /// What it looked for does not exist.
    Missing,
    /// What must not exist already does.
    Present,
    /// It failed with this error text.
    Failed(String),
}

/// What a request does after a step.
#[derive(Debug, Clone, PartialEq)]
pub enum Next {
    /// Go on with the step at this position.
    Go(usize),
    /// Every step is done: answer with success.
    Finish,
    /// Stop, answering with this HTTP status and error text.
    Refuse(u16, String),
}

/// The outside steps of the passkey requests.
#[derive(Debug, Clone, Copy, PartialEq, Eq, Structural)]
pub enum PasskeyStep {
    /// Reading the auth token of the request.
    Authenticate,
    /// Finding the user of that token.
    FindTokenUser,
    /// Checking that no account has the email yet.
    CheckEmailFree,
    /// Setting up WebAuthn for the relying party.
    Configure,
    /// Reading the credential the client sent.
    ReadCredential,
    /// Reading the client data of that credential.
    ReadClientData,
    /// Taking the stored ceremony state of the challenge.
    TakeState,
    /// Reading a stored registration state.
    ReadRegistrationState,
    /// Reading a stored authentication state.
    ReadAuthenticationState,
    /// Finishing a registration ceremony.
    FinishRegistration,
    /// Finishing an authentication ceremony.
    FinishAuthentication,
    /// Starting a ceremony.
    StartCeremony,
    /// Serialising the ceremony state.
    EncodeState,
    /// Storing the challenge.
    StoreChallenge,
    /// Storing the ceremony state.
    StoreState,
    /// Serialising the options for the client.
    EncodeOptions,
    /// Creating the user.
    CreateUser,
    /// Serialising the new passkey.
    EncodePasskey,
    /// Storing the new passkey.
    StorePasskey,
    /// Storing a session token.
    StartSession,
    /// Finding the account of the email given.
    FindAccount,
    /// Checking that the account has passkeys.
    RequirePasskeys,
    /// Checking that some stored passkey can be offered.
    RequireCredentials,
    /// Finding the stored passkey of the credential.
    FindPasskey,
    /// Reading the stored passkey.
    ReadStoredPasskey,
    /// Finding the passkey's user.
    FindUser,
    /// Listing the user's passkeys.
    ListPasskeys,
    /// Checking that another way to sign in remains.
    KeepOneMethod,
    /// Deleting the passkey.
    DeletePasskey,
}

/// The passkey requests.
#[derive(Debug, Clone, Copy, PartialEq, Eq, Structural)]
pub enum PasskeyFlow {
    RegisterStart,
    RegisterFinish,
    /// Starting a sign-in, with or without an email.
    LoginStart { email_given: bool },
    LoginFinish,
    List,
    AddStart,
    AddFinish,
    Delete,
}

/// The steps of `flow`, in order.
pub open spec fn steps(flow: PasskeyFlow) -> Seq<PasskeyStep> {
    match flow {
        PasskeyFlow::RegisterStart => seq![
            PasskeyStep::CheckEmailFree,
            PasskeyStep::Configure,
            PasskeyStep::StartCeremony,
            PasskeyStep::EncodeState,
            PasskeyStep::StoreChallenge,
            PasskeyStep::StoreState,
            PasskeyStep::EncodeOptions,
        ],
        PasskeyFlow::RegisterFinish => seq![
            PasskeyStep::Configure,
            PasskeyStep::ReadCredential,
            PasskeyStep::ReadClientData,
            PasskeyStep::TakeState,
            PasskeyStep::ReadRegistrationState,
            PasskeyStep::FinishRegistration,
            PasskeyStep::CreateUser,
            PasskeyStep::EncodePasskey,
            PasskeyStep::StorePasskey,
            PasskeyStep::StartSession,
        ],
        PasskeyFlow::LoginStart { email_given } => seq![PasskeyStep::Configure] + (if email_given {
            seq![PasskeyStep::FindAccount, PasskeyStep::RequirePasskeys]
        } else {
            Seq::empty()
        }) + seq![
            PasskeyStep::RequireCredentials,
            PasskeyStep::StartCeremony,
            PasskeyStep::EncodeState,
            PasskeyStep::StoreChallenge,
            PasskeyStep::StoreState,
            PasskeyStep::EncodeOptions,
        ],
        PasskeyFlow::LoginFinish => seq![
            PasskeyStep::Configure,
            PasskeyStep::ReadCredential,
            PasskeyStep::ReadClientData,
            PasskeyStep::TakeState,
            PasskeyStep::FindPasskey,
            PasskeyStep::ReadStoredPasskey,
            PasskeyStep::ReadAuthenticationState,
            PasskeyStep::FinishAuthentication,
            PasskeyStep::FindUser,
            PasskeyStep::StartSession,
        ],
        PasskeyFlow::List => seq![PasskeyStep::Authenticate, PasskeyStep::FindTokenUser, PasskeyStep::ListPasskeys],
        PasskeyFlow::AddStart => seq![
            PasskeyStep::Authenticate,
            PasskeyStep::FindTokenUser,
            PasskeyStep::Configure,
            PasskeyStep::StartCeremony,
        ],
        PasskeyFlow::AddFinish => seq![
            PasskeyStep::Authenticate,
            PasskeyStep::FindTokenUser,
            PasskeyStep::Configure,
            PasskeyStep::ReadCredential,
            PasskeyStep::ReadRegistrationState,
            PasskeyStep::FinishRegistration,
            PasskeyStep::StorePasskey,
        ],
        PasskeyFlow::Delete => seq![
            PasskeyStep::Authenticate,
            PasskeyStep::FindTokenUser,
            PasskeyStep::KeepOneMethod,
            PasskeyStep::DeletePasskey,
        ],
    }
}

/// A failure with error text `e` answers `status` and `prefix` followed by `e`.
pub open spec fn failure(o: Outcome, status: u16, prefix: Seq<char>) -> Option<(u16, Seq<char>)> {
    match o {
        Outcome::Failed(e) => Some((status, prefix + e@)),
        _ => None,
    }
}

/// The answer that ends a request when `step` came out as `o`, if it does.
pub open spec fn step_refusal(step: PasskeyStep, o: Outcome) -> Option<(u16, Seq<char>)> {
    match step {
        PasskeyStep::Authenticate => if o is Missing { Some((401, "Authentication required"@)) } else { None },
        PasskeyStep::FindTokenUser => if o is Missing || o is Failed { Some((401, "Invalid token"@)) } else { None },
        PasskeyStep::CheckEmailFree => if o is Present {
            Some((409, "Email already registered. Try logging in instead."@))
        } else {
            failure(o, 500, "Database error: "@)
        },
        PasskeyStep::Configure => failure(o, 500, Seq::empty()),
        PasskeyStep::ReadCredential => failure(o, 400, "Invalid credential: "@),
        PasskeyStep::ReadClientData => failure(o, 400, "Invalid client data: "@),
        PasskeyStep::TakeState => if o is Missing {
            Some((400, "Challenge expired or not found"@))
        } else {
            failure(o, 500, "Database error: "@)
        },
        PasskeyStep::ReadRegistrationState => if o is Missing || o is Failed {
            Some((400, "Invalid registration state"@))
        } else {
            None
        },
        PasskeyStep::ReadAuthenticationState => if o is Missing || o is Failed {
            Some((400, "Invalid authentication state"@))
        } else {
            None
        },
        PasskeyStep::FinishRegistration => failure(o, 400, "Registration failed: "@),
        PasskeyStep::FinishAuthentication => failure(o, 400, "Authentication failed: "@),
        PasskeyStep::StartCeremony => failure(o, 500, "WebAuthn error: "@),
        PasskeyStep::EncodeState => failure(o, 500, "Serialization error: "@),
        PasskeyStep::StoreChallenge => failure(o, 500, "Failed to store challenge: "@),
        PasskeyStep::StoreState => failure(o, 500, "Failed to store state: "@),
        PasskeyStep::EncodeOptions => failure(o, 500, "JSON error: "@),
        PasskeyStep::CreateUser => failure(o, 500, "Failed to create user: "@),
        PasskeyStep::EncodePasskey => failure(o, 500, "Failed to serialize passkey: "@),
        PasskeyStep::StorePasskey => failure(o, 500, "Failed to store passkey: "@),
        PasskeyStep::StartSession => failure(o, 500, "Failed to create session: "@),
        PasskeyStep::FindAccount => if o is Missing {
            Some((404, "Account not found"@))
        } else {
            failure(o, 500, "Database error: "@)
        },
        PasskeyStep::RequirePasskeys => if o is Missing {
            Some((400, "No passkeys registered for this account"@))
        } else {
            None
        },
        PasskeyStep::RequireCredentials => if o is Missing {
            Some((400, "Email is required for passkey login"@))
        } else {
            None
        },
        PasskeyStep::FindPasskey => if o is Missing {
            Some((404, "Passkey not found"@))
        } else {
            failure(o, 500, "Database error: "@)
        },
        PasskeyStep::ReadStoredPasskey => failure(o, 500, "Invalid stored passkey: "@),
        PasskeyStep::FindUser => if o is Missing {
            Some((404, "User not found"@))
        } else {
            failure(o, 500, "Database error: "@)
        },
        PasskeyStep::ListPasskeys => failure(o, 500, "Database error: "@),
        PasskeyStep::KeepOneMethod => if o is Missing {
            Some((400, "Cannot delete last authentication method"@))
        } else {
            None
        },
        PasskeyStep::DeletePasskey => if o is Missing {
            Some((404, "Passkey not found"@))
        } else {
            failure(o, 500, "Database error: "@)
        },
    }
}

/// `r` is the exec form of the answer `s`.
pub open spec fn answers(r: Option<(u16, String)>, s: Option<(u16, Seq<char>)>) -> bool {
    match s {
        Some((status, msg)) => r matches Some((st, m)) && st == status && m@ == msg,
        None => r is None,
    }
}

/// The steps of `flow`, in order.
pub fn passkey_steps(flow: PasskeyFlow) -> (r: Vec<PasskeyStep>)
    ensures
        r@ == steps(flow),
{
    match flow {
        PasskeyFlow::RegisterStart => {
            let v = vec![
                PasskeyStep::CheckEmailFree,
                PasskeyStep::Configure,
                PasskeyStep::StartCeremony,
                PasskeyStep::EncodeState,
                PasskeyStep::StoreChallenge,
                PasskeyStep::StoreState,
                PasskeyStep::EncodeOptions,
            ];
            assert(v@ =~= steps(flow));
            v
        },
        PasskeyFlow::RegisterFinish => {
            let v = vec![
                PasskeyStep::Configure,
                PasskeyStep::ReadCredential,
                PasskeyStep::ReadClientData,
                PasskeyStep::TakeState,
                PasskeyStep::ReadRegistrationState,
                PasskeyStep::FinishRegistration,
                PasskeyStep::CreateUser,
                PasskeyStep::EncodePasskey,
                PasskeyStep::StorePasskey,
                PasskeyStep::StartSession,
            ];
            assert(v@ =~= steps(flow));
            v
        },
        PasskeyFlow::LoginStart { email_given } => {
            let mut v = vec![PasskeyStep::Configure];
            if email_given {
                v.push(PasskeyStep::FindAccount);
                v.push(PasskeyStep::RequirePasskeys);
            }
            v.push(PasskeyStep::RequireCredentials);
            v.push(PasskeyStep::StartCeremony);
            v.push(PasskeyStep::EncodeState);
            v.push(PasskeyStep::StoreChallenge);
            v.push(PasskeyStep::StoreState);
            v.push(PasskeyStep::EncodeOptions);
            assert(v@ =~= steps(flow));
            v
        },
        PasskeyFlow::LoginFinish => {
            let v = vec![
                PasskeyStep::Configure,
                PasskeyStep::ReadCredential,
                PasskeyStep::ReadClientData,
                PasskeyStep::TakeState,
                PasskeyStep::FindPasskey,
                PasskeyStep::ReadStoredPasskey,
                PasskeyStep::ReadAuthenticationState,
                PasskeyStep::FinishAuthentication,
                PasskeyStep::FindUser,
                PasskeyStep::StartSession,
            ];
            assert(v@ =~= steps(flow));
            v
        },
        PasskeyFlow::List => {
            let v = vec![PasskeyStep::Authenticate, PasskeyStep::FindTokenUser, PasskeyStep::ListPasskeys];
            assert(v@ =~= steps(flow));
            v
        },
        PasskeyFlow::AddStart => {
            let v = vec![
                PasskeyStep::Authenticate,
                PasskeyStep::FindTokenUser,
                PasskeyStep::Configure,
                PasskeyStep::StartCeremony,
            ];
            assert(v@ =~= steps(flow));
            v
        },
        PasskeyFlow::AddFinish => {
            let v = vec![
                PasskeyStep::Authenticate,
                PasskeyStep::FindTokenUser,
                PasskeyStep::Configure,
                PasskeyStep::ReadCredential,
                PasskeyStep::ReadRegistrationState,
                PasskeyStep::FinishRegistration,
                PasskeyStep::StorePasskey,
            ];
            assert(v@ =~= steps(flow));
            v
        },
        PasskeyFlow::Delete => {
            let v = vec![
                PasskeyStep::Authenticate,
                PasskeyStep::FindTokenUser,
                PasskeyStep::KeepOneMethod,
                PasskeyStep::DeletePasskey,
            ];
            assert(v@ =~= steps(flow));
            v
        },
    }
}

/// `status` and `prefix` followed by the error text of `o`, when `o` is a failure.
fn failure_answer(o: &Outcome, status: u16, prefix: &str) -> (r: Option<(u16, String)>)
    ensures
        answers(r, failure(*o, status, prefix@)),
{
    match o {
        Outcome::Failed(e) => {
            let mut msg = prefix.to_owned();
            msg.append(e.as_str());
            Some((status, msg))
        },
        _ => None,
    }
}

/// The answer that ends a request when `step` came out as `o`, if it does.
pub fn passkey_refusal(step: PasskeyStep, o: &Outcome) -> (r: Option<(u16, String)>)
    ensures
        answers(r, step_refusal(step, *o)),
{
    let missing = matches!(o, Outcome::Missing);
    let failed = matches!(o, Outcome::Failed(_));
    match step {
        PasskeyStep::Authenticate => if missing { Some((401, "Authentication required".to_owned())) } else { None },
        PasskeyStep::FindTokenUser => if missing || failed { Some((401, "Invalid token".to_owned())) } else { None },
        PasskeyStep::CheckEmailFree => if matches!(o, Outcome::Present) {
            Some((409, "Email already registered. Try logging in instead.".to_owned()))
        } else {
            failure_answer(o, 500, "Database error: ")
        },
        PasskeyStep::Configure => match o {
            Outcome::Failed(e) => {
                assert(Seq::<char>::empty() + e@ =~= e@);
                Some((500, e.clone()))
            },
            _ => None,
        },
        PasskeyStep::ReadCredential => failure_answer(o, 400, "Invalid credential: "),
        PasskeyStep::ReadClientData => failure_answer(o, 400, "Invalid client data: "),
        PasskeyStep::TakeState => if missing {
            Some((400, "Challenge expired or not found".to_owned()))
        } else {
            failure_answer(o, 500, "Database error: ")
        },
        PasskeyStep::ReadRegistrationState => if missing || failed {
            Some((400, "Invalid registration state".to_owned()))
        } else {
            None
        },
        PasskeyStep::ReadAuthenticationState => if missing || failed {
            Some((400, "Invalid authentication state".to_owned()))
        } else {
            None
        },
        PasskeyStep::FinishRegistration => failure_answer(o, 400, "Registration failed: "),
        PasskeyStep::FinishAuthentication => failure_answer(o, 400, "Authentication failed: "),
        PasskeyStep::StartCeremony => failure_answer(o, 500, "WebAuthn error: "),
        PasskeyStep::EncodeState => failure_answer(o, 500, "Serialization error: "),
        PasskeyStep::StoreChallenge => failure_answer(o, 500, "Failed to store challenge: "),
        PasskeyStep::StoreState => failure_answer(o, 500, "Failed to store state: "),
        PasskeyStep::EncodeOptions => failure_answer(o, 500, "JSON error: "),
        PasskeyStep::CreateUser => failure_answer(o, 500, "Failed to create user: "),
        PasskeyStep::EncodePasskey => failure_answer(o, 500, "Failed to serialize passkey: "),
        PasskeyStep::StorePasskey => failure_answer(o, 500, "Failed to store passkey: "),
        PasskeyStep::StartSession => failure_answer(o, 500, "Failed to create session: "),
        PasskeyStep::FindAccount => if missing {
            Some((404, "Account not found".to_owned()))
        } else {
            failure_answer(o, 500, "Database error: ")
        },
        PasskeyStep::RequirePasskeys => if missing {
            Some((400, "No passkeys registered for this account".to_owned()))
        } else {
            None
        },
        PasskeyStep::RequireCredentials => if missing {
            Some((400, "Email is required for passkey login".to_owned()))
        } else {
            None
        },
        PasskeyStep::FindPasskey => if missing {
            Some((404, "Passkey not found".to_owned()))
        } else {
            failure_answer(o, 500, "Database error: ")
        },
        PasskeyStep::ReadStoredPasskey => failure_answer(o, 500, "Invalid stored passkey: "),
        PasskeyStep::FindUser => if missing {
            Some((404, "User not found".to_owned()))
        } else {
            failure_answer(o, 500, "Database error: ")
        },
        PasskeyStep::ListPasskeys => failure_answer(o, 500, "Database error: "),
        PasskeyStep::KeepOneMethod => if missing {
            Some((400, "Cannot delete last authentication method".to_owned()))
        } else {
            None
        },
        PasskeyStep::DeletePasskey => if missing {
            Some((404, "Passkey not found".to_owned()))
        } else {
            failure_answer(o, 500, "Database error: ")
        },
    }
}

/// What request `flow` does after its step at position `at` came out as `o`:
/// it ends with that step's refusal if there is one, else goes on with the
/// next step, or finishes after the last.
pub fn passkey_next(flow: PasskeyFlow, at: usize, o: &Outcome) -> (r: Next)
    requires
        at < steps(flow).len(),
    ensures
        match step_refusal(steps(flow)[at as int], *o) {
            Some((status, msg)) => r matches Next::Refuse(st, m) && st == status && m@ == msg,
            None => if at + 1 < steps(flow).len() { r == Next::Go((at + 1) as usize) } else { r == Next::Finish },
        },
{
    let all = passkey_steps(flow);
    match passkey_refusal(all[at], o) {
        Some((status, msg)) => Next::Refuse(status, msg),
        None => if at + 1 < all.len() {
            Next::Go(at + 1)
        } else {
            Next::Finish
        },
    }
}

/// A passkey may be deleted unless it is the user's only way to sign in: no
/// other passkey, no password and no linked OAuth account.
pub fn may_delete_passkey(passkey_count: usize, has_password: bool, oauth_count: usize) -> (r: bool)
    ensures
        r == !(passkey_count <= 1 && !has_password && oauth_count == 0),
{
    !(passkey_count <= 1 && !has_password && oauth_count == 0)
}

/// The characters of `email` before its first `@` (all of them when it has none).
pub open spec fn before_at(email: Seq<char>) -> Seq<char>
    decreases email.len(),
{
    if email.len() == 0 || email[0] == '@' {
        Seq::empty()
    } else {
        seq![email[0]] + before_at(email.drop_first())
    }
}

/// The display name of an account made with a passkey: the email before its `@`.
pub fn passkey_display_name(email: &str) -> (r: String)
    ensures
        r@ == before_at(email@),
{
    let chars = str_chars(email);
    let mut out: Vec<char> = Vec::new();
    let mut i: usize = 0;
    assert(email@.skip(0) =~= email@);
    assert(out@ + before_at(email@) =~= before_at(email@));
    while i < chars.len() && chars[i] != '@'
        invariant
            chars@ == email@,
            i <= chars@.len(),
            forall|j: int| 0 <= j < i ==> chars@[j] != '@',
            out@ == email@.take(i as int),
            before_at(email@) == out@ + before_at(email@.skip(i as int)),
        decreases chars@.len() - i,
    {
        let ghost rest = email@.skip(i as int);
        assert(rest.drop_first() =~= email@.skip(i + 1));
        assert(rest[0] == chars@[i as int]);
        out.push(chars[i]);
        assert(out@ =~= email@.take(i + 1));
        assert(before_at(rest) == seq![rest[0]] + before_at(rest.drop_first()));
        i += 1;
    }
    proof {
        let rest = email@.skip(i as int);
        if i < chars@.len() {
            assert(rest[0] == '@');
        }
        assert(before_at(rest) =~= Seq::empty());
        assert(out@ + Seq::<char>::empty() =~= out@);
    }
    string_from_chars(&out)
}

/// The device label of a passkey being added: the name given, or `Unknown Device`.
pub fn device_label(device_name: Option<String>) -> (r: String)
    ensures
        r@ == match device_name {
            Some(n) => n@,
            None => "Unknown Device"@,
        },
{
    match device_name {
        Some(n) => n,
        None => "Unknown Device".to_owned(),
    }
}

/// The key under which the ceremony state of `challenge` is stored.
pub fn state_key(challenge: &str) -> (r: String)
    ensures
        r@ == "state:"@ + challenge@,
{
    let mut k = "state:".to_owned();
    k.append(challenge);
    k
}

/// A passkey as listed for its owner.
#[derive(Debug, Clone)]
pub struct PasskeyInfo {
    pub id: String,
    pub device_name: Option<String>,
    pub created_at: i64,
    pub last_used_at: Option<i64>,
}

/// How `cred` is listed for its owner.
pub fn passkey_info(cred: &PasskeyCredential) -> (r: PasskeyInfo)
    ensures
        r.id@ == cred.id@,
        r.device_name == cred.device_name,
        r.created_at == cred.created_at,
        r.last_used_at == cred.last_used_at,
{
    PasskeyInfo {
        id: cred.id.clone(),
        device_name: match &cred.device_name {
            Some(n) => Some(n.clone()),
            None => None,
        },
        created_at: cred.created_at,
        last_used_at: cred.last_used_at,
    }
}

/// The character of value `v` (below 64) in the URL-safe base64 alphabet.
pub open spec fn b64_char(v: int) -> char {
    if v < 26 {
        (65 + v) as char
    } else if v < 52 {
        (97 + v - 26) as char
    } else if v < 62 {
        (48 + v - 52) as char
    } else if v == 62 {
        '-'
    } else {
        '_'
    }
}

/// `bytes` in URL-safe base64 without padding: three bytes become four
/// characters of six bits each; a last one or two bytes become two or three.
pub open spec fn base64_url(bytes: Seq<u8>) -> Seq<char>
    decreases bytes.len(),
{
    if bytes.len() == 0 {
        Seq::empty()
    } else if bytes.len() == 1 {
        let a = bytes[0] as int;
        seq![b64_char(a / 4), b64_char((a % 4) * 16)]
    } else if bytes.len() == 2 {
        let a = bytes[0] as int;
        let b = bytes[1] as int;
        seq![b64_char(a / 4), b64_char((a % 4) * 16 + b / 16), b64_char((b % 16) * 4)]
    } else {
        let a = bytes[0] as int;
        let b = bytes[1] as int;
        let c = bytes[2] as int;
        seq![b64_char(a / 4), b64_char((a % 4) * 16 + b / 16), b64_char((b % 16) * 4 + c / 64), b64_char(c % 64)]
            + base64_url(bytes.subrange(3, bytes.len() as int))
    }
}

/// `Engine::encode` of the base64 crate with the `URL_SAFE_NO_PAD` engine.
/// Trusted: the crate encodes with the URL-safe alphabet (`-` and `_` for 62 and
/// 63) and without padding, as `base64_url` states; it panics only when the
/// length of the output overflows `usize`, which cannot happen for the at most
/// `isize::MAX` bytes of a slice.
#[verifier::external_body]
fn base64_url_encode(bytes: &[u8]) -> (r: String)
    requires
        bytes@.len() <= isize::MAX,
    ensures
        r@ == base64_url(bytes@),
{
    base64::Engine::encode(&base64::engine::general_purpose::URL_SAFE_NO_PAD, bytes)
}

/// The key under which a passkey or a challenge is stored: its raw bytes in
/// URL-safe base64 without padding.
pub fn credential_key(raw: &[u8]) -> (r: String)
    requires
        raw@.len() <= isize::MAX,
    ensures
        r@ == base64_url(raw@),
{
    base64_url_encode(raw)
}

/// The name-based (version 5, SHA-1) UUID of `name` in the DNS namespace, as
/// its 16 bytes.
pub uninterp spec fn dns_uuid_v5(name: Seq<u8>) -> Seq<u8>;

/// `Uuid::new_v5(&Uuid::NAMESPACE_DNS, name)` of the uuid crate, as bytes.
/// Trusted: a name-based UUID is a function of its namespace and name alone,
/// and a UUID has 16 bytes.
#[verifier::external_body]
fn uuid_v5_dns(name: &[u8]) -> (r: Vec<u8>)
    ensures
        r@ == dns_uuid_v5(name@),
        r@.len() == 16,
{
    uuid::Uuid::new_v5(&uuid::Uuid::NAMESPACE_DNS, name).as_bytes().to_vec()
}

/// The WebAuthn user handle of the account with `email`: the version-5 UUID of
/// the email's bytes in the DNS namespace.
pub fn passkey_user_handle(email: &str) -> (r: Vec<u8>)
    ensures
        r@ == dns_uuid_v5(encode_utf8(email@)),
        r@.len() == 16,
{
    uuid_v5_dns(email.as_bytes())
}

/// `text` is the URL-safe base64 text of some bytes.
pub open spec fn encodes_bytes(text: Seq<char>) -> bool {
    exists|b: Seq<u8>| #[trigger] base64_url(b) == text
}

/// `Engine::decode` of the base64 crate with the `URL_SAFE_NO_PAD` engine, `None`
/// when it fails. Trusted: that engine decodes only canonical URL-safe base64
/// without padding (the unused bits of the last character must be zero), so
/// the bytes it gives encode back to the text; and it decodes every text that
/// it encodes.
#[verifier::external_body]
fn base64_url_decode(text: &str) -> (r: Option<Vec<u8>>)
    ensures
        r matches Some(b) ==> base64_url(b@) == text@,
        r is None ==> !encodes_bytes(text@),
{
    base64::Engine::decode(&base64::engine::general_purpose::URL_SAFE_NO_PAD, text).ok()
}

/// The raw bytes stored under the key `key`, when it is the URL-safe base64
/// text of some bytes; `None` when it is not.
pub fn decode_credential_key(key: &str) -> (r: Option<Vec<u8>>)
    ensures
        r matches Some(b) ==> base64_url(b@) == key@,
        r is None <==> !encodes_bytes(key@),
{
    base64_url_decode(key)
}

} // verus!
