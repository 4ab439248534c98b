//! Signing in with Google or Apple: checking what the provider vouched for, then
//! finding, linking or creating the account, one database answer at a time.
use vstd::prelude::*;
use vstd::utf8::*;
use crate::auth::{AppleFullName, GoogleAuthRequest};
use crate::passkey::{before_at, Outcome};
use crate::text::{spec_to_lowercase, to_lowercase};

verus! {

/// Where the account of a provider identity is being settled.
#[derive(Debug, Clone, Copy, PartialEq, Eq, Structural)]
pub enum OAuthStage {
    /// Looking for the account linked to the provider identity.
    FindLink,
    /// No link: looking for a user with the identity's email.
    FindByEmail,
    /// Nobody has the email: creating a user (verified, since the provider vouched for it).
    CreateUser,
    /// Linking the identity to user `user_id`; whether that works does not matter.
    Link { user_id: i64, is_new_user: bool },
    /// Reading user `user_id`.
    FetchUser { user_id: i64, is_new_user: bool },
    /// Storing a fresh session token for user `user_id`.
    StoreToken { user_id: i64, is_new_user: bool },
}

/// What the database answered to a stage.
#[derive(Debug, Clone)]
pub enum DbAnswer {
    /// The record (or the new user) with this id.
    Found(i64),
    /// No such record.
    NotFound,
    /// The query succeeded and returns nothing.
    Done,
    /// The query failed with this error text.
    Error(String),
}

/// What a sign-in does next.
#[derive(Debug, Clone, PartialEq)]
pub enum OAuthNext {
    /// Go on with this stage.
    Go(OAuthStage),
    /// Stop with this error text.
    Refuse(String),
    /// The user is signed in.
    SignedIn { user_id: i64, is_new_user: bool },
}

/// `r` refuses with `msg`.
pub open spec fn refuses(r: OAuthNext, msg: Seq<char>) -> bool {
    r matches OAuthNext::Refuse(m) && m@ == msg
}

/// `r` is what a sign-in does after `stage` got the answer `a`. On the web
/// (`web`), failures after the account is settled are reported by short codes.
pub open spec fn oauth_answers(stage: OAuthStage, a: DbAnswer, web: bool, r: OAuthNext) -> bool {
    match stage {
        OAuthStage::FindLink => match a {
            DbAnswer::Found(u) => r == OAuthNext::Go(OAuthStage::FetchUser { user_id: u, is_new_user: false }),
            _ => r == OAuthNext::Go(OAuthStage::FindByEmail),
        },
        OAuthStage::FindByEmail => match a {
            DbAnswer::Found(u) => r == OAuthNext::Go(OAuthStage::Link { user_id: u, is_new_user: false }),
            DbAnswer::NotFound => r == OAuthNext::Go(OAuthStage::CreateUser),
            _ => refuses(r, "An unexpected error occurred"@),
        },
        OAuthStage::CreateUser => match a {
            DbAnswer::Found(u) => r == OAuthNext::Go(OAuthStage::Link { user_id: u, is_new_user: true }),
            _ => refuses(r, "Failed to create account"@),
        },
        OAuthStage::Link { user_id, is_new_user } => r == OAuthNext::Go(
            OAuthStage::FetchUser { user_id, is_new_user },
        ),
        OAuthStage::FetchUser { user_id, is_new_user } => match a {
            DbAnswer::Found(_) => r == OAuthNext::Go(OAuthStage::StoreToken { user_id, is_new_user }),
            DbAnswer::NotFound => refuses(
                r,
                if web { "user_not_found"@ } else { "User not found after creation"@ },
            ),
            _ => refuses(r, if web { "database_error"@ } else { "An unexpected error occurred"@ }),
        },
        OAuthStage::StoreToken { user_id, is_new_user } => match a {
            DbAnswer::Error(_) => refuses(r, if web { "session_error"@ } else { "Failed to create session"@ }),
            _ => r == OAuthNext::SignedIn { user_id, is_new_user },
        },
    }
}

/// What a sign-in does after `stage` got the answer `a`: an existing link
/// settles the account; else a user with the email gets the link; else a new
/// user is made and linked. Then the user is read and a session stored.
pub fn oauth_step(stage: OAuthStage, a: &DbAnswer, web: bool) -> (r: OAuthNext)
    ensures
        oauth_answers(stage, *a, web, r),
{
    match stage {
        OAuthStage::FindLink => match a {
            DbAnswer::Found(u) => OAuthNext::Go(OAuthStage::FetchUser { user_id: *u, is_new_user: false }),
            _ => OAuthNext::Go(OAuthStage::FindByEmail),
        },
        OAuthStage::FindByEmail => match a {
            DbAnswer::Found(u) => OAuthNext::Go(OAuthStage::Link { user_id: *u, is_new_user: false }),
            DbAnswer::NotFound => OAuthNext::Go(OAuthStage::CreateUser),
            _ => OAuthNext::Refuse("An unexpected error occurred".to_owned()),
        },
        OAuthStage::CreateUser => match a {
            DbAnswer::Found(u) => OAuthNext::Go(OAuthStage::Link { user_id: *u, is_new_user: true }),
            _ => OAuthNext::Refuse("Failed to create account".to_owned()),
        },
        OAuthStage::Link { user_id, is_new_user } => OAuthNext::Go(OAuthStage::FetchUser { user_id, is_new_user }),
        OAuthStage::FetchUser { user_id, is_new_user } => match a {
            DbAnswer::Found(_) => OAuthNext::Go(OAuthStage::StoreToken { user_id, is_new_user }),
            DbAnswer::NotFound => OAuthNext::Refuse(
                if web { "user_not_found".to_owned() } else { "User not found after creation".to_owned() },
            ),
            _ => OAuthNext::Refuse(
                if web { "database_error".to_owned() } else { "An unexpected error occurred".to_owned() },
            ),
        },
        OAuthStage::StoreToken { user_id, is_new_user } => match a {
            DbAnswer::Error(_) => OAuthNext::Refuse(
                if web { "session_error".to_owned() } else { "Failed to create session".to_owned() },
            ),
            _ => OAuthNext::SignedIn { user_id, is_new_user },
        },
    }
}

/// The lower-cased email an Apple sign-in goes by: the token's, else the one the
/// client sent, else the private relay address of the Apple user id.
pub open spec fn apple_email_of(claims_email: Option<Seq<char>>, given_email: Option<Seq<char>>, sub: Seq<char>) -> Seq<char> {
    match claims_email {
        Some(e) => spec_to_lowercase(e),
        None => match given_email {
            Some(e) => spec_to_lowercase(e),
            None => sub + "@privaterelay.appleid.com"@,
        },
    }
}

/// The view of an optional string.
pub open spec fn opt_view(s: Option<String>) -> Option<Seq<char>> {
    match s {
        Some(t) => Some(t@),
        None => None,
    }
}

/// The email an Apple sign-in goes by.
pub fn apple_email(claims_email: Option<String>, given_email: Option<String>, sub: &str) -> (r: String)
    ensures
        r@ == apple_email_of(opt_view(claims_email), opt_view(given_email), sub@),
{
    match claims_email {
        Some(e) => to_lowercase(e.as_str()),
        None => match given_email {
            Some(e) => to_lowercase(e.as_str()),
            None => {
                let mut s = sub.to_owned();
                s.append("@privaterelay.appleid.com");
                s
            },
        },
    }
}

/// The display name a sign-in gives a new user: the given and family names
/// joined by a space (either alone when only one is known); the email before its
/// `@` when no name is known.
pub open spec fn full_name(given: Option<Seq<char>>, family: Option<Seq<char>>, email: Seq<char>) -> Seq<char> {
    match given {
        Some(g) => match family {
            Some(f) => g + " "@ + f,
            None => g,
        },
        None => match family {
            Some(f) => f,
            None => before_at(email),
        },
    }
}

/// The email before its `@`.
fn email_name(email: &str) -> (r: String)
    ensures
        r@ == before_at(email@),
{
    crate::passkey::passkey_display_name(email)
}

/// The display name of an Apple sign-in, from the name Apple shared (on the
/// first sign-in only) and the email.
pub fn apple_display_name(name: Option<AppleFullName>, email: &str) -> (r: String)
    ensures
        r@ == match name {
            Some(n) => full_name(opt_view(n.given_name), opt_view(n.family_name), email@),
            None => before_at(email@),
        },
{
    match name {
        Some(n) => match (n.given_name, n.family_name) {
            (Some(g), Some(f)) => {
                let mut s = g;
                s.append(" ");
                s.append(f.as_str());
                s
            },
            (Some(g), None) => g,
            (None, Some(f)) => f,
            (None, None) => email_name(email),
        },
        None => email_name(email),
    }
}

/// The display name of a Google sign-in: the name Google gives, else the email
/// before its `@`.
pub fn google_display_name(name: Option<String>, email: &str) -> (r: String)
    ensures
        r@ == match name {
            Some(n) => n@,
            None => before_at(email@),
        },
{
    match name {
        Some(n) => n,
        None => email_name(email),
    }
}

/// The token a Google sign-in is checked with.
#[derive(Debug, Clone, PartialEq)]
pub enum GoogleToken {
    /// An ID token (apps), checked as a JWT.
    IdToken(String),
    /// An access token (web), checked with Google's user-info endpoint.
    AccessToken(String),
}

/// The token of a Google sign-in request: the ID token when there is one, else
/// the access token; a request with neither is refused.
pub fn google_token(req: &GoogleAuthRequest) -> (r: Result<GoogleToken, (u16, String)>)
    ensures
        match req.id_token {
            Some(t) => r matches Ok(GoogleToken::IdToken(x)) && x@ == t@,
            None => match req.access_token {
                Some(t) => r matches Ok(GoogleToken::AccessToken(x)) && x@ == t@,
                None => r matches Err((s, m)) && s == 400 && m@ == "No token provided. Send id_token or access_token"@,
            },
        },
{
    match &req.id_token {
        Some(t) => Ok(GoogleToken::IdToken(t.clone())),
        None => match &req.access_token {
            Some(t) => Ok(GoogleToken::AccessToken(t.clone())),
            None => Err((400, "No token provided. Send id_token or access_token".to_owned())),
        },
    }
}

/// Google sign-in is offered when some client id (web, iOS or Android) is set.
pub fn google_configured(client_id: &str, client_id_ios: &str, client_id_android: &str) -> (r: bool)
    ensures
        r == !(client_id@.len() == 0 && client_id_ios@.len() == 0 && client_id_android@.len() == 0),
{
    !(client_id.unicode_len() == 0 && client_id_ios.unicode_len() == 0 && client_id_android.unicode_len() == 0)
}

/// Who Google vouched for: the user id, the lower-cased email and the display
/// name; refused when Google gave no email.
pub fn google_identity(sub: String, email: Option<String>, name: Option<String>) -> (r: Result<(String, String, String), (u16, String)>)
    ensures
        match email {
            Some(e) => r matches Ok((s, em, n)) && s@ == sub@ && em@ == spec_to_lowercase(e@)
                && n@ == match name {
                    Some(x) => x@,
                    None => before_at(spec_to_lowercase(e@)),
                },
            None => r matches Err((s, m)) && s == 400 && m@ == "Email not provided by Google"@,
        },
{
    match email {
        Some(e) => {
            let em = to_lowercase(e.as_str());
            let n = google_display_name(name, em.as_str());
            Ok((sub, em, n))
        },
        None => Err((400, "Email not provided by Google".to_owned())),
    }
}

/// The client id of Apple sign-in on the web: the web (Services) id when set,
/// else the app's.
pub fn apple_web_client_id(web_id: Option<String>, app_id: Option<String>) -> (r: String)
    ensures
        r@ == match web_id {
            Some(w) => w@,
            None => match app_id {
                Some(a) => a@,
                None => Seq::<char>::empty(),
            },
        },
{
    match web_id {
        Some(w) => w,
        None => match app_id {
            Some(a) => a,
            None => String::new(),
        },
    }
}

/// Where the browser goes after Apple sign-in on the web: the page asked for,
/// else the lobby.
pub fn after_sign_in_page(redirect: Option<String>) -> (r: String)
    ensures
        r@ == match redirect {
            Some(p) => p@,
            None => "/lobby"@,
        },
{
    match redirect {
        Some(p) => p,
        None => "/lobby".to_owned(),
    }
}

/// A byte that URL encoding keeps as it is: an ASCII letter or digit, `-`, `.`,
/// `_` or `~`.
pub open spec fn url_safe_byte(b: u8) -> bool {
    ||| (48 <= b <= 57)
    ||| (65 <= b <= 90)
    ||| (97 <= b <= 122)
    ||| b == 45
    ||| b == 46
    ||| b == 95
    ||| b == 126
}

/// The upper-case hex digit of a value below 16.
pub open spec fn hex_upper(d: int) -> char {
    if d < 10 {
        (48 + d) as char
    } else {
        (55 + d) as char
    }
}

/// `bytes` percent-encoded: every byte but the safe ones becomes `%` and two
/// upper-case hex digits.
pub open spec fn percent_encoded(bytes: Seq<u8>) -> Seq<char>
    decreases bytes.len(),
{
    if bytes.len() == 0 {
        Seq::empty()
    } else {
        let b = bytes[0];
        (if url_safe_byte(b) {
            seq![b as char]
        } else {
            seq!['%', hex_upper(b as int / 16), hex_upper(b as int % 16)]
        }) + percent_encoded(bytes.drop_first())
    }
}

/// The URL encoding of a text: its UTF-8 bytes percent-encoded.
pub open spec fn url_encoded(s: Seq<char>) -> Seq<char> {
    percent_encoded(encode_utf8(s))
}

proof fn lemma_percent_encoded_push(bytes: Seq<u8>, b: u8)
    ensures
        percent_encoded(bytes.push(b)) == percent_encoded(bytes) + percent_encoded(seq![b]),
    decreases bytes.len(),
{
    if bytes.len() == 0 {
        assert(bytes.push(b) =~= seq![b]);
        assert(percent_encoded(bytes) =~= Seq::<char>::empty());
        assert(percent_encoded(bytes.push(b)) =~= percent_encoded(bytes) + percent_encoded(seq![b]));
    } else {
        lemma_percent_encoded_push(bytes.drop_first(), b);
        assert(bytes.push(b).drop_first() =~= bytes.drop_first().push(b));
        assert(bytes.push(b)[0] == bytes[0]);
        let head = if url_safe_byte(bytes[0]) {
            seq![bytes[0] as char]
        } else {
            seq!['%', hex_upper(bytes[0] as int / 16), hex_upper(bytes[0] as int % 16)]
        };
        assert(percent_encoded(bytes.push(b)) =~= head + percent_encoded(bytes.push(b).drop_first()));
        assert(percent_encoded(bytes.push(b)) =~= percent_encoded(bytes) + percent_encoded(seq![b]));
    }
}

/// The upper-case hex digit of `d`, below 16.
fn hex_upper_char(d: u8) -> (c: char)
    requires
        d < 16,
    ensures
        c == hex_upper(d as int),
{
    if d < 10 {
        let b: u8 = 48u8 + d;
        b as char
    } else {
        let b: u8 = 55u8 + d;
        b as char
    }
}

/// URL encoding, as `urlencoding::encode` writes it: every byte of the UTF-8
/// text but ASCII letters, digits, `-`, `.`, `_` and `~` becomes `%` and two
/// upper-case hex digits.
fn url_encode(s: &str) -> (r: String)
    ensures
        r@ == url_encoded(s@),
{
    let bytes = s.as_bytes();
    let mut out: Vec<char> = Vec::new();
    let mut i: usize = 0;
    while i < bytes.len()
        invariant
            bytes@ == encode_utf8(s@),
            i <= bytes@.len(),
            out@ == percent_encoded(bytes@.subrange(0, i as int)),
        decreases bytes@.len() - i,
    {
        let b = bytes[i];
        proof {
            lemma_percent_encoded_push(bytes@.subrange(0, i as int), b);
            assert(bytes@.subrange(0, i + 1) =~= bytes@.subrange(0, i as int).push(b));
            assert(seq![b].drop_first() =~= Seq::<u8>::empty());
            assert(percent_encoded(Seq::<u8>::empty()) =~= Seq::<char>::empty());
            assert(seq![b][0] == b);
            if url_safe_byte(b) {
                assert(percent_encoded(seq![b]) =~= seq![b as char]);
            } else {
                assert(percent_encoded(seq![b]) =~= seq!['%', hex_upper(b as int / 16), hex_upper(b as int % 16)]);
            }
        }
        if (b >= 48 && b <= 57) || (b >= 65 && b <= 90) || (b >= 97 && b <= 122) || b == 45 || b == 46 || b == 95
            || b == 126 {
            out.push(b as char);
        } else {
            out.push('%');
            out.push(hex_upper_char(b / 16));
            out.push(hex_upper_char(b % 16));
            assert((b / 16) as int == b as int / 16 && (b % 16) as int == b as int % 16);
        }
        i += 1;
        assert(out@ =~= percent_encoded(bytes@.subrange(0, i as int)));
    }
    assert(bytes@.subrange(0, bytes@.len() as int) =~= bytes@);
    crate::text::string_from_chars(&out)
}

/// Apple sign-in on the web needs a client id and a redirect address.
pub fn apple_web_configured(client_id: &str, redirect_uri: &str) -> (r: bool)
    ensures
        r == (client_id@.len() > 0 && redirect_uri@.len() > 0),
{
    client_id.unicode_len() > 0 && redirect_uri.unicode_len() > 0
}

/// The address that starts Apple sign-in on the web, asking Apple to post the
/// code and ID token back with the name and email, under the CSRF `state`.
pub open spec fn apple_authorize_url_of(client_id: Seq<char>, redirect_uri: Seq<char>, state: Seq<char>) -> Seq<char> {
    "https://appleid.apple.com/auth/authorize?client_id="@ + url_encoded(client_id) + "&redirect_uri="@
        + url_encoded(redirect_uri)
        + "&response_type=code%20id_token&response_mode=form_post&scope=name%20email&state="@
        + url_encoded(state)
}

/// The address that starts Apple sign-in on the web.
pub fn apple_authorize_url(client_id: &str, redirect_uri: &str, state: &str) -> (r: String)
    ensures
        r@ == apple_authorize_url_of(client_id@, redirect_uri@, state@),
{
    let mut url = "https://appleid.apple.com/auth/authorize?client_id=".to_owned();
    url.append(url_encode(client_id).as_str());
    url.append("&redirect_uri=");
    url.append(url_encode(redirect_uri).as_str());
    url.append("&response_type=code%20id_token&response_mode=form_post&scope=name%20email&state=");
    url.append(url_encode(state).as_str());
    url
}

/// The page a failed Apple sign-in on the web sends the browser to.
pub fn apple_error_page(error: &str) -> (r: String)
    ensures
        r@ == "/?error="@ + url_encoded(error@),
{
    let mut page = "/?error=".to_owned();
    page.append(url_encode(error).as_str());
    page
}

/// The page a successful Apple sign-in on the web sends the browser to: `page`,
/// with the session token and the user (as JSON text) in its fragment.
pub fn apple_success_page(page: &str, token: &str, user_json: &str) -> (r: String)
    ensures
        r@ == page@ + "#auth_token="@ + token@ + "&user="@ + url_encoded(user_json@),
{
    let mut url = page.to_owned();
    url.append("#auth_token=");
    url.append(token);
    url.append("&user=");
    url.append(url_encode(user_json).as_str());
    url
}

/// The steps of Apple's web callback before the account is settled.
#[derive(Debug, Clone, Copy, PartialEq, Eq, Structural)]
pub enum CallbackStep {
    /// Apple reported an error.
    ProviderError,
    /// Reading the CSRF state of the form.
    State,
    /// Taking the stored state (it is used once).
    TakeState,
    /// Reading the ID token of the form.
    IdToken,
    /// Checking the ID token.
    VerifyToken,
    /// Settling the account (see `oauth_step`).
    Account,
}

/// The page Apple's web callback ends on when `step` came out as `o`, if it ends.
pub open spec fn callback_page_of(step: CallbackStep, o: Outcome) -> Option<Seq<char>> {
    match step {
        CallbackStep::ProviderError | CallbackStep::VerifyToken | CallbackStep::Account => match o {
            Outcome::Failed(e) => Some("/?error="@ + url_encoded(e@)),
            _ => None,
        },
        CallbackStep::State => if o is Missing { Some("/?error=missing_state"@) } else { None },
        CallbackStep::TakeState => match o {
            Outcome::Missing => Some("/?error=invalid_state"@),
            Outcome::Failed(_) => Some("/?error=state_error"@),
            _ => None,
        },
        CallbackStep::IdToken => if o is Missing { Some("/?error=missing_token"@) } else { None },
    }
}

/// The page Apple's web callback ends on when `step` came out as `o`, if it ends.
pub fn apple_callback_page(step: CallbackStep, o: &Outcome) -> (r: Option<String>)
    ensures
        match callback_page_of(step, *o) {
            Some(p) => r matches Some(q) && q@ == p,
            None => r is None,
        },
{
    match step {
        CallbackStep::ProviderError | CallbackStep::VerifyToken | CallbackStep::Account => match o {
            Outcome::Failed(e) => Some(apple_error_page(e.as_str())),
            _ => None,
        },
        CallbackStep::State => match o {
            Outcome::Missing => Some("/?error=missing_state".to_owned()),
            _ => None,
        },
        CallbackStep::TakeState => match o {
            Outcome::Missing => Some("/?error=invalid_state".to_owned()),
            Outcome::Failed(_) => Some("/?error=state_error".to_owned()),
            _ => None,
        },
        CallbackStep::IdToken => match o {
            Outcome::Missing => Some("/?error=missing_token".to_owned()),
            _ => None,
        },
    }
}

/// The sign-in providers.
#[derive(Debug, Clone, Copy, PartialEq, Eq, Structural)]
pub enum Provider {
    Google,
    Apple,
}

/// The refusal of a sign-in with a provider that is not configured.
pub fn not_configured(provider: Provider) -> (r: (u16, String))
    ensures
        r.0 == 503,
        r.1@ == match provider {
            Provider::Google => "Google Sign-In not configured"@,
            Provider::Apple => "Apple Sign-In not configured"@,
        },
{
    match provider {
        Provider::Google => (503, "Google Sign-In not configured".to_owned()),
        Provider::Apple => (503, "Apple Sign-In not configured".to_owned()),
    }
}

/// What checking a provider's token gave: what it vouched for, or, whatever
/// the checking error, the refusal of an invalid token.
pub fn checked_token<T>(verified: Result<T, String>) -> (r: Result<T, (u16, String)>)
    ensures
        match verified {
            Ok(v) => r == Ok::<T, (u16, String)>(v),
            Err(_) => r matches Err((s, m)) && s == 401 && m@ == "Invalid or expired token"@,
        },
{
    match verified {
        Ok(v) => Ok(v),
        Err(_) => Err((401, "Invalid or expired token".to_owned())),
    }
}

} // verus!
