//! Accounts: request and response types, the auth token carried by a request,
//! and password hashing and checking (Argon2, and Werkzeug's PBKDF2 format).
use vstd::prelude::*;
use vstd::utf8::*;
use argon2::password_hash::rand_core::OsRng;
use argon2::password_hash::{PasswordHash, PasswordHasher, PasswordVerifier, SaltString};
use argon2::Argon2;
use sha2::Sha256;
use crate::config::{all_digits, has_prefix, u16_text_value, digits_value, read_digits};
use crate::db::{NewUser, User};
use crate::clock::now_secs;
use crate::random::random_alphanumeric;
use crate::text::{
    is_digit, split_seq, trim_seq, str_chars, split_chars, trim_chars, string_from_chars, spec_to_lowercase,
    to_lowercase, signed_decimal, str_equal,
};

verus! {

/// Cookie name for the auth token.
pub const AUTH_COOKIE_NAME: &'static str = "auth_token";

// ========== REQUEST/RESPONSE TYPES ==========

/// Email and password login.
#[derive(Debug, Clone)]
pub struct LoginRequest {
    pub email: String,
    pub password: String,
}

/// The answer to a login.
#[derive(Debug, Clone)]
pub struct LoginResponse {
    pub ok: bool,
    pub token: Option<String>,
    pub user: Option<UserInfo>,
    pub error: Option<String>,
}

/// What a client learns about a user.
#[derive(Debug, Clone)]
pub struct UserInfo {
    pub id: i64,
    pub email: String,
    pub display_name: String,
    pub avatar_id: i64,
    pub is_admin: Option<bool>,
}

/// A new account.
#[derive(Debug, Clone)]
pub struct RegisterRequest {
    pub email: String,
    pub password: String,
    pub display_name: String,
    pub avatar_id: i64,
    pub captcha_token: Option<String>,
}

/// The avatar a new account gets when none is chosen.
pub fn default_avatar() -> (r: i64)
    ensures
        r == 1,
{
    1
}

/// A profile change; `None` leaves a value as it is.
#[derive(Debug, Clone)]
pub struct ProfileUpdateRequest {
    pub display_name: Option<String>,
    pub avatar_id: Option<i64>,
}

/// The answer to a profile request.
#[derive(Debug, Clone)]
pub struct ProfileResponse {
    pub ok: bool,
    pub user: Option<UserInfo>,
    pub error: Option<String>,
}

/// The answer to a registration.
#[derive(Debug, Clone)]
pub struct RegisterResponse {
    pub ok: bool,
    pub message: Option<String>,
    pub errors: Option<Vec<String>>,
    pub user: Option<UserInfo>,
}

/// The answer to a token or email verification.
#[derive(Debug, Clone)]
pub struct VerifyResponse {
    pub ok: bool,
    pub user: Option<UserInfo>,
    pub error: Option<String>,
}

/// A plain answer.
#[derive(Debug, Clone)]
pub struct SimpleResponse {
    pub ok: bool,
    pub message: Option<String>,
    pub error: Option<String>,
}

/// The list of rooms.
#[derive(Debug, Clone)]
pub struct RoomsResponse {
    pub ok: bool,
    pub rooms: Option<Vec<RoomInfo>>,
    pub error: Option<String>,
}

/// A room as listed for clients.
#[derive(Debug, Clone)]
pub struct RoomInfo {
    pub name: String,
    pub player_count: usize,
    pub total_slots: usize,
}

/// Google sign-in: an ID token (apps) or an access token (web).
#[derive(Debug, Clone)]
pub struct GoogleAuthRequest {
    pub id_token: Option<String>,
    pub access_token: Option<String>,
}

/// Apple sign-in from an app.
#[derive(Debug, Clone)]
pub struct AppleAuthRequest {
    pub identity_token: String,
    pub user_identifier: Option<String>,
    pub email: Option<String>,
    pub full_name: Option<AppleFullName>,
}

/// The name Apple shares on first sign-in.
#[derive(Debug, Clone)]
pub struct AppleFullName {
    pub given_name: Option<String>,
    pub family_name: Option<String>,
}

/// The answer to an OAuth sign-in.
#[derive(Debug, Clone)]
pub struct OAuthResponse {
    pub ok: bool,
    pub token: Option<String>,
    pub user: Option<UserInfo>,
    pub is_new_user: Option<bool>,
    pub error: Option<String>,
}

/// Where to go after Apple sign-in on the web.
#[derive(Debug, Clone)]
pub struct AppleAuthorizeQuery {
    pub redirect: Option<String>,
}

/// What Apple posts back after sign-in on the web.
#[derive(Debug, Clone)]
pub struct AppleCallbackForm {
    pub code: Option<String>,
    pub id_token: Option<String>,
    pub state: Option<String>,
    pub user: Option<String>,
    pub error: Option<String>,
}

/// What a client learns about `user`: the admin flag only when it is set.
pub fn user_info(user: &User) -> (r: UserInfo)
    ensures
        r.id == user.id,
        r.email@ == user.email@,
        r.display_name@ == user.display_name@,
        r.avatar_id == user.avatar_id,
        r.is_admin == (if user.is_admin { Some(true) } else { None::<bool> }),
{
    UserInfo {
        id: user.id,
        email: user.email.clone(),
        display_name: user.display_name.clone(),
        avatar_id: user.avatar_id,
        is_admin: if user.is_admin { Some(true) } else { None },
    }
}

// ========== AUTH TOKEN ==========

/// The token of an `Authorization` header value: what follows `Bearer `.
pub open spec fn bearer_of(authorization: Option<Seq<char>>) -> Option<Seq<char>> {
    match authorization {
        Some(v) => if has_prefix(v, "Bearer "@) {
            Some(v.skip("Bearer "@.len() as int))
        } else {
            None
        },
        None => None,
    }
}

/// The auth token among the cookies `pieces` (each trimmed): the value of the
/// first `auth_token=` cookie.
pub open spec fn cookie_in(pieces: Seq<Seq<char>>) -> Option<Seq<char>>
    decreases pieces.len(),
{
    if pieces.len() == 0 {
        None
    } else if has_prefix(trim_seq(pieces[0]), "auth_token="@) {
        Some(trim_seq(pieces[0]).skip("auth_token="@.len() as int))
    } else {
        cookie_in(pieces.drop_first())
    }
}

/// The auth token of a `Cookie` header value.
pub open spec fn cookie_of(cookie: Option<Seq<char>>) -> Option<Seq<char>> {
    match cookie {
        Some(v) => cookie_in(split_seq(v, ';')),
        None => None,
    }
}

/// The view of an optional string slice.
pub open spec fn opt_str(s: Option<&str>) -> Option<Seq<char>> {
    match s {
        Some(v) => Some(v@),
        None => None,
    }
}

/// The view of an optional string.
pub open spec fn opt_string(s: Option<String>) -> Option<Seq<char>> {
    match s {
        Some(v) => Some(v@),
        None => None,
    }
}

fn strip_prefix_chars(s: &Vec<char>, p: &str) -> (r: Option<Vec<char>>)
    ensures
        match r {
            Some(rest) => has_prefix(s@, p@) && rest@ == s@.skip(p@.len() as int),
            None => !has_prefix(s@, p@),
        },
{
    let pc = str_chars(p);
    if pc.len() > s.len() {
        return None;
    }
    let mut i: usize = 0;
    while i < pc.len()
        invariant
            pc@ == p@,
            pc@.len() <= s@.len(),
            i <= pc@.len(),
            forall|j: int| 0 <= j < i ==> s@[j] == pc@[j],
        decreases pc@.len() - i,
    {
        if s[i] != pc[i] {
            assert(s@.subrange(0, pc@.len() as int)[i as int] != p@[i as int]);
            return None;
        }
        i += 1;
    }
    assert(s@.subrange(0, pc@.len() as int) =~= p@);
    let mut rest: Vec<char> = Vec::new();
    let mut k: usize = pc.len();
    while k < s.len()
        invariant
            pc@.len() <= k <= s@.len(),
            rest@ == s@.subrange(pc@.len() as int, k as int),
        decreases s@.len() - k,
    {
        rest.push(s[k]);
        k += 1;
        assert(rest@ =~= s@.subrange(pc@.len() as int, k as int));
    }
    assert(rest@ =~= s@.skip(pc@.len() as int));
    Some(rest)
}

/// The token of an `Authorization: Bearer` header value.
pub fn extract_bearer_token(authorization: Option<&str>) -> (r: Option<String>)
    ensures
        opt_string(r) == bearer_of(opt_str(authorization)),
{
    match authorization {
        Some(v) => {
            let cs = str_chars(v);
            match strip_prefix_chars(&cs, "Bearer ") {
                Some(rest) => Some(string_from_chars(&rest)),
                None => None,
            }
        },
        None => None,
    }
}

/// The auth token of a `Cookie` header value.
pub fn extract_cookie_token(cookie: Option<&str>) -> (r: Option<String>)
    ensures
        opt_string(r) == cookie_of(opt_str(cookie)),
{
    match cookie {
        Some(v) => {
            let cs = str_chars(v);
            let pieces = split_chars(&cs, ';');
            let ghost sp = split_seq(v@, ';');
            let mut k: usize = 0;
            assert(sp.skip(0) =~= sp);
            while k < pieces.len()
                invariant
                    cs@ == v@,
                    opt_str(cookie) == Some(v@),
                    sp == split_seq(v@, ';'),
                    pieces@.len() == sp.len(),
                    forall|j: int| 0 <= j < pieces@.len() ==> (#[trigger] pieces@[j])@ == sp[j],
                    k <= pieces@.len(),
                    cookie_in(sp) == cookie_in(sp.skip(k as int)),
                decreases pieces@.len() - k,
            {
                let t = trim_chars(&pieces[k]);
                assert(sp.skip(k as int)[0] == sp[k as int]);
                match strip_prefix_chars(&t, "auth_token=") {
                    Some(rest) => {
                        proof {
                            let tail = sp.skip(k as int);
                            assert(tail.len() > 0);
                            assert(trim_seq(tail[0]) == t@);
                            assert(cookie_in(tail) == Some(t@.skip("auth_token="@.len() as int)));
                        }
                        return Some(string_from_chars(&rest));
                    },
                    None => {},
                }
                assert(sp.skip(k as int).drop_first() =~= sp.skip(k + 1));
                k += 1;
            }
            None
        },
        None => None,
    }
}

/// The auth token of a request: the bearer token, else the auth cookie.
pub fn extract_auth_token(authorization: Option<&str>, cookie: Option<&str>) -> (r: Option<String>)
    ensures
        opt_string(r) == match bearer_of(opt_str(authorization)) {
            Some(t) => Some(t),
            None => cookie_of(opt_str(cookie)),
        },
{
    match extract_bearer_token(authorization) {
        Some(t) => Some(t),
        None => extract_cookie_token(cookie),
    }
}

// ========== COOKIES ==========

/// A `Set-Cookie` value, as plain fields.
#[derive(Debug, Clone)]
pub struct AuthCookie {
    pub name: String,
    pub value: String,
    pub path: String,
    pub http_only: bool,
    pub same_site_lax: bool,
    pub secure: bool,
    pub max_age_secs: i64,
}

/// The auth cookie carrying `token`: HttpOnly, SameSite=Lax, for the whole site,
/// kept 30 days, and Secure when the site is served over TLS.
pub fn build_auth_cookie(token: &str, secure: bool) -> (r: AuthCookie)
    ensures
        r.name@ == AUTH_COOKIE_NAME@,
        r.value@ == token@,
        r.path@ == "/"@,
        r.http_only,
        r.same_site_lax,
        r.secure == secure,
        r.max_age_secs == 30 * 86400,
{
    AuthCookie {
        name: AUTH_COOKIE_NAME.to_owned(),
        value: token.to_owned(),
        path: "/".to_owned(),
        http_only: true,
        same_site_lax: true,
        secure,
        max_age_secs: 30 * 86400,
    }
}

/// The cookie that clears the auth token: empty, HttpOnly, for the whole site,
/// expiring at once.
pub fn build_logout_cookie() -> (r: AuthCookie)
    ensures
        r.name@ == AUTH_COOKIE_NAME@,
        r.value@.len() == 0,
        r.path@ == "/"@,
        r.http_only,
        !r.same_site_lax,
        !r.secure,
        r.max_age_secs == 0,
{
    AuthCookie {
        name: AUTH_COOKIE_NAME.to_owned(),
        value: String::new(),
        path: "/".to_owned(),
        http_only: true,
        same_site_lax: false,
        secure: false,
        max_age_secs: 0,
    }
}

/// The `Set-Cookie` text of `c`, in the cookie crate's order of attributes.
pub open spec fn cookie_header_text(c: AuthCookie) -> Seq<char> {
    c.name@ + "="@ + c.value@ + (if c.http_only { "; HttpOnly"@ } else { Seq::empty() }) + (if c.same_site_lax {
        "; SameSite=Lax"@
    } else {
        Seq::empty()
    }) + (if c.secure { "; Secure"@ } else { Seq::empty() }) + "; Path="@ + c.path@ + "; Max-Age="@ + signed_decimal(
        c.max_age_secs as int,
    )
}

/// The cookie crate's `Cookie` (as axum-extra re-exports it) with the fields of
/// `c`, formatted by its `Display`. Trusted: the crate writes `name=value`, then
/// `; HttpOnly` when set, `; SameSite=Lax` when set, `; Secure` when set (no
/// other case applies to these fields), `; Path=` and the path, and `; Max-Age=`
/// with the whole seconds, as `cookie_header_text` states.
#[verifier::external_body]
fn cookie_text(c: &AuthCookie) -> (r: String)
    ensures
        r@ == cookie_header_text(*c),
{
    let mut cookie = axum_extra::extract::cookie::Cookie::new(c.name.clone(), c.value.clone());
    cookie.set_http_only(c.http_only);
    cookie.set_same_site(c.same_site_lax.then_some(axum_extra::extract::cookie::SameSite::Lax));
    cookie.set_secure(c.secure);
    cookie.set_path(c.path.clone());
    cookie.set_max_age(time::Duration::seconds(c.max_age_secs));
    cookie.to_string()
}

/// The `Set-Cookie` header text that signs a client in with `token`.
pub fn set_cookie_header(token: &str, secure: bool) -> (r: String)
    ensures
        r@ == AUTH_COOKIE_NAME@ + "="@ + token@ + "; HttpOnly"@ + "; SameSite=Lax"@ + (if secure {
            "; Secure"@
        } else {
            Seq::empty()
        }) + "; Path="@ + "/"@ + "; Max-Age="@ + signed_decimal(2592000),
{
    cookie_text(&build_auth_cookie(token, secure))
}

/// The `Set-Cookie` header text that signs a client out.
pub fn logout_cookie_header() -> (r: String)
    ensures
        r@ == AUTH_COOKIE_NAME@ + "="@ + "; HttpOnly"@ + "; Path="@ + "/"@ + "; Max-Age="@ + signed_decimal(0),
{
    let c = build_logout_cookie();
    let r = cookie_text(&c);
    assert(c.value@ =~= Seq::<char>::empty());
    assert(AUTH_COOKIE_NAME@ + "="@ + Seq::<char>::empty() =~= AUTH_COOKIE_NAME@ + "="@);
    r
}

/// Whether the site is served over TLS, from the `SSL_ENABLED` setting: `true`
/// (in any case) or `1`.
pub fn ssl_enabled(setting: Option<&str>) -> (r: bool)
    ensures
        r == match setting {
            Some(v) => spec_to_lowercase(v@) == "true"@ || v@ == "1"@,
            None => false,
        },
{
    match setting {
        Some(v) => str_equal(to_lowercase(v).as_str(), "true") || str_equal(v, "1"),
        None => false,
    }
}

// ========== PASSWORDS ==========

/// Hashes `password` with Argon2 (default parameters) and a fresh random salt.
/// Trusted: `Argon2::default().hash_password` with a `SaltString` generated from
/// `OsRng`; the salt is random, so of the result only its form is known, a PHC
/// string of the Argon2id algorithm, and that it verifies with the password it
/// was made from (`argon2_accepts`). Hashing fails (`None`) only for a password
/// of more than `0xFFFF_FFFF` bytes, the longest argon2 takes (the generated
/// salt and the default parameters are always accepted).
#[verifier::external_body]
pub fn hash_password(password: &str) -> (r: Option<String>)
    ensures
        encode_utf8(password@).len() <= 0xFFFF_FFFF ==> r is Some,
        r matches Some(h) ==> has_prefix(h@, "$argon2id$"@),
        r matches Some(h) ==> argon2_accepts(password@, h@),
{
    let salt = SaltString::generate(&mut OsRng);
    Argon2::default().hash_password(password.as_bytes(), &salt).ok().map(|h| h.to_string())
}

/// Whether `password` matches the Argon2 PHC string `hash`, as argon2 checks it.
pub uninterp spec fn argon2_accepts(password: Seq<char>, hash: Seq<char>) -> bool;

/// `PasswordHash::new` on `hash`, then `Argon2::default().verify_password`.
/// Trusted: the answer is a function of the two strings; an unreadable hash is
/// not accepted.
#[verifier::external_body]
fn argon2_verify(password: &str, hash: &str) -> (r: bool)
    ensures
        r == argon2_accepts(password@, hash@),
{
    match PasswordHash::new(hash) {
        Ok(parsed) => Argon2::default().verify_password(password.as_bytes(), &parsed).is_ok(),
        Err(_) => false,
    }
}

/// PBKDF2 with HMAC-SHA256: `len` bytes derived from `password` and `salt` in
/// `rounds` rounds.
pub uninterp spec fn pbkdf2_sha256(password: Seq<u8>, salt: Seq<u8>, rounds: u32, len: nat) -> Seq<u8>;

/// `pbkdf2::pbkdf2_hmac::<Sha256>` into a buffer of `len` bytes. Trusted: the
/// result is the derived key, a function of the arguments, of the buffer's length.
#[verifier::external_body]
fn pbkdf2_sha256_bytes(password: &[u8], salt: &[u8], rounds: u32, len: usize) -> (r: Vec<u8>)
    ensures
        r@ == pbkdf2_sha256(password@, salt@, rounds, len as nat),
        r@.len() == len,
{
    let mut out = vec![0u8; len];
    pbkdf2::pbkdf2_hmac::<Sha256>(password, salt, rounds, &mut out);
    out
}

/// The lower-case hex digit of a value below 16.
pub open spec fn hex_digit(d: u8) -> char {
    if d < 10 {
        (('0' as u32) + d as u32) as char
    } else {
        (('a' as u32) + d as u32 - 10) as char
    }
}

/// The lower-case hex text of `bytes`, two digits per byte.
pub open spec fn hex_text(bytes: Seq<u8>) -> Seq<char>
    decreases bytes.len(),
{
    if bytes.len() == 0 {
        Seq::empty()
    } else {
        hex_text(bytes.drop_last()) + seq![hex_digit(bytes.last() / 16), hex_digit(bytes.last() % 16)]
    }
}

/// The lower-case hex digit of `d`, below 16.
fn hex_char(d: u8) -> (c: char)
    requires
        d < 16,
    ensures
        c == hex_digit(d),
{
    if d < 10 {
        let b: u8 = 48u8 + d;
        b as char
    } else {
        let b: u8 = 97u8 + d - 10;
        b as char
    }
}

/// Lower-case hex, two digits per byte, as `hex::encode` writes it.
fn hex_encode(bytes: &[u8]) -> (r: String)
    ensures
        r@ == hex_text(bytes@),
{
    let mut out: Vec<char> = Vec::new();
    let mut i: usize = 0;
    while i < bytes.len()
        invariant
            i <= bytes@.len(),
            out@ == hex_text(bytes@.subrange(0, i as int)),
        decreases bytes@.len() - i,
    {
        let b = bytes[i];
        out.push(hex_char(b / 16));
        out.push(hex_char(b % 16));
        assert(bytes@.subrange(0, i + 1).drop_last() =~= bytes@.subrange(0, i as int));
        i += 1;
        assert(out@ =~= hex_text(bytes@.subrange(0, i as int)));
    }
    assert(bytes@.subrange(0, bytes@.len() as int) =~= bytes@);
    string_from_chars(&out)
}

/// The number of rounds of a Werkzeug method field: ASCII digits (an optional
/// `+` first) of a value that fits in 32 bits, as `str::parse::<u32>` reads them.
pub open spec fn u32_text_value(t: Seq<char>) -> Option<int> {
    let d = if t.len() > 0 && t[0] == '+' { t.drop_first() } else { t };
    if d.len() > 0 && all_digits(d) && digits_value(d) <= 4294967295 {
        Some(digits_value(d))
    } else {
        None
    }
}

/// Reads `s` as `str::parse::<u32>` does: an optional `+`, then one or more
/// ASCII digits of a value that fits in 32 bits.
fn parse_u32(s: &str) -> (r: Option<u32>)
    ensures
        match r {
            Some(n) => u32_text_value(s@) == Some(n as int),
            None => u32_text_value(s@) is None,
        },
{
    let cs = str_chars(s);
    let start: usize = if cs.len() > 0 && cs[0] == '+' { 1 } else { 0 };
    let ghost t = s@;
    let ghost d = if t.len() > 0 && t[0] == '+' { t.drop_first() } else { t };
    assert(cs@.subrange(start as int, cs@.len() as int) =~= d);
    match read_digits(&cs, start, 0xFFFF_FFFF) {
        Some(v) => Some(v as u32),
        None => None,
    }
}

/// Whether `password` matches the Werkzeug hash `hash`, of the form
/// `pbkdf2:<digest>:<rounds>$<salt>$<hex key>`: the key derived with PBKDF2 over
/// HMAC-SHA256 from the password and salt bytes, as long as the hex key says, must
/// be that key.
pub open spec fn werkzeug_accepts(password: Seq<char>, hash: Seq<char>) -> bool {
    let parts = split_seq(hash, '$');
    let method = split_seq(parts[0], ':');
    &&& parts.len() == 3
    &&& method.len() >= 3
    &&& method[0] == "pbkdf2"@
    &&& u32_text_value(method[2]) is Some
    &&& hex_text(pbkdf2_sha256(
        encode_utf8(password),
        encode_utf8(parts[1]),
        u32_text_value(method[2])->0 as u32,
        encode_utf8(parts[2]).len() / 2,
    )) == parts[2]
}

/// Checks `password` against a Werkzeug PBKDF2 hash.
pub fn verify_werkzeug_hash(password: &str, hash: &str) -> (r: bool)
    ensures
        r == werkzeug_accepts(password@, hash@),
{
    let hc = str_chars(hash);
    let parts = split_chars(&hc, '$');
    if parts.len() != 3 {
        return false;
    }
    let method = split_chars(&parts[0], ':');
    if method.len() < 3 {
        return false;
    }
    let m0 = string_from_chars(&method[0]);
    if m0 != "pbkdf2".to_owned() {
        return false;
    }
    let m2 = string_from_chars(&method[2]);
    let iterations = match parse_u32(m2.as_str()) {
        Some(i) => i,
        None => return false,
    };
    let salt = string_from_chars(&parts[1]);
    let expected = string_from_chars(&parts[2]);
    let len = expected.as_str().as_bytes().len() / 2;
    let key = pbkdf2_sha256_bytes(password.as_bytes(), salt.as_str().as_bytes(), iterations, len);
    let computed = hex_encode(key.as_slice());
    computed == expected
}

/// Whether `password` matches a stored hash: an Argon2 PHC string (starting with
/// `$argon2`), or a Werkzeug PBKDF2 hash (starting with `pbkdf2:`); any other form
/// matches nothing.
pub open spec fn password_matches(password: Seq<char>, hash: Seq<char>) -> bool {
    if has_prefix(hash, "$argon2"@) {
        argon2_accepts(password, hash)
    } else if has_prefix(hash, "pbkdf2:"@) {
        werkzeug_accepts(password, hash)
    } else {
        false
    }
}

fn starts_with_str(s: &str, p: &str) -> (r: bool)
    ensures
        r == has_prefix(s@, p@),
{
    let cs = str_chars(s);
    match strip_prefix_chars(&cs, p) {
        Some(_) => true,
        None => false,
    }
}

/// Checks `password` against a stored hash.
pub fn verify_password(password: &str, hash: &str) -> (r: bool)
    ensures
        r == password_matches(password@, hash@),
{
    if starts_with_str(hash, "$argon2") {
        argon2_verify(password, hash)
    } else if starts_with_str(hash, "pbkdf2:") {
        verify_werkzeug_hash(password, hash)
    } else {
        false
    }
}

// ========== LOGIN ==========

/// Why a login with `password` as `user` fails, if it does: a wrong (or missing)
/// password, or an unverified email.
pub open spec fn login_refusal(user: User, password: Seq<char>) -> Option<Seq<char>> {
    let ok = match user.password_hash {
        Some(h) => password_matches(password, h@),
        None => false,
    };
    if !ok {
        Some("Invalid email or password"@)
    } else if !user.verified {
        Some("Please verify your email first"@)
    } else {
        None
    }
}

/// Checks a login with `password` as `user` (an account without a password, made
/// through OAuth, cannot log in with one).
pub fn check_login(user: &User, password: &str) -> (r: Result<(), &'static str>)
    ensures
        match login_refusal(*user, password@) {
            None => r is Ok,
            Some(msg) => r matches Err(e) && e@ == msg,
        },
{
    let ok = match &user.password_hash {
        Some(h) => verify_password(password, h.as_str()),
        None => false,
    };
    if !ok {
        return Err("Invalid email or password");
    }
    if !user.verified {
        return Err("Please verify your email first");
    }
    Ok(())
}

/// Whether a user with `email` is made an admin because it is the configured admin
/// email (compared after Unicode lower-casing); one who already is stays as is.
pub fn should_become_admin(email: &str, is_admin: bool, admin_email: Option<&str>) -> (r: bool)
    ensures
        r == (!is_admin && admin_email is Some
            && spec_to_lowercase(email@) == spec_to_lowercase(admin_email->0@)),
{
    match admin_email {
        Some(a) => {
            let l1 = to_lowercase(email);
            let l2 = to_lowercase(a);
            l1 == l2 && !is_admin
        },
        None => false,
    }
}

/// The email a registration is filed under: trimmed and lower-cased.
pub fn registration_email(email: &str) -> (r: String)
    ensures
        r@ == spec_to_lowercase(trim_seq(email@)),
{
    let t = string_from_chars(&trim_chars(&str_chars(email)));
    to_lowercase(t.as_str())
}

// ========== REGISTRATION ==========

/// A token of 32 ASCII letters and digits.
pub open spec fn is_token(t: Seq<char>) -> bool {
    t.len() == 32 && forall|i: int| 0 <= i < 32 ==> crate::text::is_ascii_letter(#[trigger] t[i]) || is_digit(t[i])
}

/// A fresh token of 32 ASCII letters and digits, for sessions and email links.
pub fn generate_token() -> (r: String)
    ensures
        is_token(r@),
{
    random_alphanumeric(32)
}

/// `u` is an account made from the registration `req`: its email trimmed and
/// lower-cased, its display name trimmed, an Argon2id password hash, a fresh
/// verification token expiring at least a day after the epoch's start, and the
/// chosen avatar.
pub open spec fn prepared_account(u: NewUser, req: RegisterRequest) -> bool {
    &&& u.email@ == spec_to_lowercase(trim_seq(req.email@))
    &&& u.display_name@ == trim_seq(req.display_name@)
    &&& has_prefix(u.password_hash@, "$argon2id$"@)
    &&& argon2_accepts(req.password@, u.password_hash@)
    &&& is_token(u.verification_token@)
    &&& 86400 <= u.verification_token_expires
    &&& u.avatar_id == req.avatar_id
}

/// How long an email verification token stays valid, in seconds (24 hours).
pub const VERIFICATION_TOKEN_LIFETIME_SECS: i64 = 86400;

/// The account that the registration `req` creates at `now_secs`, with the
/// password hash `password_hash` and the verification token `token`: the email
/// trimmed and lower-cased, the display name trimmed, the token valid until 24
/// hours from `now_secs`, and the chosen avatar.
pub fn registration_account(req: &RegisterRequest, password_hash: String, token: String, now_secs: i64) -> (r: NewUser)
    requires
        now_secs + VERIFICATION_TOKEN_LIFETIME_SECS <= i64::MAX,
    ensures
        r.email@ == spec_to_lowercase(trim_seq(req.email@)),
        r.display_name@ == trim_seq(req.display_name@),
        r.password_hash == password_hash,
        r.verification_token == token,
        r.verification_token_expires == now_secs + VERIFICATION_TOKEN_LIFETIME_SECS,
        r.avatar_id == req.avatar_id,
{
    NewUser {
        email: registration_email(req.email.as_str()),
        password_hash,
        display_name: string_from_chars(&trim_chars(&str_chars(req.display_name.as_str()))),
        verification_token: token,
        verification_token_expires: now_secs + VERIFICATION_TOKEN_LIFETIME_SECS,
        avatar_id: req.avatar_id,
    }
}

/// The account a registration creates now (`registration_account` at the
/// current time): the password hashed with Argon2 and a fresh verification
/// token. `None` when the password cannot be hashed, which only a password of
/// more than `0xFFFF_FFFF` bytes cannot.
pub fn prepare_registration(req: &RegisterRequest) -> (r: Option<NewUser>)
    ensures
        encode_utf8(req.password@).len() <= 0xFFFF_FFFF ==> r is Some,
        r matches Some(u) ==> prepared_account(u, *req),
{
    let password_hash = match hash_password(req.password.as_str()) {
        Some(h) => h,
        None => return None,
    };
    Some(registration_account(req, password_hash, generate_token(), now_secs()))
}

} // verus!
