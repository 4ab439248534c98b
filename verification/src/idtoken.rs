//! Checking the ID tokens (JWTs) of Google and Apple sign-in against the
//! providers' published keys, with the jsonwebtoken crate.
use vstd::prelude::*;
use crate::config::views;
use crate::json::{
    decode_claims, json_bool_at, json_bool_member, json_text_at, json_text_member, jwt_signed, require_audiences,
    require_issuers, rs256_validation, rsa_key, token_payload, JsonDoc,
};
use crate::passkey::encodes_bytes;
use crate::text::str_equal;

verus! {

/// A published signing key of a provider (one entry of its JWK set).
#[derive(Debug, Clone)]
pub struct Jwk {
    /// The key type (`RSA`).
    pub kty: String,
    /// The key id that tokens name in their header.
    pub kid: String,
    /// What the key is for (`sig`).
    pub use_: Option<String>,
    /// The algorithm (`RS256`).
    pub alg: Option<String>,
    /// The RSA modulus, base64url.
    pub n: Option<String>,
    /// The RSA exponent, base64url.
    pub e: Option<String>,
}

/// What a checked ID token vouches for.
#[derive(Debug, Clone, PartialEq)]
pub struct IdClaims {
    /// The provider's user id.
    pub sub: String,
    pub email: Option<String>,
    pub email_verified: Option<bool>,
    pub name: Option<String>,
}

/// The key id that the header of `token` names: `None` when the header cannot
/// be read, `Some(None)` when it names no key.
pub uninterp spec fn header_kid(token: Seq<char>) -> Option<Option<Seq<char>>>;

/// `jsonwebtoken::decode_header`, then the header's `kid`. Trusted: the header
/// is read from the token alone; an error is given back as its text.
#[verifier::external_body]
fn read_header_kid(token: &str) -> (r: Result<Option<String>, String>)
    ensures
        match r {
            Ok(k) => header_kid(token@) == Some(match k {
                Some(s) => Some(s@),
                None => None::<Seq<char>>,
            }),
            Err(_) => header_kid(token@) is None,
        },
{
    match jsonwebtoken::decode_header(token) {
        Ok(h) => Ok(h.kid),
        Err(e) => Err(e.to_string()),
    }
}

/// The position of the first key of `keys`, from position `start` on, with id
/// `kid`.
pub open spec fn first_key_from(keys: Seq<Jwk>, kid: Seq<char>, start: int) -> Option<int>
    decreases keys.len() - start,
{
    if start < 0 || start >= keys.len() {
        None
    } else if keys[start].kid@ == kid {
        Some(start)
    } else {
        first_key_from(keys, kid, start + 1)
    }
}

proof fn lemma_first_key_from(keys: Seq<Jwk>, kid: Seq<char>, start: int)
    ensures
        first_key_from(keys, kid, start) matches Some(i) ==> 0 <= start <= i < keys.len() && keys[i].kid@ == kid,
    decreases keys.len() - start,
{
    if 0 <= start < keys.len() && keys[start].kid@ != kid {
        lemma_first_key_from(keys, kid, start + 1);
    }
}

/// The position of the first key of `keys` with id `kid`.
pub open spec fn first_key(keys: Seq<Jwk>, kid: Seq<char>) -> Option<int> {
    first_key_from(keys, kid, 0)
}

/// Why `token` cannot be checked against `keys`, found before its signature is
/// checked, if it cannot: `Some(None)` when the header cannot be read (the
/// error then follows `Invalid token header: `), else the error text of a header
/// naming no key, of no key with that id, or of a key without its modulus or
/// exponent.
pub open spec fn key_problem(token: Seq<char>, keys: Seq<Jwk>) -> Option<Option<Seq<char>>> {
    match header_kid(token) {
        None => Some(None),
        Some(None) => Some(Some("Token missing kid"@)),
        Some(Some(kid)) => match first_key(keys, kid) {
            None => Some(Some("Key not found"@)),
            Some(i) => if keys[i].n is None {
                Some(Some("Missing modulus"@))
            } else if keys[i].e is None {
                Some(Some("Missing exponent"@))
            } else {
                None
            },
        },
    }
}

/// The position of the first key of `keys` with id `kid`.
fn find_key(keys: &Vec<Jwk>, kid: &str) -> (r: Option<usize>)
    ensures
        match r {
            Some(i) => first_key(keys@, kid@) == Some(i as int),
            None => first_key(keys@, kid@) is None,
        },
{
    let mut i: usize = 0;
    while i < keys.len()
        invariant
            i <= keys@.len(),
            first_key(keys@, kid@) == first_key_from(keys@, kid@, i as int),
        decreases keys@.len() - i,
    {
        if str_equal(keys[i].kid.as_str(), kid) {
            return Some(i);
        }
        i += 1;
    }
    None
}

proof fn lemma_first_key(keys: Seq<Jwk>, kid: Seq<char>)
    ensures
        first_key(keys, kid) matches Some(i) ==> 0 <= i < keys.len() && keys[i].kid@ == kid,
{
    lemma_first_key_from(keys, kid, 0);
}


/// The text of an optional string.
pub open spec fn opt_text(o: Option<String>) -> Option<Seq<char>> {
    match o {
        Some(s) => Some(s@),
        None => None,
    }
}

/// The refusal of a token payload without the string member `field`.
pub open spec fn missing_field(field: Seq<char>) -> Seq<char> {
    "Token verification failed: "@ + ("missing field `"@ + field + "`"@)
}

/// `r` is what the token payload `payload` vouches for: its user (`sub`) with
/// its `email`, `email_verified` and `name` where they are of their type. The
/// payload must name its user, audience and issuer as strings (`sub`, `aud`,
/// `iss`, looked for in that order); without one of them, the refusal of a
/// payload missing it.
pub open spec fn claims_answer(payload: Seq<u8>, r: Result<IdClaims, String>) -> bool {
    match (json_text_at(payload, "sub"@), json_text_at(payload, "aud"@), json_text_at(payload, "iss"@)) {
        (None, _, _) => r matches Err(m) && m@ == missing_field("sub"@),
        (Some(_), None, _) => r matches Err(m) && m@ == missing_field("aud"@),
        (Some(_), Some(_), None) => r matches Err(m) && m@ == missing_field("iss"@),
        (Some(sub), Some(_), Some(_)) => r matches Ok(c) && {
            &&& c.sub@ == sub
            &&& opt_text(c.email) == json_text_at(payload, "email"@)
            &&& c.email_verified == json_bool_at(payload, "email_verified"@)
            &&& opt_text(c.name) == json_text_at(payload, "name"@)
        },
    }
}

/// The refusal of a token payload without the string member `field`.
fn missing(field: &str) -> (r: String)
    ensures
        r@ == missing_field(field@),
{
    let mut m = "Token verification failed: ".to_owned();
    m.append("missing field `");
    m.append(field);
    m.append("`");
    assert(m@ =~= "Token verification failed: "@ + ("missing field `"@ + field@ + "`"@));
    m
}

/// What the decoded payload `payload` of a checked token vouches for.
pub fn claims_from_payload(payload: &JsonDoc) -> (r: Result<IdClaims, String>)
    ensures
        claims_answer(payload@, r),
{
    let sub = match json_text_member(payload, "sub") {
        Some(s) => s,
        None => return Err(missing("sub")),
    };
    if json_text_member(payload, "aud").is_none() {
        return Err(missing("aud"));
    }
    if json_text_member(payload, "iss").is_none() {
        return Err(missing("iss"));
    }
    Ok(IdClaims {
        sub,
        email: json_text_member(payload, "email"),
        email_verified: json_bool_member(payload, "email_verified"),
        name: json_text_member(payload, "name"),
    })
}

/// What the check of a token gives once jsonwebtoken has decoded it (`decoded`,
/// its payload or its error): the error follows `Token verification failed: `;
/// else what the payload vouches for.
pub fn claims_from_decoded(decoded: Result<JsonDoc, String>) -> (r: Result<IdClaims, String>)
    ensures
        match decoded {
            Ok(d) => claims_answer(d@, r),
            Err(e) => r matches Err(m) && m@ == "Token verification failed: "@ + e@,
        },
{
    match decoded {
        Ok(d) => claims_from_payload(&d),
        Err(err) => {
            let mut m = "Token verification failed: ".to_owned();
            m.append(err.as_str());
            Err(m)
        },
    }
}

/// The error text of a token whose signature or claims failed the check.
pub open spec fn verification_failure(m: Seq<char>) -> bool {
    exists|e: Seq<char>| m == "Token verification failed: "@ + e
}

/// The key of `keys` that the header of `token` names (the first with its id),
/// if there is one.
pub open spec fn token_key(token: Seq<char>, keys: Seq<Jwk>) -> Option<Jwk> {
    match header_kid(token) {
        Some(Some(kid)) => match first_key(keys, kid) {
            Some(i) => Some(keys[i]),
            None => None,
        },
        _ => None,
    }
}

/// The token `token` vouches for `c` under the key `key`: it is signed with the
/// key under RS256; its issuer is one of `issuers` and its audience one of
/// `audiences`; and `c` is what its payload vouches for.
pub open spec fn token_vouches(
    token: Seq<char>,
    key: Jwk,
    issuers: Seq<Seq<char>>,
    audiences: Seq<Seq<char>>,
    c: IdClaims,
) -> bool {
    let p = token_payload(token);
    &&& (key.n matches Some(n) && key.e matches Some(e) && jwt_signed(token, "RS256"@, n@, e@))
    &&& json_text_at(p, "iss"@) matches Some(i) && issuers.contains(i)
    &&& json_text_at(p, "aud"@) matches Some(a) && audiences.contains(a)
    &&& claims_answer(p, Ok(c))
}

/// `r` answers the check of `token` against `keys`, for `issuers` and
/// `audiences`: the key problem, if there is one; else an invalid key when its
/// modulus or exponent is not base64url; else what the token vouches for under
/// the key, or a failed verification.
pub open spec fn token_answer(
    token: Seq<char>,
    keys: Seq<Jwk>,
    issuers: Seq<Seq<char>>,
    audiences: Seq<Seq<char>>,
    r: Result<IdClaims, String>,
) -> bool {
    match key_problem(token, keys) {
        Some(None) => r matches Err(m) && exists|e: Seq<char>| m@ == "Invalid token header: "@ + e,
        Some(Some(msg)) => r matches Err(m) && m@ == msg,
        None => match token_key(token, keys) {
            Some(k) => match (k.n, k.e) {
                (Some(n), Some(e)) => if !(encodes_bytes(n@) && encodes_bytes(e@)) {
                    r matches Err(m) && exists|x: Seq<char>| m@ == "Invalid key: "@ + x
                } else {
                    match r {
                        Ok(c) => token_vouches(token, k, issuers, audiences, c),
                        Err(m) => verification_failure(m@),
                    }
                },
                _ => false,
            },
            None => false,
        },
    }
}

/// Checks the ID token `token` against the provider's keys `keys`: the header
/// must name a key that is there, with its modulus and exponent; the token must
/// be signed with it (RS256), unexpired, issued by one of `issuers` for one of
/// `audiences`, and name its user (`sub`). Gives what the token vouches for.
pub fn verify_id_token(
    token: &str,
    keys: &Vec<Jwk>,
    issuers: &Vec<String>,
    audiences: &Vec<String>,
) -> (r: Result<IdClaims, String>)
    ensures
        token_answer(token@, keys@, views(issuers@), views(audiences@), r),
{
    let kid = match read_header_kid(token) {
        Ok(Some(k)) => k,
        Ok(None) => return Err("Token missing kid".to_owned()),
        Err(e) => {
            let mut m = "Invalid token header: ".to_owned();
            m.append(e.as_str());
            return Err(m);
        },
    };
    proof {
        lemma_first_key(keys@, kid@);
    }
    let i = match find_key(keys, kid.as_str()) {
        Some(i) => i,
        None => return Err("Key not found".to_owned()),
    };
    let jwk = &keys[i];
    let n = match &jwk.n {
        Some(n) => n,
        None => return Err("Missing modulus".to_owned()),
    };
    let e = match &jwk.e {
        Some(e) => e,
        None => return Err("Missing exponent".to_owned()),
    };
    let key = match rsa_key(n.as_str(), e.as_str()) {
        Ok(k) => k,
        Err(err) => {
            let mut m = "Invalid key: ".to_owned();
            m.append(err.as_str());
            return Err(m);
        },
    };
    let mut rules = rs256_validation();
    require_issuers(&mut rules, issuers);
    require_audiences(&mut rules, audiences);
    let decoded = decode_claims(token, &key, &rules);
    let ghost dec = decoded;
    let r = claims_from_decoded(decoded);
    proof {
        assert(token_key(token@, keys@) == Some(keys@[i as int]));
        let ghost res = r;
        if res is Err {
            let m = res->Err_0;
            if dec is Ok {
                let p = (dec->Ok_0)@;
                let f = if json_text_at(p, "sub"@) is None {
                    "sub"@
                } else if json_text_at(p, "aud"@) is None {
                    "aud"@
                } else {
                    "iss"@
                };
                assert(m@ == "Token verification failed: "@ + ("missing field `"@ + f + "`"@));
            } else {
                assert(m@ == "Token verification failed: "@ + (dec->Err_0)@);
            }
        }
    }
    r
}

/// The issuers of Google's ID tokens.
pub open spec fn google_issuers() -> Seq<Seq<char>> {
    seq!["accounts.google.com"@, "https://accounts.google.com"@]
}

/// Checks a Google ID token against Google's keys `keys`: issued by Google for
/// one of the configured client ids (web, iOS, Android).
pub fn verify_google_token(token: &str, keys: &Vec<Jwk>, client_ids: &Vec<String>) -> (r: Result<IdClaims, String>)
    ensures
        token_answer(token@, keys@, google_issuers(), views(client_ids@), r),
{
    let mut issuers: Vec<String> = Vec::new();
    issuers.push("accounts.google.com".to_owned());
    issuers.push("https://accounts.google.com".to_owned());
    assert(views(issuers@) =~= google_issuers());
    verify_id_token(token, keys, &issuers, client_ids)
}

/// Checks an Apple ID token against Apple's keys `keys`: issued by Apple for the
/// client id `client_id`.
pub fn verify_apple_token(token: &str, keys: &Vec<Jwk>, client_id: &str) -> (r: Result<IdClaims, String>)
    ensures
        token_answer(token@, keys@, seq!["https://appleid.apple.com"@], seq![client_id@], r),
{
    let mut issuers: Vec<String> = Vec::new();
    issuers.push("https://appleid.apple.com".to_owned());
    let mut audiences: Vec<String> = Vec::new();
    audiences.push(client_id.to_owned());
    assert(views(issuers@) =~= seq!["https://appleid.apple.com"@]);
    assert(views(audiences@) =~= seq![client_id@]);
    verify_id_token(token, keys, &issuers, &audiences)
}

} // verus!
