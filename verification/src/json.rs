//! JSON documents and JSON web tokens, as the serde_json and jsonwebtoken
//! crates read them. A document is kept with the bytes it was read from, so
//! that what is read out of it can be stated over those bytes; the checks that
//! a token must pass are kept with the settings they were made from.
use vstd::prelude::*;
use jsonwebtoken::{DecodingKey, Validation};
use crate::config::views;
use crate::passkey::encodes_bytes;

verus! {

#[verifier::external_type_specification]
#[verifier::external_body]
pub struct ExJsonValue(serde_json::Value);

#[verifier::external_type_specification]
#[verifier::external_body]
pub struct ExDecodingKey(DecodingKey);

#[verifier::external_type_specification]
#[verifier::external_body]
pub struct ExValidation(Validation);

// ========== JSON DOCUMENTS ==========

/// The text of the error with which `serde_json::from_slice` refuses `bytes` as
/// a JSON value; `None` when they are one.
pub uninterp spec fn json_parse_error(bytes: Seq<u8>) -> Option<Seq<char>>;

/// The member `key` of the JSON value that serde_json reads from `json`, when
/// it is a string (`value[key].as_str()`).
pub uninterp spec fn json_text_at(json: Seq<u8>, key: Seq<char>) -> Option<Seq<char>>;

/// The member `key` of the JSON value that serde_json reads from `json`, when
/// it is a boolean (`value[key].as_bool()`).
pub uninterp spec fn json_bool_at(json: Seq<u8>, key: Seq<char>) -> Option<bool>;

/// The payload of the JSON web token `token`: the part between its last two
/// dots, base64url-decoded (the JSON text of its claims).
pub uninterp spec fn token_payload(token: Seq<char>) -> Seq<u8>;

/// What a JSON document was read from.
enum JsonSource {
    /// These bytes.
    Bytes(Vec<u8>),
    /// The payload of this token.
    TokenPayload(String),
}

/// A JSON value with what it was read from. Only `read_json` and
/// `decode_claims` make one, so its view is the JSON text of the value.
pub struct JsonDoc {
    value: serde_json::Value,
    source: JsonSource,
}

impl View for JsonDoc {
    type V = Seq<u8>;

    closed spec fn view(&self) -> Seq<u8> {
        match &self.source {
            JsonSource::Bytes(b) => b@,
            JsonSource::TokenPayload(t) => token_payload(t@),
        }
    }
}

/// `serde_json::from_slice` into a JSON value. Trusted: whether the bytes are
/// JSON, and the text of the error when they are not, are a function of the
/// bytes alone; the value is kept with the bytes it was read from.
#[verifier::external_body]
pub(crate) fn read_json(bytes: &Vec<u8>) -> (r: Result<JsonDoc, String>)
    ensures
        match json_parse_error(bytes@) {
            None => r matches Ok(d) && d@ == bytes@,
            Some(e) => r matches Err(m) && m@ == e,
        },
{
    match serde_json::from_slice(bytes.as_slice()) {
        Ok(v) => Ok(JsonDoc { value: v, source: JsonSource::Bytes(bytes.clone()) }),
        Err(e) => Err(e.to_string()),
    }
}

/// The text of the member `key` of a JSON document (`value[key].as_str()`), if
/// it is a string. Trusted: it is what serde_json reads there from the
/// document's JSON text.
#[verifier::external_body]
pub(crate) fn json_text_member(doc: &JsonDoc, key: &str) -> (r: Option<String>)
    ensures
        match r {
            Some(s) => json_text_at(doc@, key@) == Some(s@),
            None => json_text_at(doc@, key@) is None,
        },
{
    doc.value[key].as_str().map(|s| s.to_owned())
}

/// The boolean member `key` of a JSON document (`value[key].as_bool()`), if it
/// is one. Trusted: it is what serde_json reads there from the document's JSON
/// text.
#[verifier::external_body]
pub(crate) fn json_bool_member(doc: &JsonDoc, key: &str) -> (r: Option<bool>)
    ensures
        r == json_bool_at(doc@, key@),
{
    doc.value[key].as_bool()
}

// ========== JSON WEB TOKENS ==========

/// An RSA public key for checking token signatures, with the base64url texts of
/// its modulus and exponent. Only `rsa_key` makes one.
pub struct RsaKey {
    key: DecodingKey,
    n: String,
    e: String,
}

impl View for RsaKey {
    type V = (Seq<char>, Seq<char>);

    closed spec fn view(&self) -> (Seq<char>, Seq<char>) {
        (self.n@, self.e@)
    }
}

/// `DecodingKey::from_rsa_components`. Trusted: as the crate's source shows, it
/// decodes the modulus and the exponent with URL-safe base64 without padding
/// and fails exactly when one of them does not decode; the key is kept with the
/// two texts; an error is given back as its text.
#[verifier::external_body]
pub(crate) fn rsa_key(n: &str, e: &str) -> (r: Result<RsaKey, String>)
    ensures
        match r {
            Ok(k) => encodes_bytes(n@) && encodes_bytes(e@) && k@.0 == n@ && k@.1 == e@,
            Err(_) => !(encodes_bytes(n@) && encodes_bytes(e@)),
        },
{
    match DecodingKey::from_rsa_components(n, e) {
        Ok(k) => Ok(RsaKey { key: k, n: n.to_owned(), e: e.to_owned() }),
        Err(err) => Err(err.to_string()),
    }
}

/// The checks a token must pass, as settings: the one signature algorithm
/// accepted, and the accepted issuers and audiences (`None`: not set).
pub struct TokenRulesModel {
    pub algorithm: Seq<char>,
    pub issuers: Option<Seq<Seq<char>>>,
    pub audiences: Option<Seq<Seq<char>>>,
}

/// The checks jsonwebtoken applies to a token (`Validation`), with the issuers
/// and audiences they were given. Only `rs256_validation` makes one and only
/// `require_issuers` and `require_audiences` change it.
pub struct TokenRules {
    validation: Validation,
    issuers: Option<Vec<String>>,
    audiences: Option<Vec<String>>,
}

impl View for TokenRules {
    type V = TokenRulesModel;

    closed spec fn view(&self) -> TokenRulesModel {
        TokenRulesModel {
            algorithm: "RS256"@,
            issuers: match &self.issuers {
                Some(v) => Some(views(v@)),
                None => None,
            },
            audiences: match &self.audiences {
                Some(v) => Some(views(v@)),
                None => None,
            },
        }
    }
}

/// `Validation::new(Algorithm::RS256)`. Trusted: as the crate's source shows,
/// it accepts RS256 signatures only, checks the expiry and the audience, and
/// sets no issuers and no audiences.
#[verifier::external_body]
pub(crate) fn rs256_validation() -> (r: TokenRules)
    ensures
        r@ == (TokenRulesModel { algorithm: "RS256"@, issuers: None, audiences: None }),
{
    TokenRules { validation: Validation::new(jsonwebtoken::Algorithm::RS256), issuers: None, audiences: None }
}

/// `Validation::set_issuer`. Trusted: it sets the accepted issuers to
/// `issuers` and changes nothing else.
#[verifier::external_body]
pub(crate) fn require_issuers(rules: &mut TokenRules, issuers: &Vec<String>)
    ensures
        final(rules)@ == (TokenRulesModel { issuers: Some(views(issuers@)), ..old(rules)@ }),
{
    rules.validation.set_issuer(issuers.as_slice());
    rules.issuers = Some(issuers.clone());
}

/// `Validation::set_audience`. Trusted: it sets the accepted audiences to
/// `audiences` and changes nothing else.
#[verifier::external_body]
pub(crate) fn require_audiences(rules: &mut TokenRules, audiences: &Vec<String>)
    ensures
        final(rules)@ == (TokenRulesModel { audiences: Some(views(audiences@)), ..old(rules)@ }),
{
    rules.validation.set_audience(audiences.as_slice());
    rules.audiences = Some(audiences.clone());
}

/// The header of `token` names the algorithm `algorithm`, and the token's
/// signature verifies with it under the RSA key whose modulus and exponent
/// have the base64url texts `n` and `e`.
pub uninterp spec fn jwt_signed(token: Seq<char>, algorithm: Seq<char>, n: Seq<char>, e: Seq<char>) -> bool;

/// `jsonwebtoken::decode` into a JSON value: the signature, the expiry (against
/// the clock), the issuer and the audience are checked. Trusted, as the crate's
/// source shows: whether it succeeds rests on the time, so only what holds of a
/// success is stated. Then the token is signed with `key` under the rules'
/// algorithm; an issuer given as a string is one of the rules' issuers, when
/// these are set; an audience given as a string is one of the rules'
/// audiences (which must then be set); and the value is read from the token's
/// payload. An error is given back as its text.
#[verifier::external_body]
pub(crate) fn decode_claims(token: &str, key: &RsaKey, rules: &TokenRules) -> (r: Result<JsonDoc, String>)
    ensures
        r matches Ok(d) ==> {
            &&& d@ == token_payload(token@)
            &&& jwt_signed(token@, rules@.algorithm, key@.0, key@.1)
            &&& (json_text_at(d@, "iss"@) matches Some(i) ==> (rules@.issuers matches Some(s) ==> s.contains(i)))
            &&& (json_text_at(d@, "aud"@) matches Some(a) ==> (rules@.audiences matches Some(s) && s.contains(a)))
        },
{
    match jsonwebtoken::decode::<serde_json::Value>(token, &key.key, &rules.validation) {
        Ok(data) => Ok(JsonDoc { value: data.claims, source: JsonSource::TokenPayload(token.to_owned()) }),
        Err(e) => Err(e.to_string()),
    }
}

} // verus!
