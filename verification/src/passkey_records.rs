//! What the passkey endpoints store and answer: the challenges of a ceremony
//! and their lifetime, the account a passkey registration creates, the passkey
//! stored for it, the counter kept after a sign-in, and the answer that signs
//! the user in.
use vstd::prelude::*;
use crate::auth::registration_email;
use crate::ceremony::{Refusal, RegistrationFinished};
use crate::db::PasskeyCredential;
use crate::passkey::{before_at, passkey_display_name, passkey_info, state_key, PasskeyInfo};
use crate::text::{spec_to_lowercase, trim_seq};

verus! {

// ========== CHALLENGES ==========

/// How long a stored challenge and its ceremony state stay usable, in seconds.
pub const CHALLENGE_LIFETIME_SECS: i64 = 300;

/// A challenge row to store: the challenge (or state) key, the account it
/// belongs to, the data kept with it, its kind, and its lifetime in seconds.
#[derive(Debug, Clone)]
pub struct ChallengeRecord {
    pub challenge: String,
    pub user_id: Option<i64>,
    pub data: Option<String>,
    pub kind: String,
    pub expires_secs: i64,
}

/// The ceremony a challenge belongs to.
#[derive(Debug, Clone, Copy, PartialEq, Eq, Structural)]
pub enum CeremonyKind {
    /// Registering a new account with a passkey.
    Registration,
    /// Signing in with a passkey.
    Authentication,
    /// Adding a passkey to a signed-in account.
    AddPasskey,
}

/// The name under which challenges of `kind` are stored.
pub open spec fn ceremony_name(kind: CeremonyKind) -> Seq<char> {
    match kind {
        CeremonyKind::Registration => "registration"@,
        CeremonyKind::Authentication => "authentication"@,
        CeremonyKind::AddPasskey => "add_passkey"@,
    }
}

fn ceremony_text(kind: CeremonyKind) -> (r: String)
    ensures
        r@ == ceremony_name(kind),
{
    match kind {
        CeremonyKind::Registration => "registration".to_owned(),
        CeremonyKind::Authentication => "authentication".to_owned(),
        CeremonyKind::AddPasskey => "add_passkey".to_owned(),
    }
}

/// The two rows a started ceremony stores, both for `CHALLENGE_LIFETIME_SECS`:
/// the challenge under its key, with the account and the data of the ceremony
/// (the email of a registration, the device of an added passkey); and the
/// ceremony state under `state:` and the key, with the same account.
pub fn ceremony_challenges(
    challenge_key: &String,
    kind: CeremonyKind,
    user_id: Option<i64>,
    data: Option<String>,
    state: String,
) -> (r: (ChallengeRecord, ChallengeRecord))
    ensures
        r.0.challenge@ == challenge_key@,
        r.0.user_id == user_id,
        r.0.data == data,
        r.0.kind@ == ceremony_name(kind),
        r.0.expires_secs == CHALLENGE_LIFETIME_SECS,
        r.1.challenge@ == "state:"@ + challenge_key@,
        r.1.user_id == user_id,
        r.1.data == Some(state),
        r.1.kind@ == "state"@,
        r.1.expires_secs == CHALLENGE_LIFETIME_SECS,
{
    let first = ChallengeRecord {
        challenge: challenge_key.clone(),
        user_id,
        data,
        kind: ceremony_text(kind),
        expires_secs: CHALLENGE_LIFETIME_SECS,
    };
    let second = ChallengeRecord {
        challenge: state_key(challenge_key.as_str()),
        user_id,
        data: Some(state),
        kind: "state".to_owned(),
        expires_secs: CHALLENGE_LIFETIME_SECS,
    };
    (first, second)
}

/// When a challenge stored at `now_secs` for `lifetime_secs` seconds expires.
pub fn challenge_expires_at(now_secs: i64, lifetime_secs: i64) -> (r: i64)
    requires
        i64::MIN <= now_secs + lifetime_secs <= i64::MAX,
    ensures
        r == now_secs + lifetime_secs,
{
    now_secs + lifetime_secs
}

/// A challenge is used once: taking it deletes it, and it counts only when it
/// had not expired, at `now_secs`, by `expires_at`.
pub fn taken_challenge_counts(expires_at: i64, now_secs: i64) -> (r: bool)
    ensures
        r == (expires_at >= now_secs),
{
    expires_at >= now_secs
}

// ========== ACCOUNTS AND PASSKEYS ==========

/// The account a passkey registration creates: the email trimmed and
/// lower-cased, the display name the email before its `@`, no password, and
/// verified (the passkey proves the device).
#[derive(Debug, Clone)]
pub struct PasskeyAccount {
    pub email: String,
    pub display_name: String,
    pub verified: bool,
}

/// `a` is the account a passkey registration with `email` creates.
pub open spec fn passkey_account_for(a: PasskeyAccount, email: Seq<char>) -> bool {
    &&& a.email@ == spec_to_lowercase(trim_seq(email))
    &&& a.display_name@ == before_at(a.email@)
    &&& a.verified
}

/// The account a passkey registration with `email` creates.
pub fn passkey_account(email: &str) -> (r: PasskeyAccount)
    ensures
        passkey_account_for(r, email@),
{
    let e = registration_email(email);
    let name = passkey_display_name(e.as_str());
    PasskeyAccount { email: e, display_name: name, verified: true }
}

/// A passkey row to store: its key (the credential id in URL-safe base64), its
/// account, its stored form, the signature counter, the transports and the
/// device's name.
#[derive(Debug, Clone)]
pub struct NewPasskey {
    pub id: String,
    pub user_id: i64,
    pub public_key: Vec<u8>,
    pub counter: i64,
    pub transports: Option<String>,
    pub device_name: Option<String>,
}

/// `p` is the row that stores the passkey of `done` for the account `user_id`:
/// under its key, in its stored form, with counter 0, no transports and the
/// device's name `device_name`.
pub open spec fn stores_passkey(p: NewPasskey, done: RegistrationFinished, user_id: i64, device_name: Option<String>) -> bool {
    &&& p.id@ == done.key@
    &&& p.user_id == user_id
    &&& p.public_key@ == done.record@
    &&& p.counter == 0
    &&& p.transports is None
    &&& p.device_name == device_name
}

/// The row that stores the passkey of a finished registration for the account
/// `user_id`: under its key, in its stored form, with counter 0 and no
/// transports.
pub fn new_passkey(done: &RegistrationFinished, user_id: i64, device_name: Option<String>) -> (r: NewPasskey)
    ensures
        stores_passkey(r, *done, user_id, device_name),
{
    NewPasskey {
        id: done.key.clone(),
        user_id,
        public_key: done.record.clone(),
        counter: 0,
        transports: None,
        device_name,
    }
}

/// The signature counter to keep for the passkey stored under `key` after a
/// sign-in.
#[derive(Debug, Clone)]
pub struct CounterUpdate {
    pub credential_key: String,
    pub counter: i64,
}

/// After a sign-in with the passkey stored under `key`, its counter becomes the
/// one the authenticator reported.
pub fn counter_update(key: &String, counter: u32) -> (r: CounterUpdate)
    ensures
        r.credential_key@ == key@,
        r.counter == counter as i64,
{
    CounterUpdate { credential_key: key.clone(), counter: counter as i64 }
}

// ========== SIGNED IN ==========

/// The account shown to a client signed in with a passkey.
#[derive(Debug, Clone)]
pub struct PasskeyUser {
    pub id: i64,
    pub email: String,
    pub display_name: String,
}

/// The answer to a finished passkey registration or sign-in.
#[derive(Debug, Clone)]
pub struct PasskeySessionResponse {
    pub ok: bool,
    pub token: Option<String>,
    pub user: Option<PasskeyUser>,
    pub error: Option<String>,
}

/// `r` is the answer that signs the account `user_id`, with `email` and
/// `display_name`, in with the session token `token`, and the cookie it sets.
pub open spec fn signs_in(
    r: (u16, PasskeySessionResponse, String),
    user_id: i64,
    email: Seq<char>,
    display_name: Seq<char>,
    token: String,
) -> bool {
    &&& r.0 == 200
    &&& r.1.ok
    &&& r.1.error is None
    &&& r.1.token == Some(token)
    &&& r.1.user matches Some(u) && u.id == user_id && u.email@ == email && u.display_name@ == display_name
    &&& r.2 == token
}

/// The answer that signs the account `user_id` in with the session token
/// `token` (stored for it beforehand), and the token to set as the auth cookie:
/// the same token.
pub fn passkey_signed_in(user_id: i64, email: &String, display_name: &String, token: String) -> (r: (
    u16,
    PasskeySessionResponse,
    String,
))
    ensures
        signs_in(r, user_id, email@, display_name@, token),
{
    let user = PasskeyUser { id: user_id, email: email.clone(), display_name: display_name.clone() };
    (200, PasskeySessionResponse { ok: true, token: Some(token.clone()), user: Some(user), error: None }, token)
}

// ========== REQUESTS AND ANSWERS ==========

/// A request to start a passkey registration.
#[derive(Debug, Clone)]
pub struct RegisterStartRequest {
    pub email: String,
    pub display_name: String,
}

/// A request to finish a passkey registration, with the client's credential.
#[derive(Debug)]
pub struct RegisterFinishRequest {
    pub email: String,
    pub credential: serde_json::Value,
}

/// A request to start a passkey sign-in, for an account or for any passkey.
#[derive(Debug, Clone)]
pub struct LoginStartRequest {
    pub email: Option<String>,
}

/// A request to finish a passkey sign-in, with the client's credential.
#[derive(Debug)]
pub struct LoginFinishRequest {
    pub credential: serde_json::Value,
}

/// A request to start adding a passkey to the signed-in account.
#[derive(Debug, Clone)]
pub struct AddPasskeyStartRequest {
    pub device_name: Option<String>,
}

/// A request to delete one of the signed-in account's passkeys.
#[derive(Debug, Clone)]
pub struct DeletePasskeyRequest {
    pub credential_id: String,
}

/// The answer to a started registration or sign-in: the options for the
/// client, or the error.
#[derive(Debug)]
pub struct PasskeyOptionsResponse {
    pub ok: bool,
    pub options: Option<serde_json::Value>,
    pub error: Option<String>,
}

/// The answer that gives the client the options of a started ceremony.
pub fn options_answer(options: serde_json::Value) -> (r: (u16, PasskeyOptionsResponse))
    ensures
        r.0 == 200,
        r.1.ok,
        r.1.options == Some(options),
        r.1.error is None,
{
    (200, PasskeyOptionsResponse { ok: true, options: Some(options), error: None })
}

/// The answer to a start request that ended with `f`.
pub fn options_refusal(f: Refusal) -> (r: (u16, PasskeyOptionsResponse))
    ensures
        r.0 == f.0,
        !r.1.ok,
        r.1.options is None,
        r.1.error == Some(f.1),
{
    (f.0, PasskeyOptionsResponse { ok: false, options: None, error: Some(f.1) })
}

/// The answer to a finish request that ended with `f`.
pub fn session_refusal(f: Refusal) -> (r: (u16, PasskeySessionResponse))
    ensures
        r.0 == f.0,
        !r.1.ok,
        r.1.token is None,
        r.1.user is None,
        r.1.error == Some(f.1),
{
    (f.0, PasskeySessionResponse { ok: false, token: None, user: None, error: Some(f.1) })
}

/// The answer to a request for the signed-in account's passkeys.
#[derive(Debug, Clone)]
pub struct PasskeyListResponse {
    pub ok: bool,
    pub passkeys: Option<Vec<PasskeyInfo>>,
    pub error: Option<String>,
}

/// The answer that lists the passkeys `creds`, each as `passkey_info` shows it,
/// in order.
pub fn passkey_list_answer(creds: &Vec<PasskeyCredential>) -> (r: (u16, PasskeyListResponse))
    ensures
        r.0 == 200,
        r.1.ok,
        r.1.error is None,
        r.1.passkeys matches Some(list) && list@.len() == creds@.len() && forall|i: int| 0 <= i < creds@.len() ==> {
            &&& (#[trigger] list@[i]).id@ == creds@[i].id@
            &&& list@[i].device_name == creds@[i].device_name
            &&& list@[i].created_at == creds@[i].created_at
            &&& list@[i].last_used_at == creds@[i].last_used_at
        },
{
    let mut list: Vec<PasskeyInfo> = Vec::new();
    let mut i: usize = 0;
    while i < creds.len()
        invariant
            i <= creds@.len(),
            list@.len() == i,
            forall|j: int| 0 <= j < i ==> {
                &&& (#[trigger] list@[j]).id@ == creds@[j].id@
                &&& list@[j].device_name == creds@[j].device_name
                &&& list@[j].created_at == creds@[j].created_at
                &&& list@[j].last_used_at == creds@[j].last_used_at
            },
        decreases creds@.len() - i,
    {
        list.push(passkey_info(&creds[i]));
        i += 1;
    }
    (200, PasskeyListResponse { ok: true, passkeys: Some(list), error: None })
}

/// The answer to a list request that ended with `f`.
pub fn list_refusal(f: Refusal) -> (r: (u16, PasskeyListResponse))
    ensures
        r.0 == f.0,
        !r.1.ok,
        r.1.passkeys is None,
        r.1.error == Some(f.1),
{
    (f.0, PasskeyListResponse { ok: false, passkeys: None, error: Some(f.1) })
}

/// The answer to adding or deleting a passkey: a message, or the error.
#[derive(Debug, Clone)]
pub struct SimpleResponse {
    pub ok: bool,
    pub message: Option<String>,
    pub error: Option<String>,
}

/// The answer when a passkey was added to the account.
pub fn passkey_added() -> (r: (u16, SimpleResponse))
    ensures
        r.0 == 200,
        r.1.ok,
        r.1.message matches Some(m) && m@ == "Passkey added successfully"@,
        r.1.error is None,
{
    (200, SimpleResponse { ok: true, message: Some("Passkey added successfully".to_owned()), error: None })
}

/// The answer when a passkey was deleted.
pub fn passkey_deleted() -> (r: (u16, SimpleResponse))
    ensures
        r.0 == 200,
        r.1.ok,
        r.1.message matches Some(m) && m@ == "Passkey deleted"@,
        r.1.error is None,
{
    (200, SimpleResponse { ok: true, message: Some("Passkey deleted".to_owned()), error: None })
}

/// The answer to an add or delete request that ended with `f`.
pub fn simple_refusal(f: Refusal) -> (r: (u16, SimpleResponse))
    ensures
        r.0 == f.0,
        !r.1.ok,
        r.1.message is None,
        r.1.error == Some(f.1),
{
    (f.0, SimpleResponse { ok: false, message: None, error: Some(f.1) })
}

} // verus!
