use holiday_wheel::db::PasskeyCredential;
use holiday_wheel::passkey_records::{
    list_refusal, options_answer, options_refusal, passkey_added, passkey_deleted, passkey_list_answer,
    session_refusal, simple_refusal,
};
use holiday_wheel::account::{register_plan, register_reply};
use holiday_wheel::ceremony::{begin_authentication, begin_registration, get_webauthn};
use holiday_wheel::db::NewUser;
use holiday_wheel::passkey_records::{
    ceremony_challenges, challenge_expires_at, counter_update, taken_challenge_counts, passkey_account, passkey_signed_in, CeremonyKind, CHALLENGE_LIFETIME_SECS,
};

fn account() -> NewUser {
    NewUser {
        email: "ann@example.com".to_string(),
        password_hash: "$argon2id$v=19$m=19456,t=2,p=1$c2FsdA$aGFzaA".to_string(),
        display_name: "Ann".to_string(),
        verification_token: "V".repeat(32),
        verification_token_expires: 86_400,
        avatar_id: 3,
    }
}

#[test]
fn test_registration_without_email_signs_in() {
    let acc = account();
    let plan = register_plan(17, &acc, false);
    assert_eq!(plan.verify_account, Some(17));
    assert!(plan.verification_email.is_none());
    let (uid, token) = plan.session.clone().unwrap();
    assert_eq!(uid, 17);
    assert_eq!(token.len(), 32);
    assert!(token.chars().all(|c| c.is_ascii_alphanumeric()));

    let (status, resp, cookie) = register_reply(&plan, 17, &acc, true);
    assert_eq!(status, 200);
    assert!(resp.ok);
    assert_eq!(cookie, Some(token));
    let user = resp.user.unwrap();
    assert_eq!((user.id, user.email.as_str(), user.display_name.as_str(), user.avatar_id), (17, "ann@example.com", "Ann", 3));

    let (status, resp, cookie) = register_reply(&plan, 17, &acc, false);
    assert_eq!((status, cookie), (200, None));
    assert_eq!(resp.message.as_deref(), Some("Registration successful! You can now log in."));
}

#[test]
fn test_registration_with_email_sends_verification() {
    let acc = account();
    let plan = register_plan(17, &acc, true);
    assert!(plan.verify_account.is_none());
    assert!(plan.session.is_none());
    assert_eq!(plan.verification_email, Some(("ann@example.com".to_string(), "V".repeat(32))));
    let (status, resp, cookie) = register_reply(&plan, 17, &acc, true);
    assert_eq!((status, cookie), (200, None));
    assert_eq!(
        resp.message.as_deref(),
        Some("Registration successful! Please check your email to verify your account.")
    );
}

#[test]
fn test_ceremony_challenges_last_five_minutes() {
    let (c, s) = ceremony_challenges(&"abc".to_string(), CeremonyKind::Authentication, Some(4), None, "{}".to_string());
    assert_eq!((c.challenge.as_str(), c.user_id, c.data.clone(), c.kind.as_str()), ("abc", Some(4), None, "authentication"));
    assert_eq!(c.expires_secs, 300);
    assert_eq!((s.challenge.as_str(), s.user_id, s.data.as_deref(), s.kind.as_str()), ("state:abc", Some(4), Some("{}"), "state"));
    assert_eq!(s.expires_secs, CHALLENGE_LIFETIME_SECS);
    let (c, _) = ceremony_challenges(&"x".to_string(), CeremonyKind::Registration, None, Some("ann@example.com".to_string()), String::new());
    assert_eq!((c.kind.as_str(), c.data.as_deref()), ("registration", Some("ann@example.com")));
    let (c, _) = ceremony_challenges(&"y".to_string(), CeremonyKind::AddPasskey, Some(9), Some("Phone".to_string()), String::new());
    assert_eq!(c.kind, "add_passkey");
}

#[test]
fn test_passkey_account_and_session() {
    let acc = passkey_account("  Ann.Lee@Example.COM ");
    assert_eq!(acc.email, "ann.lee@example.com");
    assert_eq!(acc.display_name, "ann.lee");
    assert!(acc.verified);
    let (status, resp, cookie) = passkey_signed_in(5, &acc.email, &acc.display_name, "T".repeat(32));
    assert_eq!(status, 200);
    assert!(resp.ok);
    assert_eq!(resp.token, Some("T".repeat(32)));
    assert_eq!(cookie, "T".repeat(32));
    let u = resp.user.unwrap();
    assert_eq!((u.id, u.email.as_str(), u.display_name.as_str()), (5, "ann.lee@example.com", "ann.lee"));
    let c = counter_update(&"a2V5".to_string(), 42);
    assert_eq!((c.credential_key.as_str(), c.counter), ("a2V5", 42));
}

#[test]
fn test_ceremonies_started_store_their_challenge() {
    let w = get_webauthn("localhost", "Holiday Wheel", "http://localhost:5000").unwrap();
    let started = begin_registration(&w, "ann@example.com", "ann", vec![], false).unwrap();
    let (c, s) = ceremony_challenges(
        &started.challenge_key,
        CeremonyKind::Registration,
        None,
        Some("ann@example.com".to_string()),
        started.state.clone(),
    );
    assert_eq!(c.challenge, started.challenge_key);
    assert_eq!(s.data, Some(started.state));
    assert!(begin_authentication(&w, &vec![]).is_err());
}

#[test]
fn test_challenge_lifetime() {
    let expires = challenge_expires_at(1_000, CHALLENGE_LIFETIME_SECS);
    assert_eq!(expires, 1_300);
    assert!(taken_challenge_counts(expires, 1_300));
    assert!(!taken_challenge_counts(expires, 1_301));
}

#[test]
fn test_passkey_answers() {
    let (status, resp) = options_answer(serde_json::Value::Bool(true));
    assert_eq!((status, resp.ok, resp.options, resp.error), (200, true, Some(serde_json::Value::Bool(true)), None));
    let (status, resp) = options_refusal((409, "Email already registered. Try logging in instead.".to_string()));
    assert_eq!(status, 409);
    assert!(!resp.ok && resp.options.is_none());
    assert_eq!(resp.error.as_deref(), Some("Email already registered. Try logging in instead."));
    let (status, resp) = session_refusal((400, "Invalid credential: x".to_string()));
    assert_eq!((status, resp.ok, resp.token, resp.error.as_deref()), (400, false, None, Some("Invalid credential: x")));
    assert!(resp.user.is_none());
    let creds = vec![PasskeyCredential {
        id: "a2V5".to_string(),
        user_id: 3,
        public_key: vec![1],
        counter: 0,
        transports: None,
        created_at: 10,
        last_used_at: Some(20),
        device_name: Some("Phone".to_string()),
    }];
    let (status, resp) = passkey_list_answer(&creds);
    assert_eq!((status, resp.ok), (200, true));
    let list = resp.passkeys.unwrap();
    assert_eq!(list.len(), 1);
    assert_eq!((list[0].id.as_str(), list[0].device_name.as_deref(), list[0].created_at, list[0].last_used_at), ("a2V5", Some("Phone"), 10, Some(20)));
    let (status, resp) = list_refusal((401, "Invalid token".to_string()));
    assert_eq!((status, resp.ok, resp.passkeys.is_none(), resp.error.as_deref()), (401, false, true, Some("Invalid token")));
    let (status, resp) = passkey_added();
    assert_eq!((status, resp.ok, resp.message.as_deref()), (200, true, Some("Passkey added successfully")));
    let (status, resp) = passkey_deleted();
    assert_eq!((status, resp.message.as_deref(), resp.error), (200, Some("Passkey deleted"), None));
    let (status, resp) = simple_refusal((400, "Invalid registration state".to_string()));
    assert_eq!((status, resp.ok, resp.message, resp.error.as_deref()), (400, false, None, Some("Invalid registration state")));
}
