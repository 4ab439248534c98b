use holiday_wheel::db::PasskeyCredential;
use holiday_wheel::passkey::{
    device_label, may_delete_passkey, passkey_display_name, passkey_info, passkey_next, passkey_refusal, passkey_steps,
    state_key, Next, Outcome, PasskeyFlow, PasskeyStep,
};

fn failed(e: &str) -> Outcome {
    Outcome::Failed(e.to_string())
}

#[test]
fn test_register_start_refusals() {
    let f = PasskeyFlow::RegisterStart;
    assert_eq!(
        passkey_next(f, 0, &Outcome::Present),
        Next::Refuse(409, "Email already registered. Try logging in instead.".to_string())
    );
    assert_eq!(passkey_next(f, 0, &failed("disk full")), Next::Refuse(500, "Database error: disk full".to_string()));
    assert_eq!(passkey_next(f, 0, &Outcome::Done), Next::Go(1));
    assert_eq!(passkey_next(f, 1, &failed("WebAuthn builder error: bad")), Next::Refuse(500, "WebAuthn builder error: bad".to_string()));
    assert_eq!(passkey_next(f, 2, &failed("x")), Next::Refuse(500, "WebAuthn error: x".to_string()));
    assert_eq!(passkey_next(f, 6, &failed("y")), Next::Refuse(500, "JSON error: y".to_string()));
    assert_eq!(passkey_next(f, 6, &Outcome::Done), Next::Finish);
}

#[test]
fn test_register_finish_steps() {
    let steps = passkey_steps(PasskeyFlow::RegisterFinish);
    assert_eq!(steps.len(), 10);
    assert_eq!(steps[3], PasskeyStep::TakeState);
    let f = PasskeyFlow::RegisterFinish;
    assert_eq!(passkey_next(f, 3, &Outcome::Missing), Next::Refuse(400, "Challenge expired or not found".to_string()));
    assert_eq!(passkey_next(f, 4, &Outcome::Missing), Next::Refuse(400, "Invalid registration state".to_string()));
    assert_eq!(passkey_next(f, 5, &failed("bad signature")), Next::Refuse(400, "Registration failed: bad signature".to_string()));
    assert_eq!(passkey_next(f, 9, &failed("locked")), Next::Refuse(500, "Failed to create session: locked".to_string()));
    assert_eq!(passkey_next(f, 9, &Outcome::Done), Next::Finish);
}

#[test]
fn test_login_start_with_and_without_email() {
    let with = passkey_steps(PasskeyFlow::LoginStart { email_given: true });
    let without = passkey_steps(PasskeyFlow::LoginStart { email_given: false });
    assert_eq!(with.len(), 9);
    assert_eq!(without.len(), 7);
    assert_eq!(without[1], PasskeyStep::RequireCredentials);
    let f = PasskeyFlow::LoginStart { email_given: true };
    assert_eq!(passkey_next(f, 1, &Outcome::Missing), Next::Refuse(404, "Account not found".to_string()));
    assert_eq!(passkey_next(f, 2, &Outcome::Missing), Next::Refuse(400, "No passkeys registered for this account".to_string()));
    let g = PasskeyFlow::LoginStart { email_given: false };
    assert_eq!(passkey_next(g, 1, &Outcome::Missing), Next::Refuse(400, "Email is required for passkey login".to_string()));
}

#[test]
fn test_login_finish_refusals() {
    let f = PasskeyFlow::LoginFinish;
    assert_eq!(passkey_next(f, 1, &failed("eof")), Next::Refuse(400, "Invalid credential: eof".to_string()));
    assert_eq!(passkey_next(f, 4, &Outcome::Missing), Next::Refuse(404, "Passkey not found".to_string()));
    assert_eq!(passkey_next(f, 6, &failed("?")), Next::Refuse(400, "Invalid authentication state".to_string()));
    assert_eq!(passkey_next(f, 7, &failed("counter")), Next::Refuse(400, "Authentication failed: counter".to_string()));
    assert_eq!(passkey_next(f, 8, &Outcome::Missing), Next::Refuse(404, "User not found".to_string()));
    assert_eq!(passkey_next(f, 8, &Outcome::Done), Next::Go(9));
}

#[test]
fn test_management_refusals() {
    assert_eq!(passkey_next(PasskeyFlow::List, 0, &Outcome::Missing), Next::Refuse(401, "Authentication required".to_string()));
    assert_eq!(passkey_next(PasskeyFlow::Delete, 1, &failed("db")), Next::Refuse(401, "Invalid token".to_string()));
    assert_eq!(
        passkey_next(PasskeyFlow::Delete, 2, &Outcome::Missing),
        Next::Refuse(400, "Cannot delete last authentication method".to_string())
    );
    assert_eq!(passkey_next(PasskeyFlow::Delete, 3, &Outcome::Missing), Next::Refuse(404, "Passkey not found".to_string()));
    assert_eq!(passkey_next(PasskeyFlow::AddFinish, 6, &failed("dup")), Next::Refuse(500, "Failed to store passkey: dup".to_string()));
    assert_eq!(passkey_next(PasskeyFlow::AddStart, 3, &Outcome::Done), Next::Finish);
    assert_eq!(passkey_refusal(PasskeyStep::ReadStoredPasskey, &Outcome::Done), None);
}

#[test]
fn test_may_delete_passkey() {
    assert!(!may_delete_passkey(1, false, 0));
    assert!(!may_delete_passkey(0, false, 0));
    assert!(may_delete_passkey(2, false, 0));
    assert!(may_delete_passkey(1, true, 0));
    assert!(may_delete_passkey(1, false, 1));
}

#[test]
fn test_passkey_display_name() {
    assert_eq!(passkey_display_name("ann@example.com"), "ann");
    assert_eq!(passkey_display_name("no-at-sign"), "no-at-sign");
    assert_eq!(passkey_display_name("@x"), "");
    assert_eq!(passkey_display_name("a@b@c"), "a");
}

#[test]
fn test_passkey_labels_and_keys() {
    assert_eq!(device_label(None), "Unknown Device");
    assert_eq!(device_label(Some("Phone".to_string())), "Phone");
    assert_eq!(state_key("abc"), "state:abc");
    let cred = PasskeyCredential {
        id: "cred".to_string(),
        user_id: 7,
        public_key: vec![1, 2],
        counter: 0,
        transports: None,
        created_at: 100,
        last_used_at: Some(200),
        device_name: Some("Laptop".to_string()),
    };
    let info = passkey_info(&cred);
    assert_eq!(info.id, "cred");
    assert_eq!(info.device_name, Some("Laptop".to_string()));
    assert_eq!(info.created_at, 100);
    assert_eq!(info.last_used_at, Some(200));
}
