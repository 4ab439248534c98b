use holiday_wheel::ceremony::{
    authentication_finished, registration_user,
    begin_authentication, begin_registration, check_stored_passkey, complete_authentication, complete_registration,
    exclusion_ids, get_webauthn, read_authentication, read_registration, registration_options,
};
use holiday_wheel::passkey::{credential_key, decode_credential_key};

fn sample_assertion() -> serde_json::Value {
    serde_json::from_str(
        r#"{"id":"AAAA","rawId":"AAAA","response":{"authenticatorData":"AAAA","clientDataJSON":"eyJjaGFsbGVuZ2UiOiJhYmMifQ","signature":"AAAA"},"type":"public-key"}"#,
    )
    .unwrap()
}

#[test]
fn test_get_webauthn_configurations() {
    assert!(get_webauthn("localhost", "Holiday Wheel", "http://localhost:5000").is_ok());
    match get_webauthn("localhost", "Holiday Wheel", "not a url") {
        Err(m) => assert!(m.starts_with("Invalid RP origin: ")),
        Ok(_) => panic!("an invalid origin was accepted"),
    }
    match get_webauthn("example.com", "Holiday Wheel", "http://localhost:5000") {
        Err(m) => assert!(m.starts_with("WebAuthn builder error: ")),
        Ok(_) => panic!("an origin outside the relying party was accepted"),
    }
}

#[test]
fn test_begin_registration() {
    let w = get_webauthn("localhost", "Holiday Wheel", "http://localhost:5000").unwrap();
    let started = match begin_registration(&w, "ann@example.com", "ann", vec![], false) {
        Ok(s) => s,
        Err(e) => panic!("registration did not start: {:?}", e),
    };
    assert!(!started.challenge_bytes.is_empty());
    assert_eq!(started.challenge_key, credential_key(&started.challenge_bytes));
    assert!(!started.state.is_empty());
    assert!(registration_options(&started.challenge, false).is_ok());
}

#[test]
fn test_begin_authentication_needs_passkeys() {
    let w = get_webauthn("localhost", "Holiday Wheel", "http://localhost:5000").unwrap();
    match begin_authentication(&w, &vec![]) {
        Err(e) => assert_eq!(e, (400, "Email is required for passkey login".to_string())),
        Ok(_) => panic!("a sign-in started without passkeys"),
    }
    match begin_authentication(&w, &vec![b"not a passkey".to_vec()]) {
        Err(e) => assert_eq!(e, (400, "Email is required for passkey login".to_string())),
        Ok(_) => panic!("a sign-in started with an unreadable passkey"),
    }
}

#[test]
fn test_read_authentication_and_missing_state() {
    let w = get_webauthn("localhost", "Holiday Wheel", "http://localhost:5000").unwrap();
    let resp = match read_authentication(sample_assertion()) {
        Ok(r) => r,
        Err(e) => panic!("the assertion was not read: {:?}", e),
    };
    assert_eq!(resp.challenge, "abc");
    assert_eq!(resp.raw_id, vec![0u8, 0, 0]);
    assert_eq!(resp.key, "AAAA");
    assert_eq!(
        complete_authentication(&w, &resp.credential, None),
        Err((400, "Invalid authentication state".to_string()))
    );
    assert_eq!(
        complete_authentication(&w, &resp.credential, Some("not a state".to_string())),
        Err((400, "Invalid authentication state".to_string()))
    );
}

#[test]
fn test_unreadable_requests() {
    let empty: serde_json::Value = serde_json::from_str("{}").unwrap();
    match read_authentication(empty.clone()) {
        Err((status, msg)) => {
            assert_eq!(status, 400);
            assert!(msg.starts_with("Invalid credential: "));
        }
        Ok(_) => panic!("an empty credential was read"),
    }
    match read_registration(empty, false) {
        Err((status, msg)) => {
            assert_eq!(status, 400);
            assert!(msg.starts_with("Invalid credential: "));
        }
        Ok(_) => panic!("an empty credential was read"),
    }
    match check_stored_passkey(&b"{}".to_vec()) {
        Err((status, msg)) => {
            assert_eq!(status, 500);
            assert!(msg.starts_with("Invalid stored passkey: "));
        }
        Ok(()) => panic!("an empty passkey record was read"),
    }
}

#[test]
fn test_exclusion_ids() {
    let keys = vec!["aGVsbG8".to_string(), "not base64!".to_string(), "AAAA".to_string()];
    assert_eq!(exclusion_ids(&keys), vec![b"hello".to_vec(), vec![0u8, 0, 0]]);
}

#[test]
fn test_begin_registration_with_exclusions() {
    let w = get_webauthn("localhost", "Holiday Wheel", "http://localhost:5000").unwrap();
    let started = match begin_registration(&w, "bob@example.com", "bob", vec![vec![1, 2, 3]], true) {
        Ok(s) => s,
        Err(e) => panic!("registration did not start: {:?}", e),
    };
    assert_eq!(started.challenge_key, credential_key(&started.challenge_bytes));
}

#[test]
fn test_only_canonical_keys_decode() {
    assert_eq!(decode_credential_key("aGVsbG8"), Some(b"hello".to_vec()));
    // Unused bits set in the last character, padding, or a stray length: refused.
    assert_eq!(decode_credential_key("aGVsbG9"), None);
    assert_eq!(decode_credential_key("aGVsbG8="), None);
    assert_eq!(decode_credential_key("A"), None);
    let keys = vec!["aGVsbG9".to_string(), "AAAA".to_string()];
    assert_eq!(exclusion_ids(&keys), vec![vec![0u8, 0, 0]]);
}

#[test]
fn test_authentication_finish_outcomes() {
    assert_eq!(authentication_finished(Ok(7)), Ok(7));
    assert_eq!(
        authentication_finished(Err("bad signature".to_string())),
        Err((400, "Authentication failed: bad signature".to_string()))
    );
}

#[test]
fn test_registration_user_and_started_user() {
    let u = registration_user("ann@example.com", "Ann", vec![vec![1, 2]]);
    assert_eq!(u.handle.len(), 16);
    assert_eq!((u.user_name.as_str(), u.display_name.as_str()), ("ann@example.com", "Ann"));
    assert_eq!(u.exclude, vec![vec![1u8, 2]]);
    let w = get_webauthn("localhost", "Holiday Wheel", "http://localhost:5000").unwrap();
    let started = begin_registration(&w, "ann@example.com", "Ann", vec![vec![1, 2]], false).unwrap();
    assert_eq!(started.user.handle, u.handle);
    assert_eq!(started.user.exclude, vec![vec![1u8, 2]]);
}

#[test]
fn test_webauthn_origin_domains() {
    assert!(get_webauthn("example.com", "Holiday Wheel", "https://app.example.com").is_ok());
    assert!(get_webauthn("example.com", "Holiday Wheel", "https://example.com:8443").is_ok());
    match get_webauthn("example.com", "Holiday Wheel", "https://myexample.com") {
        Err(m) => assert_eq!(m, "WebAuthn builder error: The configuration was invalid"),
        Ok(_) => panic!("a domain that only ends in the id was accepted"),
    }
    match get_webauthn("127.0.0.1", "Holiday Wheel", "http://127.0.0.1:5000") {
        Err(m) => assert!(m.starts_with("WebAuthn builder error: ")),
        Ok(_) => panic!("an origin without a domain was accepted"),
    }
}

#[test]
fn test_started_registration_state_reads_back() {
    let w = get_webauthn("localhost", "Holiday Wheel", "http://localhost:5000").unwrap();
    let started = begin_registration(&w, "ann@example.com", "Ann", vec![], false).unwrap();
    let attestation: serde_json::Value = serde_json::from_str(
        r#"{"id":"AAAA","rawId":"AAAA","response":{"attestationObject":"AAAA","clientDataJSON":"eyJjaGFsbGVuZ2UiOiJhYmMifQ"},"type":"public-key"}"#,
    )
    .unwrap();
    let (credential, challenge) = read_registration(attestation, false).unwrap();
    assert_eq!(challenge, "abc");
    // The stored state is read back; the forged attestation is what fails.
    match complete_registration(&w, &credential, Some(started.state.clone()), false) {
        Err((status, msg)) => {
            assert_eq!(status, 400);
            assert!(msg.starts_with("Registration failed: "));
        }
        Ok(_) => panic!("a forged attestation was accepted"),
    }
    match complete_registration(&w, &credential, Some("{}".to_string()), false) {
        Err(e) => assert_eq!(e, (400, "Invalid registration state".to_string())),
        Ok(_) => panic!("an empty state was read"),
    }
}
