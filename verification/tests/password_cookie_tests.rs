use holiday_wheel::auth::{registration_account, RegisterRequest};
use holiday_wheel::auth::{
    build_auth_cookie, build_logout_cookie, extract_auth_token, extract_bearer_token, extract_cookie_token,
    hash_password, verify_password, verify_werkzeug_hash, AUTH_COOKIE_NAME,
};

// ========== PASSWORD HASHING ==========

#[test]
fn test_hash_password_produces_argon2_hash() {
    let hash = hash_password("testpassword123").unwrap();
    assert!(hash.starts_with("$argon2"));
}

#[test]
fn test_hash_password_different_salts() {
    let hash1 = hash_password("samepassword").unwrap();
    let hash2 = hash_password("samepassword").unwrap();
    // Same password should produce different hashes due to random salt
    assert_ne!(hash1, hash2);
}

#[test]
fn test_verify_password_correct() {
    let password = "mysecretpassword";
    let hash = hash_password(password).unwrap();
    assert!(verify_password(password, &hash));
}

#[test]
fn test_verify_password_incorrect() {
    let hash = hash_password("correctpassword").unwrap();
    assert!(!verify_password("wrongpassword", &hash));
}

#[test]
fn test_verify_password_empty_password() {
    let hash = hash_password("somepassword").unwrap();
    assert!(!verify_password("", &hash));
}

#[test]
fn test_verify_password_invalid_hash() {
    assert!(!verify_password("password", "not-a-valid-hash"));
}

#[test]
fn test_verify_werkzeug_hash() {
    // A hash in Werkzeug's format for "password123" (not a matching one).
    let werkzeug_hash = "pbkdf2:sha256:600000$cDJ8Qz7qHl$e7f5b0c3d5a9c8b7d6e4f2a1b0c3d5e7f8a9b0c1d2e3f4a5b6c7d8e9f0a1b2c3";

    // The result depends on whether the hash matches; the format must not panic.
    let result = verify_werkzeug_hash("password123", werkzeug_hash);
    assert!(!result || result);
}

#[test]
fn test_verify_werkzeug_hash_invalid_format() {
    assert!(!verify_werkzeug_hash("password", "invalid"));
    assert!(!verify_werkzeug_hash("password", "not:a:hash"));
    assert!(!verify_werkzeug_hash("password", "pbkdf2:sha256:invalid$salt$hash"));
}

// ========== TOKEN EXTRACTION ==========
// The header values are handed over as the text of the `Authorization` and
// `Cookie` headers, `None` where the header is absent.

#[test]
fn test_extract_bearer_token() {
    let token = extract_bearer_token(Some("Bearer my-secret-token"));
    assert_eq!(token, Some("my-secret-token".to_string()));
}

#[test]
fn test_extract_bearer_token_no_header() {
    assert!(extract_bearer_token(None).is_none());
}

#[test]
fn test_extract_bearer_token_wrong_prefix() {
    assert!(extract_bearer_token(Some("Basic sometoken")).is_none());
}

#[test]
fn test_extract_cookie_token() {
    let cookie = format!("{}=my-cookie-token; other=value", AUTH_COOKIE_NAME);
    let token = extract_cookie_token(Some(&cookie));
    assert_eq!(token, Some("my-cookie-token".to_string()));
}

#[test]
fn test_extract_cookie_token_no_cookie() {
    assert!(extract_cookie_token(None).is_none());
}

#[test]
fn test_extract_cookie_token_wrong_cookie_name() {
    assert!(extract_cookie_token(Some("other_cookie=value")).is_none());
}

#[test]
fn test_extract_auth_token_prefers_bearer() {
    let cookie = format!("{}=cookie-token", AUTH_COOKIE_NAME);
    // Should prefer Bearer token
    let token = extract_auth_token(Some("Bearer bearer-token"), Some(&cookie));
    assert_eq!(token, Some("bearer-token".to_string()));
}

#[test]
fn test_extract_auth_token_falls_back_to_cookie() {
    let cookie = format!("{}=cookie-token", AUTH_COOKIE_NAME);
    let token = extract_auth_token(None, Some(&cookie));
    assert_eq!(token, Some("cookie-token".to_string()));
}

// ========== COOKIE BUILDING ==========

#[test]
fn test_build_auth_cookie() {
    let cookie = build_auth_cookie("my-token", false);

    assert_eq!(cookie.name, AUTH_COOKIE_NAME);
    assert_eq!(cookie.value, "my-token");
    assert!(cookie.http_only);
    assert_eq!(cookie.path, "/");
}

#[test]
fn test_build_auth_cookie_secure() {
    let cookie = build_auth_cookie("my-token", true);
    assert!(cookie.secure);
}

#[test]
fn test_build_logout_cookie() {
    let cookie = build_logout_cookie();

    assert_eq!(cookie.name, AUTH_COOKIE_NAME);
    assert_eq!(cookie.value, "");
    // Max age should be 0 or negative to clear the cookie
    assert!(cookie.max_age_secs <= 0);
}

#[test]
fn test_registration_account_expires_a_day_later() {
    let req = RegisterRequest {
        email: "  Ann@Example.COM ".to_string(),
        password: "password1".to_string(),
        display_name: "  Ann Lee ".to_string(),
        avatar_id: 4,
        captcha_token: None,
    };
    let u = registration_account(&req, "$argon2id$x".to_string(), "T".repeat(32), 1_700_000_000);
    assert_eq!(u.email, "ann@example.com");
    assert_eq!(u.display_name, "Ann Lee");
    assert_eq!(u.password_hash, "$argon2id$x");
    assert_eq!(u.verification_token, "T".repeat(32));
    assert_eq!(u.verification_token_expires, 1_700_086_400);
    assert_eq!(u.avatar_id, 4);
}
