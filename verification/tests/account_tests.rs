use holiday_wheel::account::{
    admin_user, login_answer, login_lookup, logout_answer, me_answer, profile_answer, profile_update_answer,
    profile_user, register_auto_login, register_check, register_created, register_email_sent, register_prepare,
    rooms_answer, verification_link, verify_email_answer, verify_token_answer, Lookup, ROOM_SLOTS,
};
use holiday_wheel::auth::{
    build_auth_cookie, build_logout_cookie, logout_cookie_header, set_cookie_header, ssl_enabled, RegisterRequest,
};
use holiday_wheel::db::User;
use holiday_wheel::manager::RoomInfo;

fn user(id: i64, verified: bool, is_admin: bool) -> User {
    User {
        id,
        email: "ann@example.com".to_string(),
        password_hash: Some("pbkdf2:sha256:1$salt$x".to_string()),
        display_name: "Ann".to_string(),
        verified,
        verification_token: None,
        verification_token_expires: Some(1000),
        reset_token: None,
        reset_token_expires: None,
        created_at: 0,
        last_login_at: None,
        remember_token: None,
        is_admin,
        avatar_id: 3,
    }
}

#[test]
fn test_cookie_headers() {
    assert_eq!(set_cookie_header("abc", false), "auth_token=abc; HttpOnly; SameSite=Lax; Path=/; Max-Age=2592000");
    assert_eq!(
        set_cookie_header("abc", true),
        "auth_token=abc; HttpOnly; SameSite=Lax; Secure; Path=/; Max-Age=2592000"
    );
    assert_eq!(logout_cookie_header(), "auth_token=; HttpOnly; Path=/; Max-Age=0");
    let c = build_auth_cookie("t", true);
    assert_eq!(c.max_age_secs, 2592000);
    assert!(c.secure && c.http_only && c.same_site_lax);
    let l = build_logout_cookie();
    assert_eq!(l.value, "");
    assert_eq!(l.max_age_secs, 0);
}

#[test]
fn test_ssl_enabled_setting() {
    assert!(ssl_enabled(Some("TRUE")));
    assert!(ssl_enabled(Some("1")));
    assert!(!ssl_enabled(Some("yes")));
    assert!(!ssl_enabled(None));
}

#[test]
fn test_login_lookup() {
    match login_lookup(Lookup::Missing, "pw") {
        Err(r) => assert_eq!(r.error, Some("Invalid email or password".to_string())),
        Ok(_) => panic!("a missing account logged in"),
    }
    match login_lookup(Lookup::Failed, "pw") {
        Err(r) => assert_eq!(r.error, Some("Database error".to_string())),
        Ok(_) => panic!("a failed lookup logged in"),
    }
    match login_lookup(Lookup::Found(user(1, true, false)), "wrong") {
        Err(r) => {
            assert!(!r.ok);
            assert_eq!(r.error, Some("Invalid email or password".to_string()));
        }
        Ok(_) => panic!("a wrong password logged in"),
    }
}

#[test]
fn test_login_answer() {
    let u = user(5, true, true);
    let r = login_answer(&u, Some("tok".to_string()));
    assert!(r.ok);
    assert_eq!(r.token, Some("tok".to_string()));
    let info = r.user.unwrap();
    assert_eq!(info.id, 5);
    assert_eq!(info.is_admin, Some(true));
    let r = login_answer(&u, None);
    assert!(!r.ok);
    assert_eq!(r.error, Some("Failed to generate token".to_string()));
}

#[test]
fn test_registration_answers() {
    let (status, r) = register_check(Lookup::Found(())).unwrap();
    assert_eq!(status, 409);
    assert_eq!(r.errors, Some(vec!["Email already registered".to_string()]));
    let (status, r) = register_check(Lookup::Failed).unwrap();
    assert_eq!(status, 500);
    assert_eq!(r.errors, Some(vec!["Database error".to_string()]));
    assert!(register_check(Lookup::Missing).is_none());
    let (status, r) = register_created(None).unwrap_err();
    assert_eq!(status, 500);
    assert_eq!(r.errors, Some(vec!["Failed to create account".to_string()]));
    assert_eq!(register_created(Some(9)).ok(), Some(9));
    let req = RegisterRequest {
        email: " Ann@Example.com ".to_string(),
        password: "secret123".to_string(),
        display_name: " Ann ".to_string(),
        avatar_id: 4,
        captcha_token: None,
    };
    let account = match register_prepare(&req) {
        Ok(u) => u,
        Err(_) => panic!("the password could not be hashed"),
    };
    assert_eq!(account.email, "ann@example.com");
    let (status, r) = register_auto_login(9, &account, true);
    assert_eq!(status, 200);
    let info = r.user.unwrap();
    assert_eq!((info.id, info.email.as_str(), info.display_name.as_str(), info.avatar_id), (9, "ann@example.com", "Ann", 4));
    let (_, r) = register_auto_login(9, &account, false);
    assert_eq!(r.message, Some("Registration successful! You can now log in.".to_string()));
    let (status, r) = register_email_sent();
    assert_eq!(status, 200);
    assert_eq!(
        r.message,
        Some("Registration successful! Please check your email to verify your account.".to_string())
    );
}

#[test]
fn test_token_and_email_verification() {
    let (status, r) = verify_token_answer(None);
    assert_eq!((status, r.error), (401, Some("No token provided".to_string())));
    let (status, r) = verify_token_answer(Some(Lookup::Missing));
    assert_eq!((status, r.error), (401, Some("Invalid token".to_string())));
    let (status, r) = verify_token_answer(Some(Lookup::Failed));
    assert_eq!((status, r.error), (500, Some("Database error".to_string())));
    let (status, r) = verify_token_answer(Some(Lookup::Found(user(2, true, false))));
    assert_eq!(status, 200);
    assert_eq!(r.user.unwrap().is_admin, None);
    match verification_link(Lookup::Found(user(2, false, false)), 2000) {
        Err((status, r)) => {
            assert_eq!(status, 400);
            assert_eq!(r.error, Some("Verification link has expired. Please register again.".to_string()));
        }
        Ok(_) => panic!("an expired link was accepted"),
    }
    assert!(verification_link(Lookup::Found(user(2, false, false)), 1000).is_ok());
    match verification_link(Lookup::Missing, 0) {
        Err((status, r)) => {
            assert_eq!(status, 400);
            assert_eq!(r.error, Some("Invalid or expired verification link".to_string()));
        }
        Ok(_) => panic!("an unknown link was accepted"),
    }
    let (status, r) = verify_email_answer(true);
    assert_eq!(status, 200);
    assert_eq!(r.message, Some("Email verified successfully! You can now log in.".to_string()));
    let (status, r) = verify_email_answer(false);
    assert_eq!((status, r.error), (500, Some("Failed to verify user".to_string())));
    assert_eq!(logout_answer().message, Some("Logged out".to_string()));
    assert!(me_answer(Some(Lookup::Found(user(2, true, false)))).ok);
    assert!(!me_answer(None).ok);
}

#[test]
fn test_profile_answers() {
    match profile_user(None) {
        Err((status, r)) => assert_eq!((status, r.error), (401, Some("Authentication required".to_string()))),
        Ok(_) => panic!("no token was accepted"),
    }
    match profile_user(Some(Lookup::Failed)) {
        Err((status, r)) => assert_eq!((status, r.error), (401, Some("Invalid token".to_string()))),
        Ok(_) => panic!("an unknown token was accepted"),
    }
    let (status, r) = profile_answer(&user(3, true, false));
    assert_eq!(status, 200);
    assert_eq!(r.user.unwrap().display_name, "Ann");
    let (status, r) = profile_update_answer(false, Lookup::Missing);
    assert_eq!((status, r.error), (500, Some("Failed to update profile".to_string())));
    let (status, r) = profile_update_answer(true, Lookup::Missing);
    assert_eq!((status, r.error), (500, Some("Failed to get updated profile".to_string())));
    let (status, _) = profile_update_answer(true, Lookup::Found(user(3, true, false)));
    assert_eq!(status, 200);
}

#[test]
fn test_rooms_and_admin() {
    let rooms = vec![RoomInfo { name: "a".to_string(), player_count: 2, has_host: true }];
    let (status, r) = rooms_answer(Some(true), &rooms);
    assert_eq!(status, 200);
    let listed = r.rooms.unwrap();
    assert_eq!((listed[0].name.as_str(), listed[0].player_count, listed[0].total_slots), ("a", 2, ROOM_SLOTS));
    assert_eq!(ROOM_SLOTS, 8);
    let (status, r) = rooms_answer(None, &rooms);
    assert_eq!((status, r.error), (401, Some("No token provided".to_string())));
    let (status, r) = rooms_answer(Some(false), &rooms);
    assert_eq!((status, r.error), (401, Some("Invalid token".to_string())));
    assert!(admin_user(Some(Lookup::Found(user(1, true, true)))).is_some());
    assert!(admin_user(Some(Lookup::Found(user(1, true, false)))).is_none());
    assert!(admin_user(None).is_none());
}

#[test]
fn test_session_token_reads_back() {
    let token = holiday_wheel::auth::generate_token();
    let cookie = format!("auth_token={}", token);
    assert_eq!(holiday_wheel::auth::extract_cookie_token(Some(cookie.as_str())), Some(token.clone()));
    let header = format!("Bearer {}", token);
    assert_eq!(holiday_wheel::auth::extract_bearer_token(Some(header.as_str())), Some(token.clone()));
    assert_eq!(
        holiday_wheel::auth::extract_auth_token(None, Some(format!("theme=dark; auth_token={}", token).as_str())),
        Some(token)
    );
}
