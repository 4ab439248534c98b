use holiday_wheel::auth::{
    check_login, default_avatar, extract_auth_token, extract_bearer_token, extract_cookie_token, generate_token,
    prepare_registration, registration_email, should_become_admin, user_info, verify_password,
    verify_werkzeug_hash, RegisterRequest, AUTH_COOKIE_NAME,
};
use holiday_wheel::db::{room_config_csv, room_config_from_row, uses_all_packs, RoomConfigRow, User};

const WERKZEUG_ONE_ROUND: &str =
    "pbkdf2:sha256:1$salt$120fb6cffcf8b32c43e7225256c4f837a86548c92ccc35480805987cb70be17b";
const WERKZEUG_TWO_ROUNDS: &str =
    "pbkdf2:sha256:2$salt$ae4d0c95af6b46d32d0adff928f06dd02a303f8ef3c251dfd6e2d85a95474c43";

fn user_with(hash: Option<&str>, verified: bool) -> User {
    User {
        id: 7,
        email: "a@b.c".to_string(),
        password_hash: hash.map(|h| h.to_string()),
        display_name: "Ann".to_string(),
        verified,
        verification_token: None,
        verification_token_expires: None,
        reset_token: None,
        reset_token_expires: None,
        created_at: 0,
        last_login_at: None,
        remember_token: None,
        is_admin: false,
        avatar_id: 4,
    }
}

#[test]
fn test_cookie_name_and_default_avatar() {
    assert_eq!(AUTH_COOKIE_NAME, "auth_token");
    assert_eq!(default_avatar(), 1);
}

#[test]
fn test_bearer_token() {
    assert_eq!(extract_bearer_token(Some("Bearer abc123")), Some("abc123".to_string()));
    assert_eq!(extract_bearer_token(Some("bearer abc123")), None);
    assert_eq!(extract_bearer_token(Some("Basic xyz")), None);
    assert_eq!(extract_bearer_token(None), None);
}

#[test]
fn test_cookie_token() {
    assert_eq!(extract_cookie_token(Some("a=1; auth_token=xyz; b=2")), Some("xyz".to_string()));
    assert_eq!(extract_cookie_token(Some("auth_token=first;auth_token=second")), Some("first".to_string()));
    assert_eq!(extract_cookie_token(Some("a=1; other=2")), None);
    assert_eq!(extract_cookie_token(Some("  auth_token=")), Some(String::new()));
    assert_eq!(extract_cookie_token(None), None);
}

#[test]
fn test_auth_token_prefers_bearer() {
    assert_eq!(extract_auth_token(Some("Bearer t1"), Some("auth_token=t2")), Some("t1".to_string()));
    assert_eq!(extract_auth_token(Some("Token t1"), Some("auth_token=t2")), Some("t2".to_string()));
    assert_eq!(extract_auth_token(None, None), None);
}

#[test]
fn test_werkzeug_hash() {
    assert!(verify_werkzeug_hash("password", WERKZEUG_ONE_ROUND));
    assert!(verify_werkzeug_hash("password", WERKZEUG_TWO_ROUNDS));
    assert!(!verify_werkzeug_hash("passwort", WERKZEUG_ONE_ROUND));
    assert!(!verify_werkzeug_hash("password", "pbkdf2:sha256:1$salt"));
    assert!(!verify_werkzeug_hash("password", "pbkdf2:sha256$salt$abcd"));
    assert!(!verify_werkzeug_hash("password", "scrypt:sha256:1$salt$abcd"));
    assert!(!verify_werkzeug_hash("password", "pbkdf2:sha256:x1$salt$abcd"));
}

#[test]
fn test_verify_password_dispatch() {
    assert!(verify_password("password", WERKZEUG_ONE_ROUND));
    assert!(!verify_password("password", "plain-text"));
    assert!(!verify_password("password", "$argon2id$not-a-hash"));
}

#[test]
fn test_registration_hashes_with_argon2() {
    let req = RegisterRequest {
        email: "  Foo@Bar.COM ".to_string(),
        password: "password1".to_string(),
        display_name: "  Test User ".to_string(),
        avatar_id: 5,
        captcha_token: None,
    };
    let user = prepare_registration(&req).unwrap();
    assert_eq!(user.email, "foo@bar.com");
    assert_eq!(user.display_name, "Test User");
    assert!(user.password_hash.starts_with("$argon2"));
    assert!(verify_password("password1", &user.password_hash));
    assert!(!verify_password("password2", &user.password_hash));
    assert_eq!(user.verification_token.len(), 32);
    assert_eq!(user.avatar_id, 5);
}

#[test]
fn test_check_login() {
    assert_eq!(check_login(&user_with(Some(WERKZEUG_ONE_ROUND), true), "password"), Ok(()));
    assert_eq!(
        check_login(&user_with(Some(WERKZEUG_ONE_ROUND), true), "nope"),
        Err("Invalid email or password")
    );
    assert_eq!(check_login(&user_with(None, true), "password"), Err("Invalid email or password"));
    assert_eq!(
        check_login(&user_with(Some(WERKZEUG_ONE_ROUND), false), "password"),
        Err("Please verify your email first")
    );
}

#[test]
fn test_user_info_and_admin() {
    let mut u = user_with(None, true);
    let info = user_info(&u);
    assert_eq!(info.id, 7);
    assert_eq!(info.avatar_id, 4);
    assert_eq!(info.is_admin, None);
    u.is_admin = true;
    assert_eq!(user_info(&u).is_admin, Some(true));
    assert!(should_become_admin("Admin@Example.com", false, Some("admin@example.COM")));
    assert!(!should_become_admin("Admin@Example.com", true, Some("admin@example.com")));
    assert!(!should_become_admin("a@example.com", false, Some("b@example.com")));
    assert!(!should_become_admin("a@example.com", false, None));
}

#[test]
fn test_registration_email_and_tokens() {
    assert_eq!(registration_email("\tMiXeD@Case.Org  "), "mixed@case.org");
    let t = generate_token();
    assert_eq!(t.len(), 32);
    assert!(t.chars().all(|c| c.is_ascii_alphanumeric()));
    assert_ne!(generate_token(), generate_token());
}

#[test]
fn test_all_packs() {
    assert!(uses_all_packs(None));
    assert!(uses_all_packs(Some(0)));
    assert!(!uses_all_packs(Some(3)));
}

#[test]
fn test_room_config_defaults_without_row() {
    let c = room_config_from_row(None);
    assert_eq!(c.vowel_cost, 250);
    assert_eq!(c.bonus_seconds, 30);
    assert_eq!(c.bonus_jackpot, 10000);
    assert_eq!(c.prize_replace_cash_values, vec![500, 1000, 1500, 2000, 2500, 3000, 3500]);
    assert_eq!(c.prize_wedge_names, vec!["GIFT CARD".to_string()]);
    assert_eq!(c.disconnect_timeout_secs, 300);
}

#[test]
fn test_room_config_from_row() {
    let row = RoomConfigRow {
        active_pack_id: Some(2),
        vowel_cost: Some(300),
        final_seconds: None,
        final_jackpot: Some(20000),
        prize_replace_csv: Some(" 500, x, -7,+8".to_string()),
        puzzle_display_seconds: Some(12),
        prize_wedge_names: Some(" TRIP , ,CAR".to_string()),
        disconnect_timeout_secs: None,
    };
    let c = room_config_from_row(Some(&row));
    assert_eq!(c.pack_id, Some(2));
    assert_eq!(c.vowel_cost, 300);
    assert_eq!(c.bonus_seconds, 30);
    assert_eq!(c.bonus_jackpot, 20000);
    assert_eq!(c.prize_replace_cash_values, vec![500, -7, 8]);
    assert_eq!(c.puzzle_display_seconds, 12);
    assert_eq!(c.prize_wedge_names, vec!["TRIP".to_string(), "CAR".to_string()]);
    assert_eq!(c.disconnect_timeout_secs, 300);
    assert_eq!(c.turn_timer_seconds, 10);
    let (values, names) = room_config_csv(&c);
    assert_eq!(values, "500,-7,8");
    assert_eq!(names, "TRIP,CAR");
}

#[test]
fn test_room_config_number_list_bounds() {
    let row = RoomConfigRow {
        active_pack_id: None,
        vowel_cost: None,
        final_seconds: None,
        final_jackpot: None,
        prize_replace_csv: Some("-2147483648,2147483647,2147483648,-2147483649,-,+,,007,1_0,-0".to_string()),
        puzzle_display_seconds: None,
        prize_wedge_names: None,
        disconnect_timeout_secs: None,
    };
    let c = room_config_from_row(Some(&row));
    assert_eq!(c.prize_replace_cash_values, vec![i32::MIN, i32::MAX, 7, 0]);
}
