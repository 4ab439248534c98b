use holiday_wheel::auth::{AppleFullName, GoogleAuthRequest};
use holiday_wheel::oauth::{
    after_sign_in_page, apple_authorize_url, apple_callback_page, apple_display_name, apple_email, apple_error_page,
    apple_success_page, apple_web_client_id, apple_web_configured, checked_token, google_configured,
    google_display_name, google_identity, google_token, not_configured, oauth_step, CallbackStep, DbAnswer,
    GoogleToken, OAuthNext, OAuthStage, Provider,
};
use holiday_wheel::passkey::{credential_key, passkey_user_handle, Outcome};

fn s(x: &str) -> String {
    x.to_string()
}

#[test]
fn test_oauth_new_user_path() {
    let mut stage = OAuthStage::FindLink;
    let answers = [DbAnswer::NotFound, DbAnswer::NotFound, DbAnswer::Found(42), DbAnswer::Done, DbAnswer::Found(42)];
    for a in answers.iter() {
        match oauth_step(stage, a, false) {
            OAuthNext::Go(next) => stage = next,
            other => panic!("unexpected {:?}", other),
        }
    }
    assert_eq!(stage, OAuthStage::StoreToken { user_id: 42, is_new_user: true });
    assert_eq!(oauth_step(stage, &DbAnswer::Done, false), OAuthNext::SignedIn { user_id: 42, is_new_user: true });
}

#[test]
fn test_oauth_existing_link_and_email() {
    assert_eq!(
        oauth_step(OAuthStage::FindLink, &DbAnswer::Found(7), false),
        OAuthNext::Go(OAuthStage::FetchUser { user_id: 7, is_new_user: false })
    );
    assert_eq!(
        oauth_step(OAuthStage::FindLink, &DbAnswer::Error(s("down")), false),
        OAuthNext::Go(OAuthStage::FindByEmail)
    );
    assert_eq!(
        oauth_step(OAuthStage::FindByEmail, &DbAnswer::Found(9), false),
        OAuthNext::Go(OAuthStage::Link { user_id: 9, is_new_user: false })
    );
    assert_eq!(
        oauth_step(OAuthStage::Link { user_id: 9, is_new_user: false }, &DbAnswer::Error(s("dup")), false),
        OAuthNext::Go(OAuthStage::FetchUser { user_id: 9, is_new_user: false })
    );
}

#[test]
fn test_oauth_refusals() {
    assert_eq!(
        oauth_step(OAuthStage::FindByEmail, &DbAnswer::Error(s("x")), false),
        OAuthNext::Refuse(s("An unexpected error occurred"))
    );
    assert_eq!(
        oauth_step(OAuthStage::CreateUser, &DbAnswer::Error(s("x")), true),
        OAuthNext::Refuse(s("Failed to create account"))
    );
    let fetch = OAuthStage::FetchUser { user_id: 1, is_new_user: true };
    assert_eq!(oauth_step(fetch, &DbAnswer::NotFound, false), OAuthNext::Refuse(s("User not found after creation")));
    assert_eq!(oauth_step(fetch, &DbAnswer::NotFound, true), OAuthNext::Refuse(s("user_not_found")));
    assert_eq!(oauth_step(fetch, &DbAnswer::Error(s("e")), true), OAuthNext::Refuse(s("database_error")));
    let token = OAuthStage::StoreToken { user_id: 1, is_new_user: true };
    assert_eq!(oauth_step(token, &DbAnswer::Error(s("e")), false), OAuthNext::Refuse(s("Failed to create session")));
    assert_eq!(oauth_step(token, &DbAnswer::Error(s("e")), true), OAuthNext::Refuse(s("session_error")));
}

#[test]
fn test_apple_email_choice() {
    assert_eq!(apple_email(Some(s("Ann@Example.COM")), Some(s("other@x.org")), "sub1"), "ann@example.com");
    assert_eq!(apple_email(None, Some(s("B@X.org")), "sub1"), "b@x.org");
    assert_eq!(apple_email(None, None, "001.abc"), "001.abc@privaterelay.appleid.com");
}

#[test]
fn test_apple_display_name() {
    let full = |g: Option<&str>, f: Option<&str>| AppleFullName { given_name: g.map(s), family_name: f.map(s) };
    assert_eq!(apple_display_name(Some(full(Some("John"), Some("Doe"))), "j@x.org"), "John Doe");
    assert_eq!(apple_display_name(Some(full(Some("John"), None)), "j@x.org"), "John");
    assert_eq!(apple_display_name(Some(full(None, Some("Doe"))), "j@x.org"), "Doe");
    assert_eq!(apple_display_name(Some(full(None, None)), "jane@x.org"), "jane");
    assert_eq!(apple_display_name(None, "jane@x.org"), "jane");
}

#[test]
fn test_google_token_choice() {
    let both = GoogleAuthRequest { id_token: Some(s("jwt")), access_token: Some(s("acc")) };
    assert_eq!(google_token(&both), Ok(GoogleToken::IdToken(s("jwt"))));
    let web = GoogleAuthRequest { id_token: None, access_token: Some(s("acc")) };
    assert_eq!(google_token(&web), Ok(GoogleToken::AccessToken(s("acc"))));
    let none = GoogleAuthRequest { id_token: None, access_token: None };
    assert_eq!(google_token(&none), Err((400, s("No token provided. Send id_token or access_token"))));
}

#[test]
fn test_google_identity() {
    assert_eq!(
        google_identity(s("g1"), Some(s("Ann@Gmail.com")), None),
        Ok((s("g1"), s("ann@gmail.com"), s("ann")))
    );
    assert_eq!(
        google_identity(s("g1"), Some(s("a@b.c")), Some(s("Ann Lee"))),
        Ok((s("g1"), s("a@b.c"), s("Ann Lee")))
    );
    assert_eq!(google_identity(s("g1"), None, None), Err((400, s("Email not provided by Google"))));
    assert_eq!(google_display_name(None, "x@y"), "x");
}

#[test]
fn test_provider_configuration() {
    assert!(!google_configured("", "", ""));
    assert!(google_configured("", "ios", ""));
    assert_eq!(not_configured(Provider::Google), (503, s("Google Sign-In not configured")));
    assert_eq!(not_configured(Provider::Apple), (503, s("Apple Sign-In not configured")));
    assert!(apple_web_configured("id", "https://x/cb"));
    assert!(!apple_web_configured("id", ""));
    assert_eq!(apple_web_client_id(Some(s("web")), Some(s("app"))), "web");
    assert_eq!(apple_web_client_id(None, Some(s("app"))), "app");
    assert_eq!(apple_web_client_id(None, None), "");
    assert_eq!(checked_token::<i32>(Err(s("expired"))), Err((401, s("Invalid or expired token"))));
    assert_eq!(checked_token::<i32>(Ok(3)), Ok(3));
}

#[test]
fn test_apple_web_pages() {
    assert_eq!(apple_error_page("Failed to create account"), "/?error=Failed%20to%20create%20account");
    assert_eq!(apple_error_page("caf\u{e9}~-._"), "/?error=caf%C3%A9~-._");
    assert_eq!(
        apple_authorize_url("com.x.web", "https://a.b/cb", "st8"),
        "https://appleid.apple.com/auth/authorize?client_id=com.x.web&redirect_uri=https%3A%2F%2Fa.b%2Fcb&response_type=code%20id_token&response_mode=form_post&scope=name%20email&state=st8"
    );
    assert_eq!(
        apple_success_page("/lobby", "tok", "{\"id\":1}"),
        "/lobby#auth_token=tok&user=%7B%22id%22%3A1%7D"
    );
    assert_eq!(after_sign_in_page(None), "/lobby");
    assert_eq!(after_sign_in_page(Some(s("/game"))), "/game");
}

#[test]
fn test_apple_callback_pages() {
    assert_eq!(
        apple_callback_page(CallbackStep::ProviderError, &Outcome::Failed(s("user_cancelled_authorize"))),
        Some(s("/?error=user_cancelled_authorize"))
    );
    assert_eq!(apple_callback_page(CallbackStep::ProviderError, &Outcome::Done), None);
    assert_eq!(apple_callback_page(CallbackStep::State, &Outcome::Missing), Some(s("/?error=missing_state")));
    assert_eq!(apple_callback_page(CallbackStep::TakeState, &Outcome::Missing), Some(s("/?error=invalid_state")));
    assert_eq!(apple_callback_page(CallbackStep::TakeState, &Outcome::Failed(s("io"))), Some(s("/?error=state_error")));
    assert_eq!(apple_callback_page(CallbackStep::IdToken, &Outcome::Missing), Some(s("/?error=missing_token")));
    assert_eq!(
        apple_callback_page(CallbackStep::VerifyToken, &Outcome::Failed(s("Key not found"))),
        Some(s("/?error=Key%20not%20found"))
    );
}

#[test]
fn test_credential_key_base64() {
    assert_eq!(credential_key(b"hello"), "aGVsbG8");
    assert_eq!(credential_key(&[0xfb, 0xff]), "-_8");
    assert_eq!(credential_key(&[0xfb, 0xff, 0xbf]), "-_-_");
    assert_eq!(credential_key(&[]), "");
}

#[test]
fn test_passkey_user_handle() {
    let expected: Vec<u8> = vec![
        0x88, 0x63, 0x13, 0xe1, 0x3b, 0x8a, 0x53, 0x72, 0x9b, 0x90, 0x0c, 0x9a, 0xee, 0x19, 0x9e, 0x5d,
    ];
    assert_eq!(passkey_user_handle("python.org"), expected);
}

#[test]
fn test_apple_authorize_url_encodes_every_unsafe_byte() {
    assert_eq!(
        apple_authorize_url("a b/c~é", "x-y_z.1", "S+t&=?"),
        "https://appleid.apple.com/auth/authorize?client_id=a%20b%2Fc~%C3%A9&redirect_uri=x-y_z.1\
&response_type=code%20id_token&response_mode=form_post&scope=name%20email&state=S%2Bt%26%3D%3F"
    );
}
