use holiday_wheel::config::{redact, Config, ConfigError};

/// Valid HOST_CODE for tests that don't specifically test HOST_CODE validation.
const TEST_HOST_CODE: &str = "test-secure-code-12345";

fn env_of(vars: &[(&str, &str)]) -> Vec<(String, String)> {
    vars.iter().map(|(k, v)| (k.to_string(), v.to_string())).collect()
}

/// An environment holding only the given variables.
fn clean_env(vars: &[(&str, &str)]) -> Vec<(String, String)> {
    env_of(vars)
}

/// An environment with the given variables and, unless one is given, a valid HOST_CODE.
fn env_vars(vars: &[(&str, &str)]) -> Vec<(String, String)> {
    if vars.iter().any(|(k, _)| *k == "HOST_CODE") {
        clean_env(vars)
    } else {
        let mut all = vec![("HOST_CODE", TEST_HOST_CODE)];
        all.extend(vars.iter().cloned());
        clean_env(&all)
    }
}

/// An environment with a valid HOST_CODE plus the given variables.
fn valid_host_code(extra: &[(&str, &str)]) -> Vec<(String, String)> {
    let mut vars = vec![("HOST_CODE", TEST_HOST_CODE)];
    vars.extend(extra.iter().cloned());
    clean_env(&vars)
}

#[test]
fn config_test_default_config() {
    let config = Config::from_env_no_dotenv(&valid_host_code(&[])).unwrap();
    assert_eq!(config.server.port, 5000);
    assert!(!config.server.ssl_enabled);
    assert_eq!(config.database.path, "puzzles.db");
    assert!(!config.email.enabled);
}

#[test]
fn test_custom_port() {
    let config = Config::from_env_no_dotenv(&valid_host_code(&[("PORT", "8080")])).unwrap();
    assert_eq!(config.server.port, 8080);
}

#[test]
fn test_invalid_port_not_a_number() {
    let result = Config::from_env_no_dotenv(&env_vars(&[("PORT", "not_a_number")]));
    assert!(result.is_err());
    match result.unwrap_err() {
        ConfigError::InvalidPort { name, value, .. } => {
            assert_eq!(name, "PORT");
            assert_eq!(value, "not_a_number");
        }
        _ => panic!("Expected InvalidPort error"),
    }
}

#[test]
fn test_invalid_port_zero() {
    let result = Config::from_env_no_dotenv(&env_vars(&[("PORT", "0")]));
    assert!(result.is_err());
    match result.unwrap_err() {
        ConfigError::InvalidPort { name, value, .. } => {
            assert_eq!(name, "PORT");
            assert_eq!(value, "0");
        }
        _ => panic!("Expected InvalidPort error"),
    }
}

#[test]
fn test_invalid_port_negative() {
    let result = Config::from_env_no_dotenv(&env_vars(&[("PORT", "-1")]));
    assert!(result.is_err());
}

#[test]
fn test_ssl_enabled_without_certs() {
    let result = Config::from_env_no_dotenv(&env_vars(&[("SSL_ENABLED", "true")]));
    assert!(result.is_err());
    match result.unwrap_err() {
        ConfigError::MissingRequired(msg) => {
            assert!(msg.contains("SSL_CERT"));
            assert!(msg.contains("SSL_KEY"));
        }
        _ => panic!("Expected MissingRequired error"),
    }
}

#[test]
fn test_ssl_enabled_with_certs() {
    let config = Config::from_env_no_dotenv(&env_vars(&[
        ("SSL_ENABLED", "true"),
        ("SSL_CERT", "/path/to/cert.pem"),
        ("SSL_KEY", "/path/to/key.pem"),
    ]))
    .unwrap();
    assert!(config.server.ssl_enabled);
    assert_eq!(config.server.ssl_cert, Some("/path/to/cert.pem".to_string()));
    assert_eq!(config.server.ssl_key, Some("/path/to/key.pem".to_string()));
}

#[test]
fn test_boolean_parsing() {
    let result = Config::from_env_no_dotenv(&env_vars(&[("SSL_ENABLED", "true")]));
    assert!(result.is_err());

    let result = Config::from_env_no_dotenv(&env_vars(&[("EMAIL_ENABLED", "1")]));
    assert!(result.is_err());

    let result = Config::from_env_no_dotenv(&env_vars(&[("EMAIL_ENABLED", "yes")]));
    assert!(result.is_err());

    let config = Config::from_env_no_dotenv(&env_vars(&[("EMAIL_ENABLED", "false")])).unwrap();
    assert!(!config.email.enabled);

    let config = Config::from_env_no_dotenv(&env_vars(&[("EMAIL_ENABLED", "0")])).unwrap();
    assert!(!config.email.enabled);
}

#[test]
fn test_invalid_boolean() {
    let result = Config::from_env_no_dotenv(&env_vars(&[("SSL_ENABLED", "maybe")]));
    assert!(result.is_err());
    match result.unwrap_err() {
        ConfigError::InvalidBoolean { name, value } => {
            assert_eq!(name, "SSL_ENABLED");
            assert_eq!(value, "maybe");
        }
        _ => panic!("Expected InvalidBoolean error"),
    }
}

#[test]
fn test_valid_url() {
    assert!(Config::validate_url("http://localhost:5000", "TEST").is_ok());
    assert!(Config::validate_url("https://example.com", "TEST").is_ok());
    assert!(Config::validate_url("https://example.com/path", "TEST").is_ok());
    assert!(Config::validate_url("http://192.168.1.1:8080", "TEST").is_ok());
}

#[test]
fn test_invalid_url_empty() {
    let result = Config::validate_url("", "TEST");
    assert!(result.is_err());
    match result.unwrap_err() {
        ConfigError::InvalidUrl { reason, .. } => {
            assert!(reason.contains("empty"));
        }
        _ => panic!("Expected InvalidUrl error"),
    }
}

#[test]
fn test_invalid_url_no_scheme() {
    let result = Config::validate_url("example.com", "TEST");
    assert!(result.is_err());
    match result.unwrap_err() {
        ConfigError::InvalidUrl { reason, .. } => {
            assert!(reason.contains("http://") || reason.contains("https://"));
        }
        _ => panic!("Expected InvalidUrl error"),
    }
}

#[test]
fn test_invalid_url_no_host() {
    let result = Config::validate_url("http://", "TEST");
    assert!(result.is_err());
    match result.unwrap_err() {
        ConfigError::InvalidUrl { reason, .. } => {
            assert!(reason.contains("host"));
        }
        _ => panic!("Expected InvalidUrl error"),
    }
}

#[test]
fn test_invalid_base_url() {
    let result = Config::from_env_no_dotenv(&env_vars(&[("BASE_URL", "not-a-url")]));
    assert!(result.is_err());
}

#[test]
fn test_database_path_priority() {
    let config = Config::from_env_no_dotenv(&env_vars(&[
        ("DATABASE_URL", "/path/to/database.db"),
        ("DB_PATH", "/other/path.db"),
    ]))
    .unwrap();
    assert_eq!(config.database.path, "/path/to/database.db");

    let config = Config::from_env_no_dotenv(&env_vars(&[("DB_PATH", "/other/path.db")])).unwrap();
    assert_eq!(config.database.path, "/other/path.db");
}

#[test]
fn test_email_enabled_requires_credentials() {
    let result = Config::from_env_no_dotenv(&env_vars(&[("EMAIL_ENABLED", "true")]));
    assert!(result.is_err());

    let config = Config::from_env_no_dotenv(&env_vars(&[
        ("EMAIL_ENABLED", "true"),
        ("SMTP_USER", "user@example.com"),
        ("SMTP_PASS", "password"),
    ]))
    .unwrap();
    assert!(config.email.enabled);
    assert_eq!(config.email.smtp_user, "user@example.com");
}

#[test]
fn test_webauthn_defaults() {
    let config = Config::from_env_no_dotenv(&valid_host_code(&[])).unwrap();
    assert_eq!(config.webauthn.rp_id, "localhost");
    assert_eq!(config.webauthn.rp_origin, "http://localhost:5000");
}

#[test]
fn test_oauth_config_optional() {
    let config = Config::from_env_no_dotenv(&valid_host_code(&[])).unwrap();
    assert!(config.oauth.google_client_id.is_none());
    assert!(config.oauth.apple_client_id.is_none());
    assert!(config.oauth.apple_client_id_web.is_none());
    assert!(config.oauth.apple_redirect_uri.is_none());
}

#[test]
fn test_invalid_apple_redirect_uri() {
    let result = Config::from_env_no_dotenv(&env_vars(&[("APPLE_REDIRECT_URI", "not-a-url")]));
    assert!(result.is_err());
}

#[test]
fn test_redact_function() {
    assert_eq!(redact(""), "not set");
    assert_eq!(redact("abc"), "****");
    assert_eq!(redact("abcd"), "****");
    assert_eq!(redact("abcde"), "abcd****");
    assert_eq!(redact("secret_password"), "secr****");
}

#[test]
fn test_config_display() {
    let config = Config::from_env_no_dotenv(&valid_host_code(&[])).unwrap();
    let display = config.display_string();
    assert!(display.contains("port: 5000"));
    assert!(display.contains("ssl: false"));
    assert!(display.contains("puzzles.db"));
    assert!(display.contains("email: false"));
}

#[test]
fn test_multiple_errors() {
    let result = Config::from_env_no_dotenv(&env_vars(&[
        ("PORT", "invalid"),
        ("SSL_ENABLED", "true"),
        ("BASE_URL", "not-a-url"),
    ]));
    assert!(result.is_err());
    match result.unwrap_err() {
        ConfigError::Multiple(errors) => {
            assert!(errors.len() >= 2);
        }
        _ => panic!("Expected Multiple error"),
    }
}

#[test]
fn test_cors_default_permissive() {
    let config = Config::from_env_no_dotenv(&valid_host_code(&[])).unwrap();
    assert!(config.cors.permissive);
    assert!(config.cors.allowed_origins.is_empty());
}

#[test]
fn test_cors_explicit_wildcard() {
    let config = Config::from_env_no_dotenv(&env_vars(&[("CORS_ALLOWED_ORIGINS", "*")])).unwrap();
    assert!(config.cors.permissive);
    assert!(config.cors.allowed_origins.is_empty());
}

#[test]
fn test_cors_single_origin() {
    let config =
        Config::from_env_no_dotenv(&env_vars(&[("CORS_ALLOWED_ORIGINS", "https://example.com")])).unwrap();
    assert!(!config.cors.permissive);
    assert_eq!(config.cors.allowed_origins.len(), 1);
    assert_eq!(config.cors.allowed_origins[0], "https://example.com");
}

#[test]
fn test_cors_multiple_origins() {
    let config = Config::from_env_no_dotenv(&env_vars(&[(
        "CORS_ALLOWED_ORIGINS",
        "https://example.com, https://app.example.com, http://localhost:3000",
    )]))
    .unwrap();
    assert!(!config.cors.permissive);
    assert_eq!(config.cors.allowed_origins.len(), 3);
    assert_eq!(config.cors.allowed_origins[0], "https://example.com");
    assert_eq!(config.cors.allowed_origins[1], "https://app.example.com");
    assert_eq!(config.cors.allowed_origins[2], "http://localhost:3000");
}

#[test]
fn test_cors_empty_string_fallback() {
    let config = Config::from_env_no_dotenv(&env_vars(&[("CORS_ALLOWED_ORIGINS", "")])).unwrap();
    assert!(config.cors.permissive);
}

#[test]
fn test_cors_whitespace_only_fallback() {
    let config = Config::from_env_no_dotenv(&env_vars(&[("CORS_ALLOWED_ORIGINS", "   ")])).unwrap();
    assert!(config.cors.permissive);
}

#[test]
fn test_host_code_not_set_fails() {
    let result = Config::from_env_no_dotenv(&clean_env(&[]));
    assert!(result.is_err());
    let err = result.unwrap_err();
    match err {
        ConfigError::InsecureHostCode(msg) => {
            assert!(msg.contains("required"));
        }
        ConfigError::Multiple(errors) => {
            assert!(errors.iter().any(|e| matches!(e, ConfigError::InsecureHostCode(_))));
        }
        _ => panic!("Expected InsecureHostCode error, got {:?}", err),
    }
}

#[test]
fn test_host_code_custom_valid() {
    let config = Config::from_env_no_dotenv(&clean_env(&[("HOST_CODE", "my-secure-code-123")])).unwrap();
    assert!(!config.game.using_default_host_code);
    assert_eq!(config.game.host_code, "my-secure-code-123");
}

#[test]
fn test_host_code_holiday_rejected() {
    let result = Config::from_env_no_dotenv(&clean_env(&[("HOST_CODE", "holiday")]));
    assert!(result.is_err());
    let err = result.unwrap_err();
    match err {
        ConfigError::InsecureHostCode(msg) => {
            assert!(msg.contains("holiday"));
        }
        ConfigError::Multiple(errors) => {
            assert!(errors.iter().any(|e| matches!(e, ConfigError::InsecureHostCode(_))));
        }
        _ => panic!("Expected InsecureHostCode error, got {:?}", err),
    }
}

#[test]
fn test_host_code_too_short_rejected() {
    let result = Config::from_env_no_dotenv(&clean_env(&[("HOST_CODE", "short")]));
    assert!(result.is_err());
    let err = result.unwrap_err();
    match err {
        ConfigError::InsecureHostCode(msg) => {
            assert!(msg.contains("8 characters"));
        }
        ConfigError::Multiple(errors) => {
            assert!(errors.iter().any(|e| matches!(e, ConfigError::InsecureHostCode(_))));
        }
        _ => panic!("Expected InsecureHostCode error, got {:?}", err),
    }
}

#[test]
fn test_host_code_exactly_8_chars_valid() {
    let config = Config::from_env_no_dotenv(&clean_env(&[("HOST_CODE", "12345678")])).unwrap();
    assert!(!config.game.using_default_host_code);
    assert_eq!(config.game.host_code, "12345678");
}

#[test]
fn test_host_code_empty_fails() {
    let result = Config::from_env_no_dotenv(&clean_env(&[("HOST_CODE", "")]));
    assert!(result.is_err());
}

#[test]
fn test_host_code_whitespace_trimmed() {
    let config = Config::from_env_no_dotenv(&clean_env(&[("HOST_CODE", "  my-secure-code  ")])).unwrap();
    assert!(!config.game.using_default_host_code);
    assert_eq!(config.game.host_code, "my-secure-code");
}

// ---------- further cases ----------

#[test]
fn test_short_host_code_message_counts_bytes() {
    match Config::from_env_no_dotenv(&clean_env(&[("HOST_CODE", "short")])).unwrap_err() {
        ConfigError::InsecureHostCode(msg) => assert_eq!(
            msg,
            "HOST_CODE must be at least 8 characters (got 5 chars). Please set a secure value."
        ),
        other => panic!("unexpected {:?}", other),
    }
}

#[test]
fn test_holiday_in_capitals_rejected() {
    assert!(matches!(
        Config::from_env_no_dotenv(&clean_env(&[("HOST_CODE", "  HoLiDaY ")])),
        Err(ConfigError::InsecureHostCode(_))
    ));
}

#[test]
fn test_port_with_plus_sign_and_too_large() {
    let config = Config::from_env_no_dotenv(&valid_host_code(&[("PORT", "+8081")])).unwrap();
    assert_eq!(config.server.port, 8081);
    match Config::from_env_no_dotenv(&valid_host_code(&[("PORT", "65536")])).unwrap_err() {
        ConfigError::InvalidPort { value, reason, .. } => {
            assert_eq!(value, "65536");
            assert!(!reason.is_empty());
        }
        other => panic!("unexpected {:?}", other),
    }
}

#[test]
fn test_zero_port_reason() {
    match Config::from_env_no_dotenv(&valid_host_code(&[("SMTP_PORT", "0")])).unwrap_err() {
        ConfigError::InvalidPort { name, reason, .. } => {
            assert_eq!(name, "SMTP_PORT");
            assert_eq!(reason, "port cannot be 0");
        }
        other => panic!("unexpected {:?}", other),
    }
}

#[test]
fn test_boolean_words_any_case() {
    let config = Config::from_env_no_dotenv(&valid_host_code(&[
        ("SSL_ENABLED", "YES"),
        ("SSL_CERT", "c"),
        ("SSL_KEY", "k"),
    ]))
    .unwrap();
    assert!(config.server.ssl_enabled);
    let config = Config::from_env_no_dotenv(&valid_host_code(&[("EMAIL_ENABLED", "No")])).unwrap();
    assert!(!config.email.enabled);
}

#[test]
fn test_url_reasons_exact() {
    match Config::validate_url("https:///x", "BASE_URL").unwrap_err() {
        ConfigError::InvalidUrl { name, value, reason } => {
            assert_eq!(name, "BASE_URL");
            assert_eq!(value, "https:///x");
            assert_eq!(reason, "URL must have a host");
        }
        other => panic!("unexpected {:?}", other),
    }
    match Config::validate_url("ftp://x", "N").unwrap_err() {
        ConfigError::InvalidUrl { reason, .. } => assert_eq!(reason, "URL must start with http:// or https://"),
        other => panic!("unexpected {:?}", other),
    }
}

#[test]
fn test_multiple_errors_in_order() {
    match Config::from_env_no_dotenv(&clean_env(&[("PORT", "0"), ("SSL_ENABLED", "maybe")])).unwrap_err() {
        ConfigError::Multiple(errors) => {
            assert_eq!(errors.len(), 3);
            assert!(matches!(errors[0], ConfigError::InvalidPort { .. }));
            assert!(matches!(errors[1], ConfigError::InvalidBoolean { .. }));
            assert!(matches!(errors[2], ConfigError::InsecureHostCode(_)));
        }
        other => panic!("unexpected {:?}", other),
    }
}

#[test]
fn test_cors_blank_pieces_dropped() {
    let config =
        Config::from_env_no_dotenv(&valid_host_code(&[("CORS_ALLOWED_ORIGINS", " , https://a.example ,,")]))
            .unwrap();
    assert!(!config.cors.permissive);
    assert_eq!(config.cors.allowed_origins, vec!["https://a.example".to_string()]);
    let config = Config::from_env_no_dotenv(&valid_host_code(&[("CORS_ALLOWED_ORIGINS", " , ,")])).unwrap();
    assert!(config.cors.permissive);
    assert!(config.cors.allowed_origins.is_empty());
}

#[test]
fn test_first_entry_of_a_name_counts() {
    let config =
        Config::from_env_no_dotenv(&valid_host_code(&[("PORT", "7000"), ("PORT", "8000")])).unwrap();
    assert_eq!(config.server.port, 7000);
}

#[test]
fn test_redact_multibyte() {
    assert_eq!(redact("ééé"), "éé****");
    assert_eq!(redact("éé"), "****");
}

#[test]
fn test_log_config_lines() {
    let config = Config::from_env_no_dotenv(&valid_host_code(&[
        ("CORS_ALLOWED_ORIGINS", "https://a.example,https://b.example"),
        ("GOOGLE_CLIENT_ID", "google-client"),
    ]))
    .unwrap();
    let lines = config.log_config();
    assert_eq!(lines[0], "Configuration loaded:");
    assert_eq!(lines[2], "    Port: 5000");
    assert!(lines.contains(&"    Google Client ID: goog****".to_string()));
    assert!(lines.contains(&"    Mode: STRICT (2 origins)".to_string()));
    assert!(lines.contains(&"    - https://b.example".to_string()));
    assert!(lines.contains(&"    Host Code: test**** (custom)".to_string()));
    assert_eq!(lines[lines.len() - 1], "  Logging: info");
    assert!(!lines.iter().any(|l| l.contains("SSL Cert")));
}

#[test]
fn test_log_config_never_shows_smtp_password() {
    let with_pass = |pass: &str| {
        Config::from_env_no_dotenv(&valid_host_code(&[
            ("EMAIL_ENABLED", "true"),
            ("SMTP_USER", "mailer@example.com"),
            ("SMTP_PASS", pass),
        ]))
        .unwrap()
    };
    let a = with_pass("hunter2-very-secret").log_config();
    let b = with_pass("another-password").log_config();
    assert_eq!(a, b);
    assert!(!a.iter().any(|l| l.contains("hunter2-very-secret")));
    assert!(a.contains(&"    SMTP User: mail****".to_string()));
}
