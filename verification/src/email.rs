//! Email settings and the content of the verification and password-reset emails.
use vstd::prelude::*;
use crate::config::{env_get, env_or, env_var, env_var_or, parse_u16, u16_text_value};
use crate::text::{spec_to_lowercase, str_equal, to_lowercase};

verus! {

/// Email configuration read from the environment.
#[derive(Clone, Debug)]
pub struct EmailConfig {
    pub enabled: bool,
    pub smtp_host: String,
    pub smtp_port: u16,
    pub smtp_user: String,
    pub smtp_pass: String,
    pub from_email: String,
    pub base_url: String,
}

/// The SMTP port read from the setting value `v`: 587 when unset or unreadable.
pub open spec fn smtp_port_of(v: Option<Seq<char>>) -> u16 {
    match v {
        Some(p) => match u16_text_value(p) {
            Some(n) => n as u16,
            None => 587u16,
        },
        None => 587u16,
    }
}

impl EmailConfig {
    /// This configuration is the one that the environment `env` describes. Email is
    /// on when `EMAIL_ENABLED`, lower-cased, is `true`.
    pub open spec fn read_from(self, env: Seq<(String, String)>) -> bool {
        &&& self.enabled == (env_get(env, "EMAIL_ENABLED"@) matches Some(v) && spec_to_lowercase(v) == "true"@)
        &&& self.smtp_host@ == env_or(env, "SMTP_HOST"@, "smtp.gmail.com"@)
        &&& self.smtp_port == smtp_port_of(env_get(env, "SMTP_PORT"@))
        &&& self.smtp_user@ == env_or(env, "SMTP_USER"@, Seq::empty())
        &&& self.smtp_pass@ == env_or(env, "SMTP_PASS"@, Seq::empty())
        &&& self.from_email@ == env_or(env, "FROM_EMAIL"@, "noreply@holidaywheel.com"@)
        &&& self.base_url@ == env_or(env, "BASE_URL"@, "http://localhost:5000"@)
    }

    /// Reads the email configuration from the environment snapshot `env`.
    pub fn from_env(env: &Vec<(String, String)>) -> (r: Self)
        ensures
            r.read_from(env@),
    {
        let enabled = match env_var(env, "EMAIL_ENABLED") {
            Some(v) => {
                let l = to_lowercase(v.as_str());
                str_equal(l.as_str(), "true")
            },
            None => false,
        };
        let smtp_port = match env_var(env, "SMTP_PORT") {
            Some(p) => match parse_u16(p.as_str()) {
                Ok(n) => n,
                Err(_) => 587,
            },
            None => 587,
        };
        let smtp_user = match env_var(env, "SMTP_USER") {
            Some(v) => v,
            None => String::new(),
        };
        let smtp_pass = match env_var(env, "SMTP_PASS") {
            Some(v) => v,
            None => String::new(),
        };
        EmailConfig {
            enabled,
            smtp_host: env_var_or(env, "SMTP_HOST", "smtp.gmail.com"),
            smtp_port,
            smtp_user,
            smtp_pass,
            from_email: env_var_or(env, "FROM_EMAIL", "noreply@holidaywheel.com"),
            base_url: env_var_or(env, "BASE_URL", "http://localhost:5000"),
        }
    }
}

/// An email ready to be sent: subject, HTML body and plain-text body.
#[derive(Clone, Debug)]
pub struct EmailMessage {
    pub subject: String,
    pub html: String,
    pub text: String,
}

/// The link that verifies an account.
pub open spec fn verify_url(base_url: Seq<char>, token: Seq<char>) -> Seq<char> {
    base_url + "/auth/verify/"@ + token
}

/// The link that resets a password.
pub open spec fn reset_url(base_url: Seq<char>, token: Seq<char>) -> Seq<char> {
    base_url + "/auth/reset-password/"@ + token
}

/// The HTML body of the verification email for `url`.
pub open spec fn verification_html(url: Seq<char>) -> Seq<char> {
    VERIFY_HTML_START@ + url + VERIFY_HTML_MIDDLE@ + url + VERIFY_HTML_END@
}

/// The plain-text body of the verification email for `url`.
pub open spec fn verification_text(url: Seq<char>) -> Seq<char> {
    VERIFY_TEXT_START@ + url + VERIFY_TEXT_END@
}

/// The HTML body of the password-reset email for `url`.
pub open spec fn reset_html(url: Seq<char>) -> Seq<char> {
    RESET_HTML_START@ + url + RESET_HTML_MIDDLE@ + url + RESET_HTML_END@
}

/// The plain-text body of the password-reset email for `url`.
pub open spec fn reset_text(url: Seq<char>) -> Seq<char> {
    RESET_TEXT_START@ + url + RESET_TEXT_END@
}

fn around(pieces: &[&str], url: &str) -> (r: String)
    requires
        pieces@.len() >= 1,
    ensures
        pieces@.len() == 2 ==> r@ == pieces@[0]@ + url@ + pieces@[1]@,
        pieces@.len() == 3 ==> r@ == pieces@[0]@ + url@ + pieces@[1]@ + url@ + pieces@[2]@,
{
    let mut out = pieces[0].to_owned();
    let mut i: usize = 1;
    while i < pieces.len()
        invariant
            1 <= i <= pieces@.len(),
            i == 1 ==> out@ == pieces@[0]@,
            i == 2 ==> out@ == pieces@[0]@ + url@ + pieces@[1]@,
            i == 3 ==> out@ == pieces@[0]@ + url@ + pieces@[1]@ + url@ + pieces@[2]@,
        decreases pieces@.len() - i,
    {
        out.append(url);
        out.append(pieces[i]);
        i += 1;
    }
    out
}

/// Email service: knows the configuration and builds the messages it sends.
#[derive(Clone, Debug)]
pub struct EmailService {
    config: EmailConfig,
}

impl EmailService {
    /// The configuration the service sends with.
    pub closed spec fn settings(self) -> EmailConfig {
        self.config
    }

    /// Creates a service with the given configuration.
    pub fn new(config: EmailConfig) -> (r: Self)
        ensures
            r.settings() == config,
    {
        EmailService { config }
    }

    /// Creates a service from the environment snapshot `env`.
    pub fn from_env(env: &Vec<(String, String)>) -> (r: Self)
        ensures
            r.settings().read_from(env@),
    {
        Self::new(EmailConfig::from_env(env))
    }

    /// Whether emails are really sent (otherwise they are only logged).
    pub fn is_enabled(&self) -> (r: bool)
        ensures
            r == self.settings().enabled,
    {
        self.config.enabled
    }

    /// The configuration the service sends with.
    pub fn config(&self) -> (r: &EmailConfig)
        ensures
            *r == self.settings(),
    {
        &self.config
    }

    /// The email that asks the owner of a new account to verify it with `token`.
    pub fn verification_email(&self, token: &str) -> (r: EmailMessage)
        ensures
            r.subject@ == "Verify your Holiday Wheel account"@,
            r.html@ == verification_html(verify_url(self.settings().base_url@, token@)),
            r.text@ == verification_text(verify_url(self.settings().base_url@, token@)),
    {
        let mut url = self.config.base_url.clone();
        url.append("/auth/verify/");
        url.append(token);
        let html_pieces: [&str; 3] = [VERIFY_HTML_START, VERIFY_HTML_MIDDLE, VERIFY_HTML_END];
        let text_pieces: [&str; 2] = [VERIFY_TEXT_START, VERIFY_TEXT_END];
        EmailMessage {
            subject: "Verify your Holiday Wheel account".to_owned(),
            html: around(&html_pieces, url.as_str()),
            text: around(&text_pieces, url.as_str()),
        }
    }

    /// The email that lets the owner of an account reset its password with `token`.
    pub fn password_reset_email(&self, token: &str) -> (r: EmailMessage)
        ensures
            r.subject@ == "Reset your Holiday Wheel password"@,
            r.html@ == reset_html(reset_url(self.settings().base_url@, token@)),
            r.text@ == reset_text(reset_url(self.settings().base_url@, token@)),
    {
        let mut url = self.config.base_url.clone();
        url.append("/auth/reset-password/");
        url.append(token);
        let html_pieces: [&str; 3] = [RESET_HTML_START, RESET_HTML_MIDDLE, RESET_HTML_END];
        let text_pieces: [&str; 2] = [RESET_TEXT_START, RESET_TEXT_END];
        EmailMessage {
            subject: "Reset your Holiday Wheel password".to_owned(),
            html: around(&html_pieces, url.as_str()),
            text: around(&text_pieces, url.as_str()),
        }
    }
}

/// A fixed part of an email body.
pub const VERIFY_HTML_START: &'static str = "<!DOCTYPE html>\n<html>\n<head>\n    <style>\n        body { font-family: Arial, sans-serif; background: #f5f5f5; padding: 20px; }\n        .container { max-width: 600px; margin: 0 auto; background: white; padding: 30px; border-radius: 10px; }\n        h1 { color: #2b5cff; }\n        .button { display: inline-block; background: #2b5cff; color: white; padding: 12px 24px;\n                   text-decoration: none; border-radius: 6px; margin: 20px 0; }\n        .url { word-break: break-all; color: #666; font-size: 12px; }\n        .footer { margin-top: 30px; color: #999; font-size: 12px; }\n    </style>\n</head>\n<body>\n    <div class=\"container\">\n        <h1>Welcome to Holiday Wheel of Fortune!</h1>\n        <p>Please verify your email address to complete your registration.</p>\n        <p><a href=\"";

/// A fixed part of an email body.
pub const VERIFY_HTML_MIDDLE: &'static str = "\" class=\"button\">Verify Email</a></p>\n        <p class=\"url\">Or copy this URL: ";

/// A fixed part of an email body.
pub const VERIFY_HTML_END: &'static str = "</p>\n        <p class=\"footer\">This link expires in 24 hours.<br>\n        If you didn't create an account, you can ignore this email.</p>\n    </div>\n</body>\n</html>";

/// A fixed part of an email body.
pub const VERIFY_TEXT_START: &'static str = "Welcome to Holiday Wheel of Fortune!\n\nPlease verify your email by visiting:\n";

/// A fixed part of an email body.
pub const VERIFY_TEXT_END: &'static str = "\n\nThis link expires in 24 hours.\nIf you didn't create an account, you can ignore this email.";

/// A fixed part of an email body.
pub const RESET_HTML_START: &'static str = "<!DOCTYPE html>\n<html>\n<head>\n    <style>\n        body { font-family: Arial, sans-serif; background: #f5f5f5; padding: 20px; }\n        .container { max-width: 600px; margin: 0 auto; background: white; padding: 30px; border-radius: 10px; }\n        h1 { color: #2b5cff; }\n        .button { display: inline-block; background: #2b5cff; color: white; padding: 12px 24px;\n                   text-decoration: none; border-radius: 6px; margin: 20px 0; }\n        .url { word-break: break-all; color: #666; font-size: 12px; }\n        .footer { margin-top: 30px; color: #999; font-size: 12px; }\n    </style>\n</head>\n<body>\n    <div class=\"container\">\n        <h1>Password Reset Request</h1>\n        <p>Click the button below to reset your password:</p>\n        <p><a href=\"";

/// A fixed part of an email body.
pub const RESET_HTML_MIDDLE: &'static str = "\" class=\"button\">Reset Password</a></p>\n        <p class=\"url\">Or copy this URL: ";

/// A fixed part of an email body.
pub const RESET_HTML_END: &'static str = "</p>\n        <p class=\"footer\">This link expires in 1 hour.<br>\n        If you didn't request a password reset, you can ignore this email.</p>\n    </div>\n</body>\n</html>";

/// A fixed part of an email body.
pub const RESET_TEXT_START: &'static str = "Password Reset Request\n\nReset your password by visiting:\n";

/// A fixed part of an email body.
pub const RESET_TEXT_END: &'static str = "\n\nThis link expires in 1 hour.\nIf you didn't request a password reset, you can ignore this email.";

} // verus!
