//! Server configuration, read from a snapshot of the process environment and
//! validated: ports, booleans, URLs, CORS origins and the host code.
use vstd::prelude::*;
use vstd::string::*;
use vstd::utf8::*;
use crate::text::{
    is_digit, lower_seq, trim_seq, split_seq, decimal, str_chars, chars_equal, trim_chars,
    split_chars, string_from_chars, to_ascii_lower, u64_to_decimal, to_lowercase, spec_to_lowercase, str_equal,
};

verus! {

broadcast use vstd::utf8::encode_utf8_decode_utf8;

// ========== ENVIRONMENT ==========

/// The value of `name` in the environment snapshot `env`: the first entry with that name.
pub open spec fn env_get(env: Seq<(String, String)>, name: Seq<char>) -> Option<Seq<char>>
    decreases env.len(),
{
    if env.len() == 0 {
        None
    } else if env[0].0@ == name {
        Some(env[0].1@)
    } else {
        env_get(env.drop_first(), name)
    }
}

/// The value of `name` in `env`, or `default` when it is not set.
pub open spec fn env_or(env: Seq<(String, String)>, name: Seq<char>, default: Seq<char>) -> Seq<char> {
    match env_get(env, name) {
        Some(v) => v,
        None => default,
    }
}

/// The view of an optional string.
pub open spec fn opt_view(s: Option<String>) -> Option<Seq<char>> {
    match s {
        Some(v) => Some(v@),
        None => None,
    }
}

/// Looks `name` up in the environment snapshot.
pub fn env_var(env: &Vec<(String, String)>, name: &str) -> (r: Option<String>)
    ensures
        opt_view(r) == env_get(env@, name@),
{
    let n = env.len();
    let mut i: usize = 0;
    assert(env@.subrange(0, n as int) =~= env@);
    while i < n
        invariant
            n == env@.len(),
            i <= n,
            env_get(env@, name@) == env_get(env@.subrange(i as int, n as int), name@),
        decreases n - i,
    {
        let entry = &env[i];
        assert(env@.subrange(i as int, n as int)[0] == env@[i as int]);
        if entry.0 == name.to_owned() {
            return Some(entry.1.clone());
        }
        assert(env@.subrange(i as int, n as int).drop_first() =~= env@.subrange(i + 1, n as int));
        i += 1;
    }
    None
}

pub(crate) fn env_var_or(env: &Vec<(String, String)>, name: &str, default: &str) -> (r: String)
    ensures
        r@ == env_or(env@, name@, default@),
{
    match env_var(env, name) {
        Some(v) => v,
        None => default.to_owned(),
    }
}

// ========== ERRORS ==========

/// Configuration errors that can occur during validation.
#[derive(Debug)]
pub enum ConfigError {
    MissingRequired(String),
    InvalidPort { name: String, value: String, reason: String },
    InvalidUrl { name: String, value: String, reason: String },
    InvalidBoolean { name: String, value: String },
    InsecureHostCode(String),
    Multiple(Vec<ConfigError>),
}

/// What a single configuration error reports, as text.
pub enum ErrorReport {
    MissingRequired(Seq<char>),
    InvalidPort { name: Seq<char>, value: Seq<char>, reason: Seq<char> },
    InvalidUrl { name: Seq<char>, value: Seq<char>, reason: Seq<char> },
    InvalidBoolean { name: Seq<char>, value: Seq<char> },
    InsecureHostCode(Seq<char>),
}

/// `e` is the single error that `m` describes.
pub open spec fn shows_error(e: ConfigError, m: ErrorReport) -> bool {
    match (e, m) {
        (ConfigError::MissingRequired(a), ErrorReport::MissingRequired(b)) => a@ == b,
        (
            ConfigError::InvalidPort { name, value, reason },
            ErrorReport::InvalidPort { name: n, value: v, reason: r },
        ) => name@ == n && value@ == v && reason@ == r,
        (
            ConfigError::InvalidUrl { name, value, reason },
            ErrorReport::InvalidUrl { name: n, value: v, reason: r },
        ) => name@ == n && value@ == v && reason@ == r,
        (ConfigError::InvalidBoolean { name, value }, ErrorReport::InvalidBoolean { name: n, value: v }) =>
            name@ == n && value@ == v,
        (ConfigError::InsecureHostCode(a), ErrorReport::InsecureHostCode(b)) => a@ == b,
        _ => false,
    }
}

/// An optional error and its optional description agree.
pub open spec fn opt_shows(e: Option<ConfigError>, m: Option<ErrorReport>) -> bool {
    match (e, m) {
        (None, None) => true,
        (Some(e), Some(m)) => shows_error(e, m),
        _ => false,
    }
}

/// The errors `es` are, one by one, those that `ms` describe.
pub open spec fn all_show(es: Seq<ConfigError>, ms: Seq<ErrorReport>) -> bool {
    &&& es.len() == ms.len()
    &&& forall|i: int| 0 <= i < es.len() ==> shows_error(#[trigger] es[i], ms[i])
}

/// Zero or one description, as a sequence.
pub open spec fn opt_seq(m: Option<ErrorReport>) -> Seq<ErrorReport> {
    match m {
        Some(x) => seq![x],
        None => Seq::empty(),
    }
}

/// `e` reports the collected errors `ms`: the error itself when there is one,
/// every one of them in order when there are several.
pub open spec fn reports(e: ConfigError, ms: Seq<ErrorReport>) -> bool {
    if ms.len() == 1 {
        shows_error(e, ms[0])
    } else {
        e matches ConfigError::Multiple(v) && all_show(v@, ms)
    }
}

fn push_error(errors: &mut Vec<ConfigError>, e: Option<ConfigError>, Ghost(ms): Ghost<Seq<ErrorReport>>, Ghost(m): Ghost<Option<ErrorReport>>)
    requires
        all_show(old(errors)@, ms),
        opt_shows(e, m),
    ensures
        all_show(final(errors)@, ms + opt_seq(m)),
{
    match e {
        Some(x) => {
            errors.push(x);
            assert(forall|i: int| 0 <= i < ms.len() ==> (ms + opt_seq(m))[i] == ms[i]);
        },
        None => {
            assert(ms + opt_seq(m) =~= ms);
        },
    }
}

// ========== SETTINGS ==========

/// Server configuration.
#[derive(Debug, Clone)]
pub struct ServerConfig {
    pub port: u16,
    pub ssl_enabled: bool,
    pub ssl_cert: Option<String>,
    pub ssl_key: Option<String>,
}

/// Database configuration.
#[derive(Debug, Clone)]
pub struct DatabaseConfig {
    pub path: String,
}

/// Email/SMTP configuration.
#[derive(Debug, Clone)]
pub struct EmailConfig {
    pub enabled: bool,
    pub smtp_host: String,
    pub smtp_port: u16,
    pub smtp_user: String,
    pub smtp_pass: String,
    pub from_email: String,
    pub base_url: String,
}

/// WebAuthn/passkey configuration.
#[derive(Debug, Clone)]
pub struct WebAuthnConfig {
    pub rp_id: String,
    pub rp_origin: String,
}

/// OAuth configuration.
#[derive(Debug, Clone)]
pub struct OAuthConfig {
    pub google_client_id: Option<String>,
    pub apple_client_id: Option<String>,
    pub apple_client_id_web: Option<String>,
    pub apple_redirect_uri: Option<String>,
}

/// Admin configuration.
#[derive(Debug, Clone)]
pub struct AdminConfig {
    pub admin_email: Option<String>,
}

/// CORS configuration. No origins means any origin is allowed (development only).
#[derive(Debug, Clone)]
pub struct CorsConfig {
    pub allowed_origins: Vec<String>,
    pub permissive: bool,
}

/// Game configuration: the code that claims host privileges.
#[derive(Debug, Clone)]
pub struct GameConfig {
    pub host_code: String,
    pub using_default_host_code: bool,
}

/// Application configuration loaded from the environment.
#[derive(Debug, Clone)]
pub struct Config {
    pub server: ServerConfig,
    pub database: DatabaseConfig,
    pub email: EmailConfig,
    pub webauthn: WebAuthnConfig,
    pub oauth: OAuthConfig,
    pub admin: AdminConfig,
    pub cors: CorsConfig,
    pub game: GameConfig,
    pub rust_log: String,
}

// ========== PORTS ==========

/// The value of a string of decimal digits.
pub open spec fn digits_value(d: Seq<char>) -> int
    decreases d.len(),
{
    if d.len() == 0 {
        0
    } else {
        digits_value(d.drop_last()) * 10 + (d.last() as u32 - '0' as u32)
    }
}

/// Every character of `d` is an ASCII digit.
pub open spec fn all_digits(d: Seq<char>) -> bool {
    forall|i: int| 0 <= i < d.len() ==> is_digit(#[trigger] d[i])
}

/// The value of a run of digits is never below that of a prefix of it.
pub(crate) proof fn lemma_digits_value_grows(d: Seq<char>, k: int)
    requires
        all_digits(d),
        0 <= k <= d.len(),
    ensures
        0 <= digits_value(d.subrange(0, k)) <= digits_value(d),
    decreases d.len(),
{
    if d.len() > 0 {
        let init = d.drop_last();
        assert(all_digits(init)) by {
            assert forall|i: int| 0 <= i < init.len() implies is_digit(#[trigger] init[i]) by {
                assert(init[i] == d[i]);
            }
        }
        assert(is_digit(d[d.len() - 1]));
        if k == d.len() {
            assert(d.subrange(0, k) =~= d);
            lemma_digits_value_grows(init, init.len() as int);
            assert(init.subrange(0, init.len() as int) =~= init);
        } else {
            lemma_digits_value_grows(init, k);
            lemma_digits_value_grows(init, init.len() as int);
            assert(init.subrange(0, k) =~= d.subrange(0, k));
            assert(init.subrange(0, init.len() as int) =~= init);
        }
    } else {
        assert(d.subrange(0, k) =~= d);
    }
}

/// Reads the characters of `cs` from `start` on as a decimal number of at most
/// `max`: `Some` of its value when they are one or more ASCII digits whose value
/// is at most `max`, else `None`.
pub(crate) fn read_digits(cs: &Vec<char>, start: usize, max: u64) -> (r: Option<u64>)
    requires
        start <= cs@.len(),
        max <= 0xFFFF_FFFF,
    ensures
        ({
            let d = cs@.subrange(start as int, cs@.len() as int);
            match r {
                Some(v) => d.len() > 0 && all_digits(d) && digits_value(d) == v && v <= max,
                None => !(d.len() > 0 && all_digits(d) && digits_value(d) <= max),
            }
        }),
{
    let ghost d = cs@.subrange(start as int, cs@.len() as int);
    if start >= cs.len() {
        return None;
    }
    let mut v: u64 = 0;
    let mut i: usize = start;
    while i < cs.len()
        invariant
            start <= i <= cs@.len(),
            d == cs@.subrange(start as int, cs@.len() as int),
            max <= 0xFFFF_FFFF,
            all_digits(cs@.subrange(start as int, i as int)),
            v == digits_value(cs@.subrange(start as int, i as int)),
            v <= max,
        decreases cs@.len() - i,
    {
        let ghost pre = cs@.subrange(start as int, i as int);
        let ghost next = cs@.subrange(start as int, i + 1);
        assert(next.drop_last() =~= pre);
        assert(next.last() == cs@[i as int]);
        let c = cs[i];
        if !(c >= '0' && c <= '9') {
            assert(d[i - start] == c);
            return None;
        }
        let nv = v * 10 + ((c as u32 - '0' as u32) as u64);
        assert(all_digits(next)) by {
            assert forall|j: int| 0 <= j < next.len() implies is_digit(#[trigger] next[j]) by {
                if j < pre.len() {
                    assert(next[j] == pre[j]);
                }
            }
        }
        if nv > max {
            proof {
                if d.len() > 0 && all_digits(d) {
                    lemma_digits_value_grows(d, next.len() as int);
                    assert(d.subrange(0, next.len() as int) =~= next);
                }
            }
            return None;
        }
        v = nv;
        i += 1;
    }
    assert(cs@.subrange(start as int, i as int) =~= d);
    Some(v)
}

/// What `str::parse::<u16>` reads from `t`: an optional `+` and then one or more
/// ASCII digits whose value fits in 16 bits.
pub open spec fn u16_text_value(t: Seq<char>) -> Option<int> {
    let d = if t.len() > 0 && t[0] == '+' { t.drop_first() } else { t };
    if d.len() > 0 && (forall|i: int| 0 <= i < d.len() ==> is_digit(#[trigger] d[i]))
        && digits_value(d) <= 65535 {
        Some(digits_value(d))
    } else {
        None
    }
}

/// The text of the error that `str::parse::<u16>` gives for `t`.
pub uninterp spec fn u16_parse_error_text(t: Seq<char>) -> Seq<char>;

/// `str::parse::<u16>`, its error turned into its message. Trusted: the text parses
/// exactly when it is an optional `+` followed by ASCII digits of a value that fits
/// in 16 bits, as the standard library documents; the message is a function of the text.
#[verifier::external_body]
pub(crate) fn parse_u16(s: &str) -> (r: Result<u16, String>)
    ensures
        match r {
            Ok(n) => u16_text_value(s@) == Some(n as int),
            Err(t) => u16_text_value(s@) is None && t@ == u16_parse_error_text(s@),
        },
{
    match s.parse::<u16>() {
        Ok(n) => Ok(n),
        Err(e) => Err(e.to_string()),
    }
}

/// The port read from `text` for setting `name`, and the error it raises: 5000 on error.
pub open spec fn port_outcome(name: Seq<char>, text: Seq<char>) -> (u16, Option<ErrorReport>) {
    match u16_text_value(text) {
        Some(v) => if v == 0 {
            (5000u16, Some(ErrorReport::InvalidPort { name, value: text, reason: "port cannot be 0"@ }))
        } else {
            (v as u16, None)
        },
        None => (5000u16, Some(ErrorReport::InvalidPort { name, value: text, reason: u16_parse_error_text(text) })),
    }
}

fn parse_port(env: &Vec<(String, String)>, name: &str, default: &str) -> (r: (u16, Option<ConfigError>))
    ensures
        r.0 == port_outcome(name@, env_or(env@, name@, default@)).0,
        opt_shows(r.1, port_outcome(name@, env_or(env@, name@, default@)).1),
{
    let value = env_var_or(env, name, default);
    match parse_u16(value.as_str()) {
        Ok(port) => {
            if port == 0 {
                (5000, Some(ConfigError::InvalidPort {
                    name: name.to_owned(),
                    value,
                    reason: "port cannot be 0".to_owned(),
                }))
            } else {
                (port, None)
            }
        },
        Err(reason) => (5000, Some(ConfigError::InvalidPort { name: name.to_owned(), value, reason })),
    }
}

// ========== BOOLEANS ==========

/// The boolean read from setting `name` with value `v`, and the error it raises.
/// Letters are compared without regard to ASCII case; no other character lower-cases
/// to a letter of these words.
pub open spec fn bool_outcome(name: Seq<char>, v: Option<Seq<char>>, default: bool) -> (bool, Option<ErrorReport>) {
    match v {
        None => (default, None),
        Some(value) => {
            let l = lower_seq(value);
            if l == seq!['t', 'r', 'u', 'e'] || l == seq!['1'] || l == seq!['y', 'e', 's'] {
                (true, None)
            } else if l == seq!['f', 'a', 'l', 's', 'e'] || l == seq!['0'] || l == seq!['n', 'o'] {
                (false, None)
            } else {
                (default, Some(ErrorReport::InvalidBoolean { name, value }))
            }
        },
    }
}

fn lowered(s: &str) -> (r: Vec<char>)
    ensures
        r@ == lower_seq(s@),
{
    let cs = str_chars(s);
    let mut out: Vec<char> = Vec::new();
    let mut i: usize = 0;
    while i < cs.len()
        invariant
            cs@ == s@,
            i <= cs@.len(),
            out@ == lower_seq(s@).subrange(0, i as int),
        decreases cs@.len() - i,
    {
        out.push(to_ascii_lower(cs[i]));
        i += 1;
        assert(out@ =~= lower_seq(s@).subrange(0, i as int));
    }
    assert(out@ =~= lower_seq(s@));
    out
}

fn word_is(l: &Vec<char>, w: &str) -> (r: bool)
    ensures
        r == (l@ == w@),
{
    let wc = str_chars(w);
    chars_equal(l, &wc)
}

fn parse_bool(env: &Vec<(String, String)>, name: &str, default: bool) -> (r: (bool, Option<ConfigError>))
    ensures
        r.0 == bool_outcome(name@, env_get(env@, name@), default).0,
        opt_shows(r.1, bool_outcome(name@, env_get(env@, name@), default).1),
{
    match env_var(env, name) {
        None => (default, None),
        Some(value) => {
            let l = lowered(value.as_str());
            proof {
                reveal_strlit("true");
                reveal_strlit("1");
                reveal_strlit("yes");
                reveal_strlit("false");
                reveal_strlit("0");
                reveal_strlit("no");
                assert("true"@ =~= seq!['t', 'r', 'u', 'e']);
                assert("1"@ =~= seq!['1']);
                assert("yes"@ =~= seq!['y', 'e', 's']);
                assert("false"@ =~= seq!['f', 'a', 'l', 's', 'e']);
                assert("0"@ =~= seq!['0']);
                assert("no"@ =~= seq!['n', 'o']);
            }
            if word_is(&l, "true") || word_is(&l, "1") || word_is(&l, "yes") {
                (true, None)
            } else if word_is(&l, "false") || word_is(&l, "0") || word_is(&l, "no") {
                (false, None)
            } else {
                (default, Some(ConfigError::InvalidBoolean { name: name.to_owned(), value }))
            }
        },
    }
}

// ========== URLS ==========

/// `p` is a prefix of `s`.
pub open spec fn has_prefix(s: Seq<char>, p: Seq<char>) -> bool {
    p.len() <= s.len() && s.subrange(0, p.len() as int) == p
}

/// Why `url` is not acceptable, or `None` when it is: it must be non-empty, start
/// with `http://` or `https://`, and have a host after the scheme.
pub open spec fn url_problem(url: Seq<char>) -> Option<Seq<char>> {
    if url.len() == 0 {
        Some("URL cannot be empty"@)
    } else if !has_prefix(url, "http://"@) && !has_prefix(url, "https://"@) {
        Some("URL must start with http:// or https://"@)
    } else {
        let after = if has_prefix(url, "https://"@) {
            url.skip("https://"@.len() as int)
        } else {
            url.skip("http://"@.len() as int)
        };
        if after.len() == 0 || after[0] == '/' {
            Some("URL must have a host"@)
        } else {
            None
        }
    }
}

fn starts_with(s: &Vec<char>, p: &str) -> (r: bool)
    ensures
        r == has_prefix(s@, p@),
{
    let pc = str_chars(p);
    if pc.len() > s.len() {
        return false;
    }
    let mut i: usize = 0;
    while i < pc.len()
        invariant
            pc@ == p@,
            pc@.len() <= s@.len(),
            i <= pc@.len(),
            forall|j: int| 0 <= j < i ==> s@[j] == pc@[j],
        decreases pc@.len() - i,
    {
        if s[i] != pc[i] {
            assert(s@.subrange(0, pc@.len() as int)[i as int] != p@[i as int]);
            return false;
        }
        i += 1;
    }
    assert(s@.subrange(0, pc@.len() as int) =~= p@);
    true
}

// ========== CORS ==========

/// The trimmed, non-empty pieces of `pieces`, in order.
pub open spec fn kept_origins(pieces: Seq<Seq<char>>) -> Seq<Seq<char>>
    decreases pieces.len(),
{
    if pieces.len() == 0 {
        Seq::empty()
    } else {
        let prev = kept_origins(pieces.drop_last());
        let t = trim_seq(pieces.last());
        if t.len() > 0 {
            prev.push(t)
        } else {
            prev
        }
    }
}

/// The allowed origins and whether any origin is allowed, for the setting value `v`:
/// unset, blank or `*` allow any origin; otherwise the comma-separated origins,
/// trimmed, with empty ones dropped (and any origin allowed when none is left).
pub open spec fn cors_outcome(v: Option<Seq<char>>) -> (Seq<Seq<char>>, bool) {
    match v {
        Some(value) => if trim_seq(value) == seq!['*'] {
            (Seq::empty(), true)
        } else if trim_seq(value).len() > 0 {
            let origins = kept_origins(split_seq(value, ','));
            if origins.len() == 0 {
                (Seq::empty(), true)
            } else {
                (origins, false)
            }
        } else {
            (Seq::empty(), true)
        },
        None => (Seq::empty(), true),
    }
}

/// The views of a sequence of strings.
pub open spec fn views(v: Seq<String>) -> Seq<Seq<char>> {
    Seq::new(v.len(), |i: int| v[i]@)
}

fn origins_of(value: &str) -> (r: Vec<String>)
    ensures
        views(r@) == kept_origins(split_seq(value@, ',')),
{
    let cs = str_chars(value);
    let pieces = split_chars(&cs, ',');
    let ghost sp = split_seq(value@, ',');
    let mut out: Vec<String> = Vec::new();
    let mut k: usize = 0;
    while k < pieces.len()
        invariant
            cs@ == value@,
            pieces@.len() == sp.len(),
            forall|j: int| 0 <= j < pieces@.len() ==> (#[trigger] pieces@[j])@ == sp[j],
            k <= pieces@.len(),
            views(out@) == kept_origins(sp.take(k as int)),
        decreases pieces@.len() - k,
    {
        let t = trim_chars(&pieces[k]);
        proof {
            assert(sp.take(k + 1).drop_last() =~= sp.take(k as int));
            assert(sp.take(k + 1).last() == sp[k as int]);
        }
        if t.len() > 0 {
            let o = string_from_chars(&t);
            out.push(o);
            assert(views(out@) =~= kept_origins(sp.take(k as int)).push(t@));
        }
        k += 1;
    }
    assert(sp.take(sp.len() as int) =~= sp);
    out
}

fn parse_cors_origins(env: &Vec<(String, String)>) -> (r: (Vec<String>, bool))
    ensures
        views(r.0@) == cors_outcome(env_get(env@, "CORS_ALLOWED_ORIGINS"@)).0,
        r.1 == cors_outcome(env_get(env@, "CORS_ALLOWED_ORIGINS"@)).1,
{
    match env_var(env, "CORS_ALLOWED_ORIGINS") {
        Some(value) => {
            let cs = str_chars(value.as_str());
            let t = trim_chars(&cs);
            if t.len() == 1 && t[0] == '*' {
                assert(t@ =~= seq!['*']);
                let empty: Vec<String> = Vec::new();
                assert(views(empty@) =~= Seq::<Seq<char>>::empty());
                (empty, true)
            } else if t.len() > 0 {
                let origins = origins_of(value.as_str());
                if origins.len() == 0 {
                    let empty: Vec<String> = Vec::new();
                    assert(views(empty@) =~= Seq::<Seq<char>>::empty());
                    (empty, true)
                } else {
                    (origins, false)
                }
            } else {
                let empty: Vec<String> = Vec::new();
                assert(views(empty@) =~= Seq::<Seq<char>>::empty());
                (empty, true)
            }
        },
        None => {
            let empty: Vec<String> = Vec::new();
            assert(views(empty@) =~= Seq::<Seq<char>>::empty());
            (empty, true)
        },
    }
}

// ========== HOST CODE ==========

/// The host code read from the setting value `v`, trimmed, or the message of the
/// error: it must be set, must not lower-case to `holiday`, and must be at least
/// 8 bytes long.
pub open spec fn host_code_outcome(v: Option<Seq<char>>) -> Result<Seq<char>, Seq<char>> {
    match v {
        Some(code) => if trim_seq(code).len() > 0 {
            let c = trim_seq(code);
            if spec_to_lowercase(c) == "holiday"@ {
                Err("HOST_CODE cannot be 'holiday'. Please set a secure value (minimum 8 characters)."@)
            } else if encode_utf8(c).len() < 8 {
                Err("HOST_CODE must be at least 8 characters (got "@ + decimal(encode_utf8(c).len())
                    + " chars). Please set a secure value."@)
            } else {
                Ok(c)
            }
        } else {
            Err(
                "HOST_CODE environment variable is required. Please set HOST_CODE to a secure value (minimum 8 characters)."@,
            )
        },
        None => Err(
            "HOST_CODE environment variable is required. Please set HOST_CODE to a secure value (minimum 8 characters)."@,
        ),
    }
}

fn parse_host_code(env: &Vec<(String, String)>) -> (r: Result<(String, bool), ConfigError>)
    ensures
        match host_code_outcome(env_get(env@, "HOST_CODE"@)) {
            Ok(c) => r matches Ok((code, using_default)) && code@ == c && !using_default,
            Err(msg) => r matches Err(e) && shows_error(e, ErrorReport::InsecureHostCode(msg)),
        },
{
    let missing = "HOST_CODE environment variable is required. Please set HOST_CODE to a secure value (minimum 8 characters).";
    match env_var(env, "HOST_CODE") {
        Some(code) => {
            let cs = str_chars(code.as_str());
            let t = trim_chars(&cs);
            if t.len() == 0 {
                return Err(ConfigError::InsecureHostCode(missing.to_owned()));
            }
            let c = string_from_chars(&t);
            let l = to_lowercase(c.as_str());
            if str_equal(l.as_str(), "holiday") {
                return Err(ConfigError::InsecureHostCode(
                    "HOST_CODE cannot be 'holiday'. Please set a secure value (minimum 8 characters).".to_owned(),
                ));
            }
            let n = c.as_str().as_bytes().len();
            if n < 8 {
                let mut msg = "HOST_CODE must be at least 8 characters (got ".to_owned();
                let digits = u64_to_decimal(n as u64);
                msg.append(digits.as_str());
                msg.append(" chars). Please set a secure value.");
                return Err(ConfigError::InsecureHostCode(msg));
            }
            Ok((c, false))
        },
        None => Err(ConfigError::InsecureHostCode(missing.to_owned())),
    }
}

// ========== REDACTION ==========

/// `value` can be cut after its first four bytes: it is at most four bytes long,
/// or its fifth byte starts a character.
pub open spec fn redact_defined(value: Seq<char>) -> bool {
    encode_utf8(value).len() <= 4 || is_char_boundary(encode_utf8(value), 4)
}

/// A secret as it may be logged: `not set` when empty, `****` when at most four
/// bytes long, else its first four bytes followed by `****`.
pub open spec fn redacted(value: Seq<char>) -> Seq<char> {
    if value.len() == 0 {
        "not set"@
    } else if encode_utf8(value).len() <= 4 {
        "****"@
    } else {
        decode_utf8(encode_utf8(value).subrange(0, 4)) + "****"@
    }
}

/// Redacts a sensitive value for logging.
pub fn redact(value: &str) -> (r: String)
    requires
        redact_defined(value@),
    ensures
        r@ == redacted(value@),
{
    if value.is_empty() {
        return "not set".to_owned();
    }
    if value.as_bytes().len() <= 4 {
        return "****".to_owned();
    }
    let (head, _) = value.split_at(4);
    let mut out = head.to_owned();
    out.append("****");
    out
}

impl Config {
    /// Checks that `url` is an http or https URL with a host; the error names the
    /// setting `name`.
    pub fn validate_url(url: &str, name: &str) -> (r: Result<(), ConfigError>)
        ensures
            match url_problem(url@) {
                None => r is Ok,
                Some(reason) => r matches Err(e) && shows_error(
                    e,
                    ErrorReport::InvalidUrl { name: name@, value: url@, reason },
                ),
            },
    {
        let cs = str_chars(url);
        let reason: Option<&str> = if cs.len() == 0 {
            Some("URL cannot be empty")
        } else if !starts_with(&cs, "http://") && !starts_with(&cs, "https://") {
            Some("URL must start with http:// or https://")
        } else {
            let skip = if starts_with(&cs, "https://") {
                "https://".unicode_len()
            } else {
                "http://".unicode_len()
            };
            if skip >= cs.len() || cs[skip] == '/' {
                Some("URL must have a host")
            } else {
                None
            }
        };
        match reason {
            None => Ok(()),
            Some(text) => Err(ConfigError::InvalidUrl {
                name: name.to_owned(),
                value: url.to_owned(),
                reason: text.to_owned(),
            }),
        }
    }
}

// ========== LOADING ==========

/// The error that an unacceptable URL `u` for setting `name` raises.
pub open spec fn url_error(name: Seq<char>, u: Seq<char>) -> Option<ErrorReport> {
    match url_problem(u) {
        Some(reason) => Some(ErrorReport::InvalidUrl { name, value: u, reason }),
        None => None,
    }
}

/// A missing-setting error when `cond` holds.
pub open spec fn missing_if(cond: bool, what: Seq<char>) -> Option<ErrorReport> {
    if cond {
        Some(ErrorReport::MissingRequired(what))
    } else {
        None
    }
}

/// The port setting `name` of `env`, read with its default.
pub open spec fn port_of(env: Seq<(String, String)>, name: Seq<char>, default: Seq<char>) -> (u16, Option<ErrorReport>) {
    port_outcome(name, env_or(env, name, default))
}

/// The boolean setting `name` of `env`, `false` by default.
pub open spec fn flag_of(env: Seq<(String, String)>, name: Seq<char>) -> (bool, Option<ErrorReport>) {
    bool_outcome(name, env_get(env, name), false)
}

/// The database path: `DATABASE_URL`, else `DB_PATH`, else `puzzles.db`.
pub open spec fn db_path_of(env: Seq<(String, String)>) -> Seq<char> {
    match env_get(env, "DATABASE_URL"@) {
        Some(v) => v,
        None => env_or(env, "DB_PATH"@, "puzzles.db"@),
    }
}

/// Every problem with the configuration in `env`, in the order they are found.
pub open spec fn config_errors(env: Seq<(String, String)>) -> Seq<ErrorReport> {
    let ssl = flag_of(env, "SSL_ENABLED"@);
    let email = flag_of(env, "EMAIL_ENABLED"@);
    let ssl_missing = missing_if(
        ssl.0 && (env_get(env, "SSL_CERT"@) is None || env_get(env, "SSL_KEY"@) is None),
        "SSL_CERT and SSL_KEY (required when SSL_ENABLED=true)"@,
    );
    let user_missing = missing_if(
        email.0 && env_or(env, "SMTP_USER"@, ""@).len() == 0,
        "SMTP_USER (required when EMAIL_ENABLED=true)"@,
    );
    let pass_missing = missing_if(
        email.0 && env_or(env, "SMTP_PASS"@, ""@).len() == 0,
        "SMTP_PASS (required when EMAIL_ENABLED=true)"@,
    );
    let apple = match env_get(env, "APPLE_REDIRECT_URI"@) {
        Some(u) => url_error("APPLE_REDIRECT_URI"@, u),
        None => None,
    };
    let host = match host_code_outcome(env_get(env, "HOST_CODE"@)) {
        Ok(_) => None,
        Err(msg) => Some(ErrorReport::InsecureHostCode(msg)),
    };
    opt_seq(port_of(env, "PORT"@, "5000"@).1) + opt_seq(ssl.1) + opt_seq(ssl_missing) + opt_seq(email.1)
        + opt_seq(port_of(env, "SMTP_PORT"@, "587"@).1)
        + opt_seq(url_error("BASE_URL"@, env_or(env, "BASE_URL"@, "http://localhost:5000"@)))
        + opt_seq(user_missing) + opt_seq(pass_missing)
        + opt_seq(url_error("WEBAUTHN_RP_ORIGIN"@, env_or(env, "WEBAUTHN_RP_ORIGIN"@, "http://localhost:5000"@)))
        + opt_seq(apple) + opt_seq(host)
}

impl Config {
    /// This configuration is the one that `env` describes.
    pub open spec fn loaded_from(self, env: Seq<(String, String)>) -> bool {
        &&& self.server.port == port_of(env, "PORT"@, "5000"@).0
        &&& self.server.ssl_enabled == flag_of(env, "SSL_ENABLED"@).0
        &&& opt_view(self.server.ssl_cert) == env_get(env, "SSL_CERT"@)
        &&& opt_view(self.server.ssl_key) == env_get(env, "SSL_KEY"@)
        &&& self.database.path@ == db_path_of(env)
        &&& self.email.enabled == flag_of(env, "EMAIL_ENABLED"@).0
        &&& self.email.smtp_host@ == env_or(env, "SMTP_HOST"@, "smtp.gmail.com"@)
        &&& self.email.smtp_port == port_of(env, "SMTP_PORT"@, "587"@).0
        &&& self.email.smtp_user@ == env_or(env, "SMTP_USER"@, ""@)
        &&& self.email.smtp_pass@ == env_or(env, "SMTP_PASS"@, ""@)
        &&& self.email.from_email@ == env_or(env, "FROM_EMAIL"@, "noreply@holidaywheel.com"@)
        &&& self.email.base_url@ == env_or(env, "BASE_URL"@, "http://localhost:5000"@)
        &&& self.webauthn.rp_id@ == env_or(env, "WEBAUTHN_RP_ID"@, "localhost"@)
        &&& self.webauthn.rp_origin@ == env_or(env, "WEBAUTHN_RP_ORIGIN"@, "http://localhost:5000"@)
        &&& opt_view(self.oauth.google_client_id) == env_get(env, "GOOGLE_CLIENT_ID"@)
        &&& opt_view(self.oauth.apple_client_id) == env_get(env, "APPLE_CLIENT_ID"@)
        &&& opt_view(self.oauth.apple_client_id_web) == env_get(env, "APPLE_CLIENT_ID_WEB"@)
        &&& opt_view(self.oauth.apple_redirect_uri) == env_get(env, "APPLE_REDIRECT_URI"@)
        &&& opt_view(self.admin.admin_email) == env_get(env, "ADMIN_EMAIL"@)
        &&& views(self.cors.allowed_origins@) == cors_outcome(env_get(env, "CORS_ALLOWED_ORIGINS"@)).0
        &&& self.cors.permissive == cors_outcome(env_get(env, "CORS_ALLOWED_ORIGINS"@)).1
        &&& host_code_outcome(env_get(env, "HOST_CODE"@)) == Ok::<Seq<char>, Seq<char>>(self.game.host_code@)
        &&& !self.game.using_default_host_code
        &&& self.rust_log@ == env_or(env, "RUST_LOG"@, "info"@)
    }

    /// Loads and validates the configuration from the environment snapshot `env`
    /// (name and value pairs; the first entry of a name counts). It succeeds exactly
    /// when no setting is wrong; otherwise the error is the one problem found, or all
    /// of them in order.
    #[verifier::spinoff_prover]
    #[verifier::rlimit(100)]
    pub fn from_env_no_dotenv(env: &Vec<(String, String)>) -> (r: Result<Config, ConfigError>)
        ensures
            match r {
                Ok(c) => config_errors(env@).len() == 0 && c.loaded_from(env@),
                Err(e) => config_errors(env@).len() > 0 && reports(e, config_errors(env@)),
            },
    {
        let mut errors: Vec<ConfigError> = Vec::new();
        let ghost env_s = env@;

        let (port, e) = parse_port(env, "PORT", "5000");
        let ghost ms0 = Seq::<ErrorReport>::empty();
        push_error(&mut errors, e, Ghost(ms0), Ghost(port_of(env_s, "PORT"@, "5000"@).1));
        let ghost ms1 = ms0 + opt_seq(port_of(env_s, "PORT"@, "5000"@).1);

        let (ssl_enabled, e) = parse_bool(env, "SSL_ENABLED", false);
        push_error(&mut errors, e, Ghost(ms1), Ghost(flag_of(env_s, "SSL_ENABLED"@).1));
        let ghost ms2 = ms1 + opt_seq(flag_of(env_s, "SSL_ENABLED"@).1);

        let ssl_cert = env_var(env, "SSL_CERT");
        let ssl_key = env_var(env, "SSL_KEY");
        let e = if ssl_enabled && (ssl_cert.is_none() || ssl_key.is_none()) {
            Some(ConfigError::MissingRequired("SSL_CERT and SSL_KEY (required when SSL_ENABLED=true)".to_owned()))
        } else {
            None
        };
        let ghost m3 = missing_if(
            ssl_enabled && (env_get(env_s, "SSL_CERT"@) is None || env_get(env_s, "SSL_KEY"@) is None),
            "SSL_CERT and SSL_KEY (required when SSL_ENABLED=true)"@,
        );
        push_error(&mut errors, e, Ghost(ms2), Ghost(m3));
        let ghost ms3 = ms2 + opt_seq(m3);

        let db_path = match env_var(env, "DATABASE_URL") {
            Some(v) => v,
            None => env_var_or(env, "DB_PATH", "puzzles.db"),
        };

        let (email_enabled, e) = parse_bool(env, "EMAIL_ENABLED", false);
        push_error(&mut errors, e, Ghost(ms3), Ghost(flag_of(env_s, "EMAIL_ENABLED"@).1));
        let ghost ms4 = ms3 + opt_seq(flag_of(env_s, "EMAIL_ENABLED"@).1);

        let smtp_host = env_var_or(env, "SMTP_HOST", "smtp.gmail.com");
        let (smtp_port, e) = parse_port(env, "SMTP_PORT", "587");
        push_error(&mut errors, e, Ghost(ms4), Ghost(port_of(env_s, "SMTP_PORT"@, "587"@).1));
        let ghost ms5 = ms4 + opt_seq(port_of(env_s, "SMTP_PORT"@, "587"@).1);

        let smtp_user = env_var_or(env, "SMTP_USER", "");
        let smtp_pass = env_var_or(env, "SMTP_PASS", "");
        let from_email = env_var_or(env, "FROM_EMAIL", "noreply@holidaywheel.com");
        let base_url = env_var_or(env, "BASE_URL", "http://localhost:5000");

        let e = match Self::validate_url(base_url.as_str(), "BASE_URL") {
            Ok(()) => None,
            Err(x) => Some(x),
        };
        push_error(&mut errors, e, Ghost(ms5), Ghost(url_error("BASE_URL"@, base_url@)));
        let ghost ms6 = ms5 + opt_seq(url_error("BASE_URL"@, base_url@));

        let e = if email_enabled && smtp_user.as_str().is_empty() {
            Some(ConfigError::MissingRequired("SMTP_USER (required when EMAIL_ENABLED=true)".to_owned()))
        } else {
            None
        };
        let ghost m7 = missing_if(email_enabled && smtp_user@.len() == 0, "SMTP_USER (required when EMAIL_ENABLED=true)"@);
        push_error(&mut errors, e, Ghost(ms6), Ghost(m7));
        let ghost ms7 = ms6 + opt_seq(m7);

        let e = if email_enabled && smtp_pass.as_str().is_empty() {
            Some(ConfigError::MissingRequired("SMTP_PASS (required when EMAIL_ENABLED=true)".to_owned()))
        } else {
            None
        };
        let ghost m8 = missing_if(email_enabled && smtp_pass@.len() == 0, "SMTP_PASS (required when EMAIL_ENABLED=true)"@);
        push_error(&mut errors, e, Ghost(ms7), Ghost(m8));
        let ghost ms8 = ms7 + opt_seq(m8);

        let rp_id = env_var_or(env, "WEBAUTHN_RP_ID", "localhost");
        let rp_origin = env_var_or(env, "WEBAUTHN_RP_ORIGIN", "http://localhost:5000");
        let e = match Self::validate_url(rp_origin.as_str(), "WEBAUTHN_RP_ORIGIN") {
            Ok(()) => None,
            Err(x) => Some(x),
        };
        push_error(&mut errors, e, Ghost(ms8), Ghost(url_error("WEBAUTHN_RP_ORIGIN"@, rp_origin@)));
        let ghost ms9 = ms8 + opt_seq(url_error("WEBAUTHN_RP_ORIGIN"@, rp_origin@));

        let google_client_id = env_var(env, "GOOGLE_CLIENT_ID");
        let apple_client_id = env_var(env, "APPLE_CLIENT_ID");
        let apple_client_id_web = env_var(env, "APPLE_CLIENT_ID_WEB");
        let apple_redirect_uri = env_var(env, "APPLE_REDIRECT_URI");
        let e = match &apple_redirect_uri {
            Some(uri) => match Self::validate_url(uri.as_str(), "APPLE_REDIRECT_URI") {
                Ok(()) => None,
                Err(x) => Some(x),
            },
            None => None,
        };
        let ghost m10 = match env_get(env_s, "APPLE_REDIRECT_URI"@) {
            Some(u) => url_error("APPLE_REDIRECT_URI"@, u),
            None => None,
        };
        push_error(&mut errors, e, Ghost(ms9), Ghost(m10));
        let ghost ms10 = ms9 + opt_seq(m10);

        let admin_email = env_var(env, "ADMIN_EMAIL");
        let (cors_origins, cors_permissive) = parse_cors_origins(env);

        let (host_code, using_default_host_code, e) = match parse_host_code(env) {
            Ok((code, default_used)) => (code, default_used, None),
            Err(x) => ("placeholder".to_owned(), true, Some(x)),
        };
        let ghost m11 = match host_code_outcome(env_get(env_s, "HOST_CODE"@)) {
            Ok(_) => None,
            Err(msg) => Some(ErrorReport::InsecureHostCode(msg)),
        };
        push_error(&mut errors, e, Ghost(ms10), Ghost(m11));
        let ghost ms11 = ms10 + opt_seq(m11);

        let rust_log = env_var_or(env, "RUST_LOG", "info");

        assert(ms11 =~= config_errors(env_s));
        if errors.len() > 0 {
            if errors.len() == 1 {
                let first = errors.remove(0);
                return Err(first);
            }
            return Err(ConfigError::Multiple(errors));
        }
        Ok(Config {
            server: ServerConfig { port, ssl_enabled, ssl_cert, ssl_key },
            database: DatabaseConfig { path: db_path },
            email: EmailConfig {
                enabled: email_enabled,
                smtp_host,
                smtp_port,
                smtp_user,
                smtp_pass,
                from_email,
                base_url,
            },
            webauthn: WebAuthnConfig { rp_id, rp_origin },
            oauth: OAuthConfig { google_client_id, apple_client_id, apple_client_id_web, apple_redirect_uri },
            admin: AdminConfig { admin_email },
            cors: CorsConfig { allowed_origins: cors_origins, permissive: cors_permissive },
            game: GameConfig { host_code, using_default_host_code },
            rust_log,
        })
    }
}

// ========== DESCRIPTION ==========

/// How a boolean is printed.
pub open spec fn bool_text(b: bool) -> Seq<char> {
    if b {
        "true"@
    } else {
        "false"@
    }
}

/// An optional setting as printed: its value, or `not set`.
pub open spec fn or_not_set(o: Option<String>) -> Seq<char> {
    match o {
        Some(v) => v@,
        None => "not set"@,
    }
}

fn bool_str(b: bool) -> (r: &'static str)
    ensures
        r@ == bool_text(b),
{
    if b {
        "true"
    } else {
        "false"
    }
}

fn value_or_not_set(o: &Option<String>) -> (r: String)
    ensures
        r@ == or_not_set(*o),
{
    match o {
        Some(v) => v.clone(),
        None => "not set".to_owned(),
    }
}

fn joined(a: &str, b: &str) -> (r: String)
    ensures
        r@ == a@ + b@,
{
    let mut s = a.to_owned();
    s.append(b);
    s
}

fn push_line(lines: &mut Vec<String>, line: String)
    ensures
        views(final(lines)@) == views(old(lines)@).push(line@),
{
    lines.push(line);
    assert(views(lines@) =~= views(old(lines)@).push(line@));
}

impl Config {
    /// The one-line summary of this configuration.
    pub open spec fn summary(self) -> Seq<char> {
        "Config { port: "@ + decimal(self.server.port as nat) + ", ssl: "@ + bool_text(self.server.ssl_enabled)
            + ", db: "@ + self.database.path@ + ", email: "@ + bool_text(self.email.enabled) + " }"@
    }

    /// The one-line summary: port, SSL, database path and whether email is on.
    pub fn display_string(&self) -> (r: String)
        ensures
            r@ == self.summary(),
    {
        let mut s = "Config { port: ".to_owned();
        s.append(u64_to_decimal(self.server.port as u64).as_str());
        s.append(", ssl: ");
        s.append(bool_str(self.server.ssl_enabled));
        s.append(", db: ");
        s.append(self.database.path.as_str());
        s.append(", email: ");
        s.append(bool_str(self.email.enabled));
        s.append(" }");
        s
    }

    /// The secrets that are logged can be redacted.
    pub open spec fn loggable(self) -> bool {
        &&& self.email.enabled ==> redact_defined(self.email.smtp_user@)
        &&& (self.oauth.google_client_id matches Some(g) ==> redact_defined(g@))
        &&& !self.game.using_default_host_code ==> redact_defined(self.game.host_code@)
    }

    /// The log lines on the server and the database.
    pub open spec fn server_lines(self) -> Seq<Seq<char>> {
        seq![
            "Configuration loaded:"@,
            "  Server:"@,
            "    Port: "@ + decimal(self.server.port as nat),
            "    SSL Enabled: "@ + bool_text(self.server.ssl_enabled),
        ] + (if self.server.ssl_enabled {
            seq![
                "    SSL Cert: "@ + or_not_set(self.server.ssl_cert),
                "    SSL Key: "@ + or_not_set(self.server.ssl_key),
            ]
        } else {
            Seq::empty()
        }) + seq!["  Database:"@, "    Path: "@ + self.database.path@]
    }

    /// The log lines on email.
    pub open spec fn email_lines(self) -> Seq<Seq<char>> {
        seq!["  Email:"@, "    Enabled: "@ + bool_text(self.email.enabled)] + (if self.email.enabled {
            seq![
                "    SMTP Host: "@ + self.email.smtp_host@,
                "    SMTP Port: "@ + decimal(self.email.smtp_port as nat),
                "    SMTP User: "@ + redacted(self.email.smtp_user@),
                "    From: "@ + self.email.from_email@,
            ]
        } else {
            Seq::empty()
        }) + seq!["    Base URL: "@ + self.email.base_url@]
    }

    /// The log lines on WebAuthn, OAuth and the admin.
    pub open spec fn identity_lines(self) -> Seq<Seq<char>> {
        seq![
            "  WebAuthn:"@,
            "    RP ID: "@ + self.webauthn.rp_id@,
            "    RP Origin: "@ + self.webauthn.rp_origin@,
            "  OAuth:"@,
            "    Google Client ID: "@ + match self.oauth.google_client_id {
                Some(g) => redacted(g@),
                None => "not set"@,
            },
            "    Apple Client ID: "@ + or_not_set(self.oauth.apple_client_id),
            "    Apple Client ID (web): "@ + or_not_set(self.oauth.apple_client_id_web),
            "  Admin:"@,
            "    Admin Email: "@ + or_not_set(self.admin.admin_email),
        ]
    }

    /// The log lines on CORS.
    pub open spec fn cors_lines(self) -> Seq<Seq<char>> {
        let origins = views(self.cors.allowed_origins@);
        seq!["  CORS:"@] + if self.cors.permissive {
            seq!["    Mode: PERMISSIVE (any origin allowed) - NOT SECURE FOR PRODUCTION"@]
        } else {
            seq!["    Mode: STRICT ("@ + decimal(origins.len()) + " origins)"@]
                + Seq::new(origins.len(), |i: int| "    - "@ + origins[i])
        }
    }

    /// The log lines on the game and logging.
    pub open spec fn game_lines(self) -> Seq<Seq<char>> {
        seq!["  Game:"@] + (if self.game.using_default_host_code {
            seq!["    Host Code: DEFAULT ('holiday') - NOT SECURE FOR PRODUCTION"@]
        } else {
            seq!["    Host Code: "@ + redacted(self.game.host_code@) + " (custom)"@]
        }) + seq!["  Logging: "@ + self.rust_log@]
    }

    /// The lines that describe this configuration, secrets redacted.
    pub open spec fn log_lines(self) -> Seq<Seq<char>> {
        self.server_lines() + self.email_lines() + self.identity_lines() + self.cors_lines() + self.game_lines()
    }

    fn log_server(&self, lines: &mut Vec<String>)
        ensures
            views(final(lines)@) == views(old(lines)@) + self.server_lines(),
    {
        push_line(lines, "Configuration loaded:".to_owned());
        push_line(lines, "  Server:".to_owned());
        push_line(lines, joined("    Port: ", u64_to_decimal(self.server.port as u64).as_str()));
        push_line(lines, joined("    SSL Enabled: ", bool_str(self.server.ssl_enabled)));
        if self.server.ssl_enabled {
            push_line(lines, joined("    SSL Cert: ", value_or_not_set(&self.server.ssl_cert).as_str()));
            push_line(lines, joined("    SSL Key: ", value_or_not_set(&self.server.ssl_key).as_str()));
        }
        push_line(lines, "  Database:".to_owned());
        push_line(lines, joined("    Path: ", self.database.path.as_str()));
        assert(views(lines@) =~= views(old(lines)@) + self.server_lines());
    }

    fn log_email(&self, lines: &mut Vec<String>)
        requires
            self.loggable(),
        ensures
            views(final(lines)@) == views(old(lines)@) + self.email_lines(),
    {
        push_line(lines, "  Email:".to_owned());
        push_line(lines, joined("    Enabled: ", bool_str(self.email.enabled)));
        if self.email.enabled {
            push_line(lines, joined("    SMTP Host: ", self.email.smtp_host.as_str()));
            push_line(lines, joined("    SMTP Port: ", u64_to_decimal(self.email.smtp_port as u64).as_str()));
            push_line(lines, joined("    SMTP User: ", redact(self.email.smtp_user.as_str()).as_str()));
            push_line(lines, joined("    From: ", self.email.from_email.as_str()));
        }
        push_line(lines, joined("    Base URL: ", self.email.base_url.as_str()));
        assert(views(lines@) =~= views(old(lines)@) + self.email_lines());
    }

    fn log_identity(&self, lines: &mut Vec<String>)
        requires
            self.loggable(),
        ensures
            views(final(lines)@) == views(old(lines)@) + self.identity_lines(),
    {
        push_line(lines, "  WebAuthn:".to_owned());
        push_line(lines, joined("    RP ID: ", self.webauthn.rp_id.as_str()));
        push_line(lines, joined("    RP Origin: ", self.webauthn.rp_origin.as_str()));
        push_line(lines, "  OAuth:".to_owned());
        let google = match &self.oauth.google_client_id {
            Some(g) => redact(g.as_str()),
            None => "not set".to_owned(),
        };
        push_line(lines, joined("    Google Client ID: ", google.as_str()));
        push_line(lines, joined("    Apple Client ID: ", value_or_not_set(&self.oauth.apple_client_id).as_str()));
        push_line(
            lines,
            joined("    Apple Client ID (web): ", value_or_not_set(&self.oauth.apple_client_id_web).as_str()),
        );
        push_line(lines, "  Admin:".to_owned());
        push_line(lines, joined("    Admin Email: ", value_or_not_set(&self.admin.admin_email).as_str()));
        assert(views(lines@) =~= views(old(lines)@) + self.identity_lines());
    }

    fn log_cors(&self, lines: &mut Vec<String>)
        ensures
            views(final(lines)@) == views(old(lines)@) + self.cors_lines(),
    {
        push_line(lines, "  CORS:".to_owned());
        if self.cors.permissive {
            push_line(lines, "    Mode: PERMISSIVE (any origin allowed) - NOT SECURE FOR PRODUCTION".to_owned());
        } else {
            let n = self.cors.allowed_origins.len();
            let mut mode = "    Mode: STRICT (".to_owned();
            mode.append(u64_to_decimal(n as u64).as_str());
            mode.append(" origins)");
            push_line(lines, mode);
            let ghost base = views(lines@);
            let ghost origins = views(self.cors.allowed_origins@);
            let mut k: usize = 0;
            while k < n
                invariant
                    n == self.cors.allowed_origins@.len(),
                    origins == views(self.cors.allowed_origins@),
                    k <= n,
                    views(lines@) == base + Seq::new(k as nat, |i: int| "    - "@ + origins[i]),
                decreases n - k,
            {
                push_line(lines, joined("    - ", self.cors.allowed_origins[k].as_str()));
                k += 1;
                assert(views(lines@) =~= base + Seq::new(k as nat, |i: int| "    - "@ + origins[i]));
            }
        }
        assert(views(lines@) =~= views(old(lines)@) + self.cors_lines());
    }

    fn log_game(&self, lines: &mut Vec<String>)
        requires
            self.loggable(),
        ensures
            views(final(lines)@) == views(old(lines)@) + self.game_lines(),
    {
        push_line(lines, "  Game:".to_owned());
        if self.game.using_default_host_code {
            push_line(lines, "    Host Code: DEFAULT ('holiday') - NOT SECURE FOR PRODUCTION".to_owned());
        } else {
            let mut code = "    Host Code: ".to_owned();
            code.append(redact(self.game.host_code.as_str()).as_str());
            code.append(" (custom)");
            push_line(lines, code);
        }
        push_line(lines, joined("  Logging: ", self.rust_log.as_str()));
        assert(views(lines@) =~= views(old(lines)@) + self.game_lines());
    }

    /// The lines that describe the loaded configuration, with secrets redacted,
    /// for the log.
    pub fn log_config(&self) -> (r: Vec<String>)
        requires
            self.loggable(),
        ensures
            views(r@) == self.log_lines(),
    {
        let mut lines: Vec<String> = Vec::new();
        self.log_server(&mut lines);
        self.log_email(&mut lines);
        self.log_identity(&mut lines);
        self.log_cors(&mut lines);
        self.log_game(&mut lines);
        assert(views(lines@) =~= self.log_lines());
        lines
    }
}

} // verus!
