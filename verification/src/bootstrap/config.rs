//! Application configuration: defaults, layering of configuration sources, and the
//! checks made before the server starts.
//!
//! Sources (configuration files, then environment variables) are read by the caller and
//! handed over as `(key, value)` pairs with lower-case dotted keys such as `server.port`;
//! a later pair overrides an earlier one with the same key.

use vstd::prelude::*;

use crate::infra::storage::{join_path, join_path_spec};
use crate::text::{
    ascii_lower_seq, ascii_lowercase, chars_eq, chars_of, eq_ignore_ascii_case, parse_u64, parse_u64_spec,
    str_eq,
};

verus! {

#[derive(Debug, Clone)]
pub struct ServerConfig {
    pub host: String,
    pub port: u16,
}

#[derive(Debug, Clone)]
pub struct DatabaseConfig {
    pub url: String,
}

#[derive(Debug, Clone)]
pub struct AuthConfig {
    pub secret: String,
    /// Lifetime of access tokens, in seconds.
    pub expires_in_seconds: u64,
    pub allow_insecure_default_secret: bool,
    /// Cloudflare Turnstile secret key; empty to skip verification.
    pub turnstile_secret: String,
    /// Cloudflare Turnstile site key; empty to render no widget.
    pub turnstile_site_key: String,
    /// Whether cookies carry the `Secure` flag.
    pub cookie_secure: bool,
}

#[derive(Debug, Clone)]
pub struct StorageConfig {
    pub upload_dir: String,
    pub max_upload_size_mb: u64,
}

#[derive(Debug, Clone)]
pub struct ThemeConfig {
    pub theme_dir: String,
    pub active_theme_fallback: String,
    pub default_mode: String,
}

#[derive(Debug, Clone)]
pub struct PathsConfig {
    pub admin_dist_dir: String,
}

#[derive(Debug, Clone)]
pub struct RuntimeConfig {
    pub mode: String,
}

#[derive(Debug, Clone)]
pub struct WebhookConfig {
    pub max_concurrency: usize,
    pub timeout_seconds: u64,
}

/// The whole application configuration.
#[derive(Debug, Clone)]
pub struct AppConfig {
    pub server: ServerConfig,
    pub database: DatabaseConfig,
    pub auth: AuthConfig,
    pub storage: StorageConfig,
    pub theme: ThemeConfig,
    pub paths: PathsConfig,
    pub runtime: RuntimeConfig,
    pub webhook: WebhookConfig,
}

/// Default number of webhook deliveries in flight.
pub fn default_webhook_max_concurrency() -> (r: usize)
    ensures
        r == 5,
{
    5
}

/// Default timeout of one webhook delivery, in seconds.
pub fn default_webhook_timeout_seconds() -> (r: u64)
    ensures
        r == 60,
{
    60
}

/// Why a configuration cannot be loaded or used.
#[derive(Debug)]
pub enum ConfigError {
    /// The final value of the key does not have the key's type.
    InvalidValue { key: String },
    /// A default JWT secret is used in production without explicit permission.
    InsecureDefaultSecret,
}

// ── Layering ─────────────────────────────────────────────────────────────

/// The views of the configuration pairs.
pub open spec fn pairs_view(src: Seq<(String, String)>) -> Seq<(Seq<char>, Seq<char>)> {
    src.map_values(|p: (String, String)| (p.0@, p.1@))
}

/// The value that the last pair with the key gives, if any.
pub open spec fn last_value(src: Seq<(Seq<char>, Seq<char>)>, key: Seq<char>) -> Option<Seq<char>>
    decreases src.len(),
{
    if src.len() == 0 {
        None
    } else if src.last().0 == key {
        Some(src.last().1)
    } else {
        last_value(src.drop_last(), key)
    }
}

/// A string setting: the last value given, else the default.
pub open spec fn string_setting(src: Seq<(Seq<char>, Seq<char>)>, key: Seq<char>, default: Seq<char>) -> Seq<char> {
    match last_value(src, key) {
        Some(v) => v,
        None => default,
    }
}

/// A number setting with maximum `max`: `None` when the final value is not such a number.
pub open spec fn number_setting(src: Seq<(Seq<char>, Seq<char>)>, key: Seq<char>, default: u64, max: u64) -> Option<u64> {
    match last_value(src, key) {
        Some(v) => match parse_u64_spec(v) {
            Some(n) => if n <= max { Some(n) } else { None },
            None => None,
        },
        None => Some(default),
    }
}

/// The boolean a configuration value denotes, case-insensitively.
pub open spec fn bool_value_spec(v: Seq<char>) -> Option<bool> {
    let l = ascii_lower_seq(v);
    if l == "true"@ || l == "1"@ || l == "on"@ || l == "yes"@ {
        Some(true)
    } else if l == "false"@ || l == "0"@ || l == "off"@ || l == "no"@ {
        Some(false)
    } else {
        None
    }
}

/// A boolean setting: `None` when the final value denotes no boolean.
pub open spec fn bool_setting(src: Seq<(Seq<char>, Seq<char>)>, key: Seq<char>, default: bool) -> Option<bool> {
    match last_value(src, key) {
        Some(v) => bool_value_spec(v),
        None => Some(default),
    }
}

/// The first typed key, in field order, whose final value does not have its type.
pub open spec fn first_invalid_key(src: Seq<(Seq<char>, Seq<char>)>) -> Option<Seq<char>> {
    if number_setting(src, "server.port"@, 2000, 65535) is None {
        Some("server.port"@)
    } else if number_setting(src, "auth.expires_in_seconds"@, 900, u64::MAX) is None {
        Some("auth.expires_in_seconds"@)
    } else if bool_setting(src, "auth.allow_insecure_default_secret"@, false) is None {
        Some("auth.allow_insecure_default_secret"@)
    } else if bool_setting(src, "auth.cookie_secure"@, false) is None {
        Some("auth.cookie_secure"@)
    } else if number_setting(src, "storage.max_upload_size_mb"@, 10, u64::MAX) is None {
        Some("storage.max_upload_size_mb"@)
    } else if number_setting(src, "webhook.max_concurrency"@, 5, usize::MAX as u64) is None {
        Some("webhook.max_concurrency"@)
    } else if number_setting(src, "webhook.timeout_seconds"@, 60, u64::MAX) is None {
        Some("webhook.timeout_seconds"@)
    } else {
        None
    }
}

/// Every field of the configuration is the one that the pairs and the defaults give.
pub open spec fn config_matches(c: AppConfig, src: Seq<(Seq<char>, Seq<char>)>) -> bool {
    &&& c.server.host@ == string_setting(src, "server.host"@, "0.0.0.0"@)
    &&& Some(c.server.port as u64) == number_setting(src, "server.port"@, 2000, 65535)
    &&& c.database.url@ == string_setting(src, "database.url"@, "sqlite://inkforge.db?mode=rwc"@)
    &&& c.auth.secret@ == string_setting(src, "auth.secret"@, "change-me-in-production-please"@)
    &&& Some(c.auth.expires_in_seconds) == number_setting(src, "auth.expires_in_seconds"@, 900, u64::MAX)
    &&& Some(c.auth.allow_insecure_default_secret) == bool_setting(src, "auth.allow_insecure_default_secret"@, false)
    &&& c.auth.turnstile_secret@ == string_setting(src, "auth.turnstile_secret"@, ""@)
    &&& c.auth.turnstile_site_key@ == string_setting(src, "auth.turnstile_site_key"@, ""@)
    &&& Some(c.auth.cookie_secure) == bool_setting(src, "auth.cookie_secure"@, false)
    &&& c.storage.upload_dir@ == string_setting(src, "storage.upload_dir"@, "uploads"@)
    &&& Some(c.storage.max_upload_size_mb) == number_setting(src, "storage.max_upload_size_mb"@, 10, u64::MAX)
    &&& c.theme.theme_dir@ == string_setting(src, "theme.theme_dir"@, "themes"@)
    &&& c.theme.active_theme_fallback@ == string_setting(src, "theme.active_theme_fallback"@, "default"@)
    &&& c.theme.default_mode@ == string_setting(src, "theme.default_mode"@, "system"@)
    &&& c.paths.admin_dist_dir@ == string_setting(src, "paths.admin_dist_dir"@, "src/admin/dist"@)
    &&& c.runtime.mode@ == string_setting(src, "runtime.mode"@, "development"@)
    &&& Some(c.webhook.max_concurrency as u64) == number_setting(src, "webhook.max_concurrency"@, 5, usize::MAX as u64)
    &&& Some(c.webhook.timeout_seconds) == number_setting(src, "webhook.timeout_seconds"@, 60, u64::MAX)
}

fn last_value_of(sources: &Vec<(String, String)>, key: &str) -> (r: Option<String>)
    ensures
        match r {
            Some(v) => last_value(pairs_view(sources@), key@) == Some(v@),
            None => last_value(pairs_view(sources@), key@) is None,
        },
{
    let ghost pv = pairs_view(sources@);
    let mut i: usize = sources.len();
    assert(pv.take(i as int) =~= pv);
    while i > 0
        invariant
            i <= sources@.len(),
            pv == pairs_view(sources@),
            last_value(pv, key@) == last_value(pv.take(i as int), key@),
        decreases i,
    {
        let ghost t = pv.take(i as int);
        assert(t.drop_last() =~= pv.take(i - 1));
        assert(t.last() == (sources@[i - 1].0@, sources@[i - 1].1@));
        if str_eq(sources[i - 1].0.as_str(), key) {
            return Some(sources[i - 1].1.clone());
        }
        i = i - 1;
    }
    None
}

fn string_setting_of(sources: &Vec<(String, String)>, key: &str, default: &str) -> (r: String)
    ensures
        r@ == string_setting(pairs_view(sources@), key@, default@),
{
    match last_value_of(sources, key) {
        Some(v) => v,
        None => default.to_owned(),
    }
}

fn number_setting_of(sources: &Vec<(String, String)>, key: &str, default: u64, max: u64) -> (r: Option<u64>)
    ensures
        r == number_setting(pairs_view(sources@), key@, default, max),
{
    match last_value_of(sources, key) {
        Some(v) => {
            let cs = chars_of(v.as_str());
            match parse_u64(&cs) {
                Some(n) => if n <= max {
                    Some(n)
                } else {
                    None
                },
                None => None,
            }
        },
        None => Some(default),
    }
}

/// The boolean a configuration value denotes: `true`/`1`/`on`/`yes` or
/// `false`/`0`/`off`/`no`, in any ASCII case.
pub fn bool_value(v: &str) -> (r: Option<bool>)
    ensures
        r == bool_value_spec(v@),
{
    let raw = chars_of(v);
    let l = ascii_lowercase(&raw);
    if chars_eq(&l, &chars_of("true")) || chars_eq(&l, &chars_of("1")) || chars_eq(&l, &chars_of("on"))
        || chars_eq(&l, &chars_of("yes")) {
        Some(true)
    } else if chars_eq(&l, &chars_of("false")) || chars_eq(&l, &chars_of("0")) || chars_eq(&l, &chars_of("off"))
        || chars_eq(&l, &chars_of("no")) {
        Some(false)
    } else {
        None
    }
}

fn bool_setting_of(sources: &Vec<(String, String)>, key: &str, default: bool) -> (r: Option<bool>)
    ensures
        r == bool_setting(pairs_view(sources@), key@, default),
{
    match last_value_of(sources, key) {
        Some(v) => bool_value(v.as_str()),
        None => Some(default),
    }
}

fn invalid(key: &str) -> (r: ConfigError)
    ensures
        (r matches ConfigError::InvalidValue { key: k } && k@ == key@),
{
    ConfigError::InvalidValue { key: key.to_owned() }
}

/// The JWT secrets that ship as defaults.
pub open spec fn is_default_secret(s: Seq<char>) -> bool {
    s == "inkforge-change-me-in-production"@ || s == "change-me-in-production-please"@
}

/// Whether the runtime mode is production, ignoring ASCII case.
pub open spec fn is_production_spec(c: &AppConfig) -> bool {
    ascii_lower_seq(c.runtime.mode@) == ascii_lower_seq("production"@)
}

impl AppConfig {
    /// Whether the runtime mode is production (ASCII case ignored).
    pub fn is_production(&self) -> (r: bool)
        ensures
            r == is_production_spec(self),
    {
        let m = chars_of(self.runtime.mode.as_str());
        let p = chars_of("production");
        eq_ignore_ascii_case(&m, &p)
    }

    /// Checks the JWT secret. A shipped default secret is refused in production unless
    /// explicitly allowed; elsewhere it is accepted, and `Ok(true)` tells the caller that a
    /// warning about it is due. `Ok(false)`: the secret is not a default one.
    pub fn validate(&self) -> (r: Result<bool, ConfigError>)
        ensures
            !is_default_secret(self.auth.secret@) ==> (r matches Ok(false)),
            is_default_secret(self.auth.secret@) && is_production_spec(self)
                && !self.auth.allow_insecure_default_secret ==> (r matches Err(ConfigError::InsecureDefaultSecret)),
            is_default_secret(self.auth.secret@) && !(is_production_spec(self)
                && !self.auth.allow_insecure_default_secret) ==> (r matches Ok(true)),
    {
        let secret = self.auth.secret.as_str();
        if !(str_eq(secret, "inkforge-change-me-in-production") || str_eq(secret, "change-me-in-production-please")) {
            return Ok(false);
        }
        if self.is_production() && !self.auth.allow_insecure_default_secret {
            return Err(ConfigError::InsecureDefaultSecret);
        }
        Ok(true)
    }

    /// A configured path resolved against a working directory: absolute paths (leading
    /// `/`) stay as they are, relative ones are joined to the directory.
    pub fn resolve_path(cwd: &str, raw: &str) -> (r: String)
        ensures
            r@ == (if raw@.len() > 0 && raw@[0] == '/' { raw@ } else { join_path_spec(cwd@, raw@) }),
    {
        let v = chars_of(raw);
        if v.len() > 0 && v[0] == '/' {
            raw.to_owned()
        } else {
            join_path(cwd, raw)
        }
    }

    /// Whether cookies carry the `Secure` flag.
    pub fn cookie_secure(&self) -> (r: bool)
        ensures
            r == self.auth.cookie_secure,
    {
        self.auth.cookie_secure
    }

    /// Builds the configuration from the defaults overridden by the given `(key, value)`
    /// pairs (a later pair wins). Unknown keys are ignored. Fails on the first typed key,
    /// in field order, whose final value does not have the key's type.
    pub fn load(sources: &Vec<(String, String)>) -> (r: Result<AppConfig, ConfigError>)
        ensures
            match r {
                Ok(c) => first_invalid_key(pairs_view(sources@)) is None && config_matches(c, pairs_view(sources@)),
                Err(ConfigError::InvalidValue { key }) => first_invalid_key(pairs_view(sources@)) == Some(key@),
                Err(ConfigError::InsecureDefaultSecret) => false,
            },
    {
        let port = match number_setting_of(sources, "server.port", 2000, 65535) {
            Some(n) => n as u16,
            None => return Err(invalid("server.port")),
        };
        let expires = match number_setting_of(sources, "auth.expires_in_seconds", 900, 18446744073709551615u64) {
            Some(n) => n,
            None => return Err(invalid("auth.expires_in_seconds")),
        };
        let allow_insecure = match bool_setting_of(sources, "auth.allow_insecure_default_secret", false) {
            Some(b) => b,
            None => return Err(invalid("auth.allow_insecure_default_secret")),
        };
        let cookie_secure = match bool_setting_of(sources, "auth.cookie_secure", false) {
            Some(b) => b,
            None => return Err(invalid("auth.cookie_secure")),
        };
        let max_upload = match number_setting_of(sources, "storage.max_upload_size_mb", 10, 18446744073709551615u64) {
            Some(n) => n,
            None => return Err(invalid("storage.max_upload_size_mb")),
        };
        let max_concurrency = match number_setting_of(sources, "webhook.max_concurrency", 5, usize::MAX as u64) {
            Some(n) => n as usize,
            None => return Err(invalid("webhook.max_concurrency")),
        };
        let timeout = match number_setting_of(sources, "webhook.timeout_seconds", 60, 18446744073709551615u64) {
            Some(n) => n,
            None => return Err(invalid("webhook.timeout_seconds")),
        };
        Ok(AppConfig {
            server: ServerConfig { host: string_setting_of(sources, "server.host", "0.0.0.0"), port },
            database: DatabaseConfig {
                url: string_setting_of(sources, "database.url", "sqlite://inkforge.db?mode=rwc"),
            },
            auth: AuthConfig {
                secret: string_setting_of(sources, "auth.secret", "change-me-in-production-please"),
                expires_in_seconds: expires,
                allow_insecure_default_secret: allow_insecure,
                turnstile_secret: string_setting_of(sources, "auth.turnstile_secret", ""),
                turnstile_site_key: string_setting_of(sources, "auth.turnstile_site_key", ""),
                cookie_secure,
            },
            storage: StorageConfig {
                upload_dir: string_setting_of(sources, "storage.upload_dir", "uploads"),
                max_upload_size_mb: max_upload,
            },
            theme: ThemeConfig {
                theme_dir: string_setting_of(sources, "theme.theme_dir", "themes"),
                active_theme_fallback: string_setting_of(sources, "theme.active_theme_fallback", "default"),
                default_mode: string_setting_of(sources, "theme.default_mode", "system"),
            },
            paths: PathsConfig { admin_dist_dir: string_setting_of(sources, "paths.admin_dist_dir", "src/admin/dist") },
            runtime: RuntimeConfig { mode: string_setting_of(sources, "runtime.mode", "development") },
            webhook: WebhookConfig { max_concurrency, timeout_seconds: timeout },
        })
    }
}

/// Layering: a pair added after the others decides its key, and leaves every other
/// key as the earlier pairs set it.
pub proof fn law_later_source_wins(
    src: Seq<(Seq<char>, Seq<char>)>,
    key: Seq<char>,
    value: Seq<char>,
    other: Seq<char>,
    default: Seq<char>,
)
    ensures
        string_setting(src.push((key, value)), key, default) == value,
        other != key ==> string_setting(src.push((key, value)), other, default) == string_setting(
            src,
            other,
            default,
        ),
{
    assert(src.push((key, value)).drop_last() =~= src);
}

proof fn lemma_ascii_lower_idempotent(v: Seq<char>)
    ensures
        ascii_lower_seq(ascii_lower_seq(v)) == ascii_lower_seq(v),
{
    assert(ascii_lower_seq(ascii_lower_seq(v)) =~= ascii_lower_seq(v));
}

/// The words of configuration booleans: `true`, `1`, `on` and `yes` denote true, `false`,
/// `0`, `off` and `no` denote false, in any ASCII case, and no other text denotes a
/// boolean.
pub proof fn law_boolean_words(v: Seq<char>)
    ensures
        ({
            let l = ascii_lower_seq(v);
            &&& (l == "true"@ || l == "1"@ || l == "on"@ || l == "yes"@) ==> bool_value_spec(v) == Some(true)
            &&& (l == "false"@ || l == "0"@ || l == "off"@ || l == "no"@) ==> bool_value_spec(v) == Some(false)
            &&& bool_value_spec(v) is Some ==> (l == "true"@ || l == "1"@ || l == "on"@ || l == "yes"@ || l
                == "false"@ || l == "0"@ || l == "off"@ || l == "no"@)
        }),
        bool_value_spec(v) == bool_value_spec(ascii_lower_seq(v)),
{
    reveal_strlit("true");
    reveal_strlit("1");
    reveal_strlit("on");
    reveal_strlit("yes");
    reveal_strlit("false");
    reveal_strlit("0");
    reveal_strlit("off");
    reveal_strlit("no");
    assert("true"@ != "false"@) by { assert("true"@.len() != "false"@.len()); }
    assert("true"@ != "0"@) by { assert("true"@.len() != "0"@.len()); }
    assert("true"@ != "off"@) by { assert("true"@.len() != "off"@.len()); }
    assert("true"@ != "no"@) by { assert("true"@.len() != "no"@.len()); }
    assert("1"@ != "false"@) by { assert("1"@.len() != "false"@.len()); }
    assert("1"@ != "0"@) by { assert("1"@[0] != "0"@[0]); }
    assert("1"@ != "off"@) by { assert("1"@.len() != "off"@.len()); }
    assert("1"@ != "no"@) by { assert("1"@.len() != "no"@.len()); }
    assert("on"@ != "false"@) by { assert("on"@.len() != "false"@.len()); }
    assert("on"@ != "0"@) by { assert("on"@.len() != "0"@.len()); }
    assert("on"@ != "off"@) by { assert("on"@.len() != "off"@.len()); }
    assert("on"@ != "no"@) by { assert("on"@[0] != "no"@[0]); }
    assert("yes"@ != "false"@) by { assert("yes"@.len() != "false"@.len()); }
    assert("yes"@ != "0"@) by { assert("yes"@.len() != "0"@.len()); }
    assert("yes"@ != "off"@) by { assert("yes"@[0] != "off"@[0]); }
    assert("yes"@ != "no"@) by { assert("yes"@.len() != "no"@.len()); }
    lemma_ascii_lower_idempotent(v);
}

/// A boolean setting whose last pair gives one of the boolean words takes that value,
/// whatever the earlier pairs gave; e.g. `auth.cookie_secure = 1` sets it to true.
pub proof fn law_boolean_setting_reads_its_word(
    src: Seq<(Seq<char>, Seq<char>)>,
    key: Seq<char>,
    v: Seq<char>,
    default: bool,
)
    ensures
        (ascii_lower_seq(v) == "1"@ || ascii_lower_seq(v) == "true"@ || ascii_lower_seq(v) == "on"@
            || ascii_lower_seq(v) == "yes"@) ==> bool_setting(src.push((key, v)), key, default) == Some(true),
        (ascii_lower_seq(v) == "0"@ || ascii_lower_seq(v) == "false"@ || ascii_lower_seq(v) == "off"@
            || ascii_lower_seq(v) == "no"@) ==> bool_setting(src.push((key, v)), key, default) == Some(false),
{
    law_boolean_words(v);
    assert(src.push((key, v)).last() == (key, v));
}

} // verus!
