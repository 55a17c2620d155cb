use colophon::bootstrap::config::{
    bool_value, default_webhook_max_concurrency, default_webhook_timeout_seconds, AppConfig, ConfigError,
};

fn pairs(items: &[(&str, &str)]) -> Vec<(String, String)> {
    items.iter().map(|(k, v)| (k.to_string(), v.to_string())).collect()
}

#[test]
fn defaults_apply_without_sources() {
    let c = AppConfig::load(&Vec::new()).unwrap();
    assert_eq!(c.server.host, "0.0.0.0");
    assert_eq!(c.server.port, 2000);
    assert_eq!(c.database.url, "sqlite://inkforge.db?mode=rwc");
    assert_eq!(c.auth.secret, "change-me-in-production-please");
    assert_eq!(c.auth.expires_in_seconds, 900);
    assert!(!c.auth.allow_insecure_default_secret);
    assert_eq!(c.storage.upload_dir, "uploads");
    assert_eq!(c.storage.max_upload_size_mb, 10);
    assert_eq!(c.theme.default_mode, "system");
    assert_eq!(c.paths.admin_dist_dir, "src/admin/dist");
    assert_eq!(c.runtime.mode, "development");
    assert_eq!(c.webhook.max_concurrency, 5);
    assert_eq!(c.webhook.timeout_seconds, 60);
    assert_eq!(default_webhook_max_concurrency(), 5);
    assert_eq!(default_webhook_timeout_seconds(), 60);
    assert!(!c.is_production());
    assert!(!c.cookie_secure());
}

#[test]
fn later_sources_override_earlier_ones() {
    let c = AppConfig::load(&pairs(&[("server.port", "8080"), ("server.port", "9090"), ("runtime.mode", "PRODUCTION")]))
        .unwrap();
    assert_eq!(c.server.port, 9090);
    assert!(c.is_production());
}

#[test]
fn invalid_typed_value_is_reported() {
    let e = AppConfig::load(&pairs(&[("server.port", "70000")])).err().unwrap();
    assert!(matches!(e, ConfigError::InvalidValue { ref key } if key == "server.port"));
    let e = AppConfig::load(&pairs(&[("auth.cookie_secure", "maybe")])).err().unwrap();
    assert!(matches!(e, ConfigError::InvalidValue { ref key } if key == "auth.cookie_secure"));
}

#[test]
fn bool_values_accept_common_spellings() {
    assert_eq!(bool_value("TRUE"), Some(true));
    assert_eq!(bool_value("on"), Some(true));
    assert_eq!(bool_value("No"), Some(false));
    assert_eq!(bool_value("2"), None);
}

#[test]
fn default_secret_is_blocked_in_production_only() {
    let dev = AppConfig::load(&Vec::new()).unwrap();
    assert!(matches!(dev.validate(), Ok(true)));
    let prod = AppConfig::load(&pairs(&[("runtime.mode", "production")])).unwrap();
    assert!(matches!(prod.validate(), Err(ConfigError::InsecureDefaultSecret)));
    let allowed = AppConfig::load(&pairs(&[
        ("runtime.mode", "production"),
        ("auth.allow_insecure_default_secret", "true"),
    ]))
    .unwrap();
    assert!(matches!(allowed.validate(), Ok(true)));
    let custom = AppConfig::load(&pairs(&[("runtime.mode", "production"), ("auth.secret", "s3cr3t")])).unwrap();
    assert!(matches!(custom.validate(), Ok(false)));
}

#[test]
fn paths_resolve_against_working_directory() {
    assert_eq!(AppConfig::resolve_path("/srv/app", "uploads"), "/srv/app/uploads");
    assert_eq!(AppConfig::resolve_path("/srv/app", "/data/uploads"), "/data/uploads");
}
