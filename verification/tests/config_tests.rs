use xero_cli::config::file::{AuthSection, CacheSection, ConfigFile, DefaultSection, RateLimitSection};
use xero_cli::config::profiles::{scope_preset, Profile, ProfileMap};
use xero_cli::config::{join, AppConfig};

#[test]
fn scope_presets_exist() {
    assert!(scope_preset("read-only").is_some());
    assert!(scope_preset("bookkeeper").is_some());
    assert!(scope_preset("full-access").is_some());
    assert!(scope_preset("reports-only").is_some());
    assert!(scope_preset("nonexistent").is_none());
}

#[test]
fn read_only_has_offline_access() {
    let scopes = scope_preset("read-only").unwrap();
    assert!(scopes.contains(&"offline_access".to_string()));
}

#[test]
fn bookkeeper_includes_write_scopes() {
    let scopes = scope_preset("bookkeeper").unwrap();
    assert!(scopes.contains(&"accounting.invoices".to_string()));
    assert!(scopes.contains(&"accounting.contacts".to_string()));
}

#[test]
fn load_missing_config_returns_defaults() {
    let config = AppConfig::load(Some("/tmp/nonexistent-xero-config.toml"), None).unwrap();
    assert!(config.config_file.profiles.is_empty());
}

#[test]
fn active_profile_returns_none_when_empty() {
    let config = AppConfig::load(Some("/tmp/nonexistent-xero-config.toml"), None).unwrap();
    assert!(config.active_profile(None).is_none());
}

#[test]
fn preset_sizes_and_full_access_superset() {
    let full = scope_preset("full-access").unwrap();
    assert_eq!(full.len(), 26);
    for name in ["read-only", "bookkeeper", "reports-only"] {
        let scopes = scope_preset(name).unwrap();
        assert_eq!(scopes[0], "openid");
        assert_eq!(scopes[1], "offline_access");
        for s in &scopes {
            assert!(full.contains(s), "{name} scope {s} missing from full-access");
        }
    }
    assert_eq!(scope_preset("reports-only").unwrap().len(), 10);
    assert!(scope_preset("Read-Only").is_none());
    assert!(scope_preset("").is_none());
}

#[test]
fn defaults_match_documentation() {
    let c = ConfigFile::default();
    assert_eq!(c.default.output_format, "table");
    assert_eq!(c.default.page_size, 100);
    assert!(c.default.active_profile.is_none());
    assert_eq!(c.auth.callback_port, 8080);
    assert!(c.auth.client_id.is_none());
    assert_eq!(c.auth.scopes.len(), 9);
    assert_eq!(c.auth.scopes[0], "openid");
    assert_eq!(c.auth.scopes[8], "accounting.reports.balancesheet.read");
    assert!(c.cache.enabled);
    assert_eq!(c.cache.ttl_secs, 300);
    assert_eq!(c.cache.list_ttl_secs, 300);
    assert_eq!(c.cache.get_ttl_secs, 900);
    assert_eq!(c.cache.max_size_mb, 50);
    assert_eq!(c.rate_limit.calls_per_minute, 60);
    assert_eq!(c.rate_limit.daily_limit, 5000);
    assert_eq!(c.rate_limit.max_concurrent, 5);
    let _ = (DefaultSection::default(), AuthSection::default(), CacheSection::default(), RateLimitSection::default());
}

fn profile(tenant: &str) -> Profile {
    Profile { tenant_id: tenant.to_string(), org_name: None, scopes: vec![] }
}

#[test]
fn profile_map_insert_replaces() {
    let mut m = ProfileMap::new();
    assert!(m.is_empty());
    m.insert("production".to_string(), profile("t-1"));
    m.insert("staging".to_string(), profile("t-2"));
    m.insert("production".to_string(), profile("t-3"));
    assert_eq!(m.len(), 2);
    assert_eq!(m.get("production").unwrap().tenant_id, "t-3");
    assert_eq!(m.get("staging").unwrap().tenant_id, "t-2");
    assert!(m.get("other").is_none());
    assert!(m.contains_key("staging"));
    assert!(!m.contains_key("Staging"));
}

#[test]
fn active_profile_precedence() {
    let mut file = ConfigFile::default();
    file.profiles.insert("default".to_string(), profile("t-default"));
    file.profiles.insert("production".to_string(), profile("t-prod"));
    file.profiles.insert("staging".to_string(), profile("t-stage"));
    let config = AppConfig::load(Some("/tmp/x.toml"), Some(file)).unwrap();
    assert_eq!(config.config_path, "/tmp/x.toml");
    assert_eq!(config.active_profile(None).unwrap().tenant_id, "t-default");
    assert_eq!(config.active_profile(Some("staging")).unwrap().tenant_id, "t-stage");
    let mut file = ConfigFile::default();
    file.default.active_profile = Some("production".to_string());
    file.profiles.insert("production".to_string(), profile("t-prod"));
    file.profiles.insert("staging".to_string(), profile("t-stage"));
    let config = AppConfig::load(Some("/tmp/x.toml"), Some(file)).unwrap();
    assert_eq!(config.active_profile(None).unwrap().tenant_id, "t-prod");
    assert_eq!(config.active_profile(Some("staging")).unwrap().tenant_id, "t-stage");
    assert!(config.active_profile(Some("missing")).is_none());
}

#[test]
fn path_join() {
    assert_eq!(join("/home/u/.config", "xero-cli", "/"), "/home/u/.config/xero-cli");
    assert_eq!(join("/home/u/.config/", "xero-cli", "/"), "/home/u/.config/xero-cli");
    assert_eq!(join("", "config.toml", "/"), "config.toml");
    assert_eq!(join("C:\\Users\\u\\AppData", "xero-cli", "\\"), "C:\\Users\\u\\AppData\\xero-cli");
    assert_eq!(join("C:\\data\\", "xero-cli", "\\"), "C:\\data\\xero-cli");
    assert_eq!(join("C:/data/", "xero-cli", "\\"), "C:/data/xero-cli");
}
