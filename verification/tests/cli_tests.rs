use xero_cli::cli::auth::{add_scope, apply_scope_preset, login_client_id, parse_scope_list, requested_scopes};
use xero_cli::cli::common::{cache_directory, resolve_client_id, resolve_tenant_id, wants_cache};
use xero_cli::cli::completions::build_cli_command;
use xero_cli::cli::config::{config_file_path, config_set_text, parse_config_key};
use xero_cli::config::file::ConfigFile;
use xero_cli::config::profiles::Profile;
use xero_cli::config::AppConfig;
use xero_cli::error::XeroCliError;

#[test]
fn scope_lists() {
    assert_eq!(parse_scope_list("openid, offline_access ,accounting.invoices"), vec!["openid", "offline_access", "accounting.invoices"]);
    assert_eq!(parse_scope_list(""), vec![""]);
    let configured = vec!["a".to_string()];
    assert_eq!(requested_scopes(&None, &configured), vec!["a"]);
    assert_eq!(requested_scopes(&Some("x,y".into()), &configured), vec!["x", "y"]);
}

#[test]
fn adding_scopes() {
    let mut scopes = vec!["openid".to_string()];
    assert!(add_scope(&mut scopes, "accounting.journals.read".into()));
    assert!(!add_scope(&mut scopes, "accounting.journals.read".into()));
    assert!(!add_scope(&mut scopes, "openid".into()));
    assert_eq!(scopes, vec!["openid", "accounting.journals.read"]);
}

#[test]
fn client_ids() {
    assert_eq!(login_client_id(&Some("cfg".into()), Some("env".into())), Some("env".to_string()));
    assert_eq!(login_client_id(&Some("cfg".into()), None), Some("cfg".to_string()));
    assert_eq!(login_client_id(&None, Some("env".into())), Some("env".to_string()));
    assert_eq!(login_client_id(&None, None), None);
    assert_eq!(resolve_client_id(&None, None), "");
    assert_eq!(resolve_client_id(&None, Some("env".into())), "env");
    assert_eq!(resolve_client_id(&Some("cfg".into()), Some("env".into())), "env");
    assert_eq!(resolve_client_id(&Some("cfg".into()), None), "cfg");
}

fn config_with_profile() -> AppConfig {
    let mut file = ConfigFile::default();
    file.profiles.insert("production".to_string(), Profile { tenant_id: "t-prod".into(), org_name: None, scopes: vec![] });
    AppConfig::load(Some("/tmp/c.toml"), Some(file)).unwrap()
}

#[test]
fn tenant_resolution() {
    let c = config_with_profile();
    assert_eq!(resolve_tenant_id(&c, Some("production"), Some("tok".into()), Some("env".into())).unwrap(), "t-prod");
    assert_eq!(resolve_tenant_id(&c, Some("missing"), Some("tok".into()), Some("env".into())).unwrap(), "tok");
    assert_eq!(resolve_tenant_id(&c, None, None, Some("env".into())).unwrap(), "env");
    match resolve_tenant_id(&c, None, None, None) {
        Err(XeroCliError::Config { message }) => assert_eq!(message, "No tenant ID found. Run `xero auth login` or set XERO_TENANT_ID"),
        _ => panic!("expected a configuration error"),
    }
}

#[test]
fn cache_choice() {
    let mut c = config_with_profile();
    assert!(wants_cache(false, &c));
    assert!(!wants_cache(true, &c));
    c.config_file.cache.enabled = false;
    assert!(!wants_cache(false, &c));
    c.config_file.cache.directory = Some("/var/cache/x".into());
    assert_eq!(cache_directory(&c).unwrap(), "/var/cache/x");
}

#[test]
fn config_keys_and_paths() {
    let (section, field) = parse_config_key("auth.client_id").unwrap();
    assert_eq!((section.as_str(), field.as_str()), ("auth", "client_id"));
    assert_eq!(parse_config_key("a.b.c").unwrap_err(), "Key format: section.field (e.g. auth.client_id)");
    assert!(parse_config_key("nodot").is_err());
    let (s2, f2) = parse_config_key(".x").unwrap();
    assert_eq!((s2.as_str(), f2.as_str()), ("", "x"));
    assert_eq!(config_file_path(Some("./my.toml".into())).unwrap(), "./my.toml");
}

#[test]
fn completion_tree() {
    let root = build_cli_command();
    assert_eq!(root.name, "xero");
    let names: Vec<&str> = root.subcommands.iter().map(|c| c.name.as_str()).collect();
    assert_eq!(
        names,
        vec![
            "auth", "invoices", "contacts", "accounts", "payments", "items", "bank-transactions",
            "bank-transfers", "credit-notes", "purchase-orders", "quotes", "currencies", "employees",
            "users", "budgets", "branding-themes", "repeating-invoices", "organisation",
            "payment-services", "reports", "tax-rates", "contact-groups", "manual-journals",
            "linked-transactions", "receipts", "batch-payments", "expense-claims", "overpayments",
            "prepayments", "tracking-categories", "journals", "cache", "config", "completions",
        ]
    );
    let invoices = &root.subcommands[1];
    assert_eq!(invoices.subcommands[1].name, "get");
    assert_eq!(invoices.subcommands[1].args, vec!["id"]);
    assert_eq!(invoices.subcommands[2].options, vec!["file", "contact", "line-item", "due-date"]);
    assert_eq!(root.subcommands[19].name, "reports");
    assert_eq!(root.subcommands[19].subcommands.len(), 8);
    let scopes = &root.subcommands[0].subcommands[5];
    assert_eq!(scopes.name, "scopes");
    assert_eq!(scopes.subcommands[1].name, "preset");
    assert_eq!(scopes.subcommands[1].args, vec!["name"]);
    assert!(root.flags.contains(&"no-cache".to_string()));
    assert!(root.options.contains(&"profile".to_string()));
    let config = &root.subcommands[32];
    assert_eq!(config.subcommands[2].name, "set");
    assert_eq!(config.subcommands[2].args, vec!["key", "value"]);
}

#[test]
fn tenant_from_active_profile() {
    let mut c = config_with_profile();
    c.config_file.default.active_profile = Some("production".into());
    assert_eq!(resolve_tenant_id(&c, None, Some("tok".into()), None).unwrap(), "t-prod");
    c.config_file.default.active_profile = Some("missing".into());
    assert_eq!(resolve_tenant_id(&c, None, Some("tok".into()), None).unwrap(), "tok");
}

#[test]
fn scope_presets_applied() {
    let mut scopes = vec!["openid".to_string()];
    assert_eq!(
        apply_scope_preset(&mut scopes, "admin").unwrap_err(),
        "Unknown preset: admin. Available: read-only, bookkeeper, full-access, reports-only"
    );
    assert_eq!(scopes, vec!["openid"]);
    apply_scope_preset(&mut scopes, "reports-only").unwrap();
    assert_eq!(scopes.len(), 10);
    assert!(scopes.iter().all(|s| s == "openid" || s == "offline_access" || s.ends_with(".read")));
}

#[test]
fn config_set_edits_one_key() {
    let text = config_set_text("[auth]\ncallback_port = 8080\n", "auth.client_id", "abc").unwrap();
    assert_eq!(text, "[auth]\ncallback_port = 8080\nclient_id = \"abc\"\n");
    let replaced = config_set_text("[auth]\nclient_id = \"old\"\n", "auth.client_id", "new").unwrap();
    assert_eq!(replaced, "[auth]\nclient_id = \"new\"\n");
    assert_eq!(
        config_set_text("", "nodot", "x").unwrap_err(),
        "Key format: section.field (e.g. auth.client_id)"
    );
    assert!(config_set_text("[auth", "auth.client_id", "x").unwrap_err().starts_with("Failed to parse config: "));
    assert!(config_set_text("[auth", "nodot", "x").unwrap_err().starts_with("Failed to parse config: "));
    assert_eq!(
        config_set_text("auth = 1\n", "auth.client_id", "x").unwrap_err(),
        "Failed to set config: `auth` is not a table"
    );
    let fresh = config_set_text("", "auth.client_id", "abc").unwrap();
    assert!(fresh.contains("client_id = \"abc\""));
}
