use xero_cli::error::XeroCliError;

#[test]
fn error_display_auth() {
    let err = XeroCliError::auth("token expired");
    assert_eq!(err.message(), "Authentication failed: token expired");
}

#[test]
fn error_display_api() {
    let err = XeroCliError::api(404, "Invoice not found");
    assert_eq!(err.message(), "API error (404): Invoice not found");
}

#[test]
fn error_display_rate_limited() {
    let err = XeroCliError::RateLimited {
        retry_after_secs: 30,
    };
    assert!(err.message().contains("30s"));
}

#[test]
fn error_has_diagnostic_code() {
    let err = XeroCliError::auth("test");
    assert!(err.code().is_some());
}

#[test]
fn every_error_message() {
    assert_eq!(XeroCliError::RateLimited { retry_after_secs: 30 }.message(), "Rate limited — retry after 30s");
    assert_eq!(XeroCliError::config("bad").message(), "Configuration error: bad");
    assert_eq!(XeroCliError::validation("bad").message(), "Validation error: bad");
    assert_eq!(XeroCliError::MissingScope { scope: "accounting.journals.read".into() }.message(), "Missing required scope: accounting.journals.read");
    assert_eq!(XeroCliError::Http("timeout".into()).message(), "HTTP error: timeout");
    assert_eq!(XeroCliError::Io("denied".into()).message(), "IO error: denied");
    assert_eq!(XeroCliError::Json("eof".into()).message(), "JSON error: eof");
    assert_eq!(XeroCliError::Toml("line 1".into()).message(), "TOML parse error: line 1");
    assert_eq!(XeroCliError::BudgetExhausted { used: 5000, limit: 5000 }.message(), "Daily API budget exhausted (5000/5000 calls used)");
    assert_eq!(XeroCliError::api(0, "x").message(), "API error (0): x");
    assert_eq!(XeroCliError::api(65535, "").message(), "API error (65535): ");
}

#[test]
fn codes_and_help() {
    assert_eq!(XeroCliError::auth("x").code().unwrap(), "xero::auth");
    assert_eq!(XeroCliError::BudgetExhausted { used: 1, limit: 2 }.code().unwrap(), "xero::budget_exhausted");
    assert_eq!(XeroCliError::auth("x").help().unwrap(), "Run `xero auth login` to authenticate");
    assert_eq!(
        XeroCliError::MissingScope { scope: "a.b".into() }.help().unwrap(),
        "Run `xero auth scopes add a.b` to add the required scope, then re-authenticate"
    );
    assert_eq!(
        XeroCliError::BudgetExhausted { used: 1, limit: 2500 }.help().unwrap(),
        "The daily limit of 2500 API calls has been reached. Budget resets at midnight UTC."
    );
    assert!(XeroCliError::api(500, "x").help().is_none());
    assert!(XeroCliError::Json("x".into()).help().is_none());
}
