//! The library's error type: each variant carries what its message needs.

use vstd::prelude::*;
use vstd::string::*;
use crate::text::{decimal, push_decimal};

verus! {

/// What can go wrong in the client. The variants for HTTP, I/O, JSON and TOML
/// failures carry the message of the underlying error.
#[derive(Debug, Clone, PartialEq, Eq)]
pub enum XeroCliError {
    Auth { message: String },
    Api { status: u16, message: String },
    RateLimited { retry_after_secs: u64 },
    Config { message: String },
    Validation { message: String },
    MissingScope { scope: String },
    Http(String),
    Io(String),
    Json(String),
    Toml(String),
    BudgetExhausted { used: u64, limit: u64 },
}

/// The message shown for an error.
pub open spec fn error_message(e: XeroCliError) -> Seq<char> {
    match e {
        XeroCliError::Auth { message } => "Authentication failed: "@ + message@,
        XeroCliError::Api { status, message } => "API error ("@ + decimal(status as nat) + "): "@
            + message@,
        XeroCliError::RateLimited { retry_after_secs } => "Rate limited — retry after "@
            + decimal(retry_after_secs as nat) + "s"@,
        XeroCliError::Config { message } => "Configuration error: "@ + message@,
        XeroCliError::Validation { message } => "Validation error: "@ + message@,
        XeroCliError::MissingScope { scope } => "Missing required scope: "@ + scope@,
        XeroCliError::Http(m) => "HTTP error: "@ + m@,
        XeroCliError::Io(m) => "IO error: "@ + m@,
        XeroCliError::Json(m) => "JSON error: "@ + m@,
        XeroCliError::Toml(m) => "TOML parse error: "@ + m@,
        XeroCliError::BudgetExhausted { used, limit } => "Daily API budget exhausted ("@
            + decimal(used as nat) + "/"@ + decimal(limit as nat) + " calls used)"@,
    }
}

/// The diagnostic code of an error.
pub open spec fn error_code(e: XeroCliError) -> Seq<char> {
    match e {
        XeroCliError::Auth { .. } => "xero::auth"@,
        XeroCliError::Api { .. } => "xero::api"@,
        XeroCliError::RateLimited { .. } => "xero::rate_limited"@,
        XeroCliError::Config { .. } => "xero::config"@,
        XeroCliError::Validation { .. } => "xero::validation"@,
        XeroCliError::MissingScope { .. } => "xero::missing_scope"@,
        XeroCliError::Http(_) => "xero::http"@,
        XeroCliError::Io(_) => "xero::io"@,
        XeroCliError::Json(_) => "xero::json"@,
        XeroCliError::Toml(_) => "xero::toml"@,
        XeroCliError::BudgetExhausted { .. } => "xero::budget_exhausted"@,
    }
}

/// The help text of an error, where it has one.
pub open spec fn error_help(e: XeroCliError) -> Option<Seq<char>> {
    match e {
        XeroCliError::Auth { .. } => Some("Run `xero auth login` to authenticate"@),
        XeroCliError::RateLimited { .. } => Some(
            "The Xero API rate limit (60 calls/min) has been reached. The CLI will automatically retry."@,
        ),
        XeroCliError::Config { .. } => Some(
            "Check your config at ~/.config/xero-cli/config.toml or run `xero config init`"@,
        ),
        XeroCliError::MissingScope { scope } => Some(
            "Run `xero auth scopes add "@ + scope@
                + "` to add the required scope, then re-authenticate"@,
        ),
        XeroCliError::BudgetExhausted { limit, .. } => Some(
            "The daily limit of "@ + decimal(limit as nat)
                + " API calls has been reached. Budget resets at midnight UTC."@,
        ),
        _ => None,
    }
}

fn lit(s: &str) -> (r: String)
    ensures
        r@ == s@,
{
    String::from_str(s)
}

impl XeroCliError {
    /// An authentication failure.
    pub fn auth(msg: &str) -> (e: Self)
        ensures
            e matches XeroCliError::Auth { message } && message@ == msg@,
    {
        XeroCliError::Auth { message: lit(msg) }
    }

    /// An error answered by the API with an HTTP status.
    pub fn api(status: u16, msg: &str) -> (e: Self)
        ensures
            e matches XeroCliError::Api { status: st, message } && st == status && message@
                == msg@,
    {
        XeroCliError::Api { status, message: lit(msg) }
    }

    /// A configuration error.
    pub fn config(msg: &str) -> (e: Self)
        ensures
            e matches XeroCliError::Config { message } && message@ == msg@,
    {
        XeroCliError::Config { message: lit(msg) }
    }

    /// A validation error.
    pub fn validation(msg: &str) -> (e: Self)
        ensures
            e matches XeroCliError::Validation { message } && message@ == msg@,
    {
        XeroCliError::Validation { message: lit(msg) }
    }

    /// The message shown for this error.
    pub fn message(&self) -> (r: String)
        ensures
            r@ == error_message(*self),
    {
        match self {
            XeroCliError::Auth { message } => lit("Authentication failed: ").concat(
                message.as_str(),
            ),
            XeroCliError::Api { status, message } => {
                let mut s = lit("API error (");
                push_decimal(&mut s, *status as u64);
                s.append("): ");
                s.append(message.as_str());
                s
            },
            XeroCliError::RateLimited { retry_after_secs } => {
                let mut s = lit("Rate limited — retry after ");
                push_decimal(&mut s, *retry_after_secs);
                s.append("s");
                s
            },
            XeroCliError::Config { message } => lit("Configuration error: ").concat(
                message.as_str(),
            ),
            XeroCliError::Validation { message } => lit("Validation error: ").concat(
                message.as_str(),
            ),
            XeroCliError::MissingScope { scope } => lit("Missing required scope: ").concat(
                scope.as_str(),
            ),
            XeroCliError::Http(m) => lit("HTTP error: ").concat(m.as_str()),
            XeroCliError::Io(m) => lit("IO error: ").concat(m.as_str()),
            XeroCliError::Json(m) => lit("JSON error: ").concat(m.as_str()),
            XeroCliError::Toml(m) => lit("TOML parse error: ").concat(m.as_str()),
            XeroCliError::BudgetExhausted { used, limit } => {
                let mut s = lit("Daily API budget exhausted (");
                push_decimal(&mut s, *used);
                s.append("/");
                push_decimal(&mut s, *limit);
                s.append(" calls used)");
                s
            },
        }
    }

    /// The diagnostic code of this error (every error has one).
    pub fn code(&self) -> (r: Option<String>)
        ensures
            r matches Some(c) && c@ == error_code(*self),
    {
        Some(
            match self {
                XeroCliError::Auth { .. } => lit("xero::auth"),
                XeroCliError::Api { .. } => lit("xero::api"),
                XeroCliError::RateLimited { .. } => lit("xero::rate_limited"),
                XeroCliError::Config { .. } => lit("xero::config"),
                XeroCliError::Validation { .. } => lit("xero::validation"),
                XeroCliError::MissingScope { .. } => lit("xero::missing_scope"),
                XeroCliError::Http(_) => lit("xero::http"),
                XeroCliError::Io(_) => lit("xero::io"),
                XeroCliError::Json(_) => lit("xero::json"),
                XeroCliError::Toml(_) => lit("xero::toml"),
                XeroCliError::BudgetExhausted { .. } => lit("xero::budget_exhausted"),
            },
        )
    }

    /// The help text of this error, where it has one.
    pub fn help(&self) -> (r: Option<String>)
        ensures
            match r {
                Some(h) => error_help(*self) == Some(h@),
                None => error_help(*self) is None,
            },
    {
        match self {
            XeroCliError::Auth { .. } => Some(lit("Run `xero auth login` to authenticate")),
            XeroCliError::RateLimited { .. } => Some(
                lit(
                    "The Xero API rate limit (60 calls/min) has been reached. The CLI will automatically retry.",
                ),
            ),
            XeroCliError::Config { .. } => Some(
                lit(
                    "Check your config at ~/.config/xero-cli/config.toml or run `xero config init`",
                ),
            ),
            XeroCliError::MissingScope { scope } => {
                let mut s = lit("Run `xero auth scopes add ");
                s.append(scope.as_str());
                s.append("` to add the required scope, then re-authenticate");
                Some(s)
            },
            XeroCliError::BudgetExhausted { limit, .. } => {
                let mut s = lit("The daily limit of ");
                push_decimal(&mut s, *limit);
                s.append(" API calls has been reached. Budget resets at midnight UTC.");
                Some(s)
            },
            _ => None,
        }
    }
}

} // verus!
