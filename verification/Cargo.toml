[package]
name = "xero_cli"
version = "0.1.0"
edition = "2021"
publish = false

[dependencies]
dirs = "=7.0.0"
serde = { version = "=1.0.229", features = ["derive"] }
serde_json = "=1.0.154"
toml = "=1.1.8"
toml_edit = "=0.25.18"
clap = { version = "=4.6.7", features = ["derive", "env", "string"] }
clap_complete = "=4.6.11"
miette = "=7.6.0"
thiserror = "=2.0.21"
tokio = { version = "=1.54.1", features = ["macros", "rt-multi-thread"] }
reqwest = { version = "=0.12.28", default-features = false, features = ["json", "rustls-tls"] }
chrono = "=0.4.45"
indicatif = "=0.17.11"
tracing-subscriber = { version = "=0.3.23", features = ["env-filter"] }
