//! Verified core of a command-line client for the Xero Accounting API:
//! configuration, scope presets, request bodies, table rows and report flattening.

pub mod cli;
pub mod config;
pub mod error;
pub mod json;
pub mod models;
pub mod output;
pub mod text;
