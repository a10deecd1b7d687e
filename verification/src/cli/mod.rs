//! The commands of the client and the logic each of them runs.

pub mod accounts;
pub mod auth;
pub mod bank_transactions;
pub mod bank_transfers;
pub mod batch_payments;
pub mod branding_themes;
pub mod budgets;
pub mod cache;
pub mod common;
pub mod completions;
pub mod config;
pub mod contact_groups;
pub mod contacts;
pub mod credit_notes;
pub mod currencies;
pub mod employees;
pub mod expense_claims;
pub mod invoices;
pub mod items;
pub mod journals;
pub mod linked_transactions;
pub mod manual_journals;
pub mod organisation;
pub mod overpayments;
pub mod payment_services;
pub mod payments;
pub mod prepayments;
pub mod purchase_orders;
pub mod quotes;
pub mod receipts;
pub mod repeating_invoices;
pub mod reports;
pub mod tax_rates;
pub mod tracking_categories;
pub mod users;

use vstd::prelude::*;

verus! {

/// How results are printed.
#[derive(Clone, Copy, Debug, PartialEq, Eq)]
pub enum OutputFormat {
    Table,
    Json,
    Csv,
    Yaml,
}

/// The options that every command accepts.
pub struct GlobalArgs {
    pub profile: Option<String>,
    pub output: OutputFormat,
    pub compact: bool,
    pub no_color: bool,
    pub verbose: bool,
    pub quiet: bool,
    pub dry_run: bool,
    pub page_size: u32,
    pub all_pages: bool,
    pub modified_since: Option<String>,
    pub config_path: Option<String>,
    pub no_cache: bool,
}

/// The top-level commands, one per resource or concern.
pub enum Commands {
    /// Manage authentication
    Auth { command: auth::AuthCommands },
    /// Manage invoices
    Invoices { command: invoices::InvoiceCommands },
    /// Manage contacts
    Contacts { command: contacts::ContactCommands },
    /// Manage chart of accounts
    Accounts { command: accounts::AccountCommands },
    /// Manage payments
    Payments { command: payments::PaymentCommands },
    /// Manage items
    Items { command: items::ItemCommands },
    /// Manage bank transactions
    BankTransactions { command: bank_transactions::BankTransactionCommands },
    /// Manage bank transfers
    BankTransfers { command: bank_transfers::BankTransferCommands },
    /// Manage credit notes
    CreditNotes { command: credit_notes::CreditNoteCommands },
    /// Manage purchase orders
    PurchaseOrders { command: purchase_orders::PurchaseOrderCommands },
    /// Manage quotes
    Quotes { command: quotes::QuoteCommands },
    /// List currencies
    Currencies { command: currencies::CurrencyCommands },
    /// Manage employees
    Employees { command: employees::EmployeeCommands },
    /// Manage users
    Users { command: users::UserCommands },
    /// Manage budgets
    Budgets { command: budgets::BudgetCommands },
    /// Manage branding themes
    BrandingThemes { command: branding_themes::BrandingThemeCommands },
    /// Manage repeating invoices
    RepeatingInvoices { command: repeating_invoices::RepeatingInvoiceCommands },
    /// View organisation details
    Organisation { command: organisation::OrganisationCommands },
    /// Manage payment services
    PaymentServices { command: payment_services::PaymentServiceCommands },
    /// View financial reports
    Reports { command: reports::ReportCommands },
    /// Manage tax rates
    TaxRates { command: tax_rates::TaxRateCommands },
    /// Manage contact groups
    ContactGroups { command: contact_groups::ContactGroupCommands },
    /// Manage manual journals
    ManualJournals { command: manual_journals::ManualJournalCommands },
    /// Manage linked transactions
    LinkedTransactions { command: linked_transactions::LinkedTransactionCommands },
    /// Manage receipts
    Receipts { command: receipts::ReceiptCommands },
    /// Manage batch payments
    BatchPayments { command: batch_payments::BatchPaymentCommands },
    /// Manage expense claims
    ExpenseClaims { command: expense_claims::ExpenseClaimCommands },
    /// Manage overpayments
    Overpayments { command: overpayments::OverpaymentCommands },
    /// Manage prepayments
    Prepayments { command: prepayments::PrepaymentCommands },
    /// Manage tracking categories
    TrackingCategories { command: tracking_categories::TrackingCategoryCommands },
    /// View journals
    Journals { command: journals::JournalCommands },
    /// Manage response cache
    Cache { command: cache::CacheCommands },
    /// Manage configuration
    Config { command: config::ConfigCommands },
    /// Generate shell completions and man pages
    Completions { command: completions::CompletionCommands },
}

} // verus!
