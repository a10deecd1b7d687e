//! Spend and receive money transactions.

use vstd::prelude::*;
use crate::models::{BankTransaction, account_code, account_code_text, contact_name, contact_name_text, short_id, short_id_text};
use crate::output::Tabular;
use crate::text::{or_empty, strings, text_or_empty, views};

verus! {

/// What can be done with bank transactions.
pub enum BankTransactionCommands {
    /// List bank transactions
    List {
        account: Option<String>,
        from: Option<String>,
        where_clause: Option<String>,
    },
    /// Get a specific bank transaction
    Get {
        id: String,
    },
    /// Create a bank transaction
    Create {
        file: String,
    },
    /// Delete a bank transaction
    Delete {
        id: String,
    },
    /// View bank transaction history
    History {
        id: String,
    },
}

impl Tabular for BankTransaction {
    open spec fn columns() -> nat {
        7
    }

    fn headers() -> (r: Vec<String>)
        ensures
            views(r@) == seq!["ID"@, "Type"@, "Contact"@, "Account"@, "Total"@, "Date"@, "Status"@],
    {
        let r = strings(&["ID", "Type", "Contact", "Account", "Total", "Date", "Status"]);
        assert(views(r@) =~= seq!["ID"@, "Type"@, "Contact"@, "Account"@, "Total"@, "Date"@, "Status"@]);
        r
    }

    fn row(&self) -> (r: Vec<String>)
        ensures
            views(r@) == seq![
                short_id(self.bank_transaction_id),
                or_empty(self.transaction_type),
                contact_name(self.contact),
                account_code(self.bank_account),
                or_empty(self.total),
                or_empty(self.date),
                or_empty(self.status),
            ],
    {
        let mut r: Vec<String> = Vec::new();
        r.push(short_id_text(&self.bank_transaction_id));
        r.push(text_or_empty(&self.transaction_type));
        r.push(contact_name_text(&self.contact));
        r.push(account_code_text(&self.bank_account));
        r.push(text_or_empty(&self.total));
        r.push(text_or_empty(&self.date));
        r.push(text_or_empty(&self.status));
        assert(views(r@) =~= seq![
                short_id(self.bank_transaction_id),
                or_empty(self.transaction_type),
                contact_name(self.contact),
                account_code(self.bank_account),
                or_empty(self.total),
                or_empty(self.date),
                or_empty(self.status),
            ]);
        r
    }
}

} // verus!
