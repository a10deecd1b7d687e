//! Batch payments.

use vstd::prelude::*;
use crate::models::{BatchPayment, account_code, account_code_text, short_id, short_id_text};
use crate::output::Tabular;
use crate::text::{or_empty, strings, text_or_empty, views};

verus! {

/// What can be done with batch payments.
pub enum BatchPaymentCommands {
    /// List batch payments
    List,
    /// Get a specific batch payment
    Get {
        id: String,
    },
    /// Create a batch payment
    Create {
        file: String,
    },
    /// Delete a batch payment
    Delete {
        id: String,
    },
}

impl Tabular for BatchPayment {
    open spec fn columns() -> nat {
        5
    }

    fn headers() -> (r: Vec<String>)
        ensures
            views(r@) == seq!["ID"@, "Account"@, "Status"@, "Total"@, "Date"@],
    {
        let r = strings(&["ID", "Account", "Status", "Total", "Date"]);
        assert(views(r@) =~= seq!["ID"@, "Account"@, "Status"@, "Total"@, "Date"@]);
        r
    }

    fn row(&self) -> (r: Vec<String>)
        ensures
            views(r@) == seq![
                short_id(self.batch_payment_id),
                account_code(self.account),
                or_empty(self.status),
                or_empty(self.total_amount),
                or_empty(self.date),
            ],
    {
        let mut r: Vec<String> = Vec::new();
        r.push(short_id_text(&self.batch_payment_id));
        r.push(account_code_text(&self.account));
        r.push(text_or_empty(&self.status));
        r.push(text_or_empty(&self.total_amount));
        r.push(text_or_empty(&self.date));
        assert(views(r@) =~= seq![
                short_id(self.batch_payment_id),
                account_code(self.account),
                or_empty(self.status),
                or_empty(self.total_amount),
                or_empty(self.date),
            ]);
        r
    }
}

} // verus!
