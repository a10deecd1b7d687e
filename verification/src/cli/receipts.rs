//! Expense receipts.

use vstd::prelude::*;
use crate::models::{Receipt, contact_name, contact_name_text};
use crate::output::Tabular;
use crate::text::{or_empty, strings, text_or_empty, views};

verus! {

/// What can be done with receipts.
pub enum ReceiptCommands {
    /// List receipts
    List,
    /// Get a specific receipt
    Get {
        id: String,
    },
    /// Create a receipt
    Create {
        file: String,
    },
    /// View receipt history
    History {
        id: String,
    },
}

impl Tabular for Receipt {
    open spec fn columns() -> nat {
        5
    }

    fn headers() -> (r: Vec<String>)
        ensures
            views(r@) == seq!["Number"@, "Contact"@, "Status"@, "Total"@, "Date"@],
    {
        let r = strings(&["Number", "Contact", "Status", "Total", "Date"]);
        assert(views(r@) =~= seq!["Number"@, "Contact"@, "Status"@, "Total"@, "Date"@]);
        r
    }

    fn row(&self) -> (r: Vec<String>)
        ensures
            views(r@) == seq![
                or_empty(self.receipt_number),
                contact_name(self.contact),
                or_empty(self.status),
                or_empty(self.total),
                or_empty(self.date),
            ],
    {
        let mut r: Vec<String> = Vec::new();
        r.push(text_or_empty(&self.receipt_number));
        r.push(contact_name_text(&self.contact));
        r.push(text_or_empty(&self.status));
        r.push(text_or_empty(&self.total));
        r.push(text_or_empty(&self.date));
        assert(views(r@) =~= seq![
                or_empty(self.receipt_number),
                contact_name(self.contact),
                or_empty(self.status),
                or_empty(self.total),
                or_empty(self.date),
            ]);
        r
    }
}

} // verus!
