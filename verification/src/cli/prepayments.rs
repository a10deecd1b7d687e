//! Prepayments.

use vstd::prelude::*;
use crate::models::{Prepayment, contact_name, contact_name_text, short_id, short_id_text};
use crate::output::Tabular;
use crate::text::{or_empty, strings, text_or_empty, views};

verus! {

/// What can be done with prepayments.
pub enum PrepaymentCommands {
    /// List prepayments
    List,
    /// Get a specific prepayment
    Get {
        id: String,
    },
    /// Allocate a prepayment to an invoice
    Allocate {
        id: String,
        invoice: String,
        amount: String,
    },
    /// View prepayment history
    History {
        id: String,
    },
}

impl Tabular for Prepayment {
    open spec fn columns() -> nat {
        7
    }

    fn headers() -> (r: Vec<String>)
        ensures
            views(r@) == seq!["ID"@, "Type"@, "Contact"@, "Status"@, "Total"@, "Remaining"@, "Date"@],
    {
        let r = strings(&["ID", "Type", "Contact", "Status", "Total", "Remaining", "Date"]);
        assert(views(r@) =~= seq!["ID"@, "Type"@, "Contact"@, "Status"@, "Total"@, "Remaining"@, "Date"@]);
        r
    }

    fn row(&self) -> (r: Vec<String>)
        ensures
            views(r@) == seq![
                short_id(self.prepayment_id),
                or_empty(self.prepayment_type),
                contact_name(self.contact),
                or_empty(self.status),
                or_empty(self.total),
                or_empty(self.remaining_credit),
                or_empty(self.date),
            ],
    {
        let mut r: Vec<String> = Vec::new();
        r.push(short_id_text(&self.prepayment_id));
        r.push(text_or_empty(&self.prepayment_type));
        r.push(contact_name_text(&self.contact));
        r.push(text_or_empty(&self.status));
        r.push(text_or_empty(&self.total));
        r.push(text_or_empty(&self.remaining_credit));
        r.push(text_or_empty(&self.date));
        assert(views(r@) =~= seq![
                short_id(self.prepayment_id),
                or_empty(self.prepayment_type),
                contact_name(self.contact),
                or_empty(self.status),
                or_empty(self.total),
                or_empty(self.remaining_credit),
                or_empty(self.date),
            ]);
        r
    }
}

} // verus!
