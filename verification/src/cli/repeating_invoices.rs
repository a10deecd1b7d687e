//! Repeating invoices.

use vstd::prelude::*;
use crate::models::{RepeatingInvoice, contact_name, contact_name_text, short_id, short_id_text};
use crate::output::Tabular;
use crate::text::{or_empty, strings, text_or_empty, views};

verus! {

/// What can be done with repeating invoices.
pub enum RepeatingInvoiceCommands {
    /// List repeating invoices
    List,
    /// Get a specific repeating invoice
    Get {
        id: String,
    },
}

impl Tabular for RepeatingInvoice {
    open spec fn columns() -> nat {
        5
    }

    fn headers() -> (r: Vec<String>)
        ensures
            views(r@) == seq!["ID"@, "Type"@, "Contact"@, "Status"@, "Total"@],
    {
        let r = strings(&["ID", "Type", "Contact", "Status", "Total"]);
        assert(views(r@) =~= seq!["ID"@, "Type"@, "Contact"@, "Status"@, "Total"@]);
        r
    }

    fn row(&self) -> (r: Vec<String>)
        ensures
            views(r@) == seq![
                short_id(self.repeating_invoice_id),
                or_empty(self.invoice_type),
                contact_name(self.contact),
                or_empty(self.status),
                or_empty(self.total),
            ],
    {
        let mut r: Vec<String> = Vec::new();
        r.push(short_id_text(&self.repeating_invoice_id));
        r.push(text_or_empty(&self.invoice_type));
        r.push(contact_name_text(&self.contact));
        r.push(text_or_empty(&self.status));
        r.push(text_or_empty(&self.total));
        assert(views(r@) =~= seq![
                short_id(self.repeating_invoice_id),
                or_empty(self.invoice_type),
                contact_name(self.contact),
                or_empty(self.status),
                or_empty(self.total),
            ]);
        r
    }
}

} // verus!
