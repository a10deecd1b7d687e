//! Quotes.

use vstd::prelude::*;
use crate::models::{Quote, contact_name, contact_name_text};
use crate::output::Tabular;
use crate::text::{or_empty, strings, text_or_empty, views};
use crate::json::{Json, JsonValue, ObjectBuilder, member_views, opt_member};

verus! {

/// What can be done with quotes.
pub enum QuoteCommands {
    /// List quotes
    List {
        status: Option<String>,
        where_clause: Option<String>,
    },
    /// Get a specific quote
    Get {
        id: String,
    },
    /// Create a quote
    Create {
        file: String,
    },
    /// Update a quote
    Update {
        id: String,
        expiry_date: Option<String>,
        status: Option<String>,
        file: Option<String>,
    },
}

impl Tabular for Quote {
    open spec fn columns() -> nat {
        6
    }

    fn headers() -> (r: Vec<String>)
        ensures
            views(r@) == seq!["Quote #"@, "Contact"@, "Status"@, "Total"@, "Date"@, "Expiry"@],
    {
        let r = strings(&["Quote #", "Contact", "Status", "Total", "Date", "Expiry"]);
        assert(views(r@) =~= seq!["Quote #"@, "Contact"@, "Status"@, "Total"@, "Date"@, "Expiry"@]);
        r
    }

    fn row(&self) -> (r: Vec<String>)
        ensures
            views(r@) == seq![
                or_empty(self.quote_number),
                contact_name(self.contact),
                or_empty(self.status),
                or_empty(self.total),
                or_empty(self.date),
                or_empty(self.expiry_date),
            ],
    {
        let mut r: Vec<String> = Vec::new();
        r.push(text_or_empty(&self.quote_number));
        r.push(contact_name_text(&self.contact));
        r.push(text_or_empty(&self.status));
        r.push(text_or_empty(&self.total));
        r.push(text_or_empty(&self.date));
        r.push(text_or_empty(&self.expiry_date));
        assert(views(r@) =~= seq![
                or_empty(self.quote_number),
                contact_name(self.contact),
                or_empty(self.status),
                or_empty(self.total),
                or_empty(self.date),
                or_empty(self.expiry_date),
            ]);
        r
    }
}

/// The body that updates a quote: the expiry date and status that are given.
pub fn quote_update_body(expiry_date: Option<String>, status: Option<String>) -> (body: JsonValue)
    ensures
        body@ == Json::Object(opt_member("ExpiryDate"@, expiry_date) + opt_member("Status"@, status)),
{
    let ghost (e, s) = (expiry_date, status);
    let mut b = ObjectBuilder::new();
    b.add_opt_str("ExpiryDate", expiry_date);
    b.add_opt_str("Status", status);
    assert(member_views(b.members@) =~= opt_member("ExpiryDate"@, e) + opt_member("Status"@, s));
    b.build()
}

} // verus!
