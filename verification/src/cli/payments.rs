//! Payments and change history.

use vstd::prelude::*;
use crate::models::{HistoryRecord, Payment, account_code, account_code_text, invoice_number, invoice_number_text, short_id, short_id_text};
use crate::output::Tabular;
use crate::text::{or_empty, strings, text_or_empty, views};
use crate::json::{Json, JsonValue, ObjectBuilder, member_views, object1, opt_member};

verus! {

/// What can be done with payments.
pub enum PaymentCommands {
    /// List payments
    List {
        invoice: Option<String>,
        where_clause: Option<String>,
    },
    /// Get a specific payment
    Get {
        id: String,
    },
    /// Create a payment
    Create {
        invoice: String,
        account: String,
        amount: String,
        date: Option<String>,
        reference: Option<String>,
    },
    /// Delete (reverse) a payment
    Delete {
        id: String,
    },
    /// View payment history
    History {
        id: String,
    },
}

impl Tabular for Payment {
    open spec fn columns() -> nat {
        6
    }

    fn headers() -> (r: Vec<String>)
        ensures
            views(r@) == seq!["Payment ID"@, "Invoice"@, "Account"@, "Amount"@, "Date"@, "Status"@],
    {
        let r = strings(&["Payment ID", "Invoice", "Account", "Amount", "Date", "Status"]);
        assert(views(r@) =~= seq!["Payment ID"@, "Invoice"@, "Account"@, "Amount"@, "Date"@, "Status"@]);
        r
    }

    fn row(&self) -> (r: Vec<String>)
        ensures
            views(r@) == seq![
                short_id(self.payment_id),
                invoice_number(self.invoice),
                account_code(self.account),
                or_empty(self.amount),
                or_empty(self.date),
                or_empty(self.status),
            ],
    {
        let mut r: Vec<String> = Vec::new();
        r.push(short_id_text(&self.payment_id));
        r.push(invoice_number_text(&self.invoice));
        r.push(account_code_text(&self.account));
        r.push(text_or_empty(&self.amount));
        r.push(text_or_empty(&self.date));
        r.push(text_or_empty(&self.status));
        assert(views(r@) =~= seq![
                short_id(self.payment_id),
                invoice_number(self.invoice),
                account_code(self.account),
                or_empty(self.amount),
                or_empty(self.date),
                or_empty(self.status),
            ]);
        r
    }
}

impl Tabular for HistoryRecord {
    open spec fn columns() -> nat {
        4
    }

    fn headers() -> (r: Vec<String>)
        ensures
            views(r@) == seq!["Date"@, "Changes"@, "User"@, "Details"@],
    {
        let r = strings(&["Date", "Changes", "User", "Details"]);
        assert(views(r@) =~= seq!["Date"@, "Changes"@, "User"@, "Details"@]);
        r
    }

    fn row(&self) -> (r: Vec<String>)
        ensures
            views(r@) == seq![
                or_empty(self.date_utc),
                or_empty(self.changes),
                or_empty(self.user),
                or_empty(self.details),
            ],
    {
        let mut r: Vec<String> = Vec::new();
        r.push(text_or_empty(&self.date_utc));
        r.push(text_or_empty(&self.changes));
        r.push(text_or_empty(&self.user));
        r.push(text_or_empty(&self.details));
        assert(views(r@) =~= seq![
                or_empty(self.date_utc),
                or_empty(self.changes),
                or_empty(self.user),
                or_empty(self.details),
            ]);
        r
    }
}

/// The body that pays `amount` on `invoice` from `account`, with the date and
/// reference when given.
pub fn payment_create_body(
    invoice: String,
    account: String,
    amount: String,
    date: Option<String>,
    reference: Option<String>,
) -> (body: JsonValue)
    ensures
        body@ == Json::Object(
            seq![
                ("Invoice"@, Json::Object(seq![("InvoiceID"@, Json::Str(invoice@))])),
                ("Account"@, Json::Object(seq![("AccountID"@, Json::Str(account@))])),
                ("Amount"@, Json::Str(amount@)),
            ] + opt_member("Date"@, date) + opt_member("Reference"@, reference),
        ),
{
    let ghost (i, a, m, d, r) = (invoice, account, amount, date, reference);
    let mut b = ObjectBuilder::new();
    b.add("Invoice", object1("InvoiceID", invoice));
    b.add("Account", object1("AccountID", account));
    b.add_str("Amount", amount);
    b.add_opt_str("Date", date);
    b.add_opt_str("Reference", reference);
    assert(member_views(b.members@) =~= seq![
        ("Invoice"@, Json::Object(seq![("InvoiceID"@, Json::Str(i@))])),
        ("Account"@, Json::Object(seq![("AccountID"@, Json::Str(a@))])),
        ("Amount"@, Json::Str(m@)),
    ] + opt_member("Date"@, d) + opt_member("Reference"@, r));
    b.build()
}

} // verus!
