//! Credit notes and their allocations.

use vstd::prelude::*;
use crate::models::{Allocation, CreditNote, contact_name, contact_name_text, invoice_number, invoice_number_text, short_id, short_id_text};
use crate::output::Tabular;
use crate::text::{or_empty, strings, text_or_empty, views};
use crate::json::{Json, JsonValue, ObjectBuilder, array1, member_views, object1};

verus! {

/// What can be done with credit notes.
pub enum CreditNoteCommands {
    /// List credit notes
    List {
        status: Option<String>,
        where_clause: Option<String>,
    },
    /// Get a specific credit note
    Get {
        id: String,
    },
    /// Create a credit note
    Create {
        file: String,
    },
    /// Allocate a credit note to an invoice
    Allocate {
        id: String,
        invoice: String,
        amount: String,
    },
    /// View credit note history
    History {
        id: String,
    },
}

impl Tabular for CreditNote {
    open spec fn columns() -> nat {
        7
    }

    fn headers() -> (r: Vec<String>)
        ensures
            views(r@) == seq!["Number"@, "Type"@, "Contact"@, "Status"@, "Total"@, "Remaining"@, "Date"@],
    {
        let r = strings(&["Number", "Type", "Contact", "Status", "Total", "Remaining", "Date"]);
        assert(views(r@) =~= seq!["Number"@, "Type"@, "Contact"@, "Status"@, "Total"@, "Remaining"@, "Date"@]);
        r
    }

    fn row(&self) -> (r: Vec<String>)
        ensures
            views(r@) == seq![
                or_empty(self.credit_note_number),
                or_empty(self.credit_note_type),
                contact_name(self.contact),
                or_empty(self.status),
                or_empty(self.total),
                or_empty(self.remaining_credit),
                or_empty(self.date),
            ],
    {
        let mut r: Vec<String> = Vec::new();
        r.push(text_or_empty(&self.credit_note_number));
        r.push(text_or_empty(&self.credit_note_type));
        r.push(contact_name_text(&self.contact));
        r.push(text_or_empty(&self.status));
        r.push(text_or_empty(&self.total));
        r.push(text_or_empty(&self.remaining_credit));
        r.push(text_or_empty(&self.date));
        assert(views(r@) =~= seq![
                or_empty(self.credit_note_number),
                or_empty(self.credit_note_type),
                contact_name(self.contact),
                or_empty(self.status),
                or_empty(self.total),
                or_empty(self.remaining_credit),
                or_empty(self.date),
            ]);
        r
    }
}

impl Tabular for Allocation {
    open spec fn columns() -> nat {
        4
    }

    fn headers() -> (r: Vec<String>)
        ensures
            views(r@) == seq!["Allocation ID"@, "Invoice"@, "Amount"@, "Date"@],
    {
        let r = strings(&["Allocation ID", "Invoice", "Amount", "Date"]);
        assert(views(r@) =~= seq!["Allocation ID"@, "Invoice"@, "Amount"@, "Date"@]);
        r
    }

    fn row(&self) -> (r: Vec<String>)
        ensures
            views(r@) == seq![
                short_id(self.allocation_id),
                invoice_number(self.invoice),
                or_empty(self.amount),
                or_empty(self.date),
            ],
    {
        let mut r: Vec<String> = Vec::new();
        r.push(short_id_text(&self.allocation_id));
        r.push(invoice_number_text(&self.invoice));
        r.push(text_or_empty(&self.amount));
        r.push(text_or_empty(&self.date));
        assert(views(r@) =~= seq![
                short_id(self.allocation_id),
                invoice_number(self.invoice),
                or_empty(self.amount),
                or_empty(self.date),
            ]);
        r
    }
}

/// The allocation that sets `amount` against `invoice`, as credit notes,
/// overpayments and prepayments take it.
pub open spec fn allocation_json(invoice: Seq<char>, amount: Seq<char>) -> Json {
    Json::Object(
        seq![
            (
                "Allocations"@,
                Json::Array(
                    seq![
                        Json::Object(
                            seq![
                                ("Invoice"@, Json::Object(seq![("InvoiceID"@, Json::Str(invoice))])),
                                ("Amount"@, Json::Str(amount)),
                            ],
                        ),
                    ],
                ),
            ),
        ],
    )
}

/// The body that allocates `amount` to `invoice`.
pub fn allocation_body(invoice: String, amount: String) -> (body: JsonValue)
    ensures
        body@ == allocation_json(invoice@, amount@),
{
    let ghost (i, a) = (invoice, amount);
    let mut inner = ObjectBuilder::new();
    inner.add("Invoice", object1("InvoiceID", invoice));
    inner.add_str("Amount", amount);
    assert(member_views(inner.members@) =~= seq![
        ("Invoice"@, Json::Object(seq![("InvoiceID"@, Json::Str(i@))])),
        ("Amount"@, Json::Str(a@)),
    ]);
    let allocations = array1(inner.build());
    let mut b = ObjectBuilder::new();
    b.add("Allocations", allocations);
    let body = b.build();
    assert(member_views(b.members@) =~= seq![("Allocations"@, allocations@)]);
    body
}

/// An allocation body holds one allocation, whose `Amount` is `amount` and whose
/// `Invoice` names `invoice` by its `InvoiceID`.
pub proof fn lemma_allocation_fields(invoice: Seq<char>, amount: Seq<char>)
    ensures
        ({
            &&& allocation_json(invoice, amount) matches Json::Object(m)
            &&& m.len() == 1 && m[0].0 == "Allocations"@
            &&& m[0].1 matches Json::Array(a)
            &&& a.len() == 1
            &&& a[0] matches Json::Object(f)
            &&& f.contains(("Amount"@, Json::Str(amount)))
            &&& f.contains(("Invoice"@, Json::Object(seq![("InvoiceID"@, Json::Str(invoice))])))
        }),
{
    let f = seq![
        ("Invoice"@, Json::Object(seq![("InvoiceID"@, Json::Str(invoice))])),
        ("Amount"@, Json::Str(amount)),
    ];
    assert(f[1] == ("Amount"@, Json::Str(amount)));
    assert(f[0] == ("Invoice"@, Json::Object(seq![("InvoiceID"@, Json::Str(invoice))])));
}

} // verus!
