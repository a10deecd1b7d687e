//! Sales invoices and bills.

use vstd::prelude::*;
use crate::models::{Invoice, contact_name, contact_name_text};
use crate::output::Tabular;
use crate::text::{or_empty, strings, text_or_empty, views};
use vstd::string::*;
use crate::json::{Json, JsonValue, ObjectBuilder, json_views, member_views, object1, opt_member};
use crate::text::{
    count_char, join_with, lemma_split_join, lemma_split_len, lemma_split_pieces_free, split_on,
    split_text, trim, trim_text, is_trim_of, lemma_trim_is_trim_of,
};

verus! {

/// What can be done with invoices.
pub enum InvoiceCommands {
    /// List invoices
    List {
        status: Option<String>,
        contact: Option<String>,
        from: Option<String>,
        to: Option<String>,
        where_clause: Option<String>,
        order: Option<String>,
    },
    /// Get a specific invoice
    Get {
        id: String,
    },
    /// Create an invoice
    Create {
        file: Option<String>,
        contact: Option<String>,
        line_item: Vec<String>,
        due_date: Option<String>,
    },
    /// Update an invoice
    Update {
        id: String,
        status: Option<String>,
        file: Option<String>,
    },
}

impl Tabular for Invoice {
    open spec fn columns() -> nat {
        7
    }

    fn headers() -> (r: Vec<String>)
        ensures
            views(r@) == seq!["Invoice #"@, "Type"@, "Contact"@, "Status"@, "Amount"@, "Due"@, "Due Date"@],
    {
        let r = strings(&["Invoice #", "Type", "Contact", "Status", "Amount", "Due", "Due Date"]);
        assert(views(r@) =~= seq!["Invoice #"@, "Type"@, "Contact"@, "Status"@, "Amount"@, "Due"@, "Due Date"@]);
        r
    }

    fn row(&self) -> (r: Vec<String>)
        ensures
            views(r@) == seq![
                or_empty(self.invoice_number),
                or_empty(self.invoice_type),
                contact_name(self.contact),
                or_empty(self.status),
                or_empty(self.total),
                or_empty(self.amount_due),
                or_empty(self.due_date),
            ],
    {
        let mut r: Vec<String> = Vec::new();
        r.push(text_or_empty(&self.invoice_number));
        r.push(text_or_empty(&self.invoice_type));
        r.push(contact_name_text(&self.contact));
        r.push(text_or_empty(&self.status));
        r.push(text_or_empty(&self.total));
        r.push(text_or_empty(&self.amount_due));
        r.push(text_or_empty(&self.due_date));
        assert(views(r@) =~= seq![
                or_empty(self.invoice_number),
                or_empty(self.invoice_type),
                contact_name(self.contact),
                or_empty(self.status),
                or_empty(self.total),
                or_empty(self.amount_due),
                or_empty(self.due_date),
            ]);
        r
    }
}

/// A line item given on the command line has the form
/// `Description,Quantity,UnitAmount`: exactly three comma-separated parts.
pub open spec fn line_item_ok(li: Seq<char>) -> bool {
    split_on(li, ',').len() == 3
}

/// The invoice line for a well-formed line item: its three parts, trimmed.
pub open spec fn line_item_json(li: Seq<char>) -> Json {
    let p = split_on(li, ',');
    Json::Object(
        seq![
            ("Description"@, Json::Str(trim(p[0]))),
            ("Quantity"@, Json::Str(trim(p[1]))),
            ("UnitAmount"@, Json::Str(trim(p[2]))),
        ],
    )
}

/// The message for a malformed line item.
pub open spec fn line_item_error(li: Seq<char>) -> Seq<char> {
    "Line item format: \"Description,Quantity,UnitAmount\". Got: "@ + li
}

/// The sales invoice for `contact` with these line items and, when given, due date.
pub open spec fn inline_invoice_json(
    contact: Seq<char>,
    items: Seq<Seq<char>>,
    due_date: Option<String>,
) -> Json {
    Json::Object(
        seq![
            ("Type"@, Json::Str("ACCREC"@)),
            ("Contact"@, Json::Object(seq![("Name"@, Json::Str(contact))])),
            ("LineItems"@, Json::Array(items.map_values(|li: Seq<char>| line_item_json(li)))),
        ] + opt_member("DueDate"@, due_date),
    )
}

/// The body of a sales invoice built from command-line arguments: a contact name
/// is required, and each line item must be `Description,Quantity,UnitAmount`;
/// the first malformed line item is reported.
pub fn build_inline_invoice(
    contact: Option<String>,
    line_items: &Vec<String>,
    due_date: Option<String>,
) -> (r: Result<JsonValue, String>)
    ensures
        match contact {
            None => r matches Err(m) && m@ == "--contact is required for inline invoice creation"@,
            Some(c) => {
                let items = views(line_items@);
                &&& (r is Ok <==> forall|i: int|
                    0 <= i < items.len() ==> line_item_ok(#[trigger] items[i]))
                &&& match r {
                    Ok(body) => body@ == inline_invoice_json(c@, items, due_date),
                    Err(m) => exists|i: int|
                        0 <= i < items.len() && !line_item_ok(#[trigger] items[i]) && (forall|
                            j: int,
                        |
                            0 <= j < i ==> line_item_ok(#[trigger] items[j])) && m@
                            == line_item_error(items[i]),
                }
            },
        },
{
    let contact_name = match contact {
        Some(c) => c,
        None => {
            return Err(String::from_str("--contact is required for inline invoice creation"));
        },
    };
    let ghost items = views(line_items@);
    let mut lines: Vec<JsonValue> = Vec::new();
    let mut i: usize = 0;
    while i < line_items.len()
        invariant
            i <= line_items@.len(),
            items == views(line_items@),
            contact == Some(contact_name),
            forall|j: int| 0 <= j < i ==> line_item_ok(#[trigger] items[j]),
            json_views(lines@) == items.take(i as int).map_values(
                |li: Seq<char>| line_item_json(li),
            ),
        decreases line_items@.len() - i,
    {
        let li = &line_items[i];
        let parts = split_text(li.as_str(), ',');
        if parts.len() != 3 {
            let m = String::from_str(
                "Line item format: \"Description,Quantity,UnitAmount\". Got: ",
            ).concat(li.as_str());
            assert(items[i as int] == li@);
            return Err(m);
        }
        let ghost p = split_on(li@, ',');
        assert(parts@[0]@ == p[0] && parts@[1]@ == p[1] && parts@[2]@ == p[2]);
        let mut b = ObjectBuilder::new();
        b.add_str("Description", trim_text(parts[0].as_str()));
        b.add_str("Quantity", trim_text(parts[1].as_str()));
        b.add_str("UnitAmount", trim_text(parts[2].as_str()));
        assert(member_views(b.members@) =~= seq![
            ("Description"@, Json::Str(trim(p[0]))),
            ("Quantity"@, Json::Str(trim(p[1]))),
            ("UnitAmount"@, Json::Str(trim(p[2]))),
        ]);
        let line = b.build();
        assert(line@ == line_item_json(items[i as int]));
        let ghost before = lines@;
        lines.push(line);
        proof {
            assert(lines@.drop_last() =~= before);
            assert(items.take(i + 1) =~= items.take(i as int).push(items[i as int]));
            assert(json_views(lines@) =~= items.take(i + 1).map_values(
                |li: Seq<char>| line_item_json(li),
            ));
        }
        i = i + 1;
    }
    assert(items.take(items.len() as int) =~= items);
    let ghost (cv, d) = (contact_name, due_date);
    let mut b = ObjectBuilder::new();
    b.add_str("Type", String::from_str("ACCREC"));
    b.add("Contact", object1("Name", contact_name));
    let array = JsonValue::Array(lines);
    assert(array@ == Json::Array(items.map_values(|li: Seq<char>| line_item_json(li))));
    b.add("LineItems", array);
    b.add_opt_str("DueDate", due_date);
    assert(member_views(b.members@) =~= seq![
        ("Type"@, Json::Str("ACCREC"@)),
        ("Contact"@, Json::Object(seq![("Name"@, Json::Str(cv@))])),
        ("LineItems"@, Json::Array(items.map_values(|li: Seq<char>| line_item_json(li)))),
    ] + opt_member("DueDate"@, d));
    Ok(b.build())
}

/// A line item is accepted exactly when it holds two commas; its description,
/// quantity and unit amount are then the text around them, none holding a comma.
pub proof fn lemma_line_item_parts(li: Seq<char>)
    ensures
        line_item_ok(li) == (count_char(li, ',') == 2),
        line_item_ok(li) ==> {
            let p = split_on(li, ',');
            &&& p[0].push(',') + p[1].push(',') + p[2] == li
            &&& !p[0].contains(',') && !p[1].contains(',') && !p[2].contains(',')
        },
{
    lemma_split_len(li, ',');
    lemma_split_join(li, ',');
    lemma_split_pieces_free(li, ',');
    let p = split_on(li, ',');
    if p.len() == 3 {
        assert(p.drop_last().drop_last() =~= seq![p[0]]);
        assert(p.drop_last().last() == p[1]);
        assert(join_with(p.drop_last(), ',') == join_with(p.drop_last().drop_last(), ',').push(',')
            + p[1]);
        assert(join_with(p, ',') == join_with(p.drop_last(), ',').push(',') + p[2]);
        assert(p[0].push(',') + p[1].push(',') + p[2] =~= li);
        assert forall|k: int| 0 <= k < 3 implies !(#[trigger] p[k]).contains(',') by {
            if p[k].contains(',') {
                let j = choose|j: int| 0 <= j < p[k].len() && p[k][j] == ',';
            }
        }
        assert(!p[0].contains(','));
        assert(!p[1].contains(','));
        assert(!p[2].contains(','));
    }
}

/// The body that changes an invoice's status; without a status there is nothing
/// to update.
pub fn invoice_update_body(status: Option<String>) -> (r: Result<JsonValue, String>)
    ensures
        match status {
            Some(s) => r matches Ok(body) && body@ == Json::Object(
                seq![("Status"@, Json::Str(s@))],
            ),
            None => r matches Err(m) && m@ == "Provide --file or --status to update an invoice"@,
        },
{
    match status {
        Some(s) => Ok(object1("Status", s)),
        None => Err(String::from_str("Provide --file or --status to update an invoice")),
    }
}

/// Each line item of an inline invoice carries the three comma-separated parts of
/// its argument, in order, as `Description`, `Quantity` and `UnitAmount`, each with
/// exactly its surrounding whitespace removed.
pub proof fn lemma_inline_invoice_line_fields(
    contact: Seq<char>,
    items: Seq<Seq<char>>,
    due_date: Option<String>,
    i: int,
)
    requires
        0 <= i < items.len(),
        line_item_ok(items[i]),
    ensures
        ({
            let p = split_on(items[i], ',');
            &&& inline_invoice_json(contact, items, due_date) matches Json::Object(m)
            &&& m.len() >= 3
            &&& m[0] == ("Type"@, Json::Str("ACCREC"@))
            &&& m[1] == ("Contact"@, Json::Object(seq![("Name"@, Json::Str(contact))]))
            &&& (due_date matches Some(d) ==> m.len() == 4 && m[3] == ("DueDate"@, Json::Str(d@)))
            &&& (due_date is None ==> m.len() == 3)
            &&& m[2].0 == "LineItems"@
            &&& m[2].1 matches Json::Array(a)
            &&& a.len() == items.len()
            &&& a[i] matches Json::Object(f)
            &&& f.len() == 3
            &&& f[0].0 == "Description"@ && f[1].0 == "Quantity"@ && f[2].0 == "UnitAmount"@
            &&& f[0].1 matches Json::Str(d) && is_trim_of(d, p[0])
            &&& f[1].1 matches Json::Str(q) && is_trim_of(q, p[1])
            &&& f[2].1 matches Json::Str(u) && is_trim_of(u, p[2])
        }),
{
    let p = split_on(items[i], ',');
    lemma_trim_is_trim_of(p[0]);
    lemma_trim_is_trim_of(p[1]);
    lemma_trim_is_trim_of(p[2]);
}

} // verus!
