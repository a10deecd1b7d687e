//! Customers and suppliers.

use vstd::prelude::*;
use crate::models::{Contact, short_id, short_id_text};
use crate::output::Tabular;
use crate::text::{or_empty, strings, text_or_empty, views};
use vstd::string::*;
use crate::json::{Json, JsonValue, ObjectBuilder, member_views, opt_member};

verus! {

/// What can be done with contacts.
pub enum ContactCommands {
    /// List contacts
    List {
        search: Option<String>,
        where_clause: Option<String>,
        order: Option<String>,
    },
    /// Get a specific contact
    Get {
        id: String,
    },
    /// Create a contact
    Create {
        name: String,
        email: Option<String>,
        tax_number: Option<String>,
        file: Option<String>,
    },
    /// Update a contact
    Update {
        id: String,
        name: Option<String>,
        email: Option<String>,
        file: Option<String>,
    },
}

/// How a yes/no flag is shown: `Yes`, `No`, or nothing when unknown.
pub open spec fn yes_no(b: Option<bool>) -> Seq<char> {
    match b {
        Some(true) => "Yes"@,
        Some(false) => "No"@,
        None => Seq::empty(),
    }
}

fn yes_no_text(b: Option<bool>) -> (r: String)
    ensures
        r@ == yes_no(b),
{
    match b {
        Some(true) => String::from_str("Yes"),
        Some(false) => String::from_str("No"),
        None => String::new(),
    }
}

impl Tabular for Contact {
    open spec fn columns() -> nat {
        6
    }

    fn headers() -> (r: Vec<String>)
        ensures
            views(r@) == seq!["Contact ID"@, "Name"@, "Email"@, "Status"@, "Customer"@, "Supplier"@],
    {
        let r = strings(&["Contact ID", "Name", "Email", "Status", "Customer", "Supplier"]);
        assert(views(r@) =~= seq!["Contact ID"@, "Name"@, "Email"@, "Status"@, "Customer"@, "Supplier"@]);
        r
    }

    fn row(&self) -> (r: Vec<String>)
        ensures
            views(r@) == seq![
                short_id(self.contact_id) + "..."@,
                or_empty(self.name),
                or_empty(self.email_address),
                or_empty(self.contact_status),
                yes_no(self.is_customer),
                yes_no(self.is_supplier),
            ],
    {
        let mut r: Vec<String> = Vec::new();
        r.push(short_id_text(&self.contact_id).concat("..."));
        r.push(text_or_empty(&self.name));
        r.push(text_or_empty(&self.email_address));
        r.push(text_or_empty(&self.contact_status));
        r.push(yes_no_text(self.is_customer));
        r.push(yes_no_text(self.is_supplier));
        assert(views(r@) =~= seq![
            short_id(self.contact_id) + "..."@,
            or_empty(self.name),
            or_empty(self.email_address),
            or_empty(self.contact_status),
            yes_no(self.is_customer),
            yes_no(self.is_supplier),
        ]);
        r
    }
}

/// The body that creates a contact from its name, with the email address and tax
/// number when given.
pub fn contact_create_body(name: String, email: Option<String>, tax_number: Option<String>) -> (body:
    JsonValue)
    ensures
        body@ == Json::Object(
            seq![("Name"@, Json::Str(name@))] + opt_member("EmailAddress"@, email) + opt_member(
                "TaxNumber"@,
                tax_number,
            ),
        ),
{
    let ghost (n, e, t) = (name, email, tax_number);
    let mut b = ObjectBuilder::new();
    b.add_str("Name", name);
    b.add_opt_str("EmailAddress", email);
    b.add_opt_str("TaxNumber", tax_number);
    assert(member_views(b.members@) =~= seq![("Name"@, Json::Str(n@))] + opt_member(
        "EmailAddress"@,
        e,
    ) + opt_member("TaxNumber"@, t));
    b.build()
}

/// The body that updates a contact: the name and email address that are given.
pub fn contact_update_body(name: Option<String>, email: Option<String>) -> (body: JsonValue)
    ensures
        body@ == Json::Object(opt_member("Name"@, name) + opt_member("EmailAddress"@, email)),
{
    let ghost (n, e) = (name, email);
    let mut b = ObjectBuilder::new();
    b.add_opt_str("Name", name);
    b.add_opt_str("EmailAddress", email);
    assert(member_views(b.members@) =~= opt_member("Name"@, n) + opt_member("EmailAddress"@, e));
    b.build()
}

/// A known flag shows as `Yes` or `No`, the two differ, and an unknown flag shows
/// nothing.
pub proof fn lemma_yes_no_flags()
    ensures
        yes_no(Some(true)) == "Yes"@,
        yes_no(Some(false)) == "No"@,
        yes_no(Some(true)) != yes_no(Some(false)),
        yes_no(None) == Seq::<char>::empty(),
{
    reveal_strlit("Yes");
    reveal_strlit("No");
    assert("Yes"@.len() != "No"@.len());
}

} // verus!
