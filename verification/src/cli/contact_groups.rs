//! Contact groups.

use vstd::prelude::*;
use crate::models::{ContactGroup, short_id, short_id_text};
use crate::output::Tabular;
use crate::text::{decimal, decimal_text, or_empty, strings, text_or_empty, views};
use crate::json::{Json, JsonValue, ObjectBuilder, member_views, object1, opt_member};

verus! {

/// What can be done with contact groups.
pub enum ContactGroupCommands {
    /// List contact groups
    List,
    /// Get a specific contact group
    Get {
        id: String,
    },
    /// Create a contact group
    Create {
        name: String,
    },
    /// Update a contact group
    Update {
        id: String,
        name: Option<String>,
    },
    /// Delete a contact group
    Delete {
        id: String,
    },
}

impl Tabular for ContactGroup {
    open spec fn columns() -> nat {
        4
    }

    fn headers() -> (r: Vec<String>)
        ensures
            views(r@) == seq!["ID"@, "Name"@, "Status"@, "Contacts"@],
    {
        let r = strings(&["ID", "Name", "Status", "Contacts"]);
        assert(views(r@) =~= seq!["ID"@, "Name"@, "Status"@, "Contacts"@]);
        r
    }

    fn row(&self) -> (r: Vec<String>)
        ensures
            views(r@) == seq![
                short_id(self.contact_group_id),
                or_empty(self.name),
                or_empty(self.status),
                decimal(self.contacts@.len()),
            ],
    {
        let mut r: Vec<String> = Vec::new();
        r.push(short_id_text(&self.contact_group_id));
        r.push(text_or_empty(&self.name));
        r.push(text_or_empty(&self.status));
        r.push(decimal_text(self.contacts.len() as u64));
        assert(views(r@) =~= seq![
                short_id(self.contact_group_id),
                or_empty(self.name),
                or_empty(self.status),
                decimal(self.contacts@.len()),
            ]);
        r
    }
}

/// The body that creates a contact group with this name.
pub fn contact_group_create_body(name: String) -> (body: JsonValue)
    ensures
        body@ == Json::Object(seq![("Name"@, Json::Str(name@))]),
{
    object1("Name", name)
}

/// The body that updates a contact group: the new name when given, else nothing.
pub fn contact_group_update_body(name: Option<String>) -> (body: JsonValue)
    ensures
        body@ == Json::Object(opt_member("Name"@, name)),
{
    let ghost n = name;
    let mut b = ObjectBuilder::new();
    b.add_opt_str("Name", name);
    assert(member_views(b.members@) =~= opt_member("Name"@, n));
    b.build()
}

} // verus!
