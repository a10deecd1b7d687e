//! The chart of accounts.

use vstd::prelude::*;
use crate::models::{Account};
use crate::json::{Json, JsonValue, ObjectBuilder, member_views, opt_member};
use crate::output::Tabular;
use crate::text::{or_empty, strings, text_or_empty, views};

verus! {

/// What can be done with accounts of the chart of accounts.
pub enum AccountCommands {
    /// List accounts
    List {
        account_type: Option<String>,
        class: Option<String>,
        where_clause: Option<String>,
        order: Option<String>,
    },
    /// Get a specific account
    Get {
        id: String,
    },
    /// Create an account
    Create {
        name: String,
        code: String,
        account_type: String,
        description: Option<String>,
        tax_type: Option<String>,
    },
    /// Archive an account
    Archive {
        id: String,
    },
}

impl Tabular for Account {
    open spec fn columns() -> nat {
        6
    }

    fn headers() -> (r: Vec<String>)
        ensures
            views(r@) == seq!["Code"@, "Name"@, "Type"@, "Class"@, "Status"@, "Tax Type"@],
    {
        let r = strings(&["Code", "Name", "Type", "Class", "Status", "Tax Type"]);
        assert(views(r@) =~= seq!["Code"@, "Name"@, "Type"@, "Class"@, "Status"@, "Tax Type"@]);
        r
    }

    fn row(&self) -> (r: Vec<String>)
        ensures
            views(r@) == seq![
                or_empty(self.code),
                or_empty(self.name),
                or_empty(self.account_type),
                or_empty(self.class),
                or_empty(self.status),
                or_empty(self.tax_type),
            ],
    {
        let mut r: Vec<String> = Vec::new();
        r.push(text_or_empty(&self.code));
        r.push(text_or_empty(&self.name));
        r.push(text_or_empty(&self.account_type));
        r.push(text_or_empty(&self.class));
        r.push(text_or_empty(&self.status));
        r.push(text_or_empty(&self.tax_type));
        assert(views(r@) =~= seq![
                or_empty(self.code),
                or_empty(self.name),
                or_empty(self.account_type),
                or_empty(self.class),
                or_empty(self.status),
                or_empty(self.tax_type),
            ]);
        r
    }
}

/// The body that creates an account: its name, code and type, with the
/// description and tax type when given.
pub fn account_create_body(
    name: String,
    code: String,
    account_type: String,
    description: Option<String>,
    tax_type: Option<String>,
) -> (body: JsonValue)
    ensures
        body@ == Json::Object(
            seq![
                ("Name"@, Json::Str(name@)),
                ("Code"@, Json::Str(code@)),
                ("Type"@, Json::Str(account_type@)),
            ] + opt_member("Description"@, description) + opt_member("TaxType"@, tax_type),
        ),
{
    let ghost (n, c, t, d, x) = (name, code, account_type, description, tax_type);
    let mut b = ObjectBuilder::new();
    b.add_str("Name", name);
    b.add_str("Code", code);
    b.add_str("Type", account_type);
    b.add_opt_str("Description", description);
    b.add_opt_str("TaxType", tax_type);
    assert(member_views(b.members@) =~= seq![
        ("Name"@, Json::Str(n@)),
        ("Code"@, Json::Str(c@)),
        ("Type"@, Json::Str(t@)),
    ] + opt_member("Description"@, d) + opt_member("TaxType"@, x));
    b.build()
}

} // verus!
