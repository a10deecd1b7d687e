//! Tax rates.

use vstd::prelude::*;
use crate::models::{TaxRate};
use crate::output::Tabular;
use crate::text::{or_empty, strings, text_or_empty, views};
use crate::json::{Json, JsonValue, ObjectBuilder, array1, member_views, opt_member};

verus! {

/// What can be done with tax rates.
pub enum TaxRateCommands {
    /// List tax rates
    List,
    /// Create a tax rate
    Create {
        name: String,
        tax_type: String,
        rate: String,
    },
    /// Update a tax rate
    Update {
        name: String,
        status: Option<String>,
        file: Option<String>,
    },
}

impl Tabular for TaxRate {
    open spec fn columns() -> nat {
        4
    }

    fn headers() -> (r: Vec<String>)
        ensures
            views(r@) == seq!["Name"@, "Type"@, "Rate"@, "Status"@],
    {
        let r = strings(&["Name", "Type", "Rate", "Status"]);
        assert(views(r@) =~= seq!["Name"@, "Type"@, "Rate"@, "Status"@]);
        r
    }

    fn row(&self) -> (r: Vec<String>)
        ensures
            views(r@) == seq![
                or_empty(self.name),
                or_empty(self.tax_type),
                or_empty(self.effective_rate),
                or_empty(self.status),
            ],
    {
        let mut r: Vec<String> = Vec::new();
        r.push(text_or_empty(&self.name));
        r.push(text_or_empty(&self.tax_type));
        r.push(text_or_empty(&self.effective_rate));
        r.push(text_or_empty(&self.status));
        assert(views(r@) =~= seq![
                or_empty(self.name),
                or_empty(self.tax_type),
                or_empty(self.effective_rate),
                or_empty(self.status),
            ]);
        r
    }
}

/// The body that creates a tax rate with one component of the same name.
pub fn tax_rate_create_body(name: String, tax_type: String, rate: String) -> (body: JsonValue)
    ensures
        body@ == Json::Object(
            seq![
                ("Name"@, Json::Str(name@)),
                ("TaxType"@, Json::Str(tax_type@)),
                (
                    "TaxComponents"@,
                    Json::Array(
                        seq![
                            Json::Object(
                                seq![("Name"@, Json::Str(name@)), ("Rate"@, Json::Str(rate@))],
                            ),
                        ],
                    ),
                ),
            ],
        ),
{
    let ghost (n, t, r) = (name, tax_type, rate);
    let mut component = ObjectBuilder::new();
    component.add_str("Name", name.clone());
    component.add_str("Rate", rate);
    assert(member_views(component.members@) =~= seq![
        ("Name"@, Json::Str(n@)),
        ("Rate"@, Json::Str(r@)),
    ]);
    let components = array1(component.build());
    let mut b = ObjectBuilder::new();
    b.add_str("Name", name);
    b.add_str("TaxType", tax_type);
    b.add("TaxComponents", components);
    assert(member_views(b.members@) =~= seq![
        ("Name"@, Json::Str(n@)),
        ("TaxType"@, Json::Str(t@)),
        ("TaxComponents"@, components@),
    ]);
    b.build()
}

/// The body that updates the tax rate called `name`: the new status when given.
pub fn tax_rate_update_body(name: String, status: Option<String>) -> (body: JsonValue)
    ensures
        body@ == Json::Object(seq![("Name"@, Json::Str(name@))] + opt_member("Status"@, status)),
{
    let ghost (n, s) = (name, status);
    let mut b = ObjectBuilder::new();
    b.add_str("Name", name);
    b.add_opt_str("Status", status);
    assert(member_views(b.members@) =~= seq![("Name"@, Json::Str(n@))] + opt_member("Status"@, s));
    b.build()
}

} // verus!
