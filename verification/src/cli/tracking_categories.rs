//! Tracking categories and their options.

use vstd::prelude::*;
use crate::models::{TrackingOption, short_id, short_id_text};
use crate::output::Tabular;
use crate::text::{or_empty, strings, text_or_empty, views};
use crate::models::TrackingCategory;
use crate::text::{decimal, decimal_value, lemma_decimal_reads_back};
use crate::text::decimal_text;
use vstd::string::*;
use crate::json::{Json, JsonValue, object1};

verus! {

/// What can be done with tracking categories.
pub enum TrackingCategoryCommands {
    /// List tracking categories
    List,
    /// Get a specific tracking category
    Get {
        id: String,
    },
    /// Create a tracking category
    Create {
        name: String,
    },
    /// Update a tracking category
    Update {
        id: String,
        name: String,
    },
    /// Add an option to a tracking category
    AddOption {
        id: String,
        name: String,
    },
    /// Update an option in a tracking category
    UpdateOption {
        id: String,
        option_id: String,
        name: String,
    },
    /// Remove an option from a tracking category
    RemoveOption {
        id: String,
        option_id: String,
    },
}

impl Tabular for TrackingOption {
    open spec fn columns() -> nat {
        3
    }

    fn headers() -> (r: Vec<String>)
        ensures
            views(r@) == seq!["Option ID"@, "Name"@, "Status"@],
    {
        let r = strings(&["Option ID", "Name", "Status"]);
        assert(views(r@) =~= seq!["Option ID"@, "Name"@, "Status"@]);
        r
    }

    fn row(&self) -> (r: Vec<String>)
        ensures
            views(r@) == seq![
                short_id(self.tracking_option_id),
                or_empty(self.name),
                or_empty(self.status),
            ],
    {
        let mut r: Vec<String> = Vec::new();
        r.push(short_id_text(&self.tracking_option_id));
        r.push(text_or_empty(&self.name));
        r.push(text_or_empty(&self.status));
        assert(views(r@) =~= seq![
                short_id(self.tracking_option_id),
                or_empty(self.name),
                or_empty(self.status),
            ]);
        r
    }
}

/// How many options a tracking category shows: the count, or `0` when the
/// category lists none.
pub open spec fn option_count(options: Option<Vec<TrackingOption>>) -> Seq<char> {
    match options {
        Some(o) => decimal(o@.len()),
        None => "0"@,
    }
}

fn option_count_text(options: &Option<Vec<TrackingOption>>) -> (r: String)
    ensures
        r@ == option_count(*options),
{
    match options {
        Some(o) => decimal_text(o.len() as u64),
        None => String::from_str("0"),
    }
}

impl Tabular for TrackingCategory {
    open spec fn columns() -> nat {
        4
    }

    fn headers() -> (r: Vec<String>)
        ensures
            views(r@) == seq!["ID"@, "Name"@, "Status"@, "Options"@],
    {
        let r = strings(&["ID", "Name", "Status", "Options"]);
        assert(views(r@) =~= seq!["ID"@, "Name"@, "Status"@, "Options"@]);
        r
    }

    fn row(&self) -> (r: Vec<String>)
        ensures
            views(r@) == seq![
                short_id(self.tracking_category_id),
                or_empty(self.name),
                or_empty(self.status),
                option_count(self.options),
            ],
    {
        let mut r: Vec<String> = Vec::new();
        r.push(short_id_text(&self.tracking_category_id));
        r.push(text_or_empty(&self.name));
        r.push(text_or_empty(&self.status));
        r.push(option_count_text(&self.options));
        assert(views(r@) =~= seq![
            short_id(self.tracking_category_id),
            or_empty(self.name),
            or_empty(self.status),
            option_count(self.options),
        ]);
        r
    }
}

/// The body that names a tracking category or option.
pub fn tracking_name_body(name: String) -> (body: JsonValue)
    ensures
        body@ == Json::Object(seq![("Name"@, Json::Str(name@))]),
{
    object1("Name", name)
}

/// A category's option count reads back as the number of options it lists, and
/// is `0` when it lists none.
pub proof fn lemma_option_count_reads_back(options: Option<Vec<TrackingOption>>)
    ensures
        options matches Some(o) ==> decimal_value(option_count(options)) == o@.len(),
        options is None ==> decimal_value(option_count(options)) == 0,
{
    reveal_strlit("0");
    match options {
        Some(o) => lemma_decimal_reads_back(o@.len()),
        None => {
            assert("0"@.len() == 1 && "0"@[0] == '0');
            assert("0"@.drop_last() =~= Seq::<char>::empty());
            assert(decimal_value("0"@) == decimal_value("0"@.drop_last()) * 10 + (('0' as int) - (
            '0' as int)));
        },
    }
}

} // verus!
