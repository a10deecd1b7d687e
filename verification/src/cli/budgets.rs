//! Budgets.

use vstd::prelude::*;
use crate::models::{Budget, short_id, short_id_text};
use crate::output::Tabular;
use crate::text::{or_empty, strings, text_or_empty, views};

verus! {

/// What can be done with budgets.
pub enum BudgetCommands {
    /// List budgets
    List,
    /// Get a specific budget
    Get {
        id: String,
    },
}

impl Tabular for Budget {
    open spec fn columns() -> nat {
        3
    }

    fn headers() -> (r: Vec<String>)
        ensures
            views(r@) == seq!["ID"@, "Type"@, "Description"@],
    {
        let r = strings(&["ID", "Type", "Description"]);
        assert(views(r@) =~= seq!["ID"@, "Type"@, "Description"@]);
        r
    }

    fn row(&self) -> (r: Vec<String>)
        ensures
            views(r@) == seq![
                short_id(self.budget_id),
                or_empty(self.budget_type),
                or_empty(self.description),
            ],
    {
        let mut r: Vec<String> = Vec::new();
        r.push(short_id_text(&self.budget_id));
        r.push(text_or_empty(&self.budget_type));
        r.push(text_or_empty(&self.description));
        assert(views(r@) =~= seq![
                short_id(self.budget_id),
                or_empty(self.budget_type),
                or_empty(self.description),
            ]);
        r
    }
}

} // verus!
