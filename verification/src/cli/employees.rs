//! Employees.

use vstd::prelude::*;
use crate::models::{Employee, short_id, short_id_text};
use crate::output::Tabular;
use crate::text::{or_empty, strings, text_or_empty, views};

verus! {

/// What can be done with employees.
pub enum EmployeeCommands {
    /// List employees
    List,
    /// Get a specific employee
    Get {
        id: String,
    },
}

impl Tabular for Employee {
    open spec fn columns() -> nat {
        4
    }

    fn headers() -> (r: Vec<String>)
        ensures
            views(r@) == seq!["ID"@, "First Name"@, "Last Name"@, "Status"@],
    {
        let r = strings(&["ID", "First Name", "Last Name", "Status"]);
        assert(views(r@) =~= seq!["ID"@, "First Name"@, "Last Name"@, "Status"@]);
        r
    }

    fn row(&self) -> (r: Vec<String>)
        ensures
            views(r@) == seq![
                short_id(self.employee_id),
                or_empty(self.first_name),
                or_empty(self.last_name),
                or_empty(self.status),
            ],
    {
        let mut r: Vec<String> = Vec::new();
        r.push(short_id_text(&self.employee_id));
        r.push(text_or_empty(&self.first_name));
        r.push(text_or_empty(&self.last_name));
        r.push(text_or_empty(&self.status));
        assert(views(r@) =~= seq![
                short_id(self.employee_id),
                or_empty(self.first_name),
                or_empty(self.last_name),
                or_empty(self.status),
            ]);
        r
    }
}

} // verus!
