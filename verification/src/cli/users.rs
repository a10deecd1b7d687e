//! Users.

use vstd::prelude::*;
use crate::models::{User};
use crate::output::Tabular;
use crate::text::{or_empty, strings, text_or_empty, views};

verus! {

/// What can be done with users.
pub enum UserCommands {
    /// List users
    List,
    /// Get a specific user
    Get {
        id: String,
    },
}

impl Tabular for User {
    open spec fn columns() -> nat {
        4
    }

    fn headers() -> (r: Vec<String>)
        ensures
            views(r@) == seq!["Email"@, "First Name"@, "Last Name"@, "Role"@],
    {
        let r = strings(&["Email", "First Name", "Last Name", "Role"]);
        assert(views(r@) =~= seq!["Email"@, "First Name"@, "Last Name"@, "Role"@]);
        r
    }

    fn row(&self) -> (r: Vec<String>)
        ensures
            views(r@) == seq![
                or_empty(self.email_address),
                or_empty(self.first_name),
                or_empty(self.last_name),
                or_empty(self.organisation_role),
            ],
    {
        let mut r: Vec<String> = Vec::new();
        r.push(text_or_empty(&self.email_address));
        r.push(text_or_empty(&self.first_name));
        r.push(text_or_empty(&self.last_name));
        r.push(text_or_empty(&self.organisation_role));
        assert(views(r@) =~= seq![
                or_empty(self.email_address),
                or_empty(self.first_name),
                or_empty(self.last_name),
                or_empty(self.organisation_role),
            ]);
        r
    }
}

} // verus!
