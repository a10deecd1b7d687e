//! Currencies.

use vstd::prelude::*;
use crate::models::{Currency};
use crate::output::Tabular;
use crate::text::{or_empty, strings, text_or_empty, views};

verus! {

/// What can be done with currencies.
pub enum CurrencyCommands {
    /// List currencies
    List,
}

impl Tabular for Currency {
    open spec fn columns() -> nat {
        2
    }

    fn headers() -> (r: Vec<String>)
        ensures
            views(r@) == seq!["Code"@, "Description"@],
    {
        let r = strings(&["Code", "Description"]);
        assert(views(r@) =~= seq!["Code"@, "Description"@]);
        r
    }

    fn row(&self) -> (r: Vec<String>)
        ensures
            views(r@) == seq![
                or_empty(self.code),
                or_empty(self.description),
            ],
    {
        let mut r: Vec<String> = Vec::new();
        r.push(text_or_empty(&self.code));
        r.push(text_or_empty(&self.description));
        assert(views(r@) =~= seq![
                or_empty(self.code),
                or_empty(self.description),
            ]);
        r
    }
}

} // verus!
