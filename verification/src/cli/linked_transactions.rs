//! Linked transactions.

use vstd::prelude::*;
use crate::models::{LinkedTransaction, short_id, short_id_text};
use crate::output::Tabular;
use crate::text::{or_empty, strings, text_or_empty, views};

verus! {

/// What can be done with linked transactions.
pub enum LinkedTransactionCommands {
    /// List linked transactions
    List,
    /// Get a specific linked transaction
    Get {
        id: String,
    },
    /// Create a linked transaction
    Create {
        file: String,
    },
    /// Update a linked transaction
    Update {
        id: String,
        file: String,
    },
    /// Delete a linked transaction
    Delete {
        id: String,
    },
}

impl Tabular for LinkedTransaction {
    open spec fn columns() -> nat {
        4
    }

    fn headers() -> (r: Vec<String>)
        ensures
            views(r@) == seq!["ID"@, "Type"@, "Status"@, "Source"@],
    {
        let r = strings(&["ID", "Type", "Status", "Source"]);
        assert(views(r@) =~= seq!["ID"@, "Type"@, "Status"@, "Source"@]);
        r
    }

    fn row(&self) -> (r: Vec<String>)
        ensures
            views(r@) == seq![
                short_id(self.linked_transaction_id),
                or_empty(self.transaction_type),
                or_empty(self.status),
                short_id(self.source_transaction_id),
            ],
    {
        let mut r: Vec<String> = Vec::new();
        r.push(short_id_text(&self.linked_transaction_id));
        r.push(text_or_empty(&self.transaction_type));
        r.push(text_or_empty(&self.status));
        r.push(short_id_text(&self.source_transaction_id));
        assert(views(r@) =~= seq![
                short_id(self.linked_transaction_id),
                or_empty(self.transaction_type),
                or_empty(self.status),
                short_id(self.source_transaction_id),
            ]);
        r
    }
}

} // verus!
