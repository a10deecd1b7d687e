//! Manual journals.

use vstd::prelude::*;
use crate::models::{ManualJournal, short_id, short_id_text};
use crate::output::Tabular;
use crate::text::{decimal, decimal_text, or_empty, strings, text_or_empty, views};
use crate::json::{Json, JsonValue, ObjectBuilder, member_views, opt_member};

verus! {

/// What can be done with manual journals.
pub enum ManualJournalCommands {
    /// List manual journals
    List,
    /// Get a specific manual journal
    Get {
        id: String,
    },
    /// Create a manual journal
    Create {
        file: String,
    },
    /// Update a manual journal
    Update {
        id: String,
        file: Option<String>,
        narration: Option<String>,
    },
}

impl Tabular for ManualJournal {
    open spec fn columns() -> nat {
        5
    }

    fn headers() -> (r: Vec<String>)
        ensures
            views(r@) == seq!["ID"@, "Narration"@, "Status"@, "Date"@, "Lines"@],
    {
        let r = strings(&["ID", "Narration", "Status", "Date", "Lines"]);
        assert(views(r@) =~= seq!["ID"@, "Narration"@, "Status"@, "Date"@, "Lines"@]);
        r
    }

    fn row(&self) -> (r: Vec<String>)
        ensures
            views(r@) == seq![
                short_id(self.manual_journal_id),
                or_empty(self.narration),
                or_empty(self.status),
                or_empty(self.date),
                decimal(self.journal_lines@.len()),
            ],
    {
        let mut r: Vec<String> = Vec::new();
        r.push(short_id_text(&self.manual_journal_id));
        r.push(text_or_empty(&self.narration));
        r.push(text_or_empty(&self.status));
        r.push(text_or_empty(&self.date));
        r.push(decimal_text(self.journal_lines.len() as u64));
        assert(views(r@) =~= seq![
                short_id(self.manual_journal_id),
                or_empty(self.narration),
                or_empty(self.status),
                or_empty(self.date),
                decimal(self.journal_lines@.len()),
            ]);
        r
    }
}

/// The body that updates a manual journal: the new narration when given.
pub fn manual_journal_update_body(narration: Option<String>) -> (body: JsonValue)
    ensures
        body@ == Json::Object(opt_member("Narration"@, narration)),
{
    let ghost n = narration;
    let mut b = ObjectBuilder::new();
    b.add_opt_str("Narration", narration);
    assert(member_views(b.members@) =~= opt_member("Narration"@, n));
    b.build()
}

} // verus!
