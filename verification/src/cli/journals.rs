//! System journals.

use vstd::prelude::*;
use crate::models::{Journal, short_id, short_id_text};
use crate::output::Tabular;
use crate::text::{decimal, decimal_value, lemma_decimal_reads_back, decimal_text, or_empty, strings, text_or_empty, views};

verus! {

/// What can be done with journals.
pub enum JournalCommands {
    /// List journals
    List {
        offset: Option<u64>,
    },
    /// Get a specific journal
    Get {
        id: String,
    },
}

/// A journal's number as shown, empty when it has none.
pub open spec fn journal_number(n: Option<u64>) -> Seq<char> {
    match n {
        Some(n) => decimal(n as nat),
        None => Seq::empty(),
    }
}

fn journal_number_text(n: Option<u64>) -> (r: String)
    ensures
        r@ == journal_number(n),
{
    match n {
        Some(n) => decimal_text(n),
        None => String::new(),
    }
}

impl Tabular for Journal {
    open spec fn columns() -> nat {
        5
    }

    fn headers() -> (r: Vec<String>)
        ensures
            views(r@) == seq!["ID"@, "Number"@, "Date"@, "Source Type"@, "Reference"@],
    {
        let r = strings(&["ID", "Number", "Date", "Source Type", "Reference"]);
        assert(views(r@) =~= seq!["ID"@, "Number"@, "Date"@, "Source Type"@, "Reference"@]);
        r
    }

    fn row(&self) -> (r: Vec<String>)
        ensures
            views(r@) == seq![
                short_id(self.journal_id),
                journal_number(self.journal_number),
                or_empty(self.journal_date),
                or_empty(self.source_type),
                or_empty(self.reference),
            ],
    {
        let mut r: Vec<String> = Vec::new();
        r.push(short_id_text(&self.journal_id));
        r.push(journal_number_text(self.journal_number));
        r.push(text_or_empty(&self.journal_date));
        r.push(text_or_empty(&self.source_type));
        r.push(text_or_empty(&self.reference));
        assert(views(r@) =~= seq![
            short_id(self.journal_id),
            journal_number(self.journal_number),
            or_empty(self.journal_date),
            or_empty(self.source_type),
            or_empty(self.reference),
        ]);
        r
    }
}

/// A journal's number is shown in decimal digits that read back as the number.
pub proof fn lemma_journal_number_reads_back(n: u64)
    ensures
        decimal_value(journal_number(Some(n))) == n,
        journal_number(None) == Seq::<char>::empty(),
{
    lemma_decimal_reads_back(n as nat);
}

} // verus!
