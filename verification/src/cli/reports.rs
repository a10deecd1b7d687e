//! Financial reports: flattening nested report rows into table lines, and
//! combining per-contact aged reports into one report.

use vstd::prelude::*;
use vstd::string::*;
use crate::models::{Contact, Report, ReportCell, ReportRow};
use crate::output::Tabular;
use crate::text::{or_empty, strings, text_or_empty, views};

verus! {

/// The report subcommands.
/// The reports that can be generated.
pub enum ReportCommands {
    ProfitAndLoss { from: Option<String>, to: Option<String> },
    BalanceSheet { date: Option<String> },
    TrialBalance { date: Option<String> },
    BankSummary,
    BudgetSummary { from: Option<String>, to: Option<String> },
    ExecutiveSummary,
    AgedReceivables { contact: Option<String> },
    AgedPayables { contact: Option<String> },
}

/// One table line of a flattened report.
pub struct ReportRowFlat {
    pub section: String,
    pub account: String,
    pub value: String,
}

/// A flattened line as text: section, account, value.
pub type FlatLine = (Seq<char>, Seq<char>, Seq<char>);

impl ReportRowFlat {
    /// The line's three texts.
    pub open spec fn line(&self) -> FlatLine {
        (self.section@, self.account@, self.value@)
    }
}

/// The lines of a list of flattened rows.
pub open spec fn lines(v: Seq<ReportRowFlat>) -> Seq<FlatLine> {
    v.map_values(|f: ReportRowFlat| f.line())
}

impl Tabular for ReportRowFlat {
    open spec fn columns() -> nat {
        3
    }

    fn headers() -> (r: Vec<String>)
        ensures
            views(r@) == seq!["Section"@, "Account"@, "Value"@],
    {
        let r = strings(&["Section", "Account", "Value"]);
        assert(views(r@) =~= seq!["Section"@, "Account"@, "Value"@]);
        r
    }

    fn row(&self) -> (r: Vec<String>)
        ensures
            views(r@) == seq![self.section@, self.account@, self.value@],
    {
        let mut r: Vec<String> = Vec::new();
        r.push(self.section.clone());
        r.push(self.account.clone());
        r.push(self.value.clone());
        assert(views(r@) =~= seq![self.section@, self.account@, self.value@]);
        r
    }
}

/// The text of cell `i`, empty when there is no such cell or it has no value.
pub open spec fn cell_value(cells: Seq<ReportCell>, i: int) -> Seq<char> {
    if 0 <= i < cells.len() {
        or_empty(cells[i].value)
    } else {
        Seq::empty()
    }
}

/// The line for a row with these cells under `section`: its first cell is the
/// account, its second the value.
pub open spec fn line_of(section: Seq<char>, cells: Seq<ReportCell>) -> FlatLine {
    (section, cell_value(cells, 0), cell_value(cells, 1))
}

/// The lines of one top-level row: one per nested row when it has nested rows,
/// else one for its own cells when it has cells, else none.
pub open spec fn flatten_row(row: ReportRow) -> Seq<FlatLine> {
    let section = or_empty(row.title);
    if row.rows@.len() > 0 {
        Seq::new(row.rows@.len(), |j: int| line_of(section, row.rows@[j].cells@))
    } else if row.cells@.len() > 0 {
        seq![line_of(section, row.cells@)]
    } else {
        Seq::empty()
    }
}

/// The lines of a list of top-level rows, in order.
pub open spec fn flatten_rows(rows: Seq<ReportRow>) -> Seq<FlatLine>
    decreases rows.len(),
{
    if rows.len() == 0 {
        Seq::empty()
    } else {
        flatten_rows(rows.drop_last()) + flatten_row(rows.last())
    }
}

fn cell_text(cells: &Vec<ReportCell>, i: usize) -> (r: String)
    ensures
        r@ == cell_value(cells@, i as int),
{
    if i < cells.len() {
        text_or_empty(&cells[i].value)
    } else {
        String::new()
    }
}

/// The report's rows as table lines: each nested row of a section gives a line
/// under the section's title, and a row without nested rows gives one line when
/// it has cells.
pub fn flatten_report(report: &Report) -> (flat: Vec<ReportRowFlat>)
    ensures
        lines(flat@) == flatten_rows(report.rows@),
{
    let mut flat: Vec<ReportRowFlat> = Vec::new();
    let mut i: usize = 0;
    while i < report.rows.len()
        invariant
            i <= report.rows@.len(),
            lines(flat@) == flatten_rows(report.rows@.take(i as int)),
        decreases report.rows@.len() - i,
    {
        let row = &report.rows[i];
        let ghost base = flat@;
        let ghost section = or_empty(row.title);
        proof {
            assert(report.rows@.take(i + 1).drop_last() =~= report.rows@.take(i as int));
            assert(report.rows@.take(i + 1).last() == *row);
        }
        if row.rows.len() > 0 {
            let mut j: usize = 0;
            while j < row.rows.len()
                invariant
                    j <= row.rows@.len(),
                    row == &report.rows@[i as int],
                    section == or_empty(row.title),
                    lines(flat@) == lines(base) + Seq::new(
                        j as nat,
                        |k: int| line_of(section, row.rows@[k].cells@),
                    ),
                decreases row.rows@.len() - j,
            {
                let sub = &row.rows[j];
                let line = ReportRowFlat {
                    section: text_or_empty(&row.title),
                    account: cell_text(&sub.cells, 0),
                    value: cell_text(&sub.cells, 1),
                };
                let ghost before = flat@;
                flat.push(line);
                assert(lines(flat@) =~= lines(before).push(line_of(section, sub.cells@)));
                assert(lines(flat@) =~= lines(base) + Seq::new(
                    (j + 1) as nat,
                    |k: int| line_of(section, row.rows@[k].cells@),
                ));
                j = j + 1;
            }
            assert(lines(flat@) =~= lines(base) + flatten_row(*row));
        } else if row.cells.len() > 0 {
            let line = ReportRowFlat {
                section: text_or_empty(&row.title),
                account: cell_text(&row.cells, 0),
                value: cell_text(&row.cells, 1),
            };
            flat.push(line);
            assert(lines(flat@) =~= lines(base) + flatten_row(*row));
        } else {
            assert(lines(flat@) =~= lines(base) + flatten_row(*row));
        }
        i = i + 1;
    }
    assert(report.rows@.take(report.rows@.len() as int) =~= report.rows@);
    flat
}

/// Flattening rows one list after another gives the lines of the first list
/// followed by those of the second.
pub proof fn lemma_flatten_concat(a: Seq<ReportRow>, b: Seq<ReportRow>)
    ensures
        flatten_rows(a + b) == flatten_rows(a) + flatten_rows(b),
    decreases b.len(),
{
    if b.len() == 0 {
        assert(a + b =~= a);
        assert(flatten_rows(a) + flatten_rows(b) =~= flatten_rows(a));
    } else {
        lemma_flatten_concat(a, b.drop_last());
        assert((a + b).drop_last() =~= a + b.drop_last());
        assert((a + b).last() == b.last());
        assert(flatten_rows(a + b) =~= flatten_rows(a) + flatten_rows(b));
    }
}

/// The lines of a top-level row, text for text: a row with nested rows gives one
/// line per nested row, whose account is exactly the text of the nested row's
/// first cell and whose value is exactly the text of its second cell (empty when
/// the cell or its value is absent), under the row's title; a row without nested
/// rows but with cells gives one such line for its own cells.
pub proof fn lemma_flatten_row_texts(row: ReportRow, j: int)
    ensures
        row.rows@.len() > 0 ==> flatten_row(row).len() == row.rows@.len(),
        row.rows@.len() == 0 && row.cells@.len() > 0 ==> flatten_row(row).len() == 1,
        row.rows@.len() == 0 && row.cells@.len() == 0 ==> flatten_row(row).len() == 0,
        ({
            let cells = if row.rows@.len() > 0 {
                row.rows@[j].cells@
            } else {
                row.cells@
            };
            let line = flatten_row(row)[j];
            0 <= j < flatten_row(row).len() ==> {
                &&& line.0 == or_empty(row.title)
                &&& cells.len() > 0 ==> line.1 == or_empty(cells[0].value)
                &&& cells.len() == 0 ==> line.1 == Seq::<char>::empty()
                &&& cells.len() > 1 ==> line.2 == or_empty(cells[1].value)
                &&& cells.len() <= 1 ==> line.2 == Seq::<char>::empty()
            }
        }),
{
}

/// The flattened lines of a list of rows are those of each row in turn.
pub proof fn lemma_flatten_rows_split(rows: Seq<ReportRow>, k: int)
    requires
        0 <= k < rows.len(),
    ensures
        flatten_rows(rows) == flatten_rows(rows.take(k)) + flatten_row(rows[k]) + flatten_rows(
            rows.skip(k + 1),
        ),
{
    lemma_flatten_concat(rows.take(k + 1), rows.skip(k + 1));
    assert(rows.take(k + 1) + rows.skip(k + 1) =~= rows);
    assert(rows.take(k + 1).drop_last() =~= rows.take(k));
}

/// Two lists of cells that agree on the text of their first two cells.
pub open spec fn cells_agree(a: Seq<ReportCell>, b: Seq<ReportCell>) -> bool {
    cell_value(a, 0) == cell_value(b, 0) && cell_value(a, 1) == cell_value(b, 1)
}

/// Two top-level rows that agree on all that flattening reads: the title, the
/// number of nested rows and the first two cells of each; or, for rows without
/// nested rows, whether they have cells and the first two of them.
pub open spec fn rows_agree(a: ReportRow, b: ReportRow) -> bool {
    &&& or_empty(a.title) == or_empty(b.title)
    &&& a.rows@.len() == b.rows@.len()
    &&& a.rows@.len() > 0 ==> forall|j: int|
        0 <= j < a.rows@.len() ==> cells_agree(
            #[trigger] a.rows@[j].cells@,
            b.rows@[j].cells@,
        )
    &&& a.rows@.len() == 0 ==> (a.cells@.len() > 0) == (b.cells@.len() > 0) && cells_agree(
        a.cells@,
        b.cells@,
    )
}

/// Nothing else reaches the flattened lines: a section's own cells and row type,
/// rows nested more than one level deep, and cells past the second may differ
/// between two reports without changing what flattening gives.
pub proof fn lemma_flatten_reads_only(a: Seq<ReportRow>, b: Seq<ReportRow>)
    requires
        a.len() == b.len(),
        forall|k: int| 0 <= k < a.len() ==> rows_agree(#[trigger] a[k], b[k]),
    ensures
        flatten_rows(a) == flatten_rows(b),
    decreases a.len(),
{
    if a.len() > 0 {
        let k = a.len() - 1;
        assert(rows_agree(a[k], b[k]));
        lemma_flatten_reads_only(a.drop_last(), b.drop_last());
        let (x, y) = (a.last(), b.last());
        if x.rows@.len() > 0 {
            assert(flatten_row(x) =~= flatten_row(y)) by {
                assert forall|j: int| 0 <= j < x.rows@.len() implies line_of(
                    or_empty(x.title),
                    x.rows@[j].cells@,
                ) == line_of(or_empty(y.title), y.rows@[j].cells@) by {
                    assert(cells_agree(x.rows@[j].cells@, y.rows@[j].cells@));
                }
            }
        } else {
            assert(flatten_row(x) =~= flatten_row(y));
        }
    }
}

/// Which side of the ledger an aged report covers.
pub enum AgedReportKind {
    Receivables,
    Payables,
}

impl AgedReportKind {
    /// The filter that selects the contacts this kind of report covers.
    pub open spec fn spec_where_clause(&self) -> Seq<char> {
        match self {
            AgedReportKind::Receivables => "IsCustomer==true"@,
            AgedReportKind::Payables => "IsSupplier==true"@,
        }
    }

    /// The report's title.
    pub open spec fn spec_title(&self) -> Seq<char> {
        match self {
            AgedReportKind::Receivables => "Aged Receivables"@,
            AgedReportKind::Payables => "Aged Payables"@,
        }
    }

    /// The filter that selects the contacts this kind of report covers: customers
    /// for receivables, suppliers for payables.
    pub fn where_clause(&self) -> (r: &'static str)
        ensures
            r@ == self.spec_where_clause(),
    {
        match self {
            AgedReportKind::Receivables => "IsCustomer==true",
            AgedReportKind::Payables => "IsSupplier==true",
        }
    }

    /// The report's title.
    pub fn title(&self) -> (r: &'static str)
        ensures
            r@ == self.spec_title(),
    {
        match self {
            AgedReportKind::Receivables => "Aged Receivables",
            AgedReportKind::Payables => "Aged Payables",
        }
    }
}

/// The name under which a contact's report is shown: its name, else `Unknown`.
pub open spec fn contact_label(name: Option<String>) -> Seq<char> {
    match name {
        Some(n) => n@,
        None => "Unknown"@,
    }
}

/// The contacts whose reports are fetched, as (label, contact id): every
/// contact that has an id, in order.
pub open spec fn fetch_plan(contacts: Seq<Contact>) -> Seq<(Seq<char>, Seq<char>)>
    decreases contacts.len(),
{
    if contacts.len() == 0 {
        Seq::empty()
    } else {
        let rest = fetch_plan(contacts.drop_last());
        let c = contacts.last();
        match c.contact_id {
            Some(id) => rest.push((contact_label(c.name), id@)),
            None => rest,
        }
    }
}

/// The fetch plan lists, in order, exactly the contacts that have an id: each
/// with its id and, as label, its name or `Unknown`.
pub proof fn lemma_fetch_plan_entries(contacts: Seq<Contact>)
    ensures
        fetch_plan(contacts).len() <= contacts.len(),
        (forall|i: int| 0 <= i < contacts.len() ==> (#[trigger] contacts[i]).contact_id is Some)
            ==> {
            &&& fetch_plan(contacts).len() == contacts.len()
            &&& forall|i: int|
                0 <= i < contacts.len() ==> (#[trigger] fetch_plan(contacts)[i]).1
                    == contacts[i].contact_id->0@ && fetch_plan(contacts)[i].0 == match contacts[i].name {
                    Some(n) => n@,
                    None => "Unknown"@,
                }
        },
        (forall|i: int| 0 <= i < contacts.len() ==> (#[trigger] contacts[i]).contact_id is None)
            ==> fetch_plan(contacts).len() == 0,
    decreases contacts.len(),
{
    if contacts.len() > 0 {
        let rest = contacts.drop_last();
        assert forall|i: int| 0 <= i < rest.len() implies rest[i] == contacts[i] by {}
        lemma_fetch_plan_entries(rest);
        if forall|i: int| 0 <= i < contacts.len() ==> (#[trigger] contacts[i]).contact_id is Some {
            assert(contacts[contacts.len() - 1].contact_id is Some);
            assert forall|i: int| 0 <= i < rest.len() implies (#[trigger] rest[i]).contact_id is Some by {
                assert(contacts[i].contact_id is Some);
            }
        }
        if forall|i: int| 0 <= i < contacts.len() ==> (#[trigger] contacts[i]).contact_id is None {
            assert(contacts[contacts.len() - 1].contact_id is None);
            assert forall|i: int| 0 <= i < rest.len() implies (#[trigger] rest[i]).contact_id is None by {
                assert(contacts[i].contact_id is None);
            }
        }
    }
}

/// The views of a list of (label, id) pairs.
pub open spec fn pair_views(v: Seq<(String, String)>) -> Seq<(Seq<char>, Seq<char>)> {
    v.map_values(|p: (String, String)| (p.0@, p.1@))
}

/// Which contacts to fetch an aged report for, and under which label: contacts
/// without an id are skipped.
pub fn aged_fetch_plan(contacts: &Vec<Contact>) -> (r: Vec<(String, String)>)
    ensures
        pair_views(r@) == fetch_plan(contacts@),
{
    let mut r: Vec<(String, String)> = Vec::new();
    let mut i: usize = 0;
    while i < contacts.len()
        invariant
            i <= contacts@.len(),
            pair_views(r@) == fetch_plan(contacts@.take(i as int)),
        decreases contacts@.len() - i,
    {
        let c = &contacts[i];
        proof {
            assert(contacts@.take(i + 1).drop_last() =~= contacts@.take(i as int));
            assert(contacts@.take(i + 1).last() == *c);
        }
        match &c.contact_id {
            Some(id) => {
                let label = match &c.name {
                    Some(n) => n.clone(),
                    None => String::from_str("Unknown"),
                };
                let ghost before = r@;
                r.push((label, id.clone()));
                assert(pair_views(r@) =~= pair_views(before).push((contact_label(c.name), id@)));
            },
            None => {},
        }
        i = i + 1;
    }
    assert(contacts@.take(contacts@.len() as int) =~= contacts@);
    r
}

/// The reports that were fetched, with their labels, in order.
pub open spec fn fetched_reports(fetched: Seq<(String, Option<Report>)>) -> Seq<(Seq<char>, Report)>
    decreases fetched.len(),
{
    if fetched.len() == 0 {
        Seq::empty()
    } else {
        let rest = fetched_reports(fetched.drop_last());
        match fetched.last().1 {
            Some(r) => rest.push((fetched.last().0@, r)),
            None => rest,
        }
    }
}

/// The reports fetched along a fetch plan, with their labels: `results[i]` is
/// what fetching the `i`-th planned contact gave, `None` when it failed.
pub open spec fn plan_results(
    plan: Seq<(Seq<char>, Seq<char>)>,
    results: Seq<Option<Report>>,
) -> Seq<(Seq<char>, Report)>
    decreases results.len(),
{
    if results.len() == 0 || plan.len() == 0 {
        Seq::empty()
    } else {
        let rest = plan_results(plan.drop_last(), results.drop_last());
        match results.last() {
            Some(r) => rest.push((plan.last().0, r)),
            None => rest,
        }
    }
}

/// A section row holding a contact's report under its label.
pub open spec fn is_section_for(row: ReportRow, label: Seq<char>, report: Report) -> bool {
    &&& row.row_type matches Some(t) && t@ == "Section"@
    &&& row.title matches Some(t) && t@ == label
    &&& row.cells@.len() == 0
    &&& row.rows == report.rows
}

/// `combined` is the all-contacts aged report of `kind` with one section per
/// entry of `ok`, in order, titled with the entry's label.
pub open spec fn is_aged_report(
    kind: AgedReportKind,
    ok: Seq<(Seq<char>, Report)>,
    combined: Report,
) -> bool {
    &&& combined.report_id is None
    &&& combined.report_name matches Some(n) && n@ == kind.spec_title() + " - All Contacts"@
    &&& combined.report_type matches Some(t) && t@ == kind.spec_title()
    &&& combined.report_date is None
    &&& combined.updated_date_utc is None
    &&& combined.rows@.len() == ok.len()
    &&& forall|k: int|
        0 <= k < ok.len() ==> is_section_for(#[trigger] combined.rows@[k], ok[k].0, ok[k].1)
}

/// `combined` is the all-contacts aged report of `kind` made of the reports in
/// `fetched`: one section per fetched report, in order, titled with its label.
pub open spec fn is_aged_combination(
    kind: AgedReportKind,
    fetched: Seq<(String, Option<Report>)>,
    combined: Report,
) -> bool {
    is_aged_report(kind, fetched_reports(fetched), combined)
}

/// One report for all contacts: each fetched report becomes a section titled with
/// the contact's label; contacts whose fetch failed are left out.
pub fn combine_aged_reports(kind: &AgedReportKind, fetched: Vec<(String, Option<Report>)>) -> (r:
    Report)
    ensures
        is_aged_combination(*kind, fetched@, r),
{
    let ghost all = fetched@;
    let mut rows: Vec<ReportRow> = Vec::new();
    let mut rest = fetched;
    let mut remaining: Vec<(String, Option<Report>)> = Vec::new();
    // Reverse first so that popping yields the reports in their original order.
    while rest.len() > 0
        invariant
            all == rest@ + remaining@.reverse(),
        decreases rest@.len(),
    {
        let ghost r0 = rest@;
        let ghost m0 = remaining@;
        let item = rest.pop().unwrap();
        remaining.push(item);
        assert(r0 =~= rest@.push(item));
        assert(remaining@.reverse() =~= seq![item] + m0.reverse());
        assert(all =~= rest@ + remaining@.reverse());
    }
    assert(all =~= remaining@.reverse());
    let ghost n = all.len();
    while remaining.len() > 0
        invariant
            remaining@.len() <= n,
            n == all.len(),
            all.take(n - remaining@.len()) + remaining@.reverse() == all,
            rows@.len() == fetched_reports(all.take(n - remaining@.len())).len(),
            forall|k: int|
                0 <= k < rows@.len() ==> is_section_for(
                    #[trigger] rows@[k],
                    fetched_reports(all.take(n - remaining@.len()))[k].0,
                    fetched_reports(all.take(n - remaining@.len()))[k].1,
                ),
        decreases remaining@.len(),
    {
        let ghost done = all.take(n - remaining@.len());
        let ghost m0 = remaining@;
        let (label, report) = remaining.pop().unwrap();
        let ghost item = (label, report);
        proof {
            assert(m0 =~= remaining@.push(item));
            assert(m0.reverse() =~= seq![item] + remaining@.reverse());
            assert(all[done.len() as int] == item) by {
                assert(all =~= done + m0.reverse());
            }
            let next = all.take(n - remaining@.len());
            assert(next =~= done.push(item));
            assert(next.drop_last() =~= done);
            assert(all.take(n - remaining@.len()) + remaining@.reverse() =~= all) by {
                assert(all =~= done + m0.reverse());
            }
        }
        match report {
            Some(rep) => {
                let ghost rep_ghost = rep;
                let section = ReportRow {
                    row_type: Some(String::from_str("Section")),
                    title: Some(label),
                    cells: Vec::new(),
                    rows: rep.rows,
                };
                rows.push(section);
                proof {
                    let next = all.take(n - remaining@.len());
                    assert(fetched_reports(next) == fetched_reports(done).push(
                        (item.0@, rep_ghost),
                    ));
                }
            },
            None => {},
        }
    }
    assert(all.take(n as int) =~= all);
    let title = kind.title();
    let name = String::from_str(title).concat(" - All Contacts");
    Report {
        report_id: None,
        report_name: Some(name),
        report_type: Some(String::from_str(title)),
        report_date: None,
        updated_date_utc: None,
        rows,
    }
}

/// The table lines that an all-contacts aged report flattens to: for each fetched
/// report in order, one line per top-level row of it, under the contact's label.
pub open spec fn aged_lines(ok: Seq<(Seq<char>, Report)>) -> Seq<FlatLine>
    decreases ok.len(),
{
    if ok.len() == 0 {
        Seq::empty()
    } else {
        let (label, report) = ok.last();
        aged_lines(ok.drop_last()) + Seq::new(
            report.rows@.len(),
            |j: int| line_of(label, report.rows@[j].cells@),
        )
    }
}

proof fn lemma_plan_results(
    plan: Seq<(Seq<char>, Seq<char>)>,
    results: Seq<Option<Report>>,
    fetched: Seq<(String, Option<Report>)>,
)
    requires
        plan.len() == results.len(),
        fetched.len() == results.len(),
        forall|k: int|
            0 <= k < fetched.len() ==> (#[trigger] fetched[k]).0@ == plan[k].0 && fetched[k].1
                == results[k],
    ensures
        fetched_reports(fetched) == plan_results(plan, results),
    decreases results.len(),
{
    if results.len() > 0 {
        lemma_plan_results(plan.drop_last(), results.drop_last(), fetched.drop_last());
        let k = fetched.len() - 1;
        assert(fetched[k].0@ == plan[k].0);
    }
}

/// The all-contacts aged report of `kind` for `contacts`: `results[i]` is what
/// fetching the `i`-th contact of the fetch plan gave (`None` when it failed);
/// each report fetched becomes a section titled with that contact's label.
pub fn aged_report_for(
    kind: &AgedReportKind,
    contacts: &Vec<Contact>,
    results: Vec<Option<Report>>,
) -> (r: Report)
    requires
        results@.len() == fetch_plan(contacts@).len(),
    ensures
        is_aged_report(*kind, plan_results(fetch_plan(contacts@), results@), r),
{
    let plan = aged_fetch_plan(contacts);
    let ghost pv = fetch_plan(contacts@);
    let ghost rv = results@;
    let mut fetched: Vec<(String, Option<Report>)> = Vec::new();
    let mut rest = results;
    let mut pending: Vec<Option<Report>> = Vec::new();
    while rest.len() > 0
        invariant
            rv == rest@ + pending@.reverse(),
        decreases rest@.len(),
    {
        let ghost r0 = rest@;
        let ghost m0 = pending@;
        let item = rest.pop().unwrap();
        pending.push(item);
        assert(r0 =~= rest@.push(item));
        assert(pending@.reverse() =~= seq![item] + m0.reverse());
    }
    assert(rv =~= pending@.reverse());
    let mut i: usize = 0;
    while i < plan.len()
        invariant
            i <= plan@.len(),
            plan@.len() == rv.len(),
            pair_views(plan@) == pv,
            pending@.len() == rv.len() - i,
            forall|k: int| 0 <= k < pending@.len() ==> pending@[k] == rv[rv.len() - 1 - k],
            fetched@.len() == i,
            forall|k: int|
                0 <= k < i ==> (#[trigger] fetched@[k]).0@ == pv[k].0 && fetched@[k].1 == rv[k],
        decreases plan@.len() - i,
    {
        let ghost m0 = pending@;
        let result = pending.pop().unwrap();
        assert(m0[m0.len() - 1] == result);
        assert forall|k: int| 0 <= k < pending@.len() implies pending@[k] == rv[rv.len() - 1 - k] by {
            assert(pending@[k] == m0[k]);
        }
        let label = plan[i].0.clone();
        assert(pair_views(plan@)[i as int] == (plan@[i as int].0@, plan@[i as int].1@));
        fetched.push((label, result));
        i = i + 1;
    }
    proof {
        lemma_plan_results(pv, rv, fetched@);
    }
    combine_aged_reports(kind, fetched)
}

/// Flattening the all-contacts aged report gives, contact by contact, the first
/// two cells of each top-level row of that contact's report under its label;
/// deeper rows and contacts whose fetch failed give no lines.
pub proof fn lemma_aged_report_lines(
    kind: AgedReportKind,
    fetched: Seq<(String, Option<Report>)>,
    combined: Report,
)
    requires
        is_aged_combination(kind, fetched, combined),
    ensures
        flatten_rows(combined.rows@) == aged_lines(fetched_reports(fetched)),
{
    lemma_sections_lines(combined.rows@, fetched_reports(fetched));
}

proof fn lemma_sections_lines(rows: Seq<ReportRow>, ok: Seq<(Seq<char>, Report)>)
    requires
        rows.len() == ok.len(),
        forall|k: int| 0 <= k < ok.len() ==> is_section_for(#[trigger] rows[k], ok[k].0, ok[k].1),
    ensures
        flatten_rows(rows) == aged_lines(ok),
    decreases rows.len(),
{
    if rows.len() > 0 {
        let k = rows.len() - 1;
        assert(is_section_for(rows[k], ok[k].0, ok[k].1));
        lemma_sections_lines(rows.drop_last(), ok.drop_last());
        let row = rows.last();
        let (label, report) = ok.last();
        assert(or_empty(row.title) == label);
        assert(flatten_row(row) =~= Seq::new(
            report.rows@.len(),
            |j: int| line_of(label, report.rows@[j].cells@),
        ));
    }
}

} // verus!
