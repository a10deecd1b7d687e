use xero_cli::cli::reports::{aged_fetch_plan, aged_report_for, combine_aged_reports, flatten_report, AgedReportKind, ReportRowFlat};
use xero_cli::models::{Contact, Report, ReportCell, ReportRow};
use xero_cli::output::Tabular;

fn cell(v: &str) -> ReportCell {
    ReportCell { value: Some(v.to_string()) }
}

fn row(title: Option<&str>, cells: Vec<ReportCell>, rows: Vec<ReportRow>) -> ReportRow {
    ReportRow { row_type: None, title: title.map(|t| t.to_string()), cells, rows }
}

fn report(rows: Vec<ReportRow>) -> Report {
    Report { report_id: None, report_name: Some("Profit and Loss".into()), report_type: None, report_date: None, updated_date_utc: None, rows }
}

fn flat(r: &[ReportRowFlat]) -> Vec<(String, String, String)> {
    r.iter().map(|f| (f.section.clone(), f.account.clone(), f.value.clone())).collect()
}

#[test]
fn flatten_sections_and_plain_rows() {
    let r = report(vec![
        row(None, vec![cell(""), cell("31 Mar 2025")], vec![]),
        row(Some("Income"), vec![], vec![
            row(None, vec![cell("Sales"), cell("1000.00")], vec![]),
            row(None, vec![cell("Other"), ReportCell { value: None }], vec![]),
            row(None, vec![], vec![]),
        ]),
        row(Some("Empty"), vec![], vec![]),
        row(Some("Net"), vec![cell("Net Profit")], vec![]),
    ]);
    let f = flat(&flatten_report(&r));
    let s = |a: &str, b: &str, c: &str| (a.to_string(), b.to_string(), c.to_string());
    assert_eq!(f, vec![
        s("", "", "31 Mar 2025"),
        s("Income", "Sales", "1000.00"),
        s("Income", "Other", ""),
        s("Income", "", ""),
        s("Net", "Net Profit", ""),
    ]);
    assert_eq!(ReportRowFlat::headers(), vec!["Section", "Account", "Value"]);
    let line = ReportRowFlat { section: "A".into(), account: "B".into(), value: "C".into() };
    assert_eq!(line.row(), vec!["A", "B", "C"]);
}

#[test]
fn flatten_empty_report() {
    assert!(flatten_report(&report(vec![])).is_empty());
}

fn contact(id: Option<&str>, name: Option<&str>) -> Contact {
    Contact { contact_id: id.map(|s| s.into()), name: name.map(|s| s.into()), email_address: None, contact_status: None, is_customer: None, is_supplier: None }
}

#[test]
fn aged_kinds() {
    assert_eq!(AgedReportKind::Receivables.where_clause(), "IsCustomer==true");
    assert_eq!(AgedReportKind::Payables.where_clause(), "IsSupplier==true");
    assert_eq!(AgedReportKind::Receivables.title(), "Aged Receivables");
    assert_eq!(AgedReportKind::Payables.title(), "Aged Payables");
}

#[test]
fn aged_plan_skips_contacts_without_id() {
    let plan = aged_fetch_plan(&vec![
        contact(Some("c1"), Some("Acme")),
        contact(None, Some("Ghost")),
        contact(Some("c3"), None),
    ]);
    assert_eq!(plan, vec![("Acme".to_string(), "c1".to_string()), ("Unknown".to_string(), "c3".to_string())]);
}

#[test]
fn aged_combined_report_flattens_per_contact() {
    let acme = report(vec![row(None, vec![cell("INV-1"), cell("100.00")], vec![]), row(None, vec![cell("Total")], vec![])]);
    let beta = report(vec![row(None, vec![cell("INV-9"), cell("5.00")], vec![])]);
    let combined = combine_aged_reports(
        &AgedReportKind::Receivables,
        vec![("Acme".to_string(), Some(acme)), ("Failed".to_string(), None), ("Beta".to_string(), Some(beta))],
    );
    assert_eq!(combined.report_name.as_deref(), Some("Aged Receivables - All Contacts"));
    assert_eq!(combined.report_type.as_deref(), Some("Aged Receivables"));
    assert_eq!(combined.rows.len(), 2);
    assert_eq!(combined.rows[0].row_type.as_deref(), Some("Section"));
    assert_eq!(combined.rows[1].title.as_deref(), Some("Beta"));
    let s = |a: &str, b: &str, c: &str| (a.to_string(), b.to_string(), c.to_string());
    assert_eq!(flat(&flatten_report(&combined)), vec![
        s("Acme", "INV-1", "100.00"),
        s("Acme", "Total", ""),
        s("Beta", "INV-9", "5.00"),
    ]);
}

#[test]
fn aged_report_follows_fetch_plan() {
    let contacts = vec![contact(Some("c1"), Some("Acme")), contact(None, Some("NoId")), contact(Some("c2"), None), contact(Some("c3"), Some("Gamma"))];
    let acme = report(vec![row(None, vec![cell("INV-1"), cell("100.00")], vec![])]);
    let gamma = report(vec![row(None, vec![cell("INV-3"), cell("7.00")], vec![])]);
    let combined = aged_report_for(&AgedReportKind::Payables, &contacts, vec![Some(acme), None, Some(gamma)]);
    assert_eq!(combined.report_name.as_deref(), Some("Aged Payables - All Contacts"));
    let titles: Vec<Option<&str>> = combined.rows.iter().map(|r| r.title.as_deref()).collect();
    assert_eq!(titles, vec![Some("Acme"), Some("Gamma")]);
    let s = |a: &str, b: &str, c: &str| (a.to_string(), b.to_string(), c.to_string());
    assert_eq!(flat(&flatten_report(&combined)), vec![s("Acme", "INV-1", "100.00"), s("Gamma", "INV-3", "7.00")]);
}

#[test]
fn flatten_ignores_section_cells_and_deep_rows() {
    let deep = row(Some("Deep"), vec![cell("x")], vec![]);
    let a = report(vec![row(Some("Income"), vec![], vec![row(None, vec![cell("Sales"), cell("10")], vec![])])]);
    let mut sub = row(Some("ignored"), vec![cell("Sales"), cell("10"), cell("extra")], vec![deep]);
    sub.row_type = Some("Row".into());
    let mut top = row(Some("Income"), vec![cell("section cell")], vec![sub]);
    top.row_type = Some("Section".into());
    let b = report(vec![top]);
    assert_eq!(flat(&flatten_report(&a)), flat(&flatten_report(&b)));
}
