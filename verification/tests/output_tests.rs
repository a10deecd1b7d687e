use xero_cli::cli::cache::{cache_entry_selected, contains_infix};
use xero_cli::output::{render_csv, render_table};

fn v(items: &[&str]) -> Vec<String> {
    items.iter().map(|s| s.to_string()).collect()
}

#[test]
fn csv_quotes_only_when_needed() {
    let out = render_csv(&v(&["ID", "Name"]), &vec![v(&["1", "Acme, Inc"]), v(&["2", "Say \"hi\""]), v(&["3", "plain"])]);
    assert_eq!(out, "ID,Name\n1,\"Acme, Inc\"\n2,\"Say \"\"hi\"\"\"\n3,plain");
    assert_eq!(render_csv(&v(&["A"]), &vec![]), "A");
    assert_eq!(render_csv(&v(&["A"]), &vec![v(&["line\nbreak"])]), "A\n\"line\nbreak\"");
}

#[test]
fn table_aligns_columns() {
    let out = render_table(&v(&["ID", "Name"]), &vec![v(&["1", "Acme"]), v(&["1234", "B"])]);
    assert_eq!(out, "ID    Name\n----  ----\n1     Acme\n1234  B");
    assert_eq!(render_table(&v(&["Col"]), &vec![]), "Col\n---");
    let wide = render_table(&v(&["A"]), &vec![v(&["x", "extra"])]);
    assert_eq!(wide, "A\n-\nx  extra");
}

#[test]
fn cache_entries_by_resource() {
    assert!(cache_entry_selected("invoices_abc.json", &None));
    assert!(cache_entry_selected("invoices_abc.json", &Some("Invoices".to_string())));
    assert!(!cache_entry_selected("contacts_abc.json", &Some("Invoices".to_string())));
    assert!(contains_infix("abc", ""));
    assert!(!contains_infix("ab", "abc"));
}
