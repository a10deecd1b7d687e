use xero_cli::models::{
    AccountRef, Contact, ContactGroup, ContactRef, ExpenseClaim, Invoice, Item, Journal, PriceDetails, TrackingCategory,
    TrackingOption, UserRef,
};
use xero_cli::output::Tabular;

fn o(v: &str) -> Option<String> {
    Some(v.to_string())
}

#[test]
fn invoice_row() {
    let inv = Invoice {
        invoice_id: o("a"),
        invoice_number: o("INV-0001"),
        invoice_type: o("ACCREC"),
        contact: Some(ContactRef { contact_id: None, name: o("Acme") }),
        status: o("AUTHORISED"),
        total: o("150"),
        amount_due: None,
        due_date: o("2025-04-30"),
    };
    assert_eq!(inv.row(), vec!["INV-0001", "ACCREC", "Acme", "AUTHORISED", "150", "", "2025-04-30"]);
    assert_eq!(Invoice::headers(), vec!["Invoice #", "Type", "Contact", "Status", "Amount", "Due", "Due Date"]);
}

#[test]
fn contact_row_truncates_id() {
    let c = Contact {
        contact_id: o("0123456789abcdef"),
        name: o("Acme"),
        email_address: None,
        contact_status: o("ACTIVE"),
        is_customer: Some(true),
        is_supplier: Some(false),
    };
    assert_eq!(c.row(), vec!["01234567...", "Acme", "", "ACTIVE", "Yes", "No"]);
    let empty = Contact { contact_id: None, name: None, email_address: None, contact_status: None, is_customer: None, is_supplier: None };
    assert_eq!(empty.row(), vec!["...", "", "", "", "", ""]);
}

#[test]
fn counted_and_nested_rows() {
    let g = ContactGroup {
        contact_group_id: o("abcdefghijk"),
        name: o("VIP"),
        status: o("ACTIVE"),
        contacts: vec![ContactRef { contact_id: None, name: None }, ContactRef { contact_id: None, name: None }],
    };
    assert_eq!(g.row(), vec!["abcdefgh", "VIP", "ACTIVE", "2"]);
    let t = TrackingCategory { tracking_category_id: o("t"), name: o("Region"), status: None, options: None };
    assert_eq!(t.row(), vec!["t", "Region", "", "0"]);
    let t2 = TrackingCategory {
        tracking_category_id: None,
        name: None,
        status: None,
        options: Some(vec![TrackingOption { tracking_option_id: o("o1"), name: o("North"), status: None }]),
    };
    assert_eq!(t2.row(), vec!["", "", "", "1"]);
    let j = Journal { journal_id: o("j-123456789"), journal_number: Some(42), journal_date: None, source_type: o("ACCREC"), reference: None };
    assert_eq!(j.row(), vec!["j-123456", "42", "", "ACCREC", ""]);
    let item = Item {
        item_id: None,
        code: o("W1"),
        name: o("Widget"),
        description: None,
        sales_details: Some(PriceDetails { unit_price: o("9.99"), account_code: None }),
        purchase_details: None,
    };
    assert_eq!(item.row(), vec!["W1", "Widget", "9.99", "", ""]);
    let _ = AccountRef { account_id: None, code: None, name: None };
}

#[test]
fn expense_claim_user_is_trimmed() {
    let claim = |first: Option<&str>, last: Option<&str>| ExpenseClaim {
        expense_claim_id: o("ec"),
        user: Some(UserRef { user_id: None, first_name: first.map(|s| s.into()), last_name: last.map(|s| s.into()) }),
        status: None,
        total: None,
        amount_due: None,
    };
    assert_eq!(claim(Some("Ann"), Some("Lee")).row()[1], "Ann Lee");
    assert_eq!(claim(Some("Ann"), None).row()[1], "Ann");
    assert_eq!(claim(None, Some("Lee")).row()[1], "Lee");
    assert_eq!(claim(None, None).row()[1], "");
}
