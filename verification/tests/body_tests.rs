use xero_cli::cli::accounts::account_create_body;
use xero_cli::cli::bank_transfers::bank_transfer_body;
use xero_cli::cli::contact_groups::{contact_group_create_body, contact_group_update_body};
use xero_cli::cli::contacts::{contact_create_body, contact_update_body};
use xero_cli::cli::credit_notes::allocation_body;
use xero_cli::cli::expense_claims::expense_claim_update_body;
use xero_cli::cli::invoices::{build_inline_invoice, invoice_update_body};
use xero_cli::cli::items::{item_create_body, item_update_body};
use xero_cli::cli::manual_journals::manual_journal_update_body;
use xero_cli::cli::payments::payment_create_body;
use xero_cli::cli::purchase_orders::purchase_order_create_body;
use xero_cli::cli::quotes::quote_update_body;
use xero_cli::cli::tax_rates::{tax_rate_create_body, tax_rate_update_body};
use xero_cli::cli::tracking_categories::tracking_name_body;
use xero_cli::json::{parse_json_body, JsonValue};

fn s(v: &str) -> JsonValue {
    JsonValue::Str(v.to_string())
}

fn obj(members: Vec<(&str, JsonValue)>) -> JsonValue {
    JsonValue::Object(members.into_iter().map(|(k, v)| (k.to_string(), v)).collect())
}

fn o(v: &str) -> Option<String> {
    Some(v.to_string())
}

#[test]
fn inline_invoice() {
    let body = build_inline_invoice(
        o("Acme Corp"),
        &vec!["Consulting, 10 ,150.00".to_string(), "Travel,1,20".to_string()],
        o("2025-04-30"),
    )
    .unwrap();
    let line = |d: &str, q: &str, u: &str| obj(vec![("Description", s(d)), ("Quantity", s(q)), ("UnitAmount", s(u))]);
    assert_eq!(
        body,
        obj(vec![
            ("Type", s("ACCREC")),
            ("Contact", obj(vec![("Name", s("Acme Corp"))])),
            ("LineItems", JsonValue::Array(vec![line("Consulting", "10", "150.00"), line("Travel", "1", "20")])),
            ("DueDate", s("2025-04-30")),
        ])
    );
    let no_lines = build_inline_invoice(o("Acme"), &vec![], None).unwrap();
    assert_eq!(no_lines, obj(vec![("Type", s("ACCREC")), ("Contact", obj(vec![("Name", s("Acme"))])), ("LineItems", JsonValue::Array(vec![]))]));
}

#[test]
fn inline_invoice_errors() {
    assert_eq!(
        build_inline_invoice(None, &vec!["a,1,2".to_string()], None).unwrap_err(),
        "--contact is required for inline invoice creation"
    );
    assert_eq!(
        build_inline_invoice(o("Acme"), &vec!["ok,1,2".to_string(), "bad,1".to_string(), "x".to_string()], None).unwrap_err(),
        "Line item format: \"Description,Quantity,UnitAmount\". Got: bad,1"
    );
    assert!(build_inline_invoice(o("Acme"), &vec!["a,b,c,d".to_string()], None).is_err());
}

#[test]
fn invoice_status_update() {
    assert_eq!(invoice_update_body(o("AUTHORISED")).unwrap(), obj(vec![("Status", s("AUTHORISED"))]));
    assert_eq!(invoice_update_body(None).unwrap_err(), "Provide --file or --status to update an invoice");
}

#[test]
fn account_and_contact_bodies() {
    assert_eq!(
        account_create_body("Sales".into(), "200".into(), "REVENUE".into(), None, o("OUTPUT")),
        obj(vec![("Name", s("Sales")), ("Code", s("200")), ("Type", s("REVENUE")), ("TaxType", s("OUTPUT"))])
    );
    assert_eq!(
        contact_create_body("Acme".into(), o("a@b.c"), None),
        obj(vec![("Name", s("Acme")), ("EmailAddress", s("a@b.c"))])
    );
    assert_eq!(contact_update_body(None, None), obj(vec![]));
    assert_eq!(contact_update_body(o("N"), o("e")), obj(vec![("Name", s("N")), ("EmailAddress", s("e"))]));
    assert_eq!(contact_group_create_body("VIP".into()), obj(vec![("Name", s("VIP"))]));
    assert_eq!(contact_group_update_body(None), obj(vec![]));
}

#[test]
fn payment_and_transfer_bodies() {
    assert_eq!(
        payment_create_body("INV-0001".into(), "090".into(), "250.00".into(), o("2025-01-02"), None),
        obj(vec![
            ("Invoice", obj(vec![("InvoiceID", s("INV-0001"))])),
            ("Account", obj(vec![("AccountID", s("090"))])),
            ("Amount", s("250.00")),
            ("Date", s("2025-01-02")),
        ])
    );
    assert_eq!(
        bank_transfer_body("A".into(), "B".into(), "10".into()),
        obj(vec![
            ("FromBankAccount", obj(vec![("AccountID", s("A"))])),
            ("ToBankAccount", obj(vec![("AccountID", s("B"))])),
            ("Amount", s("10")),
        ])
    );
    assert_eq!(
        allocation_body("INV-1".into(), "5.00".into()),
        obj(vec![(
            "Allocations",
            JsonValue::Array(vec![obj(vec![("Invoice", obj(vec![("InvoiceID", s("INV-1"))])), ("Amount", s("5.00"))])])
        )])
    );
}

#[test]
fn item_bodies() {
    assert_eq!(
        item_create_body("W1".into(), "Widget".into(), None, o("9.99"), None, None, None),
        obj(vec![("Code", s("W1")), ("Name", s("Widget")), ("SalesDetails", obj(vec![("UnitPrice", s("9.99"))]))])
    );
    assert_eq!(
        item_create_body("W1".into(), "Widget".into(), o("d"), None, o("200"), o("1"), o("300")),
        obj(vec![
            ("Code", s("W1")),
            ("Name", s("Widget")),
            ("Description", s("d")),
            ("SalesDetails", obj(vec![("AccountCode", s("200"))])),
            ("PurchaseDetails", obj(vec![("UnitPrice", s("1")), ("AccountCode", s("300"))])),
        ])
    );
    assert_eq!(
        item_update_body(None, None, o("2")),
        obj(vec![("PurchaseDetails", obj(vec![("UnitPrice", s("2"))]))])
    );
}

#[test]
fn small_update_bodies() {
    assert_eq!(expense_claim_update_body(o("AUTHORISED")), obj(vec![("Status", s("AUTHORISED"))]));
    assert_eq!(manual_journal_update_body(None), obj(vec![]));
    assert_eq!(quote_update_body(o("2025-12-31"), o("SENT")), obj(vec![("ExpiryDate", s("2025-12-31")), ("Status", s("SENT"))]));
    assert_eq!(tracking_name_body("Region".into()), obj(vec![("Name", s("Region"))]));
    assert_eq!(purchase_order_create_body(o("Supplier")).unwrap(), obj(vec![("Contact", obj(vec![("Name", s("Supplier"))]))]));
    assert_eq!(purchase_order_create_body(None).unwrap_err(), "Provide --file or --contact for purchase order creation");
    assert_eq!(
        tax_rate_create_body("GST".into(), "OUTPUT".into(), "15".into()),
        obj(vec![
            ("Name", s("GST")),
            ("TaxType", s("OUTPUT")),
            ("TaxComponents", JsonValue::Array(vec![obj(vec![("Name", s("GST")), ("Rate", s("15"))])])),
        ])
    );
    assert_eq!(tax_rate_update_body("GST".into(), None), obj(vec![("Name", s("GST"))]));
}

#[test]
fn inline_invoice_rejects_extra_commas() {
    assert_eq!(
        build_inline_invoice(o("Acme"), &vec!["Design, Logo,1,500".to_string()], None).unwrap_err(),
        "Line item format: \"Description,Quantity,UnitAmount\". Got: Design, Logo,1,500"
    );
    assert!(build_inline_invoice(o("Acme Corp"), &vec!["Consulting,10,150.00".to_string()], None).is_ok());
}

#[test]
fn json_bodies_from_text() {
    let v = parse_json_body("{\"Name\": \"Acme\", \"Qty\": 10, \"Paid\": false, \"Tags\": [null]}").unwrap();
    assert_eq!(
        v,
        obj(vec![
            ("Name", s("Acme")),
            ("Paid", JsonValue::Bool(false)),
            ("Qty", JsonValue::Number("10".to_string())),
            ("Tags", JsonValue::Array(vec![JsonValue::Null])),
        ])
    );
    assert!(parse_json_body("{oops").unwrap_err().starts_with("Invalid JSON: "));
}
