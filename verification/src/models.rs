//! The records the API returns, holding what the client reads of them. Amounts
//! and rates are held as the decimal text in which they are shown.

use vstd::prelude::*;
use crate::text::{first_chars, or_empty, take_chars, text_or_empty};

verus! {

/// A reference to a contact inside another record.
pub struct ContactRef {
    pub contact_id: Option<String>,
    pub name: Option<String>,
}

/// A reference to an account inside another record.
pub struct AccountRef {
    pub account_id: Option<String>,
    pub code: Option<String>,
    pub name: Option<String>,
}

/// A reference to an invoice inside another record.
pub struct InvoiceRef {
    pub invoice_id: Option<String>,
    pub invoice_number: Option<String>,
}

/// A reference to a user inside another record.
pub struct UserRef {
    pub user_id: Option<String>,
    pub first_name: Option<String>,
    pub last_name: Option<String>,
}

/// The sale or purchase terms of an item.
pub struct PriceDetails {
    pub unit_price: Option<String>,
    pub account_code: Option<String>,
}

/// One line of a manual journal.
pub struct JournalLine {
    pub line_amount: Option<String>,
    pub account_code: Option<String>,
    pub description: Option<String>,
}

/// A customer or supplier.
pub struct Contact {
    pub contact_id: Option<String>,
    pub name: Option<String>,
    pub email_address: Option<String>,
    pub contact_status: Option<String>,
    pub is_customer: Option<bool>,
    pub is_supplier: Option<bool>,
}

/// An account of the chart of accounts.
pub struct Account {
    pub account_id: Option<String>,
    pub code: Option<String>,
    pub name: Option<String>,
    pub account_type: Option<String>,
    pub class: Option<String>,
    pub status: Option<String>,
    pub tax_type: Option<String>,
}

/// A spend or receive money transaction on a bank account.
pub struct BankTransaction {
    pub bank_transaction_id: Option<String>,
    pub transaction_type: Option<String>,
    pub contact: Option<ContactRef>,
    pub bank_account: Option<AccountRef>,
    pub total: Option<String>,
    pub date: Option<String>,
    pub status: Option<String>,
}

/// A transfer between two bank accounts.
pub struct BankTransfer {
    pub bank_transfer_id: Option<String>,
    pub from_bank_account: Option<AccountRef>,
    pub to_bank_account: Option<AccountRef>,
    pub amount: Option<String>,
    pub date: Option<String>,
}

/// A payment of several invoices at once.
pub struct BatchPayment {
    pub batch_payment_id: Option<String>,
    pub account: Option<AccountRef>,
    pub status: Option<String>,
    pub total_amount: Option<String>,
    pub date: Option<String>,
}

/// A template for invoices and quotes.
pub struct BrandingTheme {
    pub branding_theme_id: Option<String>,
    pub name: Option<String>,
    pub theme_type: Option<String>,
}

/// A budget of the organisation.
pub struct Budget {
    pub budget_id: Option<String>,
    pub budget_type: Option<String>,
    pub description: Option<String>,
}

/// A named group of contacts.
pub struct ContactGroup {
    pub contact_group_id: Option<String>,
    pub name: Option<String>,
    pub status: Option<String>,
    pub contacts: Vec<ContactRef>,
}

/// A credit note, which reduces what is owed on an invoice.
pub struct CreditNote {
    pub credit_note_id: Option<String>,
    pub credit_note_number: Option<String>,
    pub credit_note_type: Option<String>,
    pub contact: Option<ContactRef>,
    pub status: Option<String>,
    pub total: Option<String>,
    pub remaining_credit: Option<String>,
    pub date: Option<String>,
}

/// An amount of a credit, overpayment or prepayment set against an invoice.
pub struct Allocation {
    pub allocation_id: Option<String>,
    pub invoice: Option<InvoiceRef>,
    pub amount: Option<String>,
    pub date: Option<String>,
}

/// A currency of the organisation.
pub struct Currency {
    pub code: Option<String>,
    pub description: Option<String>,
}

/// An employee of the organisation.
pub struct Employee {
    pub employee_id: Option<String>,
    pub first_name: Option<String>,
    pub last_name: Option<String>,
    pub status: Option<String>,
}

/// A claim that groups receipts for reimbursement.
pub struct ExpenseClaim {
    pub expense_claim_id: Option<String>,
    pub user: Option<UserRef>,
    pub status: Option<String>,
    pub total: Option<String>,
    pub amount_due: Option<String>,
}

/// A sales invoice or a bill.
pub struct Invoice {
    pub invoice_id: Option<String>,
    pub invoice_number: Option<String>,
    pub invoice_type: Option<String>,
    pub contact: Option<ContactRef>,
    pub status: Option<String>,
    pub total: Option<String>,
    pub amount_due: Option<String>,
    pub due_date: Option<String>,
}

/// An item sold or bought.
pub struct Item {
    pub item_id: Option<String>,
    pub code: Option<String>,
    pub name: Option<String>,
    pub description: Option<String>,
    pub sales_details: Option<PriceDetails>,
    pub purchase_details: Option<PriceDetails>,
}

/// A journal that the ledger records for a transaction.
pub struct Journal {
    pub journal_id: Option<String>,
    pub journal_number: Option<u64>,
    pub journal_date: Option<String>,
    pub source_type: Option<String>,
    pub reference: Option<String>,
}

/// A billable expense linked to a customer invoice.
pub struct LinkedTransaction {
    pub linked_transaction_id: Option<String>,
    pub transaction_type: Option<String>,
    pub status: Option<String>,
    pub source_transaction_id: Option<String>,
}

/// A journal entered by hand.
pub struct ManualJournal {
    pub manual_journal_id: Option<String>,
    pub narration: Option<String>,
    pub status: Option<String>,
    pub date: Option<String>,
    pub journal_lines: Vec<JournalLine>,
}

/// A payment in excess of what was owed.
pub struct Overpayment {
    pub overpayment_id: Option<String>,
    pub overpayment_type: Option<String>,
    pub contact: Option<ContactRef>,
    pub status: Option<String>,
    pub total: Option<String>,
    pub remaining_credit: Option<String>,
    pub date: Option<String>,
}

/// An online payment service.
pub struct PaymentService {
    pub payment_service_id: Option<String>,
    pub payment_service_name: Option<String>,
    pub payment_service_type: Option<String>,
}

/// A payment against an invoice or credit note.
pub struct Payment {
    pub payment_id: Option<String>,
    pub invoice: Option<InvoiceRef>,
    pub account: Option<AccountRef>,
    pub amount: Option<String>,
    pub date: Option<String>,
    pub status: Option<String>,
}

/// One entry of a record's change history.
pub struct HistoryRecord {
    pub date_utc: Option<String>,
    pub changes: Option<String>,
    pub user: Option<String>,
    pub details: Option<String>,
}

/// A payment made before an invoice is raised.
pub struct Prepayment {
    pub prepayment_id: Option<String>,
    pub prepayment_type: Option<String>,
    pub contact: Option<ContactRef>,
    pub status: Option<String>,
    pub total: Option<String>,
    pub remaining_credit: Option<String>,
    pub date: Option<String>,
}

/// An order to a supplier.
pub struct PurchaseOrder {
    pub purchase_order_id: Option<String>,
    pub purchase_order_number: Option<String>,
    pub contact: Option<ContactRef>,
    pub status: Option<String>,
    pub total: Option<String>,
    pub date: Option<String>,
    pub delivery_date: Option<String>,
}

/// A quote to a customer.
pub struct Quote {
    pub quote_id: Option<String>,
    pub quote_number: Option<String>,
    pub contact: Option<ContactRef>,
    pub status: Option<String>,
    pub total: Option<String>,
    pub date: Option<String>,
    pub expiry_date: Option<String>,
}

/// An expense receipt.
pub struct Receipt {
    pub receipt_id: Option<String>,
    pub receipt_number: Option<String>,
    pub contact: Option<ContactRef>,
    pub status: Option<String>,
    pub total: Option<String>,
    pub date: Option<String>,
}

/// A template for recurring invoices.
pub struct RepeatingInvoice {
    pub repeating_invoice_id: Option<String>,
    pub invoice_type: Option<String>,
    pub contact: Option<ContactRef>,
    pub status: Option<String>,
    pub total: Option<String>,
}

/// A tax rate.
pub struct TaxRate {
    pub name: Option<String>,
    pub tax_type: Option<String>,
    pub effective_rate: Option<String>,
    pub status: Option<String>,
}

/// A tracking category, such as a region or department.
pub struct TrackingCategory {
    pub tracking_category_id: Option<String>,
    pub name: Option<String>,
    pub status: Option<String>,
    pub options: Option<Vec<TrackingOption>>,
}

/// One option of a tracking category.
pub struct TrackingOption {
    pub tracking_option_id: Option<String>,
    pub name: Option<String>,
    pub status: Option<String>,
}

/// A user with access to the organisation.
pub struct User {
    pub user_id: Option<String>,
    pub email_address: Option<String>,
    pub first_name: Option<String>,
    pub last_name: Option<String>,
    pub organisation_role: Option<String>,
}

/// The first eight characters of an optional identifier, as tables show it.
pub open spec fn short_id(id: Option<String>) -> Seq<char> {
    first_chars(or_empty(id), 8)
}

/// The first eight characters of an optional identifier.
pub fn short_id_text(id: &Option<String>) -> (r: String)
    ensures
        r@ == short_id(*id),
{
    match id {
        Some(s) => take_chars(s.as_str(), 8),
        None => String::new(),
    }
}

/// The name of a referenced contact, empty when absent.
pub open spec fn contact_name(c: Option<ContactRef>) -> Seq<char> {
    match c {
        Some(c) => or_empty(c.name),
        None => Seq::empty(),
    }
}

/// The contact shown for a record is the referenced contact's name: empty when
/// there is no contact or it has no name, and the same for two references with
/// the same name, whatever their ids.
pub proof fn lemma_contact_column_is_name(c: ContactRef, d: ContactRef)
    ensures
        contact_name(None) == Seq::<char>::empty(),
        c.name matches Some(n) ==> contact_name(Some(c)) == n@,
        c.name is None ==> contact_name(Some(c)) == Seq::<char>::empty(),
        c.name == d.name ==> contact_name(Some(c)) == contact_name(Some(d)),
{
}

/// The name of a referenced contact, empty when absent.
pub fn contact_name_text(c: &Option<ContactRef>) -> (r: String)
    ensures
        r@ == contact_name(*c),
{
    match c {
        Some(c) => text_or_empty(&c.name),
        None => String::new(),
    }
}

/// The code of a referenced account, empty when absent.
pub open spec fn account_code(a: Option<AccountRef>) -> Seq<char> {
    match a {
        Some(a) => or_empty(a.code),
        None => Seq::empty(),
    }
}

/// The code of a referenced account, empty when absent.
pub fn account_code_text(a: &Option<AccountRef>) -> (r: String)
    ensures
        r@ == account_code(*a),
{
    match a {
        Some(a) => text_or_empty(&a.code),
        None => String::new(),
    }
}

/// The name of a referenced account, empty when absent.
pub open spec fn account_name(a: Option<AccountRef>) -> Seq<char> {
    match a {
        Some(a) => or_empty(a.name),
        None => Seq::empty(),
    }
}

/// The name of a referenced account, empty when absent.
pub fn account_name_text(a: &Option<AccountRef>) -> (r: String)
    ensures
        r@ == account_name(*a),
{
    match a {
        Some(a) => text_or_empty(&a.name),
        None => String::new(),
    }
}

/// The number of a referenced invoice, empty when absent.
pub open spec fn invoice_number(i: Option<InvoiceRef>) -> Seq<char> {
    match i {
        Some(i) => or_empty(i.invoice_number),
        None => Seq::empty(),
    }
}

/// The number of a referenced invoice, empty when absent.
pub fn invoice_number_text(i: &Option<InvoiceRef>) -> (r: String)
    ensures
        r@ == invoice_number(*i),
{
    match i {
        Some(i) => text_or_empty(&i.invoice_number),
        None => String::new(),
    }
}

/// The unit price of optional price terms, empty when absent.
pub open spec fn unit_price(d: Option<PriceDetails>) -> Seq<char> {
    match d {
        Some(d) => or_empty(d.unit_price),
        None => Seq::empty(),
    }
}

/// The unit price of optional price terms, empty when absent.
pub fn unit_price_text(d: &Option<PriceDetails>) -> (r: String)
    ensures
        r@ == unit_price(*d),
{
    match d {
        Some(d) => text_or_empty(&d.unit_price),
        None => String::new(),
    }
}

/// One cell of a report row.
pub struct ReportCell {
    pub value: Option<String>,
}

/// A row of a report: a header, a section with nested rows, or a data row.
pub struct ReportRow {
    pub row_type: Option<String>,
    pub title: Option<String>,
    pub cells: Vec<ReportCell>,
    pub rows: Vec<ReportRow>,
}

/// A financial report.
pub struct Report {
    pub report_id: Option<String>,
    pub report_name: Option<String>,
    pub report_type: Option<String>,
    pub report_date: Option<String>,
    pub updated_date_utc: Option<String>,
    pub rows: Vec<ReportRow>,
}

/// The other reference columns show the field they are named after, whatever the
/// reference's id or other fields: an account's code or name, an invoice's
/// number, the unit price of price terms; each empty when absent.
pub proof fn lemma_reference_columns(a: AccountRef, b: AccountRef, i: InvoiceRef, d: PriceDetails)
    ensures
        account_code(Some(a)) == (match a.code {
            Some(c) => c@,
            None => Seq::<char>::empty(),
        }),
        account_name(Some(a)) == (match a.name {
            Some(n) => n@,
            None => Seq::<char>::empty(),
        }),
        a.code == b.code ==> account_code(Some(a)) == account_code(Some(b)),
        a.name == b.name ==> account_name(Some(a)) == account_name(Some(b)),
        account_code(None) == Seq::<char>::empty() && account_name(None) == Seq::<char>::empty(),
        invoice_number(Some(i)) == (match i.invoice_number {
            Some(n) => n@,
            None => Seq::<char>::empty(),
        }),
        invoice_number(None) == Seq::<char>::empty(),
        unit_price(Some(d)) == (match d.unit_price {
            Some(p) => p@,
            None => Seq::<char>::empty(),
        }),
        unit_price(None) == Seq::<char>::empty(),
{
}

/// A short id is the id's first eight characters, or the whole id when shorter,
/// and empty when there is no id.
pub proof fn lemma_short_id_prefix(id: Option<String>)
    ensures
        id matches Some(s) ==> {
            &&& short_id(id).len() == if s@.len() < 8 {
                s@.len()
            } else {
                8
            }
            &&& forall|k: int| 0 <= k < short_id(id).len() ==> #[trigger] short_id(id)[k] == s@[k]
        },
        id is None ==> short_id(id) == Seq::<char>::empty(),
{
}

} // verus!
