//! Transfers between bank accounts.

use vstd::prelude::*;
use crate::models::{BankTransfer, account_name, account_name_text, short_id, short_id_text};
use crate::output::Tabular;
use crate::text::{or_empty, strings, text_or_empty, views};
use crate::json::{Json, JsonValue, ObjectBuilder, member_views, object1};

verus! {

/// What can be done with bank transfers.
pub enum BankTransferCommands {
    /// List bank transfers
    List,
    /// Get a specific bank transfer
    Get {
        id: String,
    },
    /// Create a bank transfer
    Create {
        from_account: String,
        to_account: String,
        amount: String,
    },
}

impl Tabular for BankTransfer {
    open spec fn columns() -> nat {
        5
    }

    fn headers() -> (r: Vec<String>)
        ensures
            views(r@) == seq!["ID"@, "From"@, "To"@, "Amount"@, "Date"@],
    {
        let r = strings(&["ID", "From", "To", "Amount", "Date"]);
        assert(views(r@) =~= seq!["ID"@, "From"@, "To"@, "Amount"@, "Date"@]);
        r
    }

    fn row(&self) -> (r: Vec<String>)
        ensures
            views(r@) == seq![
                short_id(self.bank_transfer_id),
                account_name(self.from_bank_account),
                account_name(self.to_bank_account),
                or_empty(self.amount),
                or_empty(self.date),
            ],
    {
        let mut r: Vec<String> = Vec::new();
        r.push(short_id_text(&self.bank_transfer_id));
        r.push(account_name_text(&self.from_bank_account));
        r.push(account_name_text(&self.to_bank_account));
        r.push(text_or_empty(&self.amount));
        r.push(text_or_empty(&self.date));
        assert(views(r@) =~= seq![
                short_id(self.bank_transfer_id),
                account_name(self.from_bank_account),
                account_name(self.to_bank_account),
                or_empty(self.amount),
                or_empty(self.date),
            ]);
        r
    }
}

/// The body that transfers `amount` from one bank account to another.
pub fn bank_transfer_body(from_account: String, to_account: String, amount: String) -> (body:
    JsonValue)
    ensures
        body@ == Json::Object(
            seq![
                ("FromBankAccount"@, Json::Object(seq![("AccountID"@, Json::Str(from_account@))])),
                ("ToBankAccount"@, Json::Object(seq![("AccountID"@, Json::Str(to_account@))])),
                ("Amount"@, Json::Str(amount@)),
            ],
        ),
{
    let ghost (f, t, a) = (from_account, to_account, amount);
    let mut b = ObjectBuilder::new();
    b.add("FromBankAccount", object1("AccountID", from_account));
    b.add("ToBankAccount", object1("AccountID", to_account));
    b.add_str("Amount", amount);
    assert(member_views(b.members@) =~= seq![
        ("FromBankAccount"@, Json::Object(seq![("AccountID"@, Json::Str(f@))])),
        ("ToBankAccount"@, Json::Object(seq![("AccountID"@, Json::Str(t@))])),
        ("Amount"@, Json::Str(a@)),
    ]);
    b.build()
}

} // verus!
