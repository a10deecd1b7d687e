//! Expense claims.

use vstd::prelude::*;
use crate::models::{ExpenseClaim, UserRef, short_id, short_id_text};
use crate::output::Tabular;
use crate::text::{is_trim_of, lemma_trim_is_trim_of, or_empty, strings, text_or_empty, trim, trim_text, views};
use vstd::string::*;
use crate::json::{Json, JsonValue, ObjectBuilder, member_views, opt_member};

verus! {

/// What can be done with expense claims.
pub enum ExpenseClaimCommands {
    /// List expense claims
    List,
    /// Get a specific expense claim
    Get {
        id: String,
    },
    /// Create an expense claim
    Create {
        file: String,
    },
    /// Update an expense claim
    Update {
        id: String,
        status: Option<String>,
        file: Option<String>,
    },
    /// View expense claim history
    History {
        id: String,
    },
}

/// The name of a claim's user as shown: first and last name separated by a
/// space, without surrounding whitespace; empty when there is no user.
pub open spec fn claim_user(user: Option<UserRef>) -> Seq<char> {
    match user {
        Some(u) => trim(or_empty(u.first_name) + " "@ + or_empty(u.last_name)),
        None => Seq::empty(),
    }
}

fn claim_user_text(user: &Option<UserRef>) -> (r: String)
    ensures
        r@ == claim_user(*user),
{
    match user {
        Some(u) => {
            let full = text_or_empty(&u.first_name).concat(" ").concat(
                text_or_empty(&u.last_name).as_str(),
            );
            trim_text(full.as_str())
        },
        None => String::new(),
    }
}

impl Tabular for ExpenseClaim {
    open spec fn columns() -> nat {
        5
    }

    fn headers() -> (r: Vec<String>)
        ensures
            views(r@) == seq!["ID"@, "User"@, "Status"@, "Total"@, "Due"@],
    {
        let r = strings(&["ID", "User", "Status", "Total", "Due"]);
        assert(views(r@) =~= seq!["ID"@, "User"@, "Status"@, "Total"@, "Due"@]);
        r
    }

    fn row(&self) -> (r: Vec<String>)
        ensures
            views(r@) == seq![
                short_id(self.expense_claim_id),
                claim_user(self.user),
                or_empty(self.status),
                or_empty(self.total),
                or_empty(self.amount_due),
            ],
    {
        let mut r: Vec<String> = Vec::new();
        r.push(short_id_text(&self.expense_claim_id));
        r.push(claim_user_text(&self.user));
        r.push(text_or_empty(&self.status));
        r.push(text_or_empty(&self.total));
        r.push(text_or_empty(&self.amount_due));
        assert(views(r@) =~= seq![
            short_id(self.expense_claim_id),
            claim_user(self.user),
            or_empty(self.status),
            or_empty(self.total),
            or_empty(self.amount_due),
        ]);
        r
    }
}

/// The body that updates an expense claim: the new status when given.
pub fn expense_claim_update_body(status: Option<String>) -> (body: JsonValue)
    ensures
        body@ == Json::Object(opt_member("Status"@, status)),
{
    let ghost s = status;
    let mut b = ObjectBuilder::new();
    b.add_opt_str("Status", status);
    assert(member_views(b.members@) =~= opt_member("Status"@, s));
    b.build()
}

/// A claim's user is shown as the first name, a space and the last name, with
/// exactly the surrounding whitespace removed.
pub proof fn lemma_claim_user_name(u: UserRef)
    ensures
        is_trim_of(claim_user(Some(u)), or_empty(u.first_name) + " "@ + or_empty(u.last_name)),
        claim_user(None) == Seq::<char>::empty(),
{
    lemma_trim_is_trim_of(or_empty(u.first_name) + " "@ + or_empty(u.last_name));
}

} // verus!
