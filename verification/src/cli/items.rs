//! Items.

use vstd::prelude::*;
use vstd::string::*;
use crate::models::{Item, unit_price, unit_price_text};
use crate::output::Tabular;
use crate::text::{or_empty, strings, text_or_empty, views};
use crate::json::{Json, JsonValue, ObjectBuilder, member_views, object1, opt_member};

verus! {

/// What can be done with items.
pub enum ItemCommands {
    /// List items
    List {
        where_clause: Option<String>,
    },
    /// Get a specific item
    Get {
        id: String,
    },
    /// Create an item
    Create {
        code: String,
        name: String,
        description: Option<String>,
        sale_price: Option<String>,
        sale_account: Option<String>,
        purchase_price: Option<String>,
        purchase_account: Option<String>,
    },
    /// Update an item
    Update {
        id: String,
        name: Option<String>,
        sale_price: Option<String>,
        purchase_price: Option<String>,
    },
    /// Delete an item
    Delete {
        id: String,
    },
    /// View item history
    History {
        id: String,
    },
}

impl Tabular for Item {
    open spec fn columns() -> nat {
        5
    }

    fn headers() -> (r: Vec<String>)
        ensures
            views(r@) == seq!["Code"@, "Name"@, "Sale Price"@, "Purchase Price"@, "Description"@],
    {
        let r = strings(&["Code", "Name", "Sale Price", "Purchase Price", "Description"]);
        assert(views(r@) =~= seq!["Code"@, "Name"@, "Sale Price"@, "Purchase Price"@, "Description"@]);
        r
    }

    fn row(&self) -> (r: Vec<String>)
        ensures
            views(r@) == seq![
                or_empty(self.code),
                or_empty(self.name),
                unit_price(self.sales_details),
                unit_price(self.purchase_details),
                or_empty(self.description),
            ],
    {
        let mut r: Vec<String> = Vec::new();
        r.push(text_or_empty(&self.code));
        r.push(text_or_empty(&self.name));
        r.push(unit_price_text(&self.sales_details));
        r.push(unit_price_text(&self.purchase_details));
        r.push(text_or_empty(&self.description));
        assert(views(r@) =~= seq![
                or_empty(self.code),
                or_empty(self.name),
                unit_price(self.sales_details),
                unit_price(self.purchase_details),
                or_empty(self.description),
            ]);
        r
    }
}

/// The sale or purchase terms given on the command line: the price and account
/// that are given, or no member at all when neither is.
pub open spec fn terms_member(key: Seq<char>, price: Option<String>, account: Option<String>) -> Seq<
    (Seq<char>, Json),
> {
    if price is Some || account is Some {
        seq![
            (key, Json::Object(opt_member("UnitPrice"@, price) + opt_member("AccountCode"@, account))),
        ]
    } else {
        Seq::empty()
    }
}

fn add_terms(b: &mut ObjectBuilder, key: &str, price: Option<String>, account: Option<String>)
    ensures
        member_views(final(b).members@) == member_views(old(b).members@) + terms_member(
            key@,
            price,
            account,
        ),
{
    let ghost before = member_views(b.members@);
    if price.is_some() || account.is_some() {
        let ghost (p, a) = (price, account);
        let mut t = ObjectBuilder::new();
        t.add_opt_str("UnitPrice", price);
        t.add_opt_str("AccountCode", account);
        assert(member_views(t.members@) =~= opt_member("UnitPrice"@, p) + opt_member(
            "AccountCode"@,
            a,
        ));
        b.add(key, t.build());
        assert(member_views(b.members@) =~= before + terms_member(key@, p, a));
    } else {
        assert(member_views(b.members@) =~= before + terms_member(key@, price, account));
    }
}

/// The body that creates an item: its code and name, the description when given,
/// and sale and purchase terms when any part of them is given.
pub fn item_create_body(
    code: String,
    name: String,
    description: Option<String>,
    sale_price: Option<String>,
    sale_account: Option<String>,
    purchase_price: Option<String>,
    purchase_account: Option<String>,
) -> (body: JsonValue)
    ensures
        body@ == Json::Object(
            seq![("Code"@, Json::Str(code@)), ("Name"@, Json::Str(name@))] + opt_member(
                "Description"@,
                description,
            ) + terms_member("SalesDetails"@, sale_price, sale_account) + terms_member(
                "PurchaseDetails"@,
                purchase_price,
                purchase_account,
            ),
        ),
{
    let ghost (c, n, d) = (code, name, description);
    let ghost (sp, sa, pp, pa) = (sale_price, sale_account, purchase_price, purchase_account);
    let mut b = ObjectBuilder::new();
    b.add_str("Code", code);
    b.add_str("Name", name);
    b.add_opt_str("Description", description);
    add_terms(&mut b, "SalesDetails", sale_price, sale_account);
    add_terms(&mut b, "PurchaseDetails", purchase_price, purchase_account);
    assert(member_views(b.members@) =~= seq![("Code"@, Json::Str(c@)), ("Name"@, Json::Str(n@))]
        + opt_member("Description"@, d) + terms_member("SalesDetails"@, sp, sa) + terms_member(
        "PurchaseDetails"@,
        pp,
        pa,
    ));
    b.build()
}

/// The member `key: {"UnitPrice": price}` when a price is given.
pub open spec fn price_member(key: Seq<char>, price: Option<String>) -> Seq<(Seq<char>, Json)> {
    match price {
        Some(p) => seq![(key, Json::Object(seq![("UnitPrice"@, Json::Str(p@))]))],
        None => Seq::empty(),
    }
}

/// The members of the body that updates an item.
pub open spec fn item_update_members(
    name: Option<String>,
    sale_price: Option<String>,
    purchase_price: Option<String>,
) -> Seq<(Seq<char>, Json)> {
    opt_member("Name"@, name) + price_member("SalesDetails"@, sale_price) + price_member(
        "PurchaseDetails"@,
        purchase_price,
    )
}

/// Whether some member of `m` has the key `key`.
pub open spec fn has_key(m: Seq<(Seq<char>, Json)>, key: Seq<char>) -> bool {
    exists|k: int| 0 <= k < m.len() && (#[trigger] m[k]).0 == key
}

/// The body that updates an item: the name and prices that are given.
pub fn item_update_body(
    name: Option<String>,
    sale_price: Option<String>,
    purchase_price: Option<String>,
) -> (body: JsonValue)
    ensures
        body@ == Json::Object(item_update_members(name, sale_price, purchase_price)),
{
    let ghost (n, sp, pp) = (name, sale_price, purchase_price);
    let mut b = ObjectBuilder::new();
    b.add_opt_str("Name", name);
    match sale_price {
        Some(p) => b.add("SalesDetails", object1("UnitPrice", p)),
        None => {},
    }
    match purchase_price {
        Some(p) => b.add("PurchaseDetails", object1("UnitPrice", p)),
        None => {},
    }
    assert(member_views(b.members@) =~= opt_member("Name"@, n) + price_member("SalesDetails"@, sp)
        + price_member("PurchaseDetails"@, pp));
    b.build()
}

/// In an item update, a given sale price is sent as the unit price under
/// `SalesDetails` and a given purchase price under `PurchaseDetails`; a price that
/// is not given has no member, and the name is sent under `Name` exactly when given.
pub proof fn lemma_item_update_prices(
    name: Option<String>,
    sale_price: Option<String>,
    purchase_price: Option<String>,
)
    ensures
        ({
            let m = item_update_members(name, sale_price, purchase_price);
            &&& sale_price matches Some(s) ==> m.contains(
                ("SalesDetails"@, Json::Object(seq![("UnitPrice"@, Json::Str(s@))])),
            )
            &&& purchase_price matches Some(p) ==> m.contains(
                ("PurchaseDetails"@, Json::Object(seq![("UnitPrice"@, Json::Str(p@))])),
            )
            &&& sale_price is None ==> !has_key(m, "SalesDetails"@)
            &&& purchase_price is None ==> !has_key(m, "PurchaseDetails"@)
            &&& name matches Some(n) ==> m.contains(("Name"@, Json::Str(n@)))
            &&& name is None ==> !has_key(m, "Name"@)
        }),
{
    reveal_strlit("Name");
    reveal_strlit("SalesDetails");
    reveal_strlit("PurchaseDetails");
    let m = item_update_members(name, sale_price, purchase_price);
    let a = opt_member("Name"@, name);
    let b = price_member("SalesDetails"@, sale_price);
    let c = price_member("PurchaseDetails"@, purchase_price);
    assert(m == a + b + c);
    assert("Name"@.len() != "SalesDetails"@.len() && "Name"@.len() != "PurchaseDetails"@.len());
    assert("SalesDetails"@ != "PurchaseDetails"@) by {
        assert("SalesDetails"@[0] != "PurchaseDetails"@[0]);
    }
    if sale_price is Some {
        assert(m[a.len() as int] == b[0]);
    }
    if purchase_price is Some {
        assert(m[(a.len() + b.len()) as int] == c[0]);
    }
    if name is Some {
        assert(m[0] == a[0]);
    }
    assert forall|k: int| 0 <= k < m.len() implies {
        &&& (sale_price is None ==> (#[trigger] m[k]).0 != "SalesDetails"@)
        &&& (purchase_price is None ==> m[k].0 != "PurchaseDetails"@)
        &&& (name is None ==> m[k].0 != "Name"@)
    } by {
        if k < a.len() {
            assert(m[k] == a[k]);
        } else if k < a.len() + b.len() {
            assert(m[k] == b[k - a.len()]);
        } else {
            assert(m[k] == c[k - a.len() - b.len()]);
        }
    }
}

/// Sale or purchase terms are sent under the key they are built for, as one
/// member holding the price under `UnitPrice` and the account under
/// `AccountCode` exactly when each is given; with neither given there is no member.
pub proof fn lemma_terms_member_fields(
    key: Seq<char>,
    price: Option<String>,
    account: Option<String>,
)
    ensures
        (price is None && account is None) ==> terms_member(key, price, account).len() == 0,
        (price is Some || account is Some) ==> {
            let t = terms_member(key, price, account);
            &&& t.len() == 1
            &&& t[0].0 == key
            &&& t[0].1 matches Json::Object(f)
            &&& (price matches Some(p) ==> f.contains(("UnitPrice"@, Json::Str(p@))))
            &&& (account matches Some(a) ==> f.contains(("AccountCode"@, Json::Str(a@))))
            &&& (price is None ==> !has_key(f, "UnitPrice"@))
            &&& (account is None ==> !has_key(f, "AccountCode"@))
        },
{
    reveal_strlit("UnitPrice");
    reveal_strlit("AccountCode");
    assert("UnitPrice"@.len() != "AccountCode"@.len());
    let a = opt_member("UnitPrice"@, price);
    let b = opt_member("AccountCode"@, account);
    let f = a + b;
    if price is Some {
        assert(f[0] == a[0]);
    }
    if account is Some {
        assert(f[a.len() as int] == b[0]);
    }
    assert forall|k: int| 0 <= k < f.len() implies {
        &&& (price is None ==> (#[trigger] f[k]).0 != "UnitPrice"@)
        &&& (account is None ==> f[k].0 != "AccountCode"@)
    } by {
        if k < a.len() {
            assert(f[k] == a[k]);
        } else {
            assert(f[k] == b[k - a.len()]);
        }
    }
}

} // verus!
