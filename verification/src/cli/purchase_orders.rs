//! Purchase orders.

use vstd::prelude::*;
use crate::models::{PurchaseOrder, contact_name, contact_name_text};
use crate::output::Tabular;
use crate::text::{or_empty, strings, text_or_empty, views};
use vstd::string::*;
use crate::json::{Json, JsonValue, ObjectBuilder, member_views, object1};

verus! {

/// What can be done with purchase orders.
pub enum PurchaseOrderCommands {
    /// List purchase orders
    List {
        status: Option<String>,
        where_clause: Option<String>,
    },
    /// Get a specific purchase order
    Get {
        id: String,
    },
    /// Create a purchase order
    Create {
        contact: Option<String>,
        file: Option<String>,
    },
    /// View purchase order history
    History {
        id: String,
    },
}

impl Tabular for PurchaseOrder {
    open spec fn columns() -> nat {
        6
    }

    fn headers() -> (r: Vec<String>)
        ensures
            views(r@) == seq!["PO #"@, "Contact"@, "Status"@, "Total"@, "Date"@, "Delivery"@],
    {
        let r = strings(&["PO #", "Contact", "Status", "Total", "Date", "Delivery"]);
        assert(views(r@) =~= seq!["PO #"@, "Contact"@, "Status"@, "Total"@, "Date"@, "Delivery"@]);
        r
    }

    fn row(&self) -> (r: Vec<String>)
        ensures
            views(r@) == seq![
                or_empty(self.purchase_order_number),
                contact_name(self.contact),
                or_empty(self.status),
                or_empty(self.total),
                or_empty(self.date),
                or_empty(self.delivery_date),
            ],
    {
        let mut r: Vec<String> = Vec::new();
        r.push(text_or_empty(&self.purchase_order_number));
        r.push(contact_name_text(&self.contact));
        r.push(text_or_empty(&self.status));
        r.push(text_or_empty(&self.total));
        r.push(text_or_empty(&self.date));
        r.push(text_or_empty(&self.delivery_date));
        assert(views(r@) =~= seq![
                or_empty(self.purchase_order_number),
                contact_name(self.contact),
                or_empty(self.status),
                or_empty(self.total),
                or_empty(self.date),
                or_empty(self.delivery_date),
            ]);
        r
    }
}

/// The body that creates a purchase order for the named contact; without a
/// contact there is nothing to create it from.
pub fn purchase_order_create_body(contact: Option<String>) -> (r: Result<JsonValue, String>)
    ensures
        match contact {
            Some(c) => r matches Ok(body) && body@ == Json::Object(
                seq![("Contact"@, Json::Object(seq![("Name"@, Json::Str(c@))]))],
            ),
            None => r matches Err(m) && m@ == "Provide --file or --contact for purchase order creation"@,
        },
{
    match contact {
        Some(c) => {
            let ghost cv = c;
            let mut b = ObjectBuilder::new();
            b.add("Contact", object1("Name", c));
            assert(member_views(b.members@) =~= seq![
                ("Contact"@, Json::Object(seq![("Name"@, Json::Str(cv@))])),
            ]);
            Ok(b.build())
        },
        None => Err(String::from_str("Provide --file or --contact for purchase order creation")),
    }
}

} // verus!
