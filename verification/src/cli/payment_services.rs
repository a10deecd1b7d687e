//! Payment services.

use vstd::prelude::*;
use crate::models::{PaymentService, short_id, short_id_text};
use crate::output::Tabular;
use crate::text::{or_empty, strings, text_or_empty, views};

verus! {

/// What can be done with payment services.
pub enum PaymentServiceCommands {
    /// List payment services
    List,
}

impl Tabular for PaymentService {
    open spec fn columns() -> nat {
        3
    }

    fn headers() -> (r: Vec<String>)
        ensures
            views(r@) == seq!["ID"@, "Name"@, "Type"@],
    {
        let r = strings(&["ID", "Name", "Type"]);
        assert(views(r@) =~= seq!["ID"@, "Name"@, "Type"@]);
        r
    }

    fn row(&self) -> (r: Vec<String>)
        ensures
            views(r@) == seq![
                short_id(self.payment_service_id),
                or_empty(self.payment_service_name),
                or_empty(self.payment_service_type),
            ],
    {
        let mut r: Vec<String> = Vec::new();
        r.push(short_id_text(&self.payment_service_id));
        r.push(text_or_empty(&self.payment_service_name));
        r.push(text_or_empty(&self.payment_service_type));
        assert(views(r@) =~= seq![
                short_id(self.payment_service_id),
                or_empty(self.payment_service_name),
                or_empty(self.payment_service_type),
            ]);
        r
    }
}

} // verus!
