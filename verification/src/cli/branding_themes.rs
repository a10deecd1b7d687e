//! Branding themes.

use vstd::prelude::*;
use crate::models::{BrandingTheme, short_id, short_id_text};
use crate::output::Tabular;
use crate::text::{or_empty, strings, text_or_empty, views};

verus! {

/// What can be done with branding themes.
pub enum BrandingThemeCommands {
    /// List branding themes
    List,
    /// Get a specific branding theme
    Get {
        id: String,
    },
}

impl Tabular for BrandingTheme {
    open spec fn columns() -> nat {
        3
    }

    fn headers() -> (r: Vec<String>)
        ensures
            views(r@) == seq!["ID"@, "Name"@, "Type"@],
    {
        let r = strings(&["ID", "Name", "Type"]);
        assert(views(r@) =~= seq!["ID"@, "Name"@, "Type"@]);
        r
    }

    fn row(&self) -> (r: Vec<String>)
        ensures
            views(r@) == seq![
                short_id(self.branding_theme_id),
                or_empty(self.name),
                or_empty(self.theme_type),
            ],
    {
        let mut r: Vec<String> = Vec::new();
        r.push(short_id_text(&self.branding_theme_id));
        r.push(text_or_empty(&self.name));
        r.push(text_or_empty(&self.theme_type));
        assert(views(r@) =~= seq![
                short_id(self.branding_theme_id),
                or_empty(self.name),
                or_empty(self.theme_type),
            ]);
        r
    }
}

} // verus!
