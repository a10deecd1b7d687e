//! The organisation.

use vstd::prelude::*;

verus! {

/// What can be done with the organisation.
pub enum OrganisationCommands {
    /// Get organisation details
    Get,
}

} // verus!
