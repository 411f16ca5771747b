//! Listings: the houses on offer.

use vstd::prelude::*;

verus! {

/// Whether a listing is shown to tenants. Listings are never removed; an
/// owner takes one off the market by unlisting it.
#[derive(Clone, Copy, Debug, PartialEq, Eq, Structural, PartialOrd, Ord, Hash)]
pub enum ListStatus {
    Listed,
    Unlisted,
}

impl Default for ListStatus {
    fn default() -> (status: Self)
        ensures
            status == ListStatus::Listed,
    {
        ListStatus::Listed
    }
}

/// One listing.
#[derive(Clone, Debug, PartialEq, Eq)]
pub struct Model {
    /// Number of the listing, unique among listings.
    pub hno: u32,
    pub hdistrict: String,
    pub haddr: String,
    /// What kind of house it is and how it is laid out.
    pub hlo: String,
    pub hflr: u32,
    pub harea: u32,
    pub hprice: u32,
    /// The landlord who owns the listing.
    pub hlandlore: u32,
    /// What the house is fitted with.
    pub hsuite: String,
    pub hunlisted: ListStatus,
}

} // verus!
