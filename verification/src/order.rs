//! Order records: one row per step of a lease negotiation.

use crate::datetime::DateTime;
use vstd::prelude::*;

verus! {

/// The kind of step a record stands for.
///
/// The variants are ordered by advancement: a request comes first, its
/// confirmation second, a request to cancel third and the confirmed
/// cancellation last. The most advanced record of a chain is its current state.
#[derive(Clone, Copy, Debug, PartialEq, Eq, Structural, PartialOrd, Ord, Hash)]
pub enum OrderType {
    LeaseRequest,
    LeaseConfirm,
    CancelRequest,
    CancelConfirm,
}

impl OrderType {
    /// Advancement rank as a number.
    pub open spec fn spec_rank(self) -> int {
        match self {
            OrderType::LeaseRequest => 1,
            OrderType::LeaseConfirm => 2,
            OrderType::CancelRequest => 3,
            OrderType::CancelConfirm => 4,
        }
    }

    /// Advancement rank: the number under which the kind is stored.
    pub fn rank(self) -> (r: u32)
        ensures
            r == self.spec_rank(),
    {
        match self {
            OrderType::LeaseRequest => 1,
            OrderType::LeaseConfirm => 2,
            OrderType::CancelRequest => 3,
            OrderType::CancelConfirm => 4,
        }
    }
}

/// One entry of the order table.
///
/// Entries are only ever added. All entries of one lease negotiation carry
/// the number of the request that opened it in `ostatus`, which makes them a
/// chain; the request itself carries its own number there.
#[derive(Clone, Copy, Debug, PartialEq, Eq)]
pub struct Model {
    /// Number of this entry, unique in the table.
    pub ono: u32,
    /// The listing.
    pub hno: u32,
    /// The landlord who owns the listing.
    pub hlandlore: u32,
    /// The tenant who asked for the lease.
    pub htenant: u32,
    /// When the entry was made.
    pub odate: DateTime,
    pub otype: OrderType,
    /// First moment of the lease term.
    pub ostart: DateTime,
    /// End of the lease term.
    pub oend: DateTime,
    /// Number of the request that opened the chain.
    pub ostatus: u32,
}

impl Model {
    /// Whether the entry confirms something: a lease or its cancellation.
    pub fn is_confirmed(&self) -> (r: bool)
        ensures
            r == (self.otype == OrderType::LeaseConfirm || self.otype
                == OrderType::CancelConfirm),
    {
        self.otype == OrderType::LeaseConfirm || self.otype == OrderType::CancelConfirm
    }
}

} // verus!
