//! The order ledger: what state a lease negotiation is in, whether a listing
//! can still be asked for, and which entry comes next.

use crate::datetime::DateTime;
use crate::decimal::append_decimal;
use crate::decimal::decimal;
use crate::errors::MXFError;
use crate::order::Model;
use crate::order::OrderType;
use std::collections::HashMap;
use vstd::prelude::*;
use vstd::string::StringExecFns;

verus! {

broadcast use vstd::std_specs::hash::group_hash_axioms;

/// No entry of the same chain in `orders` is more advanced than `order`.
pub open spec fn is_latest(orders: Seq<Model>, order: Model) -> bool {
    forall|j: int|
        0 <= j < orders.len() && #[trigger] orders[j].ostatus == order.ostatus
            ==> orders[j].otype.spec_rank() <= order.otype.spec_rank()
}

/// The entries of `orders` that show the current state of their chain, in
/// the order in which they stand in `orders`.
pub open spec fn latest_entries(orders: Seq<Model>) -> Seq<Model> {
    orders.filter(|order: Model| is_latest(orders, order))
}

/// `best` maps each chain of the first `n` entries to its most advanced
/// kind among them.
spec fn tracks_latest(best: Map<u32, OrderType>, orders: Seq<Model>, n: int) -> bool {
    &&& forall|j: int|
        0 <= j < n ==> best.contains_key(#[trigger] orders[j].ostatus)
            && orders[j].otype.spec_rank() <= best[orders[j].ostatus].spec_rank()
    &&& forall|key: u32| #[trigger]
        best.contains_key(key) ==> exists|j: int|
            0 <= j < n && #[trigger] orders[j].ostatus == key && orders[j].otype == best[key]
}

/// The entries of `orders` that concern the listing `hno`, in their order.
pub open spec fn listing_entries(orders: Seq<Model>, hno: u32) -> Seq<Model> {
    orders.filter(|order: Model| order.hno == hno)
}

/// Some chain of the listing `hno` currently stands at `kind`.
pub open spec fn stands_at(orders: Seq<Model>, hno: u32, kind: OrderType) -> bool {
    let latest = latest_entries(listing_entries(orders, hno));
    exists|i: int| 0 <= i < latest.len() && (#[trigger] latest[i]).otype == kind
}

/// The chain `chain` of the listing `hno` has an entry of kind `kind` and
/// none that is more advanced.
pub open spec fn chain_stands_at(orders: Seq<Model>, hno: u32, chain: u32, kind: OrderType) -> bool {
    &&& exists|i: int|
        0 <= i < orders.len() && (#[trigger] orders[i]).hno == hno && orders[i].ostatus == chain
            && orders[i].otype == kind
    &&& forall|j: int|
        0 <= j < orders.len() && (#[trigger] orders[j]).hno == hno && orders[j].ostatus == chain
            ==> orders[j].otype.spec_rank() <= kind.spec_rank()
}

/// A listing stands at a kind exactly when one of its chains has an entry
/// of that kind and none that is more advanced. So a listing with a chain
/// whose last word is a confirmed lease stands at the confirmed lease, whatever
/// its other chains hold, and a listing all of whose chains went on to a
/// cancellation or stayed at the request does not.
pub proof fn lemma_stands_at(orders: Seq<Model>, hno: u32, kind: OrderType)
    ensures
        stands_at(orders, hno, kind) <==> exists|chain: u32|
            chain_stands_at(orders, hno, chain, kind),
{
    broadcast use {
        Seq::lemma_filter_pred,
        Seq::lemma_filter_contains,
        Seq::lemma_filter_contains_rev,
    };

    let of_listing = |order: Model| order.hno == hno;
    let listing = orders.filter(of_listing);
    let current = |order: Model| is_latest(listing, order);
    let latest = listing.filter(current);
    assert(listing == listing_entries(orders, hno));
    assert(latest == latest_entries(listing));
    if stands_at(orders, hno, kind) {
        let i = choose|i: int| 0 <= i < latest.len() && (#[trigger] latest[i]).otype == kind;
        let order = latest[i];
        assert(current(order));
        assert(latest.contains(order));
        assert(listing.contains(order));
        let m = choose|m: int| 0 <= m < listing.len() && listing[m] == order;
        assert(of_listing(listing[m]));
        assert(orders.contains(order));
        let k = choose|k: int| 0 <= k < orders.len() && orders[k] == order;
        assert(orders[k].hno == hno && orders[k].ostatus == order.ostatus && orders[k].otype
            == kind);
        assert forall|j: int|
            0 <= j < orders.len() && (#[trigger] orders[j]).hno == hno && orders[j].ostatus
                == order.ostatus implies orders[j].otype.spec_rank() <= kind.spec_rank() by {
            assert(of_listing(orders[j]));
            assert(listing.contains(orders[j]));
            let n = choose|n: int| 0 <= n < listing.len() && listing[n] == orders[j];
            assert(listing[n].ostatus == order.ostatus);
        }
        assert(chain_stands_at(orders, hno, order.ostatus, kind));
    }
    if exists|chain: u32| chain_stands_at(orders, hno, chain, kind) {
        let chain = choose|chain: u32| chain_stands_at(orders, hno, chain, kind);
        let i = choose|i: int|
            0 <= i < orders.len() && (#[trigger] orders[i]).hno == hno && orders[i].ostatus
                == chain && orders[i].otype == kind;
        let order = orders[i];
        assert(of_listing(orders[i]));
        assert(listing.contains(order));
        let m = choose|m: int| 0 <= m < listing.len() && listing[m] == order;
        assert forall|j: int|
            0 <= j < listing.len() && #[trigger] listing[j].ostatus
                == order.ostatus implies listing[j].otype.spec_rank()
            <= order.otype.spec_rank() by {
            assert(of_listing(listing[j]));
            assert(listing.contains(listing[j]));
            assert(orders.contains(listing[j]));
            let n = choose|n: int| 0 <= n < orders.len() && orders[n] == listing[j];
            assert(orders[n].hno == hno);
        }
        assert(current(listing[m]));
        assert(latest.contains(listing[m]));
        let at = choose|at: int| 0 <= at < latest.len() && latest[at] == order;
        assert(latest[at].otype == kind);
    }
}

/// What one more entry means for a chain: a chain that the entry does not
/// belong to stands where it stood; the entry's own chain stands at `kind`
/// afterwards exactly when the entry is of that kind and nothing in the chain
/// was more advanced, or the chain stood there and the entry is not more
/// advanced.
pub proof fn lemma_chain_after_entry(
    orders: Seq<Model>,
    entry: Model,
    hno: u32,
    chain: u32,
    kind: OrderType,
)
    ensures
        entry.hno != hno || entry.ostatus != chain ==> (chain_stands_at(
            orders.push(entry),
            hno,
            chain,
            kind,
        ) <==> chain_stands_at(orders, hno, chain, kind)),
        entry.hno == hno && entry.ostatus == chain ==> (chain_stands_at(
            orders.push(entry),
            hno,
            chain,
            kind,
        ) <==> (entry.otype == kind && forall|j: int|
            0 <= j < orders.len() && (#[trigger] orders[j]).hno == hno && orders[j].ostatus
                == chain ==> orders[j].otype.spec_rank() <= kind.spec_rank()) || (chain_stands_at(
            orders,
            hno,
            chain,
            kind,
        ) && entry.otype.spec_rank() <= kind.spec_rank())),
{
    let after = orders.push(entry);
    let last = orders.len() as int;
    assert(after[last] == entry);
    assert forall|j: int| 0 <= j < orders.len() implies #[trigger] after[j] == orders[j] by {}
    let in_chain = |order: Model| order.hno == hno && order.ostatus == chain;
    let bounded_before = forall|j: int|
        0 <= j < orders.len() && (#[trigger] orders[j]).hno == hno && orders[j].ostatus == chain
            ==> orders[j].otype.spec_rank() <= kind.spec_rank();
    let bounded_after = forall|j: int|
        0 <= j < after.len() && (#[trigger] after[j]).hno == hno && after[j].ostatus == chain
            ==> after[j].otype.spec_rank() <= kind.spec_rank();
    if bounded_after {
        assert forall|j: int|
            0 <= j < orders.len() && (#[trigger] orders[j]).hno == hno && orders[j].ostatus
                == chain implies orders[j].otype.spec_rank() <= kind.spec_rank() by {
            assert(after[j] == orders[j]);
        }
        if in_chain(entry) {
            assert(after[last].otype.spec_rank() <= kind.spec_rank());
        }
    }
    if bounded_before && (!in_chain(entry) || entry.otype.spec_rank() <= kind.spec_rank()) {
        assert forall|j: int|
            0 <= j < after.len() && (#[trigger] after[j]).hno == hno && after[j].ostatus
                == chain implies after[j].otype.spec_rank() <= kind.spec_rank() by {
            if j < orders.len() {
                assert(after[j] == orders[j]);
            }
        }
    }
    if chain_stands_at(after, hno, chain, kind) {
        let i = choose|i: int|
            0 <= i < after.len() && (#[trigger] after[i]).hno == hno && after[i].ostatus == chain
                && after[i].otype == kind;
        if i < orders.len() {
            assert(orders[i] == after[i]);
            assert(chain_stands_at(orders, hno, chain, kind));
        }
    }
    if chain_stands_at(orders, hno, chain, kind) {
        let i = choose|i: int|
            0 <= i < orders.len() && (#[trigger] orders[i]).hno == hno && orders[i].ostatus
                == chain && orders[i].otype == kind;
        assert(after[i] == orders[i]);
    }
}

/// A request that opens a chain of its own: its listing then has a chain
/// that stands at the request, and no listing stands at any other kind that
/// it did not stand at before, or the other way round. So under the rule that
/// a confirmation blocks, filing a request takes no listing off the market,
/// and under the rule that a request blocks, it takes its own listing off.
pub proof fn lemma_request_opens_chain(
    orders: Seq<Model>,
    request: Model,
    hno: u32,
    kind: OrderType,
)
    requires
        request.otype == OrderType::LeaseRequest,
        forall|i: int| 0 <= i < orders.len() ==> (#[trigger] orders[i]).ostatus != request.ostatus,
    ensures
        stands_at(orders.push(request), request.hno, OrderType::LeaseRequest),
        kind != OrderType::LeaseRequest ==> (stands_at(orders.push(request), hno, kind)
            <==> stands_at(orders, hno, kind)),
{
    let after = orders.push(request);
    lemma_stands_at(after, request.hno, OrderType::LeaseRequest);
    lemma_chain_after_entry(
        orders,
        request,
        request.hno,
        request.ostatus,
        OrderType::LeaseRequest,
    );
    assert(chain_stands_at(after, request.hno, request.ostatus, OrderType::LeaseRequest));
    if kind != OrderType::LeaseRequest {
        lemma_stands_at(after, hno, kind);
        lemma_stands_at(orders, hno, kind);
        assert forall|chain: u32|
            chain_stands_at(after, hno, chain, kind) <==> chain_stands_at(
                orders,
                hno,
                chain,
                kind,
            ) by {
            lemma_chain_after_entry(orders, request, hno, chain, kind);
        }
    }
}

/// A confirmation of a chain in which nothing is more advanced than a
/// confirmed lease: afterwards the chain stands at the confirmed lease and no
/// longer at the request. So under the rule that a confirmation blocks, the
/// listing is taken from then on, and under the rule that a request blocks,
/// this chain holds it back no longer.
pub proof fn lemma_confirmation_advances_chain(orders: Seq<Model>, confirmation: Model)
    requires
        confirmation.otype == OrderType::LeaseConfirm,
        forall|j: int|
            0 <= j < orders.len() && (#[trigger] orders[j]).hno == confirmation.hno
                && orders[j].ostatus == confirmation.ostatus ==> orders[j].otype.spec_rank()
                <= OrderType::LeaseConfirm.spec_rank(),
    ensures
        stands_at(orders.push(confirmation), confirmation.hno, OrderType::LeaseConfirm),
        !chain_stands_at(
            orders.push(confirmation),
            confirmation.hno,
            confirmation.ostatus,
            OrderType::LeaseRequest,
        ),
{
    let after = orders.push(confirmation);
    lemma_stands_at(after, confirmation.hno, OrderType::LeaseConfirm);
    lemma_chain_after_entry(
        orders,
        confirmation,
        confirmation.hno,
        confirmation.ostatus,
        OrderType::LeaseConfirm,
    );
    assert(chain_stands_at(
        after,
        confirmation.hno,
        confirmation.ostatus,
        OrderType::LeaseConfirm,
    ));
    lemma_chain_after_entry(
        orders,
        confirmation,
        confirmation.hno,
        confirmation.ostatus,
        OrderType::LeaseRequest,
    );
}

/// The number after `last`, the highest number in use; numbering starts at
/// one. There is none once the numbers are used up.
pub open spec fn next_number(last: Option<u32>) -> Option<u32> {
    match last {
        None => Some(1u32),
        Some(n) => if n < u32::MAX {
            Some((n + 1) as u32)
        } else {
            None
        },
    }
}

/// The highest entry number in `orders`, if there is any entry.
pub open spec fn highest_number(orders: Seq<Model>) -> Option<u32>
    decreases orders.len(),
{
    if orders.len() == 0 {
        None
    } else {
        match highest_number(orders.drop_last()) {
            Some(highest) => if highest >= orders.last().ono {
                Some(highest)
            } else {
                Some(orders.last().ono)
            },
            None => Some(orders.last().ono),
        }
    }
}

/// The highest number is the number of some entry and no entry has a higher
/// one; only an empty table has none.
pub proof fn lemma_highest_number(orders: Seq<Model>)
    ensures
        highest_number(orders) is None <==> orders.len() == 0,
        highest_number(orders) matches Some(highest) ==> (forall|i: int|
            0 <= i < orders.len() ==> (#[trigger] orders[i]).ono <= highest) && (exists|i: int|
            0 <= i < orders.len() && (#[trigger] orders[i]).ono == highest),
    decreases orders.len(),
{
    if orders.len() > 0 {
        let rest = orders.drop_last();
        lemma_highest_number(rest);
        let highest = highest_number(orders)->0;
        assert forall|i: int| 0 <= i < orders.len() implies (#[trigger] orders[i]).ono
            <= highest by {
            if i < rest.len() {
                assert(rest[i] == orders[i]);
            }
        }
        if highest == orders.last().ono {
            assert(orders[orders.len() - 1].ono == highest);
        } else {
            let i = choose|i: int| 0 <= i < rest.len() && (#[trigger] rest[i]).ono == highest;
            assert(orders[i].ono == highest);
        }
    }
}

/// The next number is new: where `last` is the highest number among
/// `orders`, or nothing for an empty table, no entry carries the number after
/// it, and so none belongs to the chain that a request under that number
/// opens.
pub proof fn lemma_next_number_is_new(orders: Seq<Model>, last: Option<u32>, next: u32)
    requires
        last is None ==> orders.len() == 0,
        last matches Some(highest) ==> forall|i: int|
            0 <= i < orders.len() ==> (#[trigger] orders[i]).ono <= highest,
        next_number(last) == Some(next),
    ensures
        forall|i: int| 0 <= i < orders.len() ==> (#[trigger] orders[i]).ono != next,
{
}

/// Which state of a chain keeps its listing from being asked for again.
///
/// Two rules have been in use and they differ in substance. Under
/// `ConfirmBlocks`, the rule this ledger goes by unless told otherwise, a
/// listing is taken once a lease on it has been confirmed, and open requests
/// leave it free for other tenants. Under `RequestBlocks`, the older rule, a
/// listing is held back while a request on it waits for its answer, and a
/// confirmation releases it.
#[derive(Clone, Copy, Debug, PartialEq, Eq, Structural)]
pub enum AvailabilityRule {
    ConfirmBlocks,
    RequestBlocks,
}

impl AvailabilityRule {
    /// The kind of entry that, as the current state of a chain, blocks the
    /// listing.
    pub open spec fn spec_blocking(self) -> OrderType {
        match self {
            AvailabilityRule::ConfirmBlocks => OrderType::LeaseConfirm,
            AvailabilityRule::RequestBlocks => OrderType::LeaseRequest,
        }
    }

    pub fn blocking(self) -> (kind: OrderType)
        ensures
            kind == self.spec_blocking(),
    {
        match self {
            AvailabilityRule::ConfirmBlocks => OrderType::LeaseConfirm,
            AvailabilityRule::RequestBlocks => OrderType::LeaseRequest,
        }
    }
}

/// The lease request that `place_order_by_ono` files: it opens a chain of its
/// own and runs from `now` to `end`.
pub open spec fn lease_request(
    ono: u32,
    hno: u32,
    hlandlore: u32,
    htenant: u32,
    now: DateTime,
    end: DateTime,
) -> Model {
    Model {
        ono,
        hno,
        hlandlore,
        htenant,
        odate: now,
        otype: OrderType::LeaseRequest,
        ostart: now,
        oend: end,
        ostatus: ono,
    }
}

/// The confirmation of `order`'s chain under the number `ono`, made at `now`:
/// it stays in the chain and carries the lease term forward.
pub open spec fn lease_confirmation(order: Model, ono: u32, now: DateTime) -> Model {
    Model {
        ono,
        hno: order.hno,
        hlandlore: order.hlandlore,
        htenant: order.htenant,
        odate: now,
        otype: OrderType::LeaseConfirm,
        ostart: order.ostart,
        oend: order.oend,
        ostatus: order.ostatus,
    }
}

/// The ledger's decisions. It holds no entries itself: the caller reads them
/// from the store, asks, and writes the entry it is handed.
pub struct OrderService {
    rule: AvailabilityRule,
}

impl OrderService {
    /// The rule this ledger decides availability by.
    pub closed spec fn spec_rule(&self) -> AvailabilityRule {
        self.rule
    }

    /// A ledger under the rule that a confirmed lease blocks its listing.
    pub fn init() -> (service: Self)
        ensures
            service.spec_rule() == AvailabilityRule::ConfirmBlocks,
    {
        OrderService { rule: AvailabilityRule::ConfirmBlocks }
    }

    /// A ledger under the given rule.
    pub fn with_rule(rule: AvailabilityRule) -> (service: Self)
        ensures
            service.spec_rule() == rule,
    {
        OrderService { rule }
    }

    pub fn rule(&self) -> (rule: AvailabilityRule)
        ensures
            rule == self.spec_rule(),
    {
        self.rule
    }

    /// The entries of `orders` that concern the listing `hno`.
    pub fn get_orders_by_hno(&self, orders: &Vec<Model>, hno: u32) -> (found: Vec<Model>)
        ensures
            found@ == listing_entries(orders@, hno),
    {
        let mut found: Vec<Model> = Vec::new();
        let mut i: usize = 0;
        while i < orders.len()
            invariant
                i <= orders.len(),
                found@ == orders@.take(i as int).filter(|order: Model| order.hno == hno),
            decreases orders.len() - i,
        {
            proof {
                reveal(Seq::filter);
                assert(orders@.take(i + 1).drop_last() =~= orders@.take(i as int));
            }
            if orders[i].hno == hno {
                found.push(orders[i]);
            }
            i += 1;
        }
        proof {
            assert(orders@.take(orders.len() as int) =~= orders@);
        }
        found
    }

    /// The highest entry number of a table held in memory.
    pub fn get_last_ono(&self, orders: &Vec<Model>) -> (last: Option<u32>)
        ensures
            last == highest_number(orders@),
    {
        let mut last: Option<u32> = None;
        let mut i: usize = 0;
        while i < orders.len()
            invariant
                i <= orders.len(),
                last == highest_number(orders@.take(i as int)),
            decreases orders.len() - i,
        {
            proof {
                assert(orders@.take(i + 1).drop_last() =~= orders@.take(i as int));
            }
            last = match last {
                Some(highest) => if highest >= orders[i].ono {
                    Some(highest)
                } else {
                    Some(orders[i].ono)
                },
                None => Some(orders[i].ono),
            };
            i += 1;
        }
        proof {
            assert(orders@.take(orders.len() as int) =~= orders@);
        }
        last
    }

    /// The number for the next entry, given the highest number in the table,
    /// if the table has any entry.
    pub fn get_next_ono(&self, last_ono: Option<u32>) -> (r: Result<u32, MXFError>)
        ensures
            match next_number(last_ono) {
                Some(n) => r == Ok::<u32, MXFError>(n),
                None => r matches Err(MXFError::UnknownError(text)) && text@
                    == "order numbers are used up"@,
            },
    {
        match last_ono {
            None => Ok(1),
            Some(n) => {
                if n < u32::MAX {
                    Ok(n + 1)
                } else {
                    Err(MXFError::UnknownError(String::from_str("order numbers are used up")))
                }
            },
        }
    }

    /// Decides whether the listing `hno` can be asked for, and if so reserves
    /// the number for the request.
    ///
    /// `orders` holds the listing's entries (others are passed over) and
    /// `last_ono` the highest entry number of the whole table. The listing is
    /// refused when one of its chains stands at the kind that blocks under this
    /// ledger's rule.
    pub fn check_available(&self, orders: &Vec<Model>, last_ono: Option<u32>, hno: u32) -> (r:
        Result<u32, MXFError>)
        ensures
            stands_at(orders@, hno, self.spec_rule().spec_blocking()) ==> r == Err::<
                u32,
                MXFError,
            >(MXFError::HouseUnavailable(hno)),
            !stands_at(orders@, hno, self.spec_rule().spec_blocking()) ==> match next_number(
                last_ono,
            ) {
                Some(n) => r == Ok::<u32, MXFError>(n),
                None => r matches Err(MXFError::UnknownError(text)) && text@
                    == "order numbers are used up"@,
            },
    {
        let blocking = self.rule.blocking();
        let listing = self.get_orders_by_hno(orders, hno);
        let latest = Self::filter_latest(&listing);
        let mut i: usize = 0;
        while i < latest.len()
            invariant
                i <= latest.len(),
                latest@ == latest_entries(listing_entries(orders@, hno)),
                blocking == self.spec_rule().spec_blocking(),
                forall|j: int| 0 <= j < i ==> (#[trigger] latest@[j]).otype != blocking,
            decreases latest.len() - i,
        {
            if latest[i].otype.rank() == blocking.rank() {
                return Err(MXFError::HouseUnavailable(hno));
            }
            i += 1;
        }
        self.get_next_ono(last_ono)
    }

    /// Makes the entry that files a lease request under the reserved number
    /// `next_ono`: the request opens its own chain, and its term runs from
    /// `now` for one calendar month.
    pub fn place_order_by_ono(
        &self,
        next_ono: u32,
        hno: u32,
        hlandlore: u32,
        htenant: u32,
        now: DateTime,
    ) -> (r: Result<Model, MXFError>)
        ensures
            match now@.month_after() {
                Some(end) => r matches Ok(order) && order == lease_request(
                    next_ono,
                    hno,
                    hlandlore,
                    htenant,
                    now,
                    order.oend,
                ) && order.oend@ == end,
                None => r matches Err(MXFError::UnknownError(text)) && text@
                    == "end of the world error"@,
            },
    {
        match now.month_later() {
            Some(oend) => Ok(
                Model {
                    ono: next_ono,
                    hno,
                    hlandlore,
                    htenant,
                    odate: now,
                    otype: OrderType::LeaseRequest,
                    ostart: now,
                    oend,
                    ostatus: next_ono,
                },
            ),
            None => Err(MXFError::UnknownError(String::from_str("end of the world error"))),
        }
    }

    /// Decides a lease request in one step: whether the listing can be asked
    /// for, under which number, and with which entry.
    ///
    /// `house` is what looking the listing up gave. Availability is settled
    /// first and the number second; only then does a lookup that failed fail the
    /// request, the same way. The request names the landlord of the listing that
    /// was found.
    ///
    /// The decision rests on one reading of the ledger. A caller that keeps
    /// others from writing between that reading and the writing of the entry
    /// it is handed, in one transaction or under a lock on the listing, leaves
    /// no room for a second request to slip in between check and entry. A
    /// caller that reads, asks `check_available`, and later asks
    /// `place_order_by_ono` leaves that room.
    pub fn lease(
        &self,
        orders: &Vec<Model>,
        last_ono: Option<u32>,
        hno: u32,
        house: Result<crate::house_listing::Model, MXFError>,
        htenant: u32,
        now: DateTime,
    ) -> (r: Result<Model, MXFError>)
        ensures
            stands_at(orders@, hno, self.spec_rule().spec_blocking()) ==> r == Err::<
                Model,
                MXFError,
            >(MXFError::HouseUnavailable(hno)),
            !stands_at(orders@, hno, self.spec_rule().spec_blocking()) ==> match next_number(
                last_ono,
            ) {
                Some(ono) => match house {
                    Ok(listing) => match now@.month_after() {
                        Some(end) => r matches Ok(order) && order == lease_request(
                            ono,
                            hno,
                            listing.hlandlore,
                            htenant,
                            now,
                            order.oend,
                        ) && order.oend@ == end,
                        None => r matches Err(MXFError::UnknownError(text)) && text@
                            == "end of the world error"@,
                    },
                    Err(e) => r == Err::<Model, MXFError>(e),
                },
                None => r matches Err(MXFError::UnknownError(text)) && text@
                    == "order numbers are used up"@,
            },
    {
        let ono = self.check_available(orders, last_ono, hno)?;
        match house {
            Ok(listing) => self.place_order_by_ono(ono, hno, listing.hlandlore, htenant, now),
            Err(e) => Err(e),
        }
    }

    /// Settles what a lookup by number found: the entry, or the failure that
    /// names the number. A number that no entry carries cannot be confirmed.
    pub fn get_order_by_ono(&self, found: Option<Model>, ono: u32) -> (r: Result<Model, MXFError>)
        ensures
            match found {
                Some(order) => r == Ok::<Model, MXFError>(order),
                None => r matches Err(MXFError::UnknownError(text)) && text@ == "Order with ono "@
                    + decimal(ono as nat) + " not found"@,
            },
    {
        match found {
            Some(order) => Ok(order),
            None => {
                let mut text = String::from_str("Order with ono ");
                append_decimal(&mut text, ono as u64);
                text.append(" not found");
                Err(MXFError::UnknownError(text))
            },
        }
    }

    /// Makes the entry that confirms the chain of `order`, for the landlord
    /// `user_uno` and at `now`. Only the landlord of the entry may confirm; for
    /// anyone else there is no entry to write.
    pub fn confirm_order(
        &self,
        order: &Model,
        last_ono: Option<u32>,
        user_uno: u32,
        now: DateTime,
    ) -> (r: Result<Model, MXFError>)
        ensures
            order.hlandlore != user_uno ==> r == Err::<Model, MXFError>(
                MXFError::NotLandlore(user_uno),
            ),
            order.hlandlore == user_uno ==> match next_number(last_ono) {
                Some(n) => r == Ok::<Model, MXFError>(lease_confirmation(*order, n, now)),
                None => r matches Err(MXFError::UnknownError(text)) && text@
                    == "order numbers are used up"@,
            },
    {
        if order.hlandlore != user_uno {
            return Err(MXFError::NotLandlore(user_uno));
        }
        let ono = self.get_next_ono(last_ono)?;
        Ok(
            Model {
                ono,
                hno: order.hno,
                hlandlore: order.hlandlore,
                htenant: order.htenant,
                odate: now,
                otype: OrderType::LeaseConfirm,
                ostart: order.ostart,
                oend: order.oend,
                ostatus: order.ostatus,
            },
        )
    }

    /// Reduces a history to the current state of each chain: the entries whose
    /// kind is the most advanced one of their chain.
    pub fn filter_latest(orders: &Vec<Model>) -> (latest: Vec<Model>)
        ensures
            latest@ == latest_entries(orders@),
    {
        let mut orders_type: HashMap<u32, OrderType> = HashMap::new();
        let mut i: usize = 0;
        while i < orders.len()
            invariant
                i <= orders.len(),
                tracks_latest(orders_type@, orders@, i as int),
            decreases orders.len() - i,
        {
            let order = orders[i];
            let ghost before = orders_type@;
            let known = orders_type.get(&order.ostatus);
            let advance = match known {
                Some(kind) => kind.rank() < order.otype.rank(),
                None => true,
            };
            if advance {
                orders_type.insert(order.ostatus, order.otype);
            }
            proof {
                let after = orders_type@;
                assert forall|key: u32| #[trigger] after.contains_key(key) implies exists|j: int|
                    0 <= j < i + 1 && #[trigger] orders@[j].ostatus == key && orders@[j].otype
                        == after[key] by {
                    if advance && key == order.ostatus {
                        assert(orders@[i as int].ostatus == key);
                    } else {
                        assert(before.contains_key(key));
                        let j = choose|j: int|
                            0 <= j < i && #[trigger] orders@[j].ostatus == key && orders@[j].otype
                                == before[key];
                        assert(orders@[j].ostatus == key);
                    }
                }
            }
            i += 1;
        }
        let mut latest: Vec<Model> = Vec::new();
        let mut k: usize = 0;
        while k < orders.len()
            invariant
                k <= orders.len(),
                tracks_latest(orders_type@, orders@, orders.len() as int),
                latest@ == orders@.take(k as int).filter(|order: Model| is_latest(orders@, order)),
            decreases orders.len() - k,
        {
            let order = orders[k];
            let best = orders_type.get(&order.ostatus);
            proof {
                reveal(Seq::filter);
                assert(orders@.take(k + 1).drop_last() =~= orders@.take(k as int));
                assert(orders@[k as int].ostatus == order.ostatus);
                let kind = orders_type@[order.ostatus];
                let j = choose|j: int|
                    0 <= j < orders.len() && #[trigger] orders@[j].ostatus == order.ostatus
                        && orders@[j].otype == kind;
                assert(orders@[j].ostatus == order.ostatus);
            }
            match best {
                Some(kind) => {
                    if kind.rank() == order.otype.rank() {
                        latest.push(order);
                    }
                },
                None => {},
            }
            k += 1;
        }
        proof {
            assert(orders@.take(orders.len() as int) =~= orders@);
        }
        latest
    }
}

} // verus!
