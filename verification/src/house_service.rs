//! The listing search and the rules for making and changing listings.
//!
//! The service decides; the caller talks to the store. A search comes in two
//! steps: `get_houses_in_page` says what to select and whether the number of
//! pages is already known, and `record_num_pages` takes the number that the
//! caller had the store count where it was not.

use crate::condition::optional;
use crate::condition::Clause;
use crate::condition::ClauseView;
use crate::condition::Condition;
use crate::decimal::append_decimal;
use crate::decimal::decimal;
use crate::errors::MXFError;
use crate::house_filter::FilterView;
use crate::house_filter::HouseFilter;
use crate::house_listing::Model;
use crate::page_cache::lookup;
use crate::page_cache::Entries;
use crate::page_cache::PageCountCache;
use crate::page_cache::TIME_TO_LIVE;
use crate::signature::lemma_signature_tells_bounds;
use vstd::prelude::*;
use vstd::string::StringExecFns;

verus! {

/// The order in which a search lists what it found.
#[derive(Clone, Copy, Debug, PartialEq, Eq, Structural)]
pub enum ListingOrder {
    /// By the number of the listing, lowest first. No two listings share a
    /// number, so the order of the same listings is always the same.
    HnoAscending,
}

/// What a search asks of the store.
///
/// The listings that pass `condition` are to be put in `order` and cut into
/// pages of `posts_per_page`; the page wanted is the one at `page`, counted
/// from zero. A page past the last one is empty.
#[derive(Clone, Debug, PartialEq, Eq)]
pub struct PageQuery {
    pub condition: Condition,
    pub order: ListingOrder,
    /// The signature of the filter, under which the number of pages is
    /// remembered.
    pub signature: String,
    pub page: u64,
    pub posts_per_page: u64,
    /// The number of pages, where it is remembered and not out of date.
    /// Where it is not, the store has to count.
    pub num_pages: Option<u64>,
}

/// The requirement that a listing is on the market, if only such listings
/// are wanted.
pub open spec fn listed(listed_only: bool) -> Option<ClauseView> {
    if listed_only {
        Some(ClauseView::Listed)
    } else {
        None
    }
}

/// Once the number of pages of a search was counted at the time `first`,
/// every search for the same bounds before `first` plus the time to live
/// finds that number, so that nothing is counted again; and a search for
/// other bounds finds what it would have found without that count.
pub proof fn lemma_count_serves_its_bounds(
    remembered: Entries,
    counted: FilterView,
    count: u64,
    first: u64,
    again: FilterView,
    second: u64,
)
    ensures
        again.criteria() == counted.criteria() && second < first + TIME_TO_LIVE ==> lookup(
            remembered.insert(counted.signature(), (count, first)),
            again.signature(),
            second,
        ) == Some(count),
        again.criteria() != counted.criteria() ==> lookup(
            remembered.insert(counted.signature(), (count, first)),
            again.signature(),
            second,
        ) == lookup(remembered, again.signature(), second),
{
    lemma_signature_tells_bounds(counted, again);
}

pub struct HouseService {
    num_pages_cache: PageCountCache,
}

impl HouseService {
    /// The numbers of pages that the service remembers, by signature.
    pub closed spec fn remembered(&self) -> Entries {
        self.num_pages_cache@
    }

    /// A service that remembers nothing yet.
    pub fn init() -> (service: Self)
        ensures
            service.remembered() == Entries::empty(),
    {
        HouseService { num_pages_cache: PageCountCache::new() }
    }

    /// Settles what a lookup by number found: the listing, or the failure
    /// that names the number.
    pub fn get_house_by_hno(&self, found: Option<Model>, hno: u32) -> (r: Result<Model, MXFError>)
        ensures
            match found {
                Some(house) => r == Ok::<Model, MXFError>(house),
                None => r matches Err(MXFError::UnknownError(text)) && text@ == "House with hno "@
                    + decimal(hno as nat) + " not found"@,
            },
    {
        match found {
            Some(house) => Ok(house),
            None => {
                let mut text = String::from_str("House with hno ");
                append_decimal(&mut text, hno as u64);
                text.append(" not found");
                Err(MXFError::UnknownError(text))
            },
        }
    }

    /// The number for the next listing, given the highest number in use.
    pub fn get_next_hno(&self, last_hno: Option<u32>) -> (r: Result<u32, MXFError>)
        ensures
            match last_hno {
                None => r matches Err(MXFError::UnknownError(text)) && text@
                    == "No houses found"@,
                Some(n) => if n < u32::MAX {
                    r == Ok::<u32, MXFError>((n + 1) as u32)
                } else {
                    r matches Err(MXFError::UnknownError(text)) && text@
                        == "listing numbers are used up"@
                },
            },
    {
        match last_hno {
            None => Err(MXFError::UnknownError(String::from_str("No houses found"))),
            Some(n) => {
                if n < u32::MAX {
                    Ok(n + 1)
                } else {
                    Err(MXFError::UnknownError(String::from_str("listing numbers are used up")))
                }
            },
        }
    }

    /// Plans the search for one page of listings at the time `now`, in
    /// seconds on the caller's clock.
    pub fn get_houses_in_page(
        &self,
        house_filter: HouseFilter<'_>,
        posts_per_page: u8,
        listed_only: bool,
        now: u64,
    ) -> (query: PageQuery)
        ensures
            query.condition@ == house_filter@.criteria().clauses() + optional(listed(listed_only)),
            query.order == ListingOrder::HnoAscending,
            query.signature@ == house_filter@.signature(),
            query.page == house_filter@.page - 1,
            query.posts_per_page == posts_per_page,
            query.num_pages == lookup(self.remembered(), house_filter@.signature(), now),
    {
        let signature = house_filter.signature();
        let only_listed = if listed_only {
            Some(Clause::Listed)
        } else {
            None
        };
        let condition = house_filter.condition().add_option(only_listed);
        let num_pages = self.num_pages_cache.get(&signature, now);
        PageQuery {
            condition,
            order: ListingOrder::HnoAscending,
            signature,
            page: house_filter.page() - 1,
            posts_per_page: posts_per_page as u64,
            num_pages,
        }
    }

    /// Remembers the number of pages that the store counted for the search
    /// with this signature at the time `now`.
    pub fn record_num_pages(&mut self, signature: String, num_pages: u64, now: u64)
        ensures
            final(self).remembered() == old(self).remembered().insert(
                signature@,
                (num_pages, now),
            ),
    {
        self.num_pages_cache.insert(signature, num_pages, now);
    }

    /// The listing as it is stored for a new listing of the landlord `uno`:
    /// whatever landlord the data names, the listing belongs to `uno`.
    pub fn new_house(&self, house_listing: Model, uno: u32) -> (house: Model)
        ensures
            house == (Model { hlandlore: uno, ..house_listing }),
    {
        Model { hlandlore: uno, ..house_listing }
    }

    /// Only the landlord of a listing may change it.
    pub fn verify_landlore(&self, house: &Model, uno: u32) -> (r: Result<(), MXFError>)
        ensures
            house.hlandlore == uno ==> r == Ok::<(), MXFError>(()),
            house.hlandlore != uno ==> r == Err::<(), MXFError>(MXFError::NotLandlore(uno)),
    {
        if house.hlandlore != uno {
            Err(MXFError::NotLandlore(uno))
        } else {
            Ok(())
        }
    }

    /// The listing as it is stored after the landlord `uno` changed `stored`
    /// to `house_listing`: everything is taken from the new data but the
    /// landlord, who stays.
    pub fn modify_house(&self, stored: &Model, house_listing: Model, uno: u32) -> (r: Result<
        Model,
        MXFError,
    >)
        ensures
            stored.hlandlore == uno ==> r == Ok::<Model, MXFError>(
                Model { hlandlore: stored.hlandlore, ..house_listing },
            ),
            stored.hlandlore != uno ==> r == Err::<Model, MXFError>(MXFError::NotLandlore(uno)),
    {
        match self.verify_landlore(stored, uno) {
            Ok(_) => Ok(Model { hlandlore: stored.hlandlore, ..house_listing }),
            Err(e) => Err(e),
        }
    }
}

} // verus!
