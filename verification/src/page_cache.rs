//! The cache of page counts: how many pages a search has, remembered under
//! the search's signature for half an hour.
//!
//! Counting the listings that pass a filter is the expensive part of a
//! search. The cache keeps each count with the time at which it was taken and
//! hands it out until it is thirty minutes old. Time is what the caller says
//! it is: every operation takes the current time in seconds on the caller's
//! clock, so that the rule can be stated and tried without waiting.

use mini_moka::sync::Cache;
use vstd::prelude::*;

verus! {

/// For how many seconds a count is handed out after it was taken.
pub const TIME_TO_LIVE: u64 = 1800;

/// `mini_moka::sync::Cache`, the concurrent map that stores the counts. Nothing
/// is known of what is inside one but what [`stored`] says.
#[verifier::external_type_specification]
#[verifier::external_body]
#[verifier::reject_recursive_types(K)]
#[verifier::reject_recursive_types(V)]
#[verifier::reject_recursive_types(S)]
pub struct ExCache<K, V, S>(Cache<K, V, S>);

/// Counts by key, each with the time in seconds at which it was taken.
pub type Entries = Map<Seq<char>, (u64, u64)>;

/// What a store holds. The cache owns its store and hands it to nobody, so
/// what the store holds changes only by the operations below.
pub uninterp spec fn stored(store: Cache<String, (u64, u64)>) -> Map<Seq<char>, (u64, u64)>;

/// Builds a store with `mini_moka::sync::CacheBuilder::build`, from the
/// builder as `Cache::builder` hands it out. Such a store has no entries, no
/// limit on their number and no expiry of its own.
#[verifier::external_body]
fn store_new() -> (store: Cache<String, (u64, u64)>)
    ensures
        stored(store) == Entries::empty(),
{
    Cache::builder().build()
}

/// Calls `mini_moka::sync::Cache::get`: a copy of what the store holds for
/// the key, if it holds anything for it. In a store without limit and expiry
/// an entry stays until it is replaced.
#[verifier::external_body]
fn store_get(store: &Cache<String, (u64, u64)>, key: &String) -> (found: Option<(u64, u64)>)
    ensures
        found == if stored(*store).contains_key(key@) {
            Some(stored(*store)[key@])
        } else {
            None
        },
{
    store.get(key)
}

/// Calls `mini_moka::sync::Cache::insert`: afterwards the store holds the
/// value for the key, in place of what it held for it before, and everything
/// else as before.
#[verifier::external_body]
fn store_insert(store: &mut Cache<String, (u64, u64)>, key: String, value: (u64, u64))
    ensures
        stored(*final(store)) == stored(*old(store)).insert(key@, value),
{
    store.insert(key, value)
}

/// A count taken at `taken_at` is still handed out at `now`.
pub open spec fn fresh(taken_at: u64, now: u64) -> bool {
    now < taken_at + TIME_TO_LIVE
}

/// The count that entries hold for a key at `now`: the one stored for
/// it, unless it has expired.
pub open spec fn lookup(entries: Entries, key: Seq<char>, now: u64) -> Option<u64> {
    if entries.contains_key(key) && fresh(entries[key].1, now) {
        Some(entries[key].0)
    } else {
        None
    }
}

/// The cache of page counts.
pub struct PageCountCache {
    store: Cache<String, (u64, u64)>,
}

impl View for PageCountCache {
    type V = Entries;

    closed spec fn view(&self) -> Entries {
        stored(self.store)
    }
}

impl PageCountCache {
    /// A cache without entries.
    pub fn new() -> (cache: PageCountCache)
        ensures
            cache@ == Entries::empty(),
    {
        PageCountCache { store: store_new() }
    }

    /// The count remembered for `key`, if there is one and it is not yet
    /// thirty minutes old at `now`.
    pub fn get(&self, key: &String, now: u64) -> (count: Option<u64>)
        ensures
            count == lookup(self@, key@, now),
    {
        match store_get(&self.store, key) {
            Some((count, taken_at)) => {
                if now < taken_at || now - taken_at < TIME_TO_LIVE {
                    Some(count)
                } else {
                    None
                }
            },
            None => None,
        }
    }

    /// Remembers `count` for `key` as taken at `now`, in place of any count
    /// remembered for the key before.
    pub fn insert(&mut self, key: String, count: u64, now: u64)
        ensures
            final(self)@ == old(self)@.insert(key@, (count, now)),
    {
        store_insert(&mut self.store, key, (count, now));
    }

    /// The count for `key` at `now`: the remembered one if there is one and
    /// it has not expired, and otherwise the one that `compute` takes, which is
    /// then remembered as taken at `now`. `compute` is only called in the
    /// second case.
    pub fn get_or_compute<F: FnOnce() -> u64>(&mut self, key: String, now: u64, compute: F) -> (count:
        u64)
        requires
            compute.requires(()),
        ensures
            match lookup(old(self)@, key@, now) {
                Some(known) => count == known && final(self)@ == old(self)@,
                None => compute.ensures((), count) && final(self)@ == old(self)@.insert(
                    key@,
                    (count, now),
                ),
            },
    {
        match self.get(&key, now) {
            Some(count) => count,
            None => {
                let count = compute();
                self.insert(key, count, now);
                count
            },
        }
    }
}

/// A count taken at `taken_at` is handed out at every time before `taken_at`
/// plus the time to live, and at no time from then on; counts for other keys
/// are handed out as before.
pub proof fn lemma_count_expires(
    entries: Entries,
    key: Seq<char>,
    count: u64,
    taken_at: u64,
    now: u64,
    other: Seq<char>,
)
    ensures
        now < taken_at + TIME_TO_LIVE ==> lookup(entries.insert(key, (count, taken_at)), key, now)
            == Some(count),
        now >= taken_at + TIME_TO_LIVE ==> lookup(
            entries.insert(key, (count, taken_at)),
            key,
            now,
        ) is None,
        other != key ==> lookup(entries.insert(key, (count, taken_at)), other, now) == lookup(
            entries,
            other,
            now,
        ),
{
}

} // verus!
