use mxf::condition::Clause;
use mxf::condition::NumberColumn;
use mxf::house_listing::Model;
use mxf::house_service::ListingOrder;
use mxf::page_cache::PageCountCache;
use mxf::page_cache::TIME_TO_LIVE;
use mxf::HouseFilter;
use mxf::HouseService;
use mxf::ListStatus;
use mxf::MXFError;

fn filter(district: &str, page: u64) -> HouseFilter<'_> {
    HouseFilter::new(district, "", 0, 0, None, None, None, None, None, None, "", page).unwrap()
}

fn house(hno: u32, hlandlore: u32) -> Model {
    Model {
        hno,
        hdistrict: "west".to_string(),
        haddr: "1 main street".to_string(),
        hlo: "flat".to_string(),
        hflr: 3,
        harea: 80,
        hprice: 1500,
        hlandlore,
        hsuite: "lift".to_string(),
        hunlisted: ListStatus::Listed,
    }
}

#[test]
fn time_to_live_is_half_an_hour() {
    assert_eq!(TIME_TO_LIVE, 30 * 60);
}

#[test]
fn count_is_handed_out_until_it_is_half_an_hour_old() {
    let mut cache = PageCountCache::new();
    let key = "k".to_string();
    assert_eq!(cache.get(&key, 1000), None);
    cache.insert(key.clone(), 7, 1000);
    assert_eq!(cache.get(&key, 1000), Some(7));
    assert_eq!(cache.get(&key, 1000 + TIME_TO_LIVE - 1), Some(7));
    assert_eq!(cache.get(&key, 1000 + TIME_TO_LIVE), None);
    assert_eq!(cache.get(&key, 1000 + TIME_TO_LIVE + 1), None);
    assert_eq!(cache.get(&key, u64::MAX), None);
}

#[test]
fn count_taken_late_on_the_clock_is_handed_out() {
    let mut cache = PageCountCache::new();
    let key = "k".to_string();
    cache.insert(key.clone(), 7, u64::MAX - 5);
    assert_eq!(cache.get(&key, u64::MAX), Some(7));
    assert_eq!(cache.get(&key, 0), Some(7));
}

#[test]
fn count_is_remembered_by_key() {
    let mut cache = PageCountCache::new();
    cache.insert("a".to_string(), 1, 10);
    cache.insert("b".to_string(), 2, 20);
    assert_eq!(cache.get(&"a".to_string(), 30), Some(1));
    assert_eq!(cache.get(&"b".to_string(), 30), Some(2));
    assert_eq!(cache.get(&"c".to_string(), 30), None);
    assert_eq!(cache.get(&"a".to_string(), 10 + TIME_TO_LIVE), None);
    assert_eq!(cache.get(&"b".to_string(), 10 + TIME_TO_LIVE), Some(2));
}

#[test]
fn newer_count_replaces_the_older() {
    let mut cache = PageCountCache::new();
    let key = "k".to_string();
    cache.insert(key.clone(), 7, 1000);
    cache.insert(key.clone(), 9, 2000);
    assert_eq!(cache.get(&key, 2000), Some(9));
    assert_eq!(cache.get(&key, 1000 + TIME_TO_LIVE), Some(9));
    assert_eq!(cache.get(&key, 2000 + TIME_TO_LIVE), None);
}

#[test]
fn count_is_computed_once_within_its_time() {
    let mut cache = PageCountCache::new();
    let mut calls = 0;
    let first = cache.get_or_compute("k".to_string(), 100, || {
        calls += 1;
        5
    });
    assert_eq!(first, 5);
    let second = cache.get_or_compute("k".to_string(), 100 + TIME_TO_LIVE - 1, || {
        calls += 1;
        6
    });
    assert_eq!(second, 5);
    assert_eq!(calls, 1);
}

#[test]
fn count_is_computed_again_once_it_has_expired() {
    let mut cache = PageCountCache::new();
    let mut calls = 0;
    cache.get_or_compute("k".to_string(), 100, || {
        calls += 1;
        5
    });
    let later = cache.get_or_compute("k".to_string(), 100 + TIME_TO_LIVE, || {
        calls += 1;
        6
    });
    assert_eq!(later, 6);
    assert_eq!(calls, 2);
    let again = cache.get_or_compute("k".to_string(), 100 + 2 * TIME_TO_LIVE - 1, || {
        calls += 1;
        8
    });
    assert_eq!(again, 6);
    assert_eq!(calls, 2);
}

#[test]
fn search_plans_one_page_counted_from_zero() {
    let service = HouseService::init();
    let wanted = HouseFilter::new(
        "west",
        "",
        0,
        0,
        None,
        None,
        None,
        None,
        Some(1000),
        None,
        "",
        3,
    )
    .unwrap();
    let query = service.get_houses_in_page(wanted, 10, false, 50);
    assert_eq!(query.condition, wanted.condition());
    assert_eq!(query.order, ListingOrder::HnoAscending);
    assert_eq!(query.signature, wanted.signature());
    assert_eq!(query.page, 2);
    assert_eq!(query.posts_per_page, 10);
    assert_eq!(query.num_pages, None);
}

#[test]
fn search_for_listed_houses_asks_for_that_last() {
    let service = HouseService::init();
    let wanted =
        HouseFilter::new("", "", 0, 0, None, None, None, None, Some(1000), None, "", 1).unwrap();
    let query = service.get_houses_in_page(wanted, 10, true, 50);
    assert_eq!(
        query.condition.clauses,
        vec![Clause::Gte(NumberColumn::Hprice, 1000), Clause::Listed]
    );
    let query = service.get_houses_in_page(filter("", 1), 10, true, 50);
    assert_eq!(query.condition.clauses, vec![Clause::Listed]);
}

#[test]
fn repeated_search_does_not_count_again() {
    let mut service = HouseService::init();
    let mut counted = 0;
    let mut totals = Vec::new();
    let mut queries = Vec::new();
    for (page, now) in [(1, 100), (1, 101), (2, 100 + TIME_TO_LIVE - 1)] {
        let query = service.get_houses_in_page(filter("west", page), 10, true, now);
        let total = match query.num_pages {
            Some(total) => total,
            None => {
                counted += 1;
                service.record_num_pages(query.signature.clone(), 4, now);
                4
            }
        };
        totals.push(total);
        queries.push(query);
    }
    assert_eq!(counted, 1);
    assert_eq!(totals, vec![4, 4, 4]);
    assert_eq!(queries[0].condition, queries[1].condition);
    assert_eq!(queries[0].order, queries[1].order);
    assert_eq!(queries[0].page, queries[1].page);
    assert_eq!(queries[0].signature, queries[2].signature);
    assert_eq!(queries[2].page, 1);
}

#[test]
fn search_counts_again_after_half_an_hour_and_for_other_bounds() {
    let mut service = HouseService::init();
    let first = service.get_houses_in_page(filter("west", 1), 10, true, 100);
    service.record_num_pages(first.signature, 4, 100);
    let other = service.get_houses_in_page(filter("east", 1), 10, true, 101);
    assert_eq!(other.num_pages, None);
    let same = service.get_houses_in_page(filter("west", 1), 10, true, 101);
    assert_eq!(same.num_pages, Some(4));
    let late = service.get_houses_in_page(filter("west", 1), 10, true, 100 + TIME_TO_LIVE);
    assert_eq!(late.num_pages, None);
    service.record_num_pages(late.signature, 5, 100 + TIME_TO_LIVE);
    let after = service.get_houses_in_page(filter("west", 7), 10, true, 101 + TIME_TO_LIVE);
    assert_eq!(after.num_pages, Some(5));
    assert_eq!(after.page, 6);
}

#[test]
fn lookup_by_number_names_the_number_it_did_not_find() {
    let service = HouseService::init();
    assert_eq!(service.get_house_by_hno(Some(house(5, 1)), 5), Ok(house(5, 1)));
    assert_eq!(
        service.get_house_by_hno(None, 407),
        Err(MXFError::UnknownError("House with hno 407 not found".to_string()))
    );
    assert_eq!(
        service.get_house_by_hno(None, 0),
        Err(MXFError::UnknownError("House with hno 0 not found".to_string()))
    );
    assert_eq!(
        service.get_house_by_hno(None, u32::MAX),
        Err(MXFError::UnknownError("House with hno 4294967295 not found".to_string()))
    );
}

#[test]
fn next_listing_number_follows_the_highest() {
    let service = HouseService::init();
    assert_eq!(service.get_next_hno(Some(9)), Ok(10));
    assert_eq!(
        service.get_next_hno(None),
        Err(MXFError::UnknownError("No houses found".to_string()))
    );
    assert_eq!(
        service.get_next_hno(Some(u32::MAX)),
        Err(MXFError::UnknownError("listing numbers are used up".to_string()))
    );
}

#[test]
fn new_listing_belongs_to_who_makes_it() {
    let service = HouseService::init();
    assert_eq!(service.new_house(house(5, 1), 9), house(5, 9));
}

#[test]
fn only_the_landlord_changes_a_listing() {
    let service = HouseService::init();
    assert_eq!(service.verify_landlore(&house(5, 1), 1), Ok(()));
    assert_eq!(service.verify_landlore(&house(5, 1), 2), Err(MXFError::NotLandlore(2)));
    let mut changed = house(5, 77);
    changed.hprice = 1800;
    changed.hunlisted = ListStatus::Unlisted;
    let mut expected = house(5, 1);
    expected.hprice = 1800;
    expected.hunlisted = ListStatus::Unlisted;
    assert_eq!(service.modify_house(&house(5, 1), changed.clone(), 1), Ok(expected));
    assert_eq!(
        service.modify_house(&house(5, 1), changed, 77),
        Err(MXFError::NotLandlore(77))
    );
}

#[test]
fn listings_start_out_listed() {
    assert_eq!(ListStatus::default(), ListStatus::Listed);
}
