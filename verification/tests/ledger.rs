use mxf::datetime::DateTime;
use mxf::order::Model;
use mxf::order::OrderType;
use mxf::order_service::AvailabilityRule;
use mxf::order_service::OrderService;
use mxf::HouseListingModel;
use mxf::ListStatus;
use mxf::MXFError;

fn moment(month: u32, day: u32) -> DateTime {
    DateTime::new(2024, month, day, 12, 30, 15, 0).unwrap()
}

fn entry(ono: u32, hno: u32, otype: OrderType, ostatus: u32) -> Model {
    Model {
        ono,
        hno,
        hlandlore: 100,
        htenant: 200,
        odate: moment(1, 1),
        otype,
        ostart: moment(1, 1),
        oend: moment(2, 1),
        ostatus,
    }
}

fn house(hno: u32, hlandlore: u32) -> Result<HouseListingModel, MXFError> {
    Ok(HouseListingModel {
        hno,
        hdistrict: "west".to_string(),
        haddr: "1 main street".to_string(),
        hlo: "flat".to_string(),
        hflr: 3,
        harea: 80,
        hprice: 1500,
        hlandlore,
        hsuite: "lift".to_string(),
        hunlisted: ListStatus::Listed,
    })
}

fn no_house(hno: u32) -> Result<HouseListingModel, MXFError> {
    Err(MXFError::UnknownError(format!("House with hno {} not found", hno)))
}

#[test]
fn latest_of_request_and_cancel_request_is_the_cancel_request() {
    let e1 = entry(1, 1, OrderType::LeaseRequest, 1);
    let e2 = entry(2, 1, OrderType::CancelRequest, 1);
    let latest = OrderService::filter_latest(&vec![e1, e2]);
    assert_eq!(latest, vec![e2]);
}

#[test]
fn latest_of_request_confirm_and_cancel_request_is_the_cancel_request() {
    let e1 = entry(1, 1, OrderType::LeaseRequest, 1);
    let e2 = entry(2, 1, OrderType::LeaseConfirm, 1);
    let e3 = entry(3, 1, OrderType::CancelRequest, 1);
    let latest = OrderService::filter_latest(&vec![e1, e2, e3]);
    assert_eq!(latest, vec![e3]);
}

#[test]
fn latest_keeps_one_entry_per_chain_in_input_order() {
    let a1 = entry(1, 1, OrderType::LeaseRequest, 1);
    let b1 = entry(2, 2, OrderType::LeaseRequest, 2);
    let a2 = entry(3, 1, OrderType::LeaseConfirm, 1);
    let c1 = entry(4, 3, OrderType::LeaseRequest, 4);
    let c2 = entry(5, 3, OrderType::CancelRequest, 4);
    let c3 = entry(6, 3, OrderType::CancelConfirm, 4);
    let latest = OrderService::filter_latest(&vec![a1, b1, a2, c1, c2, c3]);
    assert_eq!(latest, vec![b1, a2, c3]);
}

#[test]
fn latest_does_not_depend_on_the_order_of_arrival() {
    let e1 = entry(1, 1, OrderType::LeaseRequest, 1);
    let e2 = entry(2, 1, OrderType::LeaseConfirm, 1);
    assert_eq!(OrderService::filter_latest(&vec![e2, e1]), vec![e2]);
    assert_eq!(OrderService::filter_latest(&vec![e1, e2]), vec![e2]);
}

#[test]
fn latest_of_nothing_is_nothing() {
    assert_eq!(OrderService::filter_latest(&vec![]), vec![]);
}

#[test]
fn latest_keeps_every_entry_of_the_most_advanced_kind() {
    let e1 = entry(1, 1, OrderType::LeaseRequest, 1);
    let e2 = entry(2, 1, OrderType::LeaseConfirm, 1);
    let e3 = entry(3, 1, OrderType::LeaseConfirm, 1);
    assert_eq!(OrderService::filter_latest(&vec![e1, e2, e3]), vec![e2, e3]);
}

#[test]
fn ranks_follow_the_advancement_of_a_chain() {
    assert_eq!(OrderType::LeaseRequest.rank(), 1);
    assert_eq!(OrderType::LeaseConfirm.rank(), 2);
    assert_eq!(OrderType::CancelRequest.rank(), 3);
    assert_eq!(OrderType::CancelConfirm.rank(), 4);
    assert!(OrderType::LeaseRequest < OrderType::LeaseConfirm);
    assert!(OrderType::LeaseConfirm < OrderType::CancelRequest);
    assert!(OrderType::CancelRequest < OrderType::CancelConfirm);
}

#[test]
fn confirming_entries_are_confirmed() {
    assert!(!entry(1, 1, OrderType::LeaseRequest, 1).is_confirmed());
    assert!(entry(1, 1, OrderType::LeaseConfirm, 1).is_confirmed());
    assert!(!entry(1, 1, OrderType::CancelRequest, 1).is_confirmed());
    assert!(entry(1, 1, OrderType::CancelConfirm, 1).is_confirmed());
}

#[test]
fn listing_with_a_confirmed_chain_is_unavailable() {
    let service = OrderService::init();
    let orders = vec![
        entry(7, 1, OrderType::LeaseRequest, 7),
        entry(8, 1, OrderType::LeaseConfirm, 7),
    ];
    assert_eq!(
        service.check_available(&orders, Some(8), 1),
        Err(MXFError::HouseUnavailable(1))
    );
}

#[test]
fn listing_without_a_confirmed_chain_gets_the_next_number() {
    let service = OrderService::init();
    let orders = vec![
        entry(3, 1, OrderType::LeaseRequest, 3),
        entry(4, 1, OrderType::LeaseRequest, 4),
        entry(5, 1, OrderType::CancelRequest, 4),
        entry(6, 1, OrderType::LeaseRequest, 6),
        entry(7, 1, OrderType::LeaseConfirm, 6),
        entry(8, 1, OrderType::CancelRequest, 6),
        entry(9, 1, OrderType::CancelConfirm, 6),
    ];
    assert_eq!(service.check_available(&orders, Some(9), 1), Ok(10));
}

#[test]
fn confirmed_chain_blocks_whatever_the_other_chains_hold() {
    let service = OrderService::init();
    let orders = vec![
        entry(1, 1, OrderType::LeaseRequest, 1),
        entry(2, 1, OrderType::LeaseRequest, 2),
        entry(3, 1, OrderType::LeaseConfirm, 2),
        entry(4, 1, OrderType::LeaseRequest, 4),
        entry(5, 1, OrderType::CancelRequest, 4),
    ];
    assert_eq!(
        service.check_available(&orders, Some(5), 1),
        Err(MXFError::HouseUnavailable(1))
    );
}

#[test]
fn entries_of_other_listings_do_not_block() {
    let service = OrderService::init();
    let orders = vec![
        entry(1, 2, OrderType::LeaseRequest, 1),
        entry(2, 2, OrderType::LeaseConfirm, 1),
        entry(3, 1, OrderType::LeaseRequest, 3),
    ];
    assert_eq!(service.check_available(&orders, Some(3), 1), Ok(4));
    assert_eq!(
        service.check_available(&orders, Some(3), 2),
        Err(MXFError::HouseUnavailable(2))
    );
    assert_eq!(service.get_orders_by_hno(&orders, 2), vec![orders[0], orders[1]]);
}

#[test]
fn first_entry_of_an_empty_table_is_number_one() {
    let service = OrderService::init();
    assert_eq!(service.check_available(&vec![], None, 1), Ok(1));
    assert_eq!(service.get_next_ono(None), Ok(1));
    assert_eq!(service.get_next_ono(Some(41)), Ok(42));
}

#[test]
fn highest_number_of_a_table_in_memory() {
    let service = OrderService::init();
    assert_eq!(service.get_last_ono(&vec![]), None);
    let table = vec![
        entry(4, 1, OrderType::LeaseRequest, 4),
        entry(9, 2, OrderType::LeaseRequest, 9),
        entry(7, 1, OrderType::LeaseConfirm, 4),
    ];
    assert_eq!(service.get_last_ono(&table), Some(9));
    assert_eq!(service.check_available(&table, service.get_last_ono(&table), 2), Ok(10));
}

#[test]
fn numbers_run_out_after_the_highest() {
    let service = OrderService::init();
    assert_eq!(
        service.get_next_ono(Some(u32::MAX)),
        Err(MXFError::UnknownError("order numbers are used up".to_string()))
    );
    assert_eq!(service.get_next_ono(Some(u32::MAX - 1)), Ok(u32::MAX));
    assert_eq!(
        service.check_available(&vec![], Some(u32::MAX), 1),
        Err(MXFError::UnknownError("order numbers are used up".to_string()))
    );
}

#[test]
fn older_rule_blocks_on_an_open_request() {
    let service = OrderService::with_rule(AvailabilityRule::RequestBlocks);
    assert_eq!(service.rule(), AvailabilityRule::RequestBlocks);
    assert_eq!(service.rule().blocking(), OrderType::LeaseRequest);
    let open = vec![entry(10, 1, OrderType::LeaseRequest, 10)];
    assert_eq!(
        service.check_available(&open, Some(10), 1),
        Err(MXFError::HouseUnavailable(1))
    );
    let confirmed = vec![
        entry(10, 1, OrderType::LeaseRequest, 10),
        entry(11, 1, OrderType::LeaseConfirm, 10),
    ];
    assert_eq!(service.check_available(&confirmed, Some(11), 1), Ok(12));
}

#[test]
fn ledger_starts_under_the_rule_that_a_confirmation_blocks() {
    let service = OrderService::init();
    assert_eq!(service.rule(), AvailabilityRule::ConfirmBlocks);
    assert_eq!(service.rule().blocking(), OrderType::LeaseConfirm);
}

#[test]
fn request_opens_its_own_chain_for_one_month() {
    let service = OrderService::init();
    let now = moment(3, 15);
    let order = service.place_order_by_ono(10, 1, 100, 200, now).unwrap();
    assert_eq!(
        order,
        Model {
            ono: 10,
            hno: 1,
            hlandlore: 100,
            htenant: 200,
            odate: now,
            otype: OrderType::LeaseRequest,
            ostart: now,
            oend: moment(4, 15),
            ostatus: 10,
        }
    );
}

#[test]
fn lease_term_ends_on_the_last_day_of_a_shorter_month() {
    let service = OrderService::init();
    let order = service.place_order_by_ono(10, 1, 100, 200, moment(1, 31)).unwrap();
    assert_eq!(order.oend, moment(2, 29));
    let start = DateTime::new(2023, 1, 31, 8, 0, 0, 0).unwrap();
    let order = service.place_order_by_ono(11, 1, 100, 200, start).unwrap();
    assert_eq!(order.oend, DateTime::new(2023, 2, 28, 8, 0, 0, 0).unwrap());
    let start = DateTime::new(2023, 12, 31, 23, 59, 59, 5).unwrap();
    let order = service.place_order_by_ono(12, 1, 100, 200, start).unwrap();
    assert_eq!(order.oend, DateTime::new(2024, 1, 31, 23, 59, 59, 5).unwrap());
}

#[test]
fn no_lease_past_the_last_year() {
    let service = OrderService::init();
    let last = DateTime::new(262142, 12, 1, 0, 0, 0, 0).unwrap();
    assert_eq!(
        service.place_order_by_ono(10, 1, 100, 200, last),
        Err(MXFError::UnknownError("end of the world error".to_string()))
    );
    let before = DateTime::new(262142, 11, 30, 0, 0, 0, 0).unwrap();
    let order = service.place_order_by_ono(10, 1, 100, 200, before).unwrap();
    assert_eq!(order.oend, DateTime::new(262142, 12, 30, 0, 0, 0, 0).unwrap());
}

#[test]
fn only_the_landlord_confirms() {
    let service = OrderService::init();
    let request = entry(10, 1, OrderType::LeaseRequest, 10);
    assert_eq!(
        service.confirm_order(&request, Some(10), 101, moment(1, 2)),
        Err(MXFError::NotLandlore(101))
    );
    assert_eq!(
        service.confirm_order(&request, Some(10), 200, moment(1, 2)),
        Err(MXFError::NotLandlore(200))
    );
}

#[test]
fn confirmation_stays_in_the_chain_and_keeps_the_term() {
    let service = OrderService::init();
    let request = Model {
        ono: 10,
        hno: 1,
        hlandlore: 100,
        htenant: 200,
        odate: moment(1, 1),
        otype: OrderType::LeaseRequest,
        ostart: moment(1, 1),
        oend: moment(2, 1),
        ostatus: 10,
    };
    let confirmed = service.confirm_order(&request, Some(14), 100, moment(1, 3)).unwrap();
    assert_eq!(
        confirmed,
        Model {
            ono: 15,
            hno: 1,
            hlandlore: 100,
            htenant: 200,
            odate: moment(1, 3),
            otype: OrderType::LeaseConfirm,
            ostart: moment(1, 1),
            oend: moment(2, 1),
            ostatus: 10,
        }
    );
}

#[test]
fn confirmation_of_a_later_entry_stays_in_that_entrys_chain() {
    let service = OrderService::init();
    let later = entry(12, 1, OrderType::CancelRequest, 10);
    let confirmed = service.confirm_order(&later, Some(12), 100, moment(1, 3)).unwrap();
    assert_eq!(confirmed.ostatus, 10);
    assert_eq!(confirmed.ono, 13);
}

#[test]
fn confirmation_fails_when_numbers_are_used_up() {
    let service = OrderService::init();
    let request = entry(10, 1, OrderType::LeaseRequest, 10);
    assert_eq!(
        service.confirm_order(&request, Some(u32::MAX), 100, moment(1, 3)),
        Err(MXFError::UnknownError("order numbers are used up".to_string()))
    );
    assert_eq!(
        service.confirm_order(&request, Some(u32::MAX), 5, moment(1, 3)),
        Err(MXFError::NotLandlore(5))
    );
}

#[test]
fn lease_in_one_step_checks_and_files() {
    let service = OrderService::init();
    let mut table: Vec<Model> = Vec::new();
    let first = service.lease(&table, None, 1, house(1, 100), 200, moment(5, 10)).unwrap();
    assert_eq!(first.ono, 1);
    assert_eq!(first.ostatus, 1);
    assert_eq!(first.otype, OrderType::LeaseRequest);
    assert_eq!(first.oend, moment(6, 10));
    table.push(first);
    let second = service.lease(&table, Some(1), 1, house(1, 100), 201, moment(5, 11)).unwrap();
    assert_eq!(second.ono, 2);
    assert_eq!(second.ostatus, 2);
    table.push(second);
    let confirmed = service.confirm_order(&table[0], Some(2), 100, moment(5, 12)).unwrap();
    table.push(confirmed);
    assert_eq!(
        service.lease(&table, Some(3), 1, house(1, 100), 202, moment(5, 13)),
        Err(MXFError::HouseUnavailable(1))
    );
}

#[test]
fn lease_names_the_landlord_of_the_listing() {
    let service = OrderService::init();
    let order = service.lease(&vec![], Some(4), 1, house(1, 77), 200, moment(5, 10)).unwrap();
    assert_eq!(
        order,
        Model {
            ono: 5,
            hno: 1,
            hlandlore: 77,
            htenant: 200,
            odate: moment(5, 10),
            otype: OrderType::LeaseRequest,
            ostart: moment(5, 10),
            oend: moment(6, 10),
            ostatus: 5,
        }
    );
}

#[test]
fn lease_fails_in_the_order_of_its_steps() {
    let service = OrderService::init();
    let taken = vec![
        entry(7, 1, OrderType::LeaseRequest, 7),
        entry(8, 1, OrderType::LeaseConfirm, 7),
    ];
    // A listing that is taken is refused before anything else is looked at.
    assert_eq!(
        service.lease(&taken, Some(u32::MAX), 1, no_house(1), 200, moment(5, 10)),
        Err(MXFError::HouseUnavailable(1))
    );
    // Then the number has to be there.
    assert_eq!(
        service.lease(&vec![], Some(u32::MAX), 1, no_house(1), 200, moment(5, 10)),
        Err(MXFError::UnknownError("order numbers are used up".to_string()))
    );
    // Then the listing has to have been found.
    assert_eq!(
        service.lease(&vec![], Some(8), 1, no_house(1), 200, moment(5, 10)),
        Err(MXFError::UnknownError("House with hno 1 not found".to_string()))
    );
    assert_eq!(
        service.lease(
            &vec![],
            Some(8),
            1,
            Err(MXFError::DatabaseError("down".to_string())),
            200,
            moment(5, 10)
        ),
        Err(MXFError::DatabaseError("down".to_string()))
    );
    // And the term has to end within the calendar.
    let last = DateTime::new(262142, 12, 1, 0, 0, 0, 0).unwrap();
    assert_eq!(
        service.lease(&vec![], Some(8), 1, house(1, 100), 200, last),
        Err(MXFError::UnknownError("end of the world error".to_string()))
    );
}

#[test]
fn number_that_no_entry_carries_cannot_be_confirmed() {
    let service = OrderService::init();
    let request = entry(10, 1, OrderType::LeaseRequest, 10);
    assert_eq!(service.get_order_by_ono(Some(request), 10), Ok(request));
    assert_eq!(
        service.get_order_by_ono(None, 10),
        Err(MXFError::UnknownError("Order with ono 10 not found".to_string()))
    );
    assert_eq!(
        service.get_order_by_ono(None, 0),
        Err(MXFError::UnknownError("Order with ono 0 not found".to_string()))
    );
    assert_eq!(
        service.get_order_by_ono(None, u32::MAX),
        Err(MXFError::UnknownError("Order with ono 4294967295 not found".to_string()))
    );
    let table = vec![request];
    let confirmed = service
        .get_order_by_ono(None, 11)
        .and_then(|order| service.confirm_order(&order, Some(10), 100, moment(1, 2)));
    assert_eq!(
        confirmed,
        Err(MXFError::UnknownError("Order with ono 11 not found".to_string()))
    );
    assert_eq!(table, vec![request]);
}

#[test]
fn end_to_end_under_the_rule_that_a_confirmation_blocks() {
    let service = OrderService::init();
    let l1 = 1;
    let u1 = 100;
    let u2 = 200;
    let u3 = 300;
    let mut table = vec![entry(9, 7, OrderType::LeaseRequest, 9)];
    let number = service.check_available(&table, Some(9), l1).unwrap();
    assert_eq!(number, 10);
    table.push(service.place_order_by_ono(number, l1, u1, u2, moment(1, 1)).unwrap());
    // An open request leaves the listing free for another tenant.
    assert_eq!(service.check_available(&table, Some(10), l1), Ok(11));
    // Somebody else cannot confirm, and nothing is written.
    assert_eq!(
        service.confirm_order(&table[1], Some(10), u3, moment(1, 2)),
        Err(MXFError::NotLandlore(u3))
    );
    assert_eq!(table.len(), 2);
    table.push(service.confirm_order(&table[1], Some(10), u1, moment(1, 2)).unwrap());
    assert_eq!(table[2].ono, 11);
    assert_eq!(table[2].ostatus, 10);
    assert_eq!(
        service.check_available(&table, Some(11), l1),
        Err(MXFError::HouseUnavailable(l1))
    );
    // A cancellation in another chain of the listing changes nothing.
    table.push(entry(12, l1, OrderType::LeaseRequest, 12));
    table.push(entry(13, l1, OrderType::CancelRequest, 12));
    table.push(entry(14, l1, OrderType::CancelConfirm, 12));
    assert_eq!(
        service.check_available(&table, Some(14), l1),
        Err(MXFError::HouseUnavailable(l1))
    );
    // A cancellation of the confirmed lease itself frees the listing.
    table.push(entry(15, l1, OrderType::CancelRequest, 10));
    assert_eq!(service.check_available(&table, Some(15), l1), Ok(16));
    table.push(entry(16, l1, OrderType::CancelConfirm, 10));
    assert_eq!(service.check_available(&table, Some(16), l1), Ok(17));
    let latest = OrderService::filter_latest(&service.get_orders_by_hno(&table, l1));
    assert_eq!(latest, vec![table[5], table[7]]);
}

#[test]
fn end_to_end_under_the_rule_that_a_request_blocks() {
    let service = OrderService::with_rule(AvailabilityRule::RequestBlocks);
    let l1 = 1;
    let u1 = 100;
    let u2 = 200;
    let mut table = vec![entry(9, 7, OrderType::LeaseRequest, 9)];
    let number = service.check_available(&table, Some(9), l1).unwrap();
    assert_eq!(number, 10);
    table.push(service.place_order_by_ono(number, l1, u1, u2, moment(1, 1)).unwrap());
    // While the request waits, the listing is held back from everybody else.
    assert_eq!(
        service.check_available(&table, Some(10), l1),
        Err(MXFError::HouseUnavailable(l1))
    );
    assert_eq!(
        service.lease(&table, Some(10), l1, house(l1, u1), 300, moment(1, 1)),
        Err(MXFError::HouseUnavailable(l1))
    );
    table.push(service.confirm_order(&table[1], Some(10), u1, moment(1, 2)).unwrap());
    assert_eq!(service.check_available(&table, Some(11), l1), Ok(12));
    // A cancellation that runs its course leaves the chain past the request.
    table.push(entry(12, l1, OrderType::CancelRequest, 10));
    table.push(entry(13, l1, OrderType::CancelConfirm, 10));
    assert_eq!(service.check_available(&table, Some(13), l1), Ok(14));
    assert_eq!(OrderService::filter_latest(&table), vec![table[0], table[4]]);
}
