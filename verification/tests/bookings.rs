use hotel_reservations::booking::Booking;
use hotel_reservations::error::Error;
use hotel_reservations::store::Store;
use hotel_reservations::timestamp::Instant;

fn at(secs: i64) -> Instant {
    Instant { secs, nanos: 0 }
}

fn text(s: &str) -> Option<String> {
    Some(s.to_string())
}

#[test]
fn create_booking_returns_the_full_row() {
    let mut store = Store::new();
    let made = Booking::create(
        &mut store,
        text("2024-01-01 10:00:00 +0000"),
        text("2024-01-03 12:00:00 +0200"),
        None,
        2,
        1,
        false,
        at(100),
    );
    assert_eq!(
        made,
        Ok(Booking {
            id: 1,
            start_timestamp: Some(at(1_704_103_200)),
            end_timestamp: Some(at(1_704_276_000)),
            arrival_timestamp: None,
            adult_count: 2,
            child_count: 1,
            towels: false,
            created_at: at(100),
            modified_at: None,
        })
    );
}

#[test]
fn create_booking_assigns_fresh_ids() {
    let mut store = Store::new();
    let a = Booking::create(&mut store, None, None, None, 1, 0, false, at(1)).unwrap();
    let b = Booking::create(&mut store, None, None, None, 1, 0, false, at(2)).unwrap();
    assert_eq!(a.id, 1);
    assert_eq!(b.id, 2);
    Booking::delete(&mut store, 2).unwrap();
    let c = Booking::create(&mut store, None, None, None, 1, 0, false, at(3)).unwrap();
    assert_eq!(c.id, 3);
}

#[test]
fn create_booking_with_malformed_timestamp_fails_and_stores_nothing() {
    let mut store = Store::new();
    let made = Booking::create(&mut store, None, text("soon"), None, 2, 0, true, at(1));
    assert_eq!(made, Err(Error::FormatError));
    assert_eq!(Booking::read_all(&store), Ok(vec![]));
    let next = Booking::create(&mut store, None, None, None, 2, 0, true, at(1)).unwrap();
    assert_eq!(next.id, 1);
}

#[test]
fn create_booking_fails_when_ids_are_used_up() {
    let mut store = Store::starting_at(i32::MAX - 1, 1);
    let last = Booking::create(&mut store, None, None, None, 1, 0, false, at(1)).unwrap();
    assert_eq!(last.id, i32::MAX - 1);
    assert_eq!(
        Booking::create(&mut store, None, None, None, 1, 0, false, at(2)),
        Err(Error::StoreError)
    );
    assert_eq!(Booking::read_all(&store).unwrap().len(), 1);
}

#[test]
fn insert_takes_parsed_fields() {
    let mut store = Store::new();
    let made = Booking::insert(&mut store, Some(at(10)), None, Some(at(11)), 3, 2, true, at(5));
    assert_eq!(
        made,
        Ok(Booking {
            id: 1,
            start_timestamp: Some(at(10)),
            end_timestamp: None,
            arrival_timestamp: Some(at(11)),
            adult_count: 3,
            child_count: 2,
            towels: true,
            created_at: at(5),
            modified_at: None,
        })
    );
}

#[test]
fn read_back_equals_what_create_returned() {
    let mut store = Store::new();
    Booking::create(&mut store, None, None, None, 1, 0, false, at(1)).unwrap();
    let made = Booking::create(
        &mut store,
        text("2024-05-05 15:00:00 +0100"),
        None,
        text("2024-05-05 18:30:00 +0100"),
        2,
        2,
        true,
        at(77),
    )
    .unwrap();
    assert_eq!(Booking::read_one(&store, made.id), Ok(made));
}

#[test]
fn read_one_of_missing_booking_is_not_found() {
    let mut store = Store::new();
    assert_eq!(Booking::read_one(&store, 999), Err(Error::NotFound));
    Booking::create(&mut store, None, None, None, 1, 0, false, at(1)).unwrap();
    assert_eq!(Booking::read_one(&store, 999), Err(Error::NotFound));
}

#[test]
fn read_all_lists_every_booking() {
    let mut store = Store::new();
    assert_eq!(Booking::read_all(&store), Ok(vec![]));
    let a = Booking::create(&mut store, None, None, None, 1, 0, false, at(1)).unwrap();
    let b = Booking::create(&mut store, None, None, None, 2, 1, true, at(2)).unwrap();
    assert_eq!(Booking::read_all(&store), Ok(vec![a, b]));
    assert_eq!(Booking::read_all(&store), Ok(vec![a, b]));
}

#[test]
fn update_towels_keeps_adult_count() {
    let mut store = Store::starting_at(5, 1);
    let made = Booking::create(&mut store, None, None, None, 2, 0, false, at(1)).unwrap();
    assert_eq!(made.id, 5);
    let updated =
        Booking::update(&mut store, 5, None, None, None, None, None, Some(true), at(9)).unwrap();
    assert_eq!(updated.id, 5);
    assert!(updated.towels);
    assert_eq!(updated.adult_count, 2);
    assert_eq!(updated.modified_at, Some(at(9)));
    assert_eq!(updated, Booking { towels: true, modified_at: Some(at(9)), ..made });
    assert_eq!(Booking::read_one(&store, 5), Ok(updated));
}

#[test]
fn update_without_fields_refreshes_modified_at_only() {
    let mut store = Store::new();
    let made = Booking::create(
        &mut store,
        text("2024-01-01 10:00:00 +0000"),
        None,
        None,
        2,
        1,
        true,
        at(1),
    )
    .unwrap();
    let updated =
        Booking::update(&mut store, made.id, None, None, None, None, None, None, at(50)).unwrap();
    assert_eq!(updated, Booking { modified_at: Some(at(50)), ..made });
    let again =
        Booking::update(&mut store, made.id, None, None, None, None, None, None, at(60)).unwrap();
    assert_eq!(again, Booking { modified_at: Some(at(60)), ..made });
    assert_eq!(again.created_at, at(1));
}

#[test]
fn update_replaces_each_supplied_field() {
    let mut store = Store::new();
    let made = Booking::create(&mut store, None, None, None, 2, 1, false, at(1)).unwrap();
    let updated = Booking::update(
        &mut store,
        made.id,
        text("2024-01-01 10:00:00 +0000"),
        text("2024-01-01 11:00:00 +0000"),
        text("2024-01-01 10:30:00 +0000"),
        Some(4),
        Some(0),
        Some(true),
        at(8),
    );
    assert_eq!(
        updated,
        Ok(Booking {
            id: made.id,
            start_timestamp: Some(at(1_704_103_200)),
            end_timestamp: Some(at(1_704_106_800)),
            arrival_timestamp: Some(at(1_704_105_000)),
            adult_count: 4,
            child_count: 0,
            towels: true,
            created_at: at(1),
            modified_at: Some(at(8)),
        })
    );
}

#[test]
fn update_leaves_other_bookings_alone() {
    let mut store = Store::new();
    let a = Booking::create(&mut store, None, None, None, 1, 0, false, at(1)).unwrap();
    let b = Booking::create(&mut store, None, None, None, 2, 0, false, at(2)).unwrap();
    let c = Booking::create(&mut store, None, None, None, 3, 0, false, at(3)).unwrap();
    let changed =
        Booking::update(&mut store, b.id, None, None, None, Some(7), None, None, at(4)).unwrap();
    assert_eq!(Booking::read_all(&store), Ok(vec![a, changed, c]));
}

#[test]
fn update_with_malformed_timestamp_fails_and_changes_nothing() {
    let mut store = Store::new();
    let made = Booking::create(&mut store, None, None, None, 2, 1, false, at(1)).unwrap();
    let outcome = Booking::update(
        &mut store,
        made.id,
        text("2024-13-40 99:99:99 +0000"),
        None,
        None,
        Some(9),
        None,
        None,
        at(2),
    );
    assert_eq!(outcome, Err(Error::FormatError));
    assert_eq!(Booking::read_one(&store, made.id), Ok(made));
    assert_eq!(
        Booking::update(&mut store, 999, text("nope"), None, None, None, None, None, at(2)),
        Err(Error::FormatError)
    );
}

#[test]
fn update_of_missing_booking_is_not_found() {
    let mut store = Store::new();
    assert_eq!(
        Booking::update(&mut store, 1, None, None, None, Some(1), None, None, at(2)),
        Err(Error::NotFound)
    );
}

#[test]
fn patch_takes_parsed_fields() {
    let mut store = Store::new();
    let made = Booking::insert(&mut store, Some(at(10)), None, None, 2, 0, false, at(1)).unwrap();
    let updated =
        Booking::patch(&mut store, made.id, None, Some(at(20)), None, None, Some(3), None, at(2));
    assert_eq!(
        updated,
        Ok(Booking { end_timestamp: Some(at(20)), child_count: 3, modified_at: Some(at(2)), ..made })
    );
    assert_eq!(
        Booking::patch(&mut store, 40, None, None, None, None, None, None, at(2)),
        Err(Error::NotFound)
    );
}

#[test]
fn merge_keeps_what_is_not_supplied() {
    let row = Booking {
        id: 3,
        start_timestamp: Some(at(1)),
        end_timestamp: None,
        arrival_timestamp: Some(at(2)),
        adult_count: 2,
        child_count: 1,
        towels: true,
        created_at: at(0),
        modified_at: Some(at(4)),
    };
    assert_eq!(
        row.merge(None, None, None, None, None, None, at(5)),
        Booking { modified_at: Some(at(5)), ..row }
    );
    assert_eq!(
        row.merge(None, Some(at(9)), None, None, Some(0), Some(false), at(6)),
        Booking {
            end_timestamp: Some(at(9)),
            child_count: 0,
            towels: false,
            modified_at: Some(at(6)),
            ..row
        }
    );
}

#[test]
fn delete_returns_the_row_as_it_was() {
    let mut store = Store::new();
    let a = Booking::create(&mut store, None, None, None, 1, 0, false, at(1)).unwrap();
    let b = Booking::create(&mut store, None, None, None, 2, 0, true, at(2)).unwrap();
    assert_eq!(Booking::delete(&mut store, a.id), Ok(a));
    assert_eq!(Booking::read_one(&store, a.id), Err(Error::NotFound));
    assert_eq!(Booking::read_all(&store), Ok(vec![b]));
}

#[test]
fn second_delete_of_a_booking_is_not_found() {
    let mut store = Store::new();
    let a = Booking::create(&mut store, None, None, None, 1, 0, false, at(1)).unwrap();
    let b = Booking::create(&mut store, None, None, None, 2, 0, true, at(2)).unwrap();
    assert_eq!(Booking::delete(&mut store, a.id), Ok(a));
    assert_eq!(Booking::delete(&mut store, a.id), Err(Error::NotFound));
    assert_eq!(Booking::read_all(&store), Ok(vec![b]));
}

#[test]
fn delete_of_missing_booking_is_not_found() {
    let mut store = Store::new();
    assert_eq!(Booking::delete(&mut store, 999), Err(Error::NotFound));
}
