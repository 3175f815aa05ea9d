use hotel_reservations::booking::Booking;
use hotel_reservations::facade::{Mutation, Query};
use hotel_reservations::error::Error;
use hotel_reservations::guest::Guest;
use hotel_reservations::store::Store;
use hotel_reservations::timestamp::Instant;

fn at(secs: i64) -> Instant {
    Instant { secs, nanos: 0 }
}

fn guest(store: &mut Store, first: &str) -> Guest {
    Guest::create(
        store,
        "Doe".to_string(),
        first.to_string(),
        "doe@x.com".to_string(),
        None,
        None,
        None,
        None,
        at(1),
    )
    .unwrap()
}

fn booking(store: &mut Store) -> Booking {
    Booking::create(store, None, None, None, 2, 0, false, at(1)).unwrap()
}

#[test]
fn guests_of_a_booking_are_the_linked_ones() {
    let mut store = Store::new();
    let b1 = booking(&mut store);
    let b2 = booking(&mut store);
    let ann = guest(&mut store, "Ann");
    let bob = guest(&mut store, "Bob");
    let cy = guest(&mut store, "Cy");
    store.link(b1.id, cy.id).unwrap();
    store.link(b1.id, ann.id).unwrap();
    store.link(b2.id, bob.id).unwrap();
    assert_eq!(b1.guests(&store), Ok(vec![ann.clone(), cy.clone()]));
    assert_eq!(b2.guests(&store), Ok(vec![bob.clone()]));
    assert_eq!(ann.bookings(&store), Ok(vec![b1]));
    assert_eq!(bob.bookings(&store), Ok(vec![b2]));
    assert_eq!(cy.bookings(&store), Ok(vec![b1]));
}

#[test]
fn relation_reads_the_same_from_both_sides() {
    let mut store = Store::new();
    let bookings = vec![booking(&mut store), booking(&mut store), booking(&mut store)];
    let guests = vec![guest(&mut store, "Ann"), guest(&mut store, "Bob")];
    store.link(bookings[0].id, guests[0].id).unwrap();
    store.link(bookings[0].id, guests[1].id).unwrap();
    store.link(bookings[2].id, guests[1].id).unwrap();
    for b in bookings.iter() {
        for g in guests.iter() {
            let on_booking = b.guests(&store).unwrap().contains(g);
            let of_guest = g.bookings(&store).unwrap().contains(b);
            assert_eq!(on_booking, of_guest);
            assert_eq!(on_booking, store.is_linked(b.id, g.id));
        }
    }
}

#[test]
fn booking_without_guests_resolves_to_nothing() {
    let mut store = Store::new();
    let b = booking(&mut store);
    let g = guest(&mut store, "Ann");
    assert_eq!(b.guests(&store), Ok(vec![]));
    assert_eq!(g.bookings(&store), Ok(vec![]));
}

#[test]
fn missing_booking_resolves_to_nothing() {
    let mut store = Store::new();
    let b = booking(&mut store);
    let g = guest(&mut store, "Ann");
    store.link(b.id, g.id).unwrap();
    let ghost = Booking { id: 999, ..b };
    assert_eq!(ghost.guests(&store), Ok(vec![]));
    let nobody = Guest { id: 999, ..g };
    assert_eq!(nobody.bookings(&store), Ok(vec![]));
}

#[test]
fn link_records_a_pair_once() {
    let mut store = Store::new();
    let b = booking(&mut store);
    let g = guest(&mut store, "Ann");
    assert!(!store.is_linked(b.id, g.id));
    store.link(b.id, g.id).unwrap();
    store.link(b.id, g.id).unwrap();
    assert!(store.is_linked(b.id, g.id));
    assert!(!store.is_linked(g.id, b.id + 1));
    assert_eq!(store.link(b.id + 1, g.id), Err(Error::NotFound));
    assert_eq!(store.link(b.id, g.id + 1), Err(Error::NotFound));
    assert!(!store.is_linked(b.id + 1, g.id));
    assert!(!store.is_linked(b.id, g.id + 1));
    assert_eq!(b.guests(&store), Ok(vec![g]));
}

#[test]
fn deleted_rows_drop_out_of_the_relation() {
    let mut store = Store::new();
    let b = booking(&mut store);
    let ann = guest(&mut store, "Ann");
    let bob = guest(&mut store, "Bob");
    store.link(b.id, ann.id).unwrap();
    store.link(b.id, bob.id).unwrap();
    Guest::delete(&mut store, ann.id).unwrap();
    assert_eq!(b.guests(&store), Ok(vec![bob.clone()]));
    Booking::delete(&mut store, b.id).unwrap();
    assert_eq!(bob.bookings(&store), Ok(vec![]));
    assert!(store.is_linked(b.id, ann.id));
    let later = guest(&mut store, "Cy");
    assert_ne!(later.id, ann.id);
    assert_eq!(later.bookings(&store), Ok(vec![]));
}

#[test]
fn relation_does_not_change_the_store() {
    let mut store = Store::new();
    let b = booking(&mut store);
    let g = guest(&mut store, "Ann");
    store.link(b.id, g.id).unwrap();
    b.guests(&store).unwrap();
    g.bookings(&store).unwrap();
    assert_eq!(Booking::read_all(&store), Ok(vec![b]));
    assert_eq!(Guest::read_all(&store), Ok(vec![g]));
}

#[test]
fn queries_dispatch_to_the_stores() {
    let mut store = Store::new();
    let b = booking(&mut store);
    let g = guest(&mut store, "Ann");
    assert_eq!(Query.bookings(&store), Ok(vec![b]));
    assert_eq!(Query.booking(&store, b.id), Ok(b));
    assert_eq!(Query.booking(&store, 999), Err(Error::NotFound));
    assert_eq!(Query.guests(&store), Ok(vec![g.clone()]));
    assert_eq!(Query.guest(&store, g.id), Ok(g));
    assert_eq!(Query.guest(&store, 999), Err(Error::NotFound));
}

#[test]
fn mutations_dispatch_to_the_booking_store() {
    let mut store = Store::new();
    let made = Mutation
        .create_booking(
            &mut store,
            Some("2024-01-01 10:00:00 +0000".to_string()),
            None,
            None,
            2,
            0,
            false,
            at(1),
        )
        .unwrap();
    assert_eq!(made.start_timestamp, Some(at(1_704_103_200)));
    assert_eq!(
        Mutation.create_booking(&mut store, Some("x".to_string()), None, None, 2, 0, false, at(1)),
        Err(Error::FormatError)
    );
    let updated = Mutation
        .update_booking(&mut store, made.id, None, None, None, None, Some(2), None, at(2))
        .unwrap();
    assert_eq!(updated, Booking { child_count: 2, modified_at: Some(at(2)), ..made });
    assert_eq!(Mutation.delete_booking(&mut store, made.id), Ok(updated));
    assert_eq!(Mutation.delete_booking(&mut store, made.id), Err(Error::NotFound));
    assert_eq!(
        Mutation.update_booking(&mut store, made.id, None, None, None, None, None, None, at(3)),
        Err(Error::NotFound)
    );
}

#[test]
fn mutations_dispatch_to_the_guest_store() {
    let mut store = Store::new();
    let made = Mutation
        .create_guest(
            &mut store,
            "Doe".to_string(),
            "Jane".to_string(),
            "jane@x.com".to_string(),
            None,
            None,
            None,
            None,
            at(1),
        )
        .unwrap();
    assert_eq!(made.id, 1);
    assert_eq!(
        Mutation.create_guest(
            &mut store,
            "Doe".to_string(),
            "Jane".to_string(),
            String::new(),
            None,
            None,
            None,
            None,
            at(1),
        ),
        Err(Error::ValidationError)
    );
    let updated = Mutation
        .update_guest(
            &mut store,
            made.id,
            None,
            None,
            None,
            None,
            Some("NZ".to_string()),
            None,
            None,
            at(2),
        )
        .unwrap();
    assert_eq!(
        updated,
        Guest { country: Some("NZ".to_string()), modified_at: Some(at(2)), ..made }
    );
    assert_eq!(Mutation.delete_guest(&mut store, updated.id), Ok(updated));
    assert_eq!(Mutation.delete_guest(&mut store, 1), Err(Error::NotFound));
}
