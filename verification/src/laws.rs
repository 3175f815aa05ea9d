//! What holds of parsing and of the store's operations taken together.

use crate::booking::Booking;
use crate::error::Error;
use crate::guest::{Gender, Guest};
use crate::store::Tables;
use crate::timestamp::{is_well_formed, parsed, parsed_optional, Instant};
use vstd::prelude::*;

verus! {

/// A text that does not match the pattern never parses to a value: the
/// outcome is a format error. No other error ever comes out of parsing, and
/// an absent field is no error at all.
pub proof fn malformed_text_is_a_format_error(text: Seq<char>)
    ensures
        !is_well_formed(text) ==> parsed(text) == Err::<Instant, Error>(Error::FormatError),
        parsed(text) is Err ==> parsed(text) == Err::<Instant, Error>(Error::FormatError),
        parsed_optional(Some(text)) is Err <==> parsed(text) is Err,
        parsed_optional(None) == Ok::<Option<Instant>, Error>(None),
{
}

/// `earlier_than` is a strict total order on instants.
pub proof fn instants_are_strictly_ordered(a: Instant, b: Instant, c: Instant)
    ensures
        !a.earlier_than(a),
        a.earlier_than(b) && b.earlier_than(c) ==> a.earlier_than(c),
        a.earlier_than(b) || b.earlier_than(a) || a == b,
        !(a.earlier_than(b) && b.earlier_than(a)),
{
}

/// Deleting a booking twice: the second deletion finds nothing and changes
/// nothing.
pub proof fn second_booking_delete_finds_nothing(tables: Tables, id: i32)
    requires
        tables.valid(),
    ensures
        tables.remove_booking(id).0.valid(),
        tables.remove_booking(id).0.remove_booking(id) == (
            tables.remove_booking(id).0,
            Err::<Booking, Error>(Error::NotFound),
        ),
{
    let after = tables.remove_booking(id).0;
    if tables.has_booking(id) {
        let at = tables.booking_index(id);
        assert forall|i: int| 0 <= i < after.bookings.len() implies (
        #[trigger] after.bookings[i]).id != id by {
            if i < at {
                assert(after.bookings[i] == tables.bookings[i]);
            } else {
                assert(after.bookings[i] == tables.bookings[i + 1]);
            }
        }
    }
}

/// Deleting a guest twice: the second deletion finds nothing and changes
/// nothing.
pub proof fn second_guest_delete_finds_nothing(tables: Tables, id: i32)
    requires
        tables.valid(),
    ensures
        tables.remove_guest(id).0.valid(),
        tables.remove_guest(id).0.remove_guest(id) == (
            tables.remove_guest(id).0,
            Err::<Guest, Error>(Error::NotFound),
        ),
{
    let after = tables.remove_guest(id).0;
    if tables.has_guest(id) {
        let at = tables.guest_index(id);
        assert forall|i: int| 0 <= i < after.guests.len() implies (#[trigger] after.guests[i]).id
            != id by {
            if i < at {
                assert(after.guests[i] == tables.guests[i]);
            } else {
                assert(after.guests[i] == tables.guests[i + 1]);
            }
        }
    }
}

/// An update of a booking that supplies no field changes nothing but
/// `modified_at`; one that supplies a single field changes that field and
/// `modified_at` alone.
pub proof fn booking_update_replaces_supplied_fields_only(
    row: Booking,
    at: Instant,
    count: i16,
    flag: bool,
    now: Instant,
)
    ensures
        row.merged(None, None, None, None, None, None, now) == (Booking {
            modified_at: Some(now),
            ..row
        }),
        row.merged(Some(at), None, None, None, None, None, now) == (Booking {
            start_timestamp: Some(at),
            modified_at: Some(now),
            ..row
        }),
        row.merged(None, Some(at), None, None, None, None, now) == (Booking {
            end_timestamp: Some(at),
            modified_at: Some(now),
            ..row
        }),
        row.merged(None, None, Some(at), None, None, None, now) == (Booking {
            arrival_timestamp: Some(at),
            modified_at: Some(now),
            ..row
        }),
        row.merged(None, None, None, Some(count), None, None, now) == (Booking {
            adult_count: count,
            modified_at: Some(now),
            ..row
        }),
        row.merged(None, None, None, None, Some(count), None, now) == (Booking {
            child_count: count,
            modified_at: Some(now),
            ..row
        }),
        row.merged(None, None, None, None, None, Some(flag), now) == (Booking {
            towels: flag,
            modified_at: Some(now),
            ..row
        }),
{
}

/// An update of a guest that supplies no field changes nothing but
/// `modified_at`; one that supplies a single field changes that field and
/// `modified_at` alone.
pub proof fn guest_update_replaces_supplied_fields_only(
    row: Guest,
    text: String,
    gender: Gender,
    age: i16,
    now: Instant,
)
    ensures
        row.merged(None, None, None, None, None, None, None, now) == (Guest {
            modified_at: Some(now),
            ..row
        }),
        row.merged(Some(text), None, None, None, None, None, None, now) == (Guest {
            last_name: text,
            modified_at: Some(now),
            ..row
        }),
        row.merged(None, Some(text), None, None, None, None, None, now) == (Guest {
            first_name: text,
            modified_at: Some(now),
            ..row
        }),
        row.merged(None, None, Some(text), None, None, None, None, now) == (Guest {
            email: text,
            modified_at: Some(now),
            ..row
        }),
        row.merged(None, None, None, Some(text), None, None, None, now) == (Guest {
            passport_number: Some(text),
            modified_at: Some(now),
            ..row
        }),
        row.merged(None, None, None, None, Some(text), None, None, now) == (Guest {
            country: Some(text),
            modified_at: Some(now),
            ..row
        }),
        row.merged(None, None, None, None, None, Some(gender), None, now) == (Guest {
            gender: Some(gender),
            modified_at: Some(now),
            ..row
        }),
        row.merged(None, None, None, None, None, None, Some(age), now) == (Guest {
            age: Some(age),
            modified_at: Some(now),
            ..row
        }),
{
}

/// Whatever an update supplies, the row keeps its id and the instant of its
/// creation, and carries the instant of the update.
pub proof fn update_keeps_identity(
    booking: Booking,
    guest: Guest,
    at: Option<Instant>,
    count: Option<i16>,
    flag: Option<bool>,
    text: Option<String>,
    gender: Option<Gender>,
    now: Instant,
)
    ensures
        booking.merged(at, at, at, count, count, flag, now).id == booking.id,
        booking.merged(at, at, at, count, count, flag, now).created_at == booking.created_at,
        booking.merged(at, at, at, count, count, flag, now).modified_at == Some(now),
        guest.merged(text, text, text, text, text, gender, count, now).id == guest.id,
        guest.merged(text, text, text, text, text, gender, count, now).created_at
            == guest.created_at,
        guest.merged(text, text, text, text, text, gender, count, now).modified_at == Some(now),
{
}

/// A row that is created gets an id that no stored row carries, the tables
/// stay valid, and every row stored before is still there.
pub proof fn created_rows_get_fresh_ids(
    tables: Tables,
    at: Option<Instant>,
    count: i16,
    flag: bool,
    last_name: String,
    first_name: String,
    email: String,
    text: Option<String>,
    gender: Option<Gender>,
    age: Option<i16>,
    now: Instant,
)
    requires
        tables.valid(),
    ensures
        ({
            let (after, outcome) = tables.insert_booking(at, at, at, count, count, flag, now);
            &&& after.valid()
            &&& outcome is Ok ==> !tables.has_booking(outcome->Ok_0.id)
            &&& outcome is Ok ==> after.bookings.drop_last() == tables.bookings
            &&& outcome is Err ==> after == tables
        }),
        ({
            let (after, outcome) = tables.insert_guest(
                last_name,
                first_name,
                email,
                text,
                text,
                gender,
                age,
                now,
            );
            &&& after.valid()
            &&& outcome is Ok ==> !tables.has_guest(outcome->Ok_0.id)
            &&& outcome is Ok ==> after.guests.drop_last() == tables.guests
            &&& outcome is Err ==> after == tables
        }),
{
    let (after, outcome) = tables.insert_booking(at, at, at, count, count, flag, now);
    if outcome is Ok {
        assert(after.bookings.drop_last() =~= tables.bookings);
    }
    let (after_guest, guest_outcome) = tables.insert_guest(
        last_name,
        first_name,
        email,
        text,
        text,
        gender,
        age,
        now,
    );
    if guest_outcome is Ok {
        assert(after_guest.guests.drop_last() =~= tables.guests);
    }
}

/// An update of a stored booking returns the merged row, stores it in the
/// old row's place, and leaves every other row and table as it was.
pub proof fn booking_update_touches_one_row(
    tables: Tables,
    id: i32,
    start_timestamp: Option<Instant>,
    end_timestamp: Option<Instant>,
    arrival_timestamp: Option<Instant>,
    adult_count: Option<i16>,
    child_count: Option<i16>,
    towels: Option<bool>,
    now: Instant,
)
    requires
        tables.valid(),
        tables.has_booking(id),
    ensures
        ({
            let (after, outcome) = tables.patch_booking(
                id,
                start_timestamp,
                end_timestamp,
                arrival_timestamp,
                adult_count,
                child_count,
                towels,
                now,
            );
            let before = tables.booking(id)->Ok_0;
            &&& after.valid()
            &&& outcome == Ok::<Booking, Error>(
                before.merged(
                    start_timestamp,
                    end_timestamp,
                    arrival_timestamp,
                    adult_count,
                    child_count,
                    towels,
                    now,
                ),
            )
            &&& after.booking(id) == outcome
            &&& after.bookings.len() == tables.bookings.len()
            &&& forall|other: i32| other != id ==> after.booking(other) == tables.booking(other)
            &&& after.guests == tables.guests
            &&& after.links == tables.links
        }),
{
    let (after, outcome) = tables.patch_booking(
        id,
        start_timestamp,
        end_timestamp,
        arrival_timestamp,
        adult_count,
        child_count,
        towels,
        now,
    );
    let at = tables.booking_index(id);
    assert(after.bookings[at].id == id);
    assert(after.has_booking(id));
    assert(after.booking_index(id) == at);
    assert forall|other: i32| other != id implies after.booking(other) == tables.booking(
        other,
    ) by {
        if tables.has_booking(other) {
            let k = tables.booking_index(other);
            assert(after.bookings[k] == tables.bookings[k]);
            assert(after.has_booking(other));
            let k2 = after.booking_index(other);
            assert(after.bookings[k2].id == other);
            assert(tables.bookings[k2].id == other);
        } else if after.has_booking(other) {
            let k2 = after.booking_index(other);
            assert(tables.bookings[k2].id == other);
        }
    }
}

/// An update of a stored guest returns the merged row, stores it in the old
/// row's place, and leaves every other row and table as it was.
pub proof fn guest_update_touches_one_row(
    tables: Tables,
    id: i32,
    last_name: Option<String>,
    first_name: Option<String>,
    email: Option<String>,
    passport_number: Option<String>,
    country: Option<String>,
    gender: Option<Gender>,
    age: Option<i16>,
    now: Instant,
)
    requires
        tables.valid(),
        tables.has_guest(id),
    ensures
        ({
            let (after, outcome) = tables.patch_guest(
                id,
                last_name,
                first_name,
                email,
                passport_number,
                country,
                gender,
                age,
                now,
            );
            let before = tables.guest(id)->Ok_0;
            &&& after.valid()
            &&& outcome == Ok::<Guest, Error>(
                before.merged(
                    last_name,
                    first_name,
                    email,
                    passport_number,
                    country,
                    gender,
                    age,
                    now,
                ),
            )
            &&& after.guest(id) == outcome
            &&& after.guests.len() == tables.guests.len()
            &&& forall|other: i32| other != id ==> after.guest(other) == tables.guest(other)
            &&& after.bookings == tables.bookings
            &&& after.links == tables.links
        }),
{
    let (after, outcome) = tables.patch_guest(
        id,
        last_name,
        first_name,
        email,
        passport_number,
        country,
        gender,
        age,
        now,
    );
    let at = tables.guest_index(id);
    assert(after.guests[at].id == id);
    assert(after.has_guest(id));
    assert(after.guest_index(id) == at);
    assert forall|other: i32| other != id implies after.guest(other) == tables.guest(other) by {
        if tables.has_guest(other) {
            let k = tables.guest_index(other);
            assert(after.guests[k] == tables.guests[k]);
            assert(after.has_guest(other));
            let k2 = after.guest_index(other);
            assert(after.guests[k2].id == other);
            assert(tables.guests[k2].id == other);
        } else if after.has_guest(other) {
            let k2 = after.guest_index(other);
            assert(tables.guests[k2].id == other);
        }
    }
}

/// Reading a booking right after its creation returns what the creation
/// returned.
pub proof fn created_booking_reads_back(
    tables: Tables,
    start_timestamp: Option<Seq<char>>,
    end_timestamp: Option<Seq<char>>,
    arrival_timestamp: Option<Seq<char>>,
    adult_count: i16,
    child_count: i16,
    towels: bool,
    now: Instant,
)
    requires
        tables.valid(),
    ensures
        ({
            let (after, outcome) = tables.create_booking(
                start_timestamp,
                end_timestamp,
                arrival_timestamp,
                adult_count,
                child_count,
                towels,
                now,
            );
            outcome is Ok ==> after.booking(outcome->Ok_0.id) == outcome
        }),
{
    let (after, outcome) = tables.create_booking(
        start_timestamp,
        end_timestamp,
        arrival_timestamp,
        adult_count,
        child_count,
        towels,
        now,
    );
    if outcome is Ok {
        let last = tables.bookings.len() as int;
        assert(after.bookings[last] == outcome->Ok_0);
        let k = after.booking_index(outcome->Ok_0.id);
        if k < last {
            assert(after.bookings[k] == tables.bookings[k]);
        }
    }
}

/// Reading a guest right after its creation returns what the creation
/// returned.
pub proof fn created_guest_reads_back(
    tables: Tables,
    last_name: String,
    first_name: String,
    email: String,
    passport_number: Option<String>,
    country: Option<String>,
    gender: Option<Gender>,
    age: Option<i16>,
    now: Instant,
)
    requires
        tables.valid(),
    ensures
        ({
            let (after, outcome) = tables.insert_guest(
                last_name,
                first_name,
                email,
                passport_number,
                country,
                gender,
                age,
                now,
            );
            outcome is Ok ==> after.guest(outcome->Ok_0.id) == outcome
        }),
{
    let (after, outcome) = tables.insert_guest(
        last_name,
        first_name,
        email,
        passport_number,
        country,
        gender,
        age,
        now,
    );
    if outcome is Ok {
        let last = tables.guests.len() as int;
        assert(after.guests[last] == outcome->Ok_0);
        let k = after.guest_index(outcome->Ok_0.id);
        if k < last {
            assert(after.guests[k] == tables.guests[k]);
        }
    }
}

/// For a booking row and a guest row of one store, the guest is among the
/// booking's guests exactly where the booking is among the guest's
/// bookings, and that is exactly where the association holds their pair.
pub proof fn relation_is_symmetric(tables: Tables, booking: Booking, guest: Guest)
    requires
        tables.valid(),
        tables.bookings.contains(booking),
        tables.guests.contains(guest),
    ensures
        tables.guests_of(booking.id).contains(guest) <==> tables.linked(booking.id, guest.id),
        tables.bookings_of(guest.id).contains(booking) <==> tables.linked(booking.id, guest.id),
        tables.guests_of(booking.id).contains(guest) <==> tables.bookings_of(guest.id).contains(
            booking,
        ),
{
    let on_booking = |g: Guest| tables.linked(booking.id, g.id);
    let of_guest = |b: Booking| tables.linked(b.id, guest.id);
    if tables.linked(booking.id, guest.id) {
        let i = choose|i: int| 0 <= i < tables.guests.len() && tables.guests[i] == guest;
        tables.guests.lemma_filter_contains(on_booking, i);
        let j = choose|j: int| 0 <= j < tables.bookings.len() && tables.bookings[j] == booking;
        tables.bookings.lemma_filter_contains(of_guest, j);
    } else {
        if tables.guests.filter(on_booking).contains(guest) {
            let i = choose|i: int|
                0 <= i < tables.guests.filter(on_booking).len() && tables.guests.filter(
                    on_booking,
                )[i] == guest;
            tables.guests.lemma_filter_pred(on_booking, i);
        }
        if tables.bookings.filter(of_guest).contains(booking) {
            let j = choose|j: int|
                0 <= j < tables.bookings.filter(of_guest).len() && tables.bookings.filter(
                    of_guest,
                )[j] == booking;
            tables.bookings.lemma_filter_pred(of_guest, j);
        }
    }
}

/// A booking that does not exist has no guests, and a guest that does not
/// exist has no bookings; so has one that no pair of the association names.
pub proof fn unlinked_rows_resolve_to_nothing(tables: Tables, booking_id: i32, guest_id: i32)
    ensures
        (forall|g: i32| !tables.linked(booking_id, g)) ==> tables.guests_of(booking_id).len() == 0,
        (forall|b: i32| !tables.linked(b, guest_id)) ==> tables.bookings_of(guest_id).len() == 0,
{
    let on_booking = |g: Guest| tables.linked(booking_id, g.id);
    let of_guest = |b: Booking| tables.linked(b.id, guest_id);
    if forall|g: i32| !tables.linked(booking_id, g) {
        if tables.guests.filter(on_booking).len() > 0 {
            tables.guests.lemma_filter_pred(on_booking, 0);
        }
    }
    if forall|b: i32| !tables.linked(b, guest_id) {
        if tables.bookings.filter(of_guest).len() > 0 {
            tables.bookings.lemma_filter_pred(of_guest, 0);
        }
    }
}

} // verus!
