//! The tables and the operations of the two entity stores.
//!
//! A [`Store`] holds the booking rows, the guest rows and the association
//! between them. Every operation is one atomic step: it either succeeds and
//! changes the store as its contract says, or fails and leaves it as it was.
//!
//! Deleting a row never touches the association. A pair is recorded only
//! between rows that exist; pairs that name a row deleted since stay behind
//! and match nothing, since ids are never handed out twice.

use crate::booking::Booking;
use crate::error::Error;
use crate::guest::{has_required_fields, required_present, Gender, Guest};
use crate::timestamp::{parse_optional, parsed_optional, text_of, Instant};
use vstd::prelude::*;

verus! {

/// What a store holds, as plain sequences.
pub struct Tables {
    /// The booking rows, in the order they were created.
    pub bookings: Seq<Booking>,
    /// The guest rows, in the order they were created.
    pub guests: Seq<Guest>,
    /// The association: pairs of a booking id and a guest id.
    pub links: Seq<(i32, i32)>,
    /// The id the next booking gets.
    pub next_booking_id: i32,
    /// The id the next guest gets.
    pub next_guest_id: i32,
}

impl Tables {
    /// Tables without rows or pairs, whose first ids will be the given ones.
    pub open spec fn empty(next_booking_id: i32, next_guest_id: i32) -> Tables {
        Tables {
            bookings: Seq::empty(),
            guests: Seq::empty(),
            links: Seq::empty(),
            next_booking_id,
            next_guest_id,
        }
    }

    /// No two rows of a table share an id, and every id in use lies below
    /// the next one to be handed out.
    pub open spec fn valid(self) -> bool {
        &&& forall|i: int, j: int|
            0 <= i < j < self.bookings.len() ==> (#[trigger] self.bookings[i]).id != (
            #[trigger] self.bookings[j]).id
        &&& forall|i: int|
            0 <= i < self.bookings.len() ==> (#[trigger] self.bookings[i]).id
                < self.next_booking_id
        &&& forall|i: int, j: int|
            0 <= i < j < self.guests.len() ==> (#[trigger] self.guests[i]).id != (
            #[trigger] self.guests[j]).id
        &&& forall|i: int|
            0 <= i < self.guests.len() ==> (#[trigger] self.guests[i]).id < self.next_guest_id
    }

    /// Some booking row carries `id`.
    pub open spec fn has_booking(self, id: i32) -> bool {
        exists|i: int| 0 <= i < self.bookings.len() && (#[trigger] self.bookings[i]).id == id
    }

    /// The position of the booking row that carries `id`.
    pub open spec fn booking_index(self, id: i32) -> int {
        choose|i: int| 0 <= i < self.bookings.len() && (#[trigger] self.bookings[i]).id == id
    }

    /// The outcome of reading the booking `id`.
    pub open spec fn booking(self, id: i32) -> Result<Booking, Error> {
        if self.has_booking(id) {
            Ok(self.bookings[self.booking_index(id)])
        } else {
            Err(Error::NotFound)
        }
    }

    /// The tables and the outcome after a booking with these fields is
    /// created at `now`.
    pub open spec fn insert_booking(
        self,
        start_timestamp: Option<Instant>,
        end_timestamp: Option<Instant>,
        arrival_timestamp: Option<Instant>,
        adult_count: i16,
        child_count: i16,
        towels: bool,
        now: Instant,
    ) -> (Tables, Result<Booking, Error>) {
        if self.next_booking_id == i32::MAX {
            (self, Err(Error::StoreError))
        } else {
            let row = Booking {
                id: self.next_booking_id,
                start_timestamp,
                end_timestamp,
                arrival_timestamp,
                adult_count,
                child_count,
                towels,
                created_at: now,
                modified_at: None,
            };
            (
                Tables {
                    bookings: self.bookings.push(row),
                    next_booking_id: (self.next_booking_id + 1) as i32,
                    ..self
                },
                Ok(row),
            )
        }
    }

    /// The tables and the outcome after the booking `id` is updated at `now`.
    pub open spec fn patch_booking(
        self,
        id: i32,
        start_timestamp: Option<Instant>,
        end_timestamp: Option<Instant>,
        arrival_timestamp: Option<Instant>,
        adult_count: Option<i16>,
        child_count: Option<i16>,
        towels: Option<bool>,
        now: Instant,
    ) -> (Tables, Result<Booking, Error>) {
        if self.has_booking(id) {
            let at = self.booking_index(id);
            let row = self.bookings[at].merged(
                start_timestamp,
                end_timestamp,
                arrival_timestamp,
                adult_count,
                child_count,
                towels,
                now,
            );
            (Tables { bookings: self.bookings.update(at, row), ..self }, Ok(row))
        } else {
            (self, Err(Error::NotFound))
        }
    }

    /// The tables and the outcome after the booking `id` is deleted.
    pub open spec fn remove_booking(self, id: i32) -> (Tables, Result<Booking, Error>) {
        if self.has_booking(id) {
            let at = self.booking_index(id);
            (Tables { bookings: self.bookings.remove(at), ..self }, Ok(self.bookings[at]))
        } else {
            (self, Err(Error::NotFound))
        }
    }

    /// The tables and the outcome after a booking is created from timestamp
    /// texts: a present text that does not parse aborts the operation.
    pub open spec fn create_booking(
        self,
        start_timestamp: Option<Seq<char>>,
        end_timestamp: Option<Seq<char>>,
        arrival_timestamp: Option<Seq<char>>,
        adult_count: i16,
        child_count: i16,
        towels: bool,
        now: Instant,
    ) -> (Tables, Result<Booking, Error>) {
        match (
            parsed_optional(start_timestamp),
            parsed_optional(end_timestamp),
            parsed_optional(arrival_timestamp),
        ) {
            (Ok(start), Ok(end), Ok(arrival)) => self.insert_booking(
                start,
                end,
                arrival,
                adult_count,
                child_count,
                towels,
                now,
            ),
            _ => (self, Err(Error::FormatError)),
        }
    }

    /// The tables and the outcome after the booking `id` is updated from
    /// timestamp texts: a present text that does not parse aborts the
    /// operation, whether or not the row exists.
    pub open spec fn update_booking(
        self,
        id: i32,
        start_timestamp: Option<Seq<char>>,
        end_timestamp: Option<Seq<char>>,
        arrival_timestamp: Option<Seq<char>>,
        adult_count: Option<i16>,
        child_count: Option<i16>,
        towels: Option<bool>,
        now: Instant,
    ) -> (Tables, Result<Booking, Error>) {
        match (
            parsed_optional(start_timestamp),
            parsed_optional(end_timestamp),
            parsed_optional(arrival_timestamp),
        ) {
            (Ok(start), Ok(end), Ok(arrival)) => self.patch_booking(
                id,
                start,
                end,
                arrival,
                adult_count,
                child_count,
                towels,
                now,
            ),
            _ => (self, Err(Error::FormatError)),
        }
    }

    /// Some guest row carries `id`.
    pub open spec fn has_guest(self, id: i32) -> bool {
        exists|i: int| 0 <= i < self.guests.len() && (#[trigger] self.guests[i]).id == id
    }

    /// The position of the guest row that carries `id`.
    pub open spec fn guest_index(self, id: i32) -> int {
        choose|i: int| 0 <= i < self.guests.len() && (#[trigger] self.guests[i]).id == id
    }

    /// The outcome of reading the guest `id`.
    pub open spec fn guest(self, id: i32) -> Result<Guest, Error> {
        if self.has_guest(id) {
            Ok(self.guests[self.guest_index(id)])
        } else {
            Err(Error::NotFound)
        }
    }

    /// The tables and the outcome after a guest with these fields is created
    /// at `now`. The three required texts must not be empty.
    pub open spec fn insert_guest(
        self,
        last_name: String,
        first_name: String,
        email: String,
        passport_number: Option<String>,
        country: Option<String>,
        gender: Option<Gender>,
        age: Option<i16>,
        now: Instant,
    ) -> (Tables, Result<Guest, Error>) {
        if !required_present(last_name@, first_name@, email@) {
            (self, Err(Error::ValidationError))
        } else if self.next_guest_id == i32::MAX {
            (self, Err(Error::StoreError))
        } else {
            let row = Guest {
                id: self.next_guest_id,
                last_name,
                first_name,
                email,
                passport_number,
                country,
                gender,
                age,
                created_at: now,
                modified_at: None,
            };
            (
                Tables {
                    guests: self.guests.push(row),
                    next_guest_id: (self.next_guest_id + 1) as i32,
                    ..self
                },
                Ok(row),
            )
        }
    }

    /// The tables and the outcome after the guest `id` is updated at `now`.
    pub open spec fn patch_guest(
        self,
        id: i32,
        last_name: Option<String>,
        first_name: Option<String>,
        email: Option<String>,
        passport_number: Option<String>,
        country: Option<String>,
        gender: Option<Gender>,
        age: Option<i16>,
        now: Instant,
    ) -> (Tables, Result<Guest, Error>) {
        if self.has_guest(id) {
            let at = self.guest_index(id);
            let row = self.guests[at].merged(
                last_name,
                first_name,
                email,
                passport_number,
                country,
                gender,
                age,
                now,
            );
            (Tables { guests: self.guests.update(at, row), ..self }, Ok(row))
        } else {
            (self, Err(Error::NotFound))
        }
    }

    /// The tables and the outcome after the guest `id` is deleted.
    pub open spec fn remove_guest(self, id: i32) -> (Tables, Result<Guest, Error>) {
        if self.has_guest(id) {
            let at = self.guest_index(id);
            (Tables { guests: self.guests.remove(at), ..self }, Ok(self.guests[at]))
        } else {
            (self, Err(Error::NotFound))
        }
    }

    /// The association holds the pair of this booking and this guest.
    pub open spec fn linked(self, booking_id: i32, guest_id: i32) -> bool {
        self.links.contains((booking_id, guest_id))
    }

    /// The tables and the outcome after the pair is added to the
    /// association: both rows must exist, and a pair is held once.
    pub open spec fn with_link(self, booking_id: i32, guest_id: i32) -> (Tables, Result<(), Error>) {
        if !self.has_booking(booking_id) || !self.has_guest(guest_id) {
            (self, Err(Error::NotFound))
        } else if self.linked(booking_id, guest_id) {
            (self, Ok(()))
        } else {
            (Tables { links: self.links.push((booking_id, guest_id)), ..self }, Ok(()))
        }
    }

    /// The guest rows that the association links to the booking
    /// `booking_id`, in table order.
    pub open spec fn guests_of(self, booking_id: i32) -> Seq<Guest> {
        self.guests.filter(|g: Guest| self.linked(booking_id, g.id))
    }

    /// The booking rows that the association links to the guest `guest_id`,
    /// in table order.
    pub open spec fn bookings_of(self, guest_id: i32) -> Seq<Booking> {
        self.bookings.filter(|b: Booking| self.linked(b.id, guest_id))
    }
}

/// The two entity tables and the association between them.
pub struct Store {
    bookings: Vec<Booking>,
    guests: Vec<Guest>,
    links: Vec<(i32, i32)>,
    next_booking_id: i32,
    next_guest_id: i32,
}

impl View for Store {
    type V = Tables;

    closed spec fn view(&self) -> Tables {
        Tables {
            bookings: self.bookings@,
            guests: self.guests@,
            links: self.links@,
            next_booking_id: self.next_booking_id,
            next_guest_id: self.next_guest_id,
        }
    }
}

impl Store {
    /// The store's tables are valid.
    pub open spec fn wf(&self) -> bool {
        self@.valid()
    }

    /// An empty store, whose first ids will be 1.
    pub fn new() -> (store: Store)
        ensures
            store.wf(),
            store@ == Tables::empty(1, 1),
    {
        Store::starting_at(1, 1)
    }

    /// An empty store whose first booking and first guest get the given ids.
    pub fn starting_at(next_booking_id: i32, next_guest_id: i32) -> (store: Store)
        ensures
            store.wf(),
            store@ == Tables::empty(next_booking_id, next_guest_id),
    {
        Store {
            bookings: Vec::new(),
            guests: Vec::new(),
            links: Vec::new(),
            next_booking_id,
            next_guest_id,
        }
    }

    fn find_booking(&self, id: i32) -> (found: Option<usize>)
        requires
            self.wf(),
        ensures
            found is Some <==> self@.has_booking(id),
            found is Some ==> found->Some_0 == self@.booking_index(id),
    {
        let mut i: usize = 0;
        while i < self.bookings.len()
            invariant
                i <= self.bookings.len(),
                self.wf(),
                forall|k: int| 0 <= k < i ==> (#[trigger] self.bookings@[k]).id != id,
            decreases self.bookings.len() - i,
        {
            if self.bookings[i].id == id {
                assert(self@.bookings[i as int].id == id);
                return Some(i);
            }
            i += 1;
        }
        None
    }

    fn find_guest(&self, id: i32) -> (found: Option<usize>)
        requires
            self.wf(),
        ensures
            found is Some <==> self@.has_guest(id),
            found is Some ==> found->Some_0 == self@.guest_index(id),
    {
        let mut i: usize = 0;
        while i < self.guests.len()
            invariant
                i <= self.guests.len(),
                self.wf(),
                forall|k: int| 0 <= k < i ==> (#[trigger] self.guests@[k]).id != id,
            decreases self.guests.len() - i,
        {
            if self.guests[i].id == id {
                assert(self@.guests[i as int].id == id);
                return Some(i);
            }
            i += 1;
        }
        None
    }

    /// Whether the association holds the pair of this booking and this guest.
    pub fn is_linked(&self, booking_id: i32, guest_id: i32) -> (yes: bool)
        ensures
            yes == self@.linked(booking_id, guest_id),
    {
        let mut i: usize = 0;
        while i < self.links.len()
            invariant
                i <= self.links.len(),
                forall|k: int| 0 <= k < i ==> self.links@[k] != (booking_id, guest_id),
            decreases self.links.len() - i,
        {
            let pair = self.links[i];
            if pair.0 == booking_id && pair.1 == guest_id {
                assert(self.links@[i as int] == (booking_id, guest_id));
                return true;
            }
            i += 1;
        }
        false
    }

    /// Records that the guest `guest_id` is on the booking `booking_id`.
    /// Where either row is missing nothing is recorded and the outcome is
    /// `NotFound`. A pair that is already recorded is not recorded twice.
    pub fn link(&mut self, booking_id: i32, guest_id: i32) -> (r: Result<(), Error>)
        requires
            old(self).wf(),
        ensures
            final(self).wf(),
            (final(self)@, r) == old(self)@.with_link(booking_id, guest_id),
    {
        if self.find_booking(booking_id).is_none() || self.find_guest(guest_id).is_none() {
            return Err(Error::NotFound);
        }
        if !self.is_linked(booking_id, guest_id) {
            self.links.push((booking_id, guest_id));
        }
        Ok(())
    }
}

impl Booking {
    /// Every booking row, in the order of creation.
    pub fn read_all(store: &Store) -> (r: Result<Vec<Booking>, Error>)
        ensures
            r is Ok,
            r->Ok_0@ == store@.bookings,
    {
        let mut rows: Vec<Booking> = Vec::new();
        let mut i: usize = 0;
        while i < store.bookings.len()
            invariant
                i <= store.bookings.len(),
                rows@ == store.bookings@.take(i as int),
            decreases store.bookings.len() - i,
        {
            rows.push(store.bookings[i]);
            assert(store.bookings@.take(i + 1) == store.bookings@.take(i as int).push(
                store.bookings@[i as int],
            ));
            i += 1;
        }
        assert(store.bookings@.take(i as int) == store.bookings@);
        Ok(rows)
    }

    /// The booking row that carries `id`, or `NotFound`.
    pub fn read_one(store: &Store, id: i32) -> (r: Result<Booking, Error>)
        requires
            store.wf(),
        ensures
            r == store@.booking(id),
    {
        match store.find_booking(id) {
            Some(at) => Ok(store.bookings[at]),
            None => Err(Error::NotFound),
        }
    }

    /// Creates a booking from fields that are already parsed. The row gets
    /// the next id, `created_at` is `now` and `modified_at` is absent. Where
    /// the ids are used up the store refuses.
    pub fn insert(
        store: &mut Store,
        start_timestamp: Option<Instant>,
        end_timestamp: Option<Instant>,
        arrival_timestamp: Option<Instant>,
        adult_count: i16,
        child_count: i16,
        towels: bool,
        now: Instant,
    ) -> (r: Result<Booking, Error>)
        requires
            old(store).wf(),
        ensures
            final(store).wf(),
            (final(store)@, r) == old(store)@.insert_booking(
                start_timestamp,
                end_timestamp,
                arrival_timestamp,
                adult_count,
                child_count,
                towels,
                now,
            ),
    {
        if store.next_booking_id == i32::MAX {
            return Err(Error::StoreError);
        }
        let row = Booking {
            id: store.next_booking_id,
            start_timestamp,
            end_timestamp,
            arrival_timestamp,
            adult_count,
            child_count,
            towels,
            created_at: now,
            modified_at: None,
        };
        store.bookings.push(row);
        store.next_booking_id = store.next_booking_id + 1;
        Ok(row)
    }

    /// Updates the booking `id` with fields that are already parsed: merge
    /// on absence, with `modified_at` set to `now`.
    pub fn patch(
        store: &mut Store,
        id: i32,
        start_timestamp: Option<Instant>,
        end_timestamp: Option<Instant>,
        arrival_timestamp: Option<Instant>,
        adult_count: Option<i16>,
        child_count: Option<i16>,
        towels: Option<bool>,
        now: Instant,
    ) -> (r: Result<Booking, Error>)
        requires
            old(store).wf(),
        ensures
            final(store).wf(),
            (final(store)@, r) == old(store)@.patch_booking(
                id,
                start_timestamp,
                end_timestamp,
                arrival_timestamp,
                adult_count,
                child_count,
                towels,
                now,
            ),
    {
        match store.find_booking(id) {
            Some(at) => {
                let row = store.bookings[at].merge(
                    start_timestamp,
                    end_timestamp,
                    arrival_timestamp,
                    adult_count,
                    child_count,
                    towels,
                    now,
                );
                store.bookings[at] = row;
                Ok(row)
            },
            None => Err(Error::NotFound),
        }
    }

    /// Removes the booking `id` and returns the row as it was.
    pub fn delete(store: &mut Store, id: i32) -> (r: Result<Booking, Error>)
        requires
            old(store).wf(),
        ensures
            final(store).wf(),
            (final(store)@, r) == old(store)@.remove_booking(id),
    {
        match store.find_booking(id) {
            Some(at) => {
                let row = store.bookings.remove(at);
                Ok(row)
            },
            None => Err(Error::NotFound),
        }
    }
    /// Creates a booking. Each timestamp that is present is parsed first, and
    /// one that does not parse aborts the operation with a format error.
    pub fn create(
        store: &mut Store,
        start_timestamp: Option<String>,
        end_timestamp: Option<String>,
        arrival_timestamp: Option<String>,
        adult_count: i16,
        child_count: i16,
        towels: bool,
        now: Instant,
    ) -> (r: Result<Booking, Error>)
        requires
            old(store).wf(),
        ensures
            final(store).wf(),
            (final(store)@, r) == old(store)@.create_booking(
                text_of(start_timestamp),
                text_of(end_timestamp),
                text_of(arrival_timestamp),
                adult_count,
                child_count,
                towels,
                now,
            ),
    {
        let start = match parse_optional(&start_timestamp) {
            Ok(v) => v,
            Err(e) => {
                return Err(e);
            },
        };
        let end = match parse_optional(&end_timestamp) {
            Ok(v) => v,
            Err(e) => {
                return Err(e);
            },
        };
        let arrival = match parse_optional(&arrival_timestamp) {
            Ok(v) => v,
            Err(e) => {
                return Err(e);
            },
        };
        Booking::insert(store, start, end, arrival, adult_count, child_count, towels, now)
    }

    /// Updates the booking `id`. Each timestamp that is present is parsed
    /// first, and one that does not parse aborts the operation with a format
    /// error; then the fields are merged on absence.
    pub fn update(
        store: &mut Store,
        id: i32,
        start_timestamp: Option<String>,
        end_timestamp: Option<String>,
        arrival_timestamp: Option<String>,
        adult_count: Option<i16>,
        child_count: Option<i16>,
        towels: Option<bool>,
        now: Instant,
    ) -> (r: Result<Booking, Error>)
        requires
            old(store).wf(),
        ensures
            final(store).wf(),
            (final(store)@, r) == old(store)@.update_booking(
                id,
                text_of(start_timestamp),
                text_of(end_timestamp),
                text_of(arrival_timestamp),
                adult_count,
                child_count,
                towels,
                now,
            ),
    {
        let start = match parse_optional(&start_timestamp) {
            Ok(v) => v,
            Err(e) => {
                return Err(e);
            },
        };
        let end = match parse_optional(&end_timestamp) {
            Ok(v) => v,
            Err(e) => {
                return Err(e);
            },
        };
        let arrival = match parse_optional(&arrival_timestamp) {
            Ok(v) => v,
            Err(e) => {
                return Err(e);
            },
        };
        Booking::patch(store, id, start, end, arrival, adult_count, child_count, towels, now)
    }

    /// The guests on this booking: every guest row that the association
    /// links to this booking's id. Empty where there is none, and where no
    /// such booking exists.
    pub fn guests(&self, store: &Store) -> (r: Result<Vec<Guest>, Error>)
        ensures
            r is Ok,
            r->Ok_0@ == store@.guests_of(self.id),
    {
        let ghost wanted = |g: Guest| store@.linked(self.id, g.id);
        let mut rows: Vec<Guest> = Vec::new();
        let mut i: usize = 0;
        proof {
            reveal(Seq::filter);
            assert(store.guests@.take(0).filter(wanted) == Seq::<Guest>::empty());
        }
        while i < store.guests.len()
            invariant
                i <= store.guests.len(),
                wanted == |g: Guest| store@.linked(self.id, g.id),
                rows@ == store.guests@.take(i as int).filter(wanted),
            decreases store.guests.len() - i,
        {
            proof {
                reveal(Seq::filter);
                assert(store.guests@.take(i + 1).drop_last() == store.guests@.take(i as int));
            }
            if store.is_linked(self.id, store.guests[i].id) {
                rows.push(store.guests[i].duplicate());
            }
            i += 1;
        }
        assert(store.guests@.take(i as int) == store.guests@);
        Ok(rows)
    }
}

impl Guest {
    /// Every guest row, in the order of creation.
    pub fn read_all(store: &Store) -> (r: Result<Vec<Guest>, Error>)
        ensures
            r is Ok,
            r->Ok_0@ == store@.guests,
    {
        let mut rows: Vec<Guest> = Vec::new();
        let mut i: usize = 0;
        while i < store.guests.len()
            invariant
                i <= store.guests.len(),
                rows@ == store.guests@.take(i as int),
            decreases store.guests.len() - i,
        {
            rows.push(store.guests[i].duplicate());
            assert(store.guests@.take(i + 1) == store.guests@.take(i as int).push(
                store.guests@[i as int],
            ));
            i += 1;
        }
        assert(store.guests@.take(i as int) == store.guests@);
        Ok(rows)
    }

    /// The guest row that carries `id`, or `NotFound`.
    pub fn read_one(store: &Store, id: i32) -> (r: Result<Guest, Error>)
        requires
            store.wf(),
        ensures
            r == store@.guest(id),
    {
        match store.find_guest(id) {
            Some(at) => Ok(store.guests[at].duplicate()),
            None => Err(Error::NotFound),
        }
    }

    /// Creates a guest. An empty last name, first name or email is a
    /// validation error. The row gets the next id, `created_at` is `now` and
    /// `modified_at` is absent. Where the ids are used up the store refuses.
    pub fn create(
        store: &mut Store,
        last_name: String,
        first_name: String,
        email: String,
        passport_number: Option<String>,
        country: Option<String>,
        gender: Option<Gender>,
        age: Option<i16>,
        now: Instant,
    ) -> (r: Result<Guest, Error>)
        requires
            old(store).wf(),
        ensures
            final(store).wf(),
            (final(store)@, r) == old(store)@.insert_guest(
                last_name,
                first_name,
                email,
                passport_number,
                country,
                gender,
                age,
                now,
            ),
    {
        if !has_required_fields(last_name.as_str(), first_name.as_str(), email.as_str()) {
            return Err(Error::ValidationError);
        }
        if store.next_guest_id == i32::MAX {
            return Err(Error::StoreError);
        }
        let row = Guest {
            id: store.next_guest_id,
            last_name,
            first_name,
            email,
            passport_number,
            country,
            gender,
            age,
            created_at: now,
            modified_at: None,
        };
        let echo = row.duplicate();
        store.guests.push(row);
        store.next_guest_id = store.next_guest_id + 1;
        Ok(echo)
    }

    /// Updates the guest `id`: merge on absence, with `modified_at` set to
    /// `now`.
    pub fn update(
        store: &mut Store,
        id: i32,
        last_name: Option<String>,
        first_name: Option<String>,
        email: Option<String>,
        passport_number: Option<String>,
        country: Option<String>,
        gender: Option<Gender>,
        age: Option<i16>,
        now: Instant,
    ) -> (r: Result<Guest, Error>)
        requires
            old(store).wf(),
        ensures
            final(store).wf(),
            (final(store)@, r) == old(store)@.patch_guest(
                id,
                last_name,
                first_name,
                email,
                passport_number,
                country,
                gender,
                age,
                now,
            ),
    {
        match store.find_guest(id) {
            Some(at) => {
                let row = store.guests[at].merge(
                    last_name,
                    first_name,
                    email,
                    passport_number,
                    country,
                    gender,
                    age,
                    now,
                );
                let echo = row.duplicate();
                store.guests[at] = row;
                Ok(echo)
            },
            None => Err(Error::NotFound),
        }
    }

    /// Removes the guest `id` and returns the row as it was.
    pub fn delete(store: &mut Store, id: i32) -> (r: Result<Guest, Error>)
        requires
            old(store).wf(),
        ensures
            final(store).wf(),
            (final(store)@, r) == old(store)@.remove_guest(id),
    {
        match store.find_guest(id) {
            Some(at) => {
                let row = store.guests.remove(at);
                Ok(row)
            },
            None => Err(Error::NotFound),
        }
    }

    /// The bookings of this guest: every booking row that the association
    /// links to this guest's id. Empty where there is none, and where no such
    /// guest exists.
    pub fn bookings(&self, store: &Store) -> (r: Result<Vec<Booking>, Error>)
        ensures
            r is Ok,
            r->Ok_0@ == store@.bookings_of(self.id),
    {
        let ghost wanted = |b: Booking| store@.linked(b.id, self.id);
        let mut rows: Vec<Booking> = Vec::new();
        let mut i: usize = 0;
        proof {
            reveal(Seq::filter);
            assert(store.bookings@.take(0).filter(wanted) == Seq::<Booking>::empty());
        }
        while i < store.bookings.len()
            invariant
                i <= store.bookings.len(),
                wanted == |b: Booking| store@.linked(b.id, self.id),
                rows@ == store.bookings@.take(i as int).filter(wanted),
            decreases store.bookings.len() - i,
        {
            proof {
                reveal(Seq::filter);
                assert(store.bookings@.take(i + 1).drop_last() == store.bookings@.take(i as int));
            }
            if store.is_linked(store.bookings[i].id, self.id) {
                rows.push(store.bookings[i]);
            }
            i += 1;
        }
        assert(store.bookings@.take(i as int) == store.bookings@);
        Ok(rows)
    }
}

} // verus!
