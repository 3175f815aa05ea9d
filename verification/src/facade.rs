//! The entry points a caller invokes: one per query and per mutation.
//!
//! Each entry point picks the store operation that does the work and hands
//! its outcome on unchanged, errors included.

use crate::booking::Booking;
use crate::error::Error;
use crate::guest::{Gender, Guest};
use crate::store::Store;
use crate::timestamp::{text_of, Instant};
use vstd::prelude::*;

verus! {

/// The read entry points.
#[derive(Clone, Copy, Debug)]
pub struct Query;

/// The write entry points.
#[derive(Clone, Copy, Debug)]
pub struct Mutation;

impl Query {
    /// Every booking.
    pub fn bookings(&self, store: &Store) -> (r: Result<Vec<Booking>, Error>)
        ensures
            r is Ok,
            r->Ok_0@ == store@.bookings,
    {
        Booking::read_all(store)
    }

    /// The booking `id`.
    pub fn booking(&self, store: &Store, id: i32) -> (r: Result<Booking, Error>)
        requires
            store.wf(),
        ensures
            r == store@.booking(id),
    {
        Booking::read_one(store, id)
    }

    /// Every guest.
    pub fn guests(&self, store: &Store) -> (r: Result<Vec<Guest>, Error>)
        ensures
            r is Ok,
            r->Ok_0@ == store@.guests,
    {
        Guest::read_all(store)
    }

    /// The guest `id`.
    pub fn guest(&self, store: &Store, id: i32) -> (r: Result<Guest, Error>)
        requires
            store.wf(),
        ensures
            r == store@.guest(id),
    {
        Guest::read_one(store, id)
    }
}

impl Mutation {
    /// Creates a booking from timestamp texts and counts.
    pub fn create_booking(
        &self,
        store: &mut Store,
        start_timestamp: Option<String>,
        end_timestamp: Option<String>,
        arrival_timestamp: Option<String>,
        adult_count: i16,
        child_count: i16,
        towels: bool,
        now: Instant,
    ) -> (r: Result<Booking, Error>)
        requires
            old(store).wf(),
        ensures
            final(store).wf(),
            (final(store)@, r) == old(store)@.create_booking(
                text_of(start_timestamp),
                text_of(end_timestamp),
                text_of(arrival_timestamp),
                adult_count,
                child_count,
                towels,
                now,
            ),
    {
        Booking::create(
            store,
            start_timestamp,
            end_timestamp,
            arrival_timestamp,
            adult_count,
            child_count,
            towels,
            now,
        )
    }

    /// Deletes the booking `id`.
    pub fn delete_booking(&self, store: &mut Store, id: i32) -> (r: Result<Booking, Error>)
        requires
            old(store).wf(),
        ensures
            final(store).wf(),
            (final(store)@, r) == old(store)@.remove_booking(id),
    {
        Booking::delete(store, id)
    }

    /// Updates the booking `id`, merging on absence.
    pub fn update_booking(
        &self,
        store: &mut Store,
        id: i32,
        start_timestamp: Option<String>,
        end_timestamp: Option<String>,
        arrival_timestamp: Option<String>,
        adult_count: Option<i16>,
        child_count: Option<i16>,
        towels: Option<bool>,
        now: Instant,
    ) -> (r: Result<Booking, Error>)
        requires
            old(store).wf(),
        ensures
            final(store).wf(),
            (final(store)@, r) == old(store)@.update_booking(
                id,
                text_of(start_timestamp),
                text_of(end_timestamp),
                text_of(arrival_timestamp),
                adult_count,
                child_count,
                towels,
                now,
            ),
    {
        Booking::update(
            store,
            id,
            start_timestamp,
            end_timestamp,
            arrival_timestamp,
            adult_count,
            child_count,
            towels,
            now,
        )
    }

    /// Creates a guest.
    pub fn create_guest(
        &self,
        store: &mut Store,
        last_name: String,
        first_name: String,
        email: String,
        passport_number: Option<String>,
        country: Option<String>,
        gender: Option<Gender>,
        age: Option<i16>,
        now: Instant,
    ) -> (r: Result<Guest, Error>)
        requires
            old(store).wf(),
        ensures
            final(store).wf(),
            (final(store)@, r) == old(store)@.insert_guest(
                last_name,
                first_name,
                email,
                passport_number,
                country,
                gender,
                age,
                now,
            ),
    {
        Guest::create(
            store,
            last_name,
            first_name,
            email,
            passport_number,
            country,
            gender,
            age,
            now,
        )
    }

    /// Deletes the guest `id`.
    pub fn delete_guest(&self, store: &mut Store, id: i32) -> (r: Result<Guest, Error>)
        requires
            old(store).wf(),
        ensures
            final(store).wf(),
            (final(store)@, r) == old(store)@.remove_guest(id),
    {
        Guest::delete(store, id)
    }

    /// Updates the guest `id`, merging on absence.
    pub fn update_guest(
        &self,
        store: &mut Store,
        id: i32,
        last_name: Option<String>,
        first_name: Option<String>,
        email: Option<String>,
        passport_number: Option<String>,
        country: Option<String>,
        gender: Option<Gender>,
        age: Option<i16>,
        now: Instant,
    ) -> (r: Result<Guest, Error>)
        requires
            old(store).wf(),
        ensures
            final(store).wf(),
            (final(store)@, r) == old(store)@.patch_guest(
                id,
                last_name,
                first_name,
                email,
                passport_number,
                country,
                gender,
                age,
                now,
            ),
    {
        Guest::update(
            store,
            id,
            last_name,
            first_name,
            email,
            passport_number,
            country,
            gender,
            age,
            now,
        )
    }
}

} // verus!
