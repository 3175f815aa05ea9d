//! The booking entity and its merge-on-absence rule.

use crate::timestamp::Instant;
use vstd::prelude::*;

verus! {

/// A reservation row.
#[derive(Clone, Copy, Debug, PartialEq, Eq, Structural)]
pub struct Booking {
    /// Assigned by the store, unique, never changed.
    pub id: i32,
    pub start_timestamp: Option<Instant>,
    pub end_timestamp: Option<Instant>,
    pub arrival_timestamp: Option<Instant>,
    pub adult_count: i16,
    pub child_count: i16,
    pub towels: bool,
    /// Set once, when the row is created.
    pub created_at: Instant,
    /// Set on every update.
    pub modified_at: Option<Instant>,
}

/// The value of a required column after an update: the supplied value, or
/// the stored one where the caller supplied none.
pub open spec fn supplied_or<T>(supplied: Option<T>, stored: T) -> T {
    match supplied {
        Some(v) => v,
        None => stored,
    }
}

/// The value of a nullable column after an update: the supplied value, or
/// whatever was stored where the caller supplied none.
pub open spec fn supplied_or_stored<T>(supplied: Option<T>, stored: Option<T>) -> Option<T> {
    match supplied {
        Some(v) => Some(v),
        None => stored,
    }
}

impl Booking {
    /// The row after an update at `now`: each supplied field replaces the
    /// stored one, each omitted field stays, `id` and `created_at` never
    /// change, and `modified_at` becomes `now`. Absence always means "keep":
    /// an update cannot clear a timestamp that is stored.
    pub open spec fn merged(
        self,
        start_timestamp: Option<Instant>,
        end_timestamp: Option<Instant>,
        arrival_timestamp: Option<Instant>,
        adult_count: Option<i16>,
        child_count: Option<i16>,
        towels: Option<bool>,
        now: Instant,
    ) -> Booking {
        Booking {
            id: self.id,
            start_timestamp: supplied_or_stored(start_timestamp, self.start_timestamp),
            end_timestamp: supplied_or_stored(end_timestamp, self.end_timestamp),
            arrival_timestamp: supplied_or_stored(arrival_timestamp, self.arrival_timestamp),
            adult_count: supplied_or(adult_count, self.adult_count),
            child_count: supplied_or(child_count, self.child_count),
            towels: supplied_or(towels, self.towels),
            created_at: self.created_at,
            modified_at: Some(now),
        }
    }

    /// Applies an update to a row: merge on absence.
    pub fn merge(
        &self,
        start_timestamp: Option<Instant>,
        end_timestamp: Option<Instant>,
        arrival_timestamp: Option<Instant>,
        adult_count: Option<i16>,
        child_count: Option<i16>,
        towels: Option<bool>,
        now: Instant,
    ) -> (row: Booking)
        ensures
            row == self.merged(
                start_timestamp,
                end_timestamp,
                arrival_timestamp,
                adult_count,
                child_count,
                towels,
                now,
            ),
    {
        Booking {
            id: self.id,
            start_timestamp: match start_timestamp {
                Some(v) => Some(v),
                None => self.start_timestamp,
            },
            end_timestamp: match end_timestamp {
                Some(v) => Some(v),
                None => self.end_timestamp,
            },
            arrival_timestamp: match arrival_timestamp {
                Some(v) => Some(v),
                None => self.arrival_timestamp,
            },
            adult_count: match adult_count {
                Some(v) => v,
                None => self.adult_count,
            },
            child_count: match child_count {
                Some(v) => v,
                None => self.child_count,
            },
            towels: match towels {
                Some(v) => v,
                None => self.towels,
            },
            created_at: self.created_at,
            modified_at: Some(now),
        }
    }
}

} // verus!
