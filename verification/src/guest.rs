//! The guest entity and its merge-on-absence rule.

use crate::booking::{supplied_or, supplied_or_stored};
use crate::timestamp::Instant;
use vstd::prelude::*;

verus! {

/// The closed set of gender codes.
#[derive(Clone, Copy, Debug, PartialEq, Eq, Structural)]
pub enum Gender {
    /// Male.
    M,
    /// Female.
    F,
    /// Other.
    O,
}

/// A guest row.
#[derive(Clone, Debug, PartialEq, Eq)]
pub struct Guest {
    /// Assigned by the store, unique, never changed.
    pub id: i32,
    pub last_name: String,
    pub first_name: String,
    pub email: String,
    pub passport_number: Option<String>,
    pub country: Option<String>,
    pub gender: Option<Gender>,
    pub age: Option<i16>,
    /// Set once, when the row is created.
    pub created_at: Instant,
    /// Set on every update.
    pub modified_at: Option<Instant>,
}

/// A new guest needs a last name, a first name and an email, none of them
/// empty.
pub open spec fn required_present(last_name: Seq<char>, first_name: Seq<char>, email: Seq<char>) -> bool {
    last_name.len() > 0 && first_name.len() > 0 && email.len() > 0
}

/// Whether the three required texts of a new guest are all present.
pub fn has_required_fields(last_name: &str, first_name: &str, email: &str) -> (ok: bool)
    ensures
        ok == required_present(last_name@, first_name@, email@),
{
    !last_name.is_empty() && !first_name.is_empty() && !email.is_empty()
}

fn copy_text(field: &Option<String>) -> (copy: Option<String>)
    ensures
        copy == *field,
{
    match field {
        Some(s) => Some(s.clone()),
        None => None,
    }
}

fn pick_text(supplied: Option<String>, stored: &String) -> (text: String)
    ensures
        text == supplied_or(supplied, *stored),
{
    match supplied {
        Some(v) => v,
        None => stored.clone(),
    }
}

fn pick_optional_text(supplied: Option<String>, stored: &Option<String>) -> (text: Option<String>)
    ensures
        text == supplied_or_stored(supplied, *stored),
{
    match supplied {
        Some(v) => Some(v),
        None => copy_text(stored),
    }
}

impl Guest {
    /// The row after an update at `now`: each supplied field replaces the
    /// stored one, each omitted field stays, `id` and `created_at` never
    /// change, and `modified_at` becomes `now`. Absence always means "keep":
    /// an update cannot clear an optional field that is stored, and it does
    /// not look into the texts it is given.
    pub open spec fn merged(
        self,
        last_name: Option<String>,
        first_name: Option<String>,
        email: Option<String>,
        passport_number: Option<String>,
        country: Option<String>,
        gender: Option<Gender>,
        age: Option<i16>,
        now: Instant,
    ) -> Guest {
        Guest {
            id: self.id,
            last_name: supplied_or(last_name, self.last_name),
            first_name: supplied_or(first_name, self.first_name),
            email: supplied_or(email, self.email),
            passport_number: supplied_or_stored(passport_number, self.passport_number),
            country: supplied_or_stored(country, self.country),
            gender: supplied_or_stored(gender, self.gender),
            age: supplied_or_stored(age, self.age),
            created_at: self.created_at,
            modified_at: Some(now),
        }
    }

    /// A copy of the row, field for field.
    pub fn duplicate(&self) -> (copy: Guest)
        ensures
            copy == *self,
    {
        Guest {
            id: self.id,
            last_name: self.last_name.clone(),
            first_name: self.first_name.clone(),
            email: self.email.clone(),
            passport_number: copy_text(&self.passport_number),
            country: copy_text(&self.country),
            gender: self.gender,
            age: self.age,
            created_at: self.created_at,
            modified_at: self.modified_at,
        }
    }

    /// Applies an update to a row: merge on absence.
    pub fn merge(
        &self,
        last_name: Option<String>,
        first_name: Option<String>,
        email: Option<String>,
        passport_number: Option<String>,
        country: Option<String>,
        gender: Option<Gender>,
        age: Option<i16>,
        now: Instant,
    ) -> (row: Guest)
        ensures
            row == self.merged(
                last_name,
                first_name,
                email,
                passport_number,
                country,
                gender,
                age,
                now,
            ),
    {
        Guest {
            id: self.id,
            last_name: pick_text(last_name, &self.last_name),
            first_name: pick_text(first_name, &self.first_name),
            email: pick_text(email, &self.email),
            passport_number: pick_optional_text(passport_number, &self.passport_number),
            country: pick_optional_text(country, &self.country),
            gender: match gender {
                Some(v) => Some(v),
                None => self.gender,
            },
            age: match age {
                Some(v) => Some(v),
                None => self.age,
            },
            created_at: self.created_at,
            modified_at: Some(now),
        }
    }
}

} // verus!
