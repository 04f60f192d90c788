//! Identifiers and instants as plain values.
use vstd::prelude::*;

verus! {

/// A record identifier: the 128 bits of a UUID.
#[derive(Clone, Copy, Debug, PartialEq, Eq, Structural, Hash)]
pub struct Id {
    pub value: u128,
}

impl Id {
    pub fn from_u128(value: u128) -> (r: Id)
        ensures
            r.value == value,
    {
        Id { value }
    }

    pub fn as_u128(&self) -> (r: u128)
        ensures
            r == self.value,
    {
        self.value
    }
}

/// An instant in UTC, as microseconds since the Unix epoch.
#[derive(Clone, Copy, Debug, PartialEq, Eq, Structural, Hash)]
pub struct Timestamp {
    pub micros: i64,
}

impl Timestamp {
    pub fn from_micros(micros: i64) -> (r: Timestamp)
        ensures
            r.micros == micros,
    {
        Timestamp { micros }
    }
}

/// Relies on uuid::Uuid::new_v4: a random version-4 UUID, as its 128 bits.
/// Nothing is promised of the value.
#[verifier::external_body]
pub fn fresh_id() -> (r: Id) {
    Id { value: uuid::Uuid::new_v4().as_u128() }
}

/// Relies on chrono::Utc::now and DateTime::timestamp_micros: the current
/// instant. Nothing is promised of the value.
#[verifier::external_body]
pub fn now() -> (r: Timestamp) {
    Timestamp { micros: chrono::Utc::now().timestamp_micros() }
}

} // verus!

verus! {

/// The hyphenated lowercase text of the UUID with bits `value`.
pub uninterp spec fn hyphenated_of(value: u128) -> Seq<char>;

/// Relies on uuid::Uuid::from_u128 and uuid's `Display`, which writes the
/// hyphenated lowercase form: the text depends on the bits alone.
#[verifier::external_body]
pub(crate) fn hyphenated(id: Id) -> (r: String)
    ensures
        r@ == hyphenated_of(id.value),
{
    uuid::Uuid::from_u128(id.value).to_string()
}

} // verus!
