//! Plain values that the records carry: timestamps, identifiers and the
//! three-state optional input.

use vstd::prelude::*;

verus! {

/// A point in time, in milliseconds since the Unix epoch (UTC).
#[derive(Clone, Copy, Debug, PartialEq, Eq, Structural)]
pub struct DateTime {
    pub millis: i64,
}

impl DateTime {
    /// Relies on bson::DateTime::now: reads the system clock. Nothing is
    /// promised of the value it returns.
    #[verifier::external_body]
    pub(crate) fn now() -> (r: DateTime) {
        DateTime { millis: bson::DateTime::now().timestamp_millis() }
    }
}

/// The opaque 12-byte identifier that the document store assigns to a record.
#[derive(Clone, Copy, Debug, PartialEq, Eq, Hash)]
pub struct ObjectId {
    pub bytes: [u8; 12],
}

/// An optional input that tells apart a field left out of the input, a
/// field given as an explicit null, and a field given with a value.
#[derive(Clone, Debug, PartialEq, Eq)]
pub enum MaybeUndefined<T> {
    Undefined,
    Null,
    Value(T),
}

} // verus!
