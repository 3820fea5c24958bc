//! Points in time, as milliseconds since the Unix epoch. A message stores
//! the instant it was created; validation compares it against the current
//! time, which an external clock supplies.

use vstd::prelude::*;

verus! {

/// An instant in time: milliseconds since the Unix epoch, UTC. Later
/// instants carry strictly greater `millis`.
#[derive(Clone, Copy, PartialEq, Eq, Structural, Debug)]
pub struct Timestamp {
    pub millis: i64,
}

impl Timestamp {
    pub fn from_millis(millis: i64) -> (r: Self)
        ensures
            r.millis == millis,
    {
        Self { millis }
    }

    pub fn millis(&self) -> (r: i64)
        ensures
            r == self.millis,
    {
        self.millis
    }
}

/// Relies on `chrono::Utc::now` for the current time, read off as epoch
/// milliseconds through `DateTime::timestamp_millis`. Nothing is promised
/// of the value: it depends on the clock, not on any argument.
#[verifier::external_body]
pub(crate) fn now_timestamp() -> Timestamp {
    Timestamp { millis: chrono::Utc::now().timestamp_millis() }
}

} // verus!
