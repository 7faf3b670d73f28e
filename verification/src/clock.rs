//! Points in time.

use vstd::prelude::*;

verus! {

/// A point in time: microseconds since the start of 1970, UTC.
pub type Timestamp = i64;

/// The end time of a board that has not left the bench yet.
pub const NOT_ENDED: i64 = i64::MIN;

/// Reads the wall clock with `chrono::Utc::now` and hands back its
/// `timestamp_micros`. Nothing is promised of the reading: a wall clock may
/// be set back between two calls. The call panics where the system clock
/// stands before 1970.
#[verifier::external_body]
pub(crate) fn now() -> (t: i64) {
    chrono::Utc::now().timestamp_micros()
}

} // verus!
