//! Points in time, as held in a transaction's history.

use vstd::prelude::*;

verus! {

/// A point in time: whole seconds since the Unix epoch and the nanoseconds
/// past that second.
#[derive(Clone, Copy, Debug, PartialEq, Eq, Structural)]
pub struct Timestamp {
    pub seconds: i64,
    pub nanoseconds: u32,
}

/// Relies on chrono's `From<SystemTime> for DateTime<Utc>`, applied to
/// `SystemTime::now()`, together with `DateTime::timestamp` and
/// `DateTime::timestamp_subsec_nanos`: the current time, split into whole
/// seconds (negative where the system clock reads before the epoch) and the
/// nanoseconds past that second, which chrono keeps under one second in both
/// directions.
#[verifier::external_body]
pub(crate) fn now() -> (r: Timestamp)
    ensures
        r.nanoseconds < 1_000_000_000,
{
    let t = chrono::DateTime::<chrono::Utc>::from(std::time::SystemTime::now());
    Timestamp { seconds: t.timestamp(), nanoseconds: t.timestamp_subsec_nanos() }
}

} // verus!
