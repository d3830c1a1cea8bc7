//! Points in time as the order model reads them, and the wall clock.
use vstd::prelude::*;

verus! {

/// The largest distance from the Unix epoch, in milliseconds, that a
/// timestamp may have; it covers every date chrono can represent.
pub const TIMESTAMP_LIMIT: i64 = 8_400_000_000_000_000;

/// Milliseconds in one day.
pub const DAY_MILLIS: i64 = 86_400_000;

/// A point in time, in milliseconds since the Unix epoch, within
/// `TIMESTAMP_LIMIT` of it.
#[derive(Clone, Copy, Debug, PartialEq, Eq, Structural)]
pub struct Timestamp {
    millis: i64,
}

/// `m` milliseconds from the epoch can be a timestamp.
pub open spec fn in_range(m: int) -> bool {
    -TIMESTAMP_LIMIT <= m <= TIMESTAMP_LIMIT
}

impl Timestamp {
    #[verifier::type_invariant]
    spec fn inv(self) -> bool {
        in_range(self.millis as int)
    }

    /// Milliseconds since the epoch.
    pub closed spec fn spec_millis(self) -> int {
        self.millis as int
    }

    /// The timestamp `millis` milliseconds from the epoch; none where that is
    /// out of range.
    pub fn from_millis(millis: i64) -> (r: Option<Self>)
        ensures
            r is Some <==> in_range(millis as int),
            r matches Some(t) ==> t.spec_millis() == millis,
    {
        if -TIMESTAMP_LIMIT <= millis && millis <= TIMESTAMP_LIMIT {
            Some(Timestamp { millis })
        } else {
            None
        }
    }

    pub fn millis(&self) -> (r: i64)
        ensures
            r == self.spec_millis(),
            in_range(r as int),
    {
        proof {
            use_type_invariant(self);
        }
        self.millis
    }
}

/// Relies on std's `SystemTime::now` and `SystemTime::duration_since`: the
/// whole seconds and the nanoseconds since the Unix epoch by the machine's
/// clock, none where the clock reads before the epoch. Nothing here can
/// predict the reading.
#[verifier::external_body]
fn system_clock() -> (r: Option<(u64, u32)>) {
    match std::time::SystemTime::now().duration_since(std::time::UNIX_EPOCH) {
        Ok(d) => Some((d.as_secs(), d.subsec_nanos())),
        Err(_) => None,
    }
}

/// Relies on chrono's `DateTime::<Utc>::from_timestamp`, which gives none
/// outside chrono's date range (years -262143 to 262142) and never panics,
/// and on `DateTime::timestamp_millis`, which round-trips with it: the
/// milliseconds of `secs` seconds and `nanos` nanoseconds after the epoch.
#[verifier::external_body]
fn millis_of(secs: i64, nanos: u32) -> (r: Option<i64>)
    ensures
        r matches Some(m) ==> m == secs * 1000 + nanos / 1_000_000,
{
    chrono::DateTime::<chrono::Utc>::from_timestamp(secs, nanos).map(|t| t.timestamp_millis())
}

/// The current time; none where the machine's clock reads before the
/// epoch or beyond the dates chrono can represent.
pub fn now() -> Option<Timestamp> {
    match system_clock() {
        None => None,
        Some((secs, nanos)) => {
            if secs > i64::MAX as u64 {
                return None;
            }
            match millis_of(secs as i64, nanos) {
                Some(m) => Timestamp::from_millis(m),
                None => None,
            }
        },
    }
}

} // verus!
