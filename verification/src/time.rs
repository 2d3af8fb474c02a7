//! Points in time, as the domain compares them.
use vstd::prelude::*;

verus! {

/// A UTC point in time: whole seconds since the Unix epoch and the
/// nanoseconds within that second (a leap second may count up to
/// 1 999 999 999 nanoseconds, as `chrono` represents it).
#[derive(Debug, Clone, Copy, PartialEq, Eq, Hash, Structural)]
pub struct Timestamp {
    pub seconds: i64,
    pub nanoseconds: u32,
}

impl Timestamp {
    /// Whether `self` lies strictly before `other`.
    pub open spec fn precedes(self, other: Timestamp) -> bool {
        ||| self.seconds < other.seconds
        ||| self.seconds == other.seconds && self.nanoseconds < other.nanoseconds
    }

    pub fn new(seconds: i64, nanoseconds: u32) -> (r: Timestamp)
        ensures
            r.seconds == seconds,
            r.nanoseconds == nanoseconds,
    {
        Timestamp { seconds, nanoseconds }
    }

    /// Whether `self` lies strictly before `other`.
    pub fn is_before(&self, other: &Timestamp) -> (r: bool)
        ensures
            r == self.precedes(*other),
    {
        self.seconds < other.seconds || (self.seconds == other.seconds && self.nanoseconds
            < other.nanoseconds)
    }

    /// The current time of the system clock. A clock beyond the seconds an
    /// `i64` counts reads as the nearest representable time.
    pub fn now() -> (r: Timestamp)
        ensures
            r.nanoseconds < 1_000_000_000,
    {
        match system_clock() {
            ClockReading::SinceEpoch { seconds, nanoseconds } => {
                if seconds <= 0x7fff_ffff_ffff_ffffu64 {
                    Timestamp { seconds: seconds as i64, nanoseconds }
                } else {
                    Timestamp { seconds: i64::MAX, nanoseconds: 999_999_999 }
                }
            },
            ClockReading::BeforeEpoch { seconds, nanoseconds } => {
                let whole: i128 = if nanoseconds == 0 {
                    -(seconds as i128)
                } else {
                    -(seconds as i128) - 1
                };
                let rest: u32 = if nanoseconds == 0 {
                    0
                } else {
                    1_000_000_000 - nanoseconds
                };
                if whole < i64::MIN as i128 {
                    Timestamp { seconds: i64::MIN, nanoseconds: 0 }
                } else {
                    Timestamp { seconds: whole as i64, nanoseconds: rest }
                }
            },
        }
    }
}

/// A reading of the system clock: how far it is past, or before, the Unix
/// epoch.
enum ClockReading {
    SinceEpoch { seconds: u64, nanoseconds: u32 },
    BeforeEpoch { seconds: u64, nanoseconds: u32 },
}

/// `std::time::SystemTime::now`, measured from `UNIX_EPOCH` with
/// `SystemTime::duration_since`: the `Duration` past the epoch, or the one
/// that its error carries for a clock set before it, as whole seconds and
/// the nanoseconds within that second. The documentation of `Duration`
/// keeps `subsec_nanos` below one second's worth; the value depends on the
/// clock.
#[verifier::external_body]
fn system_clock() -> (r: ClockReading)
    ensures
        match r {
            ClockReading::SinceEpoch { nanoseconds, .. } => nanoseconds < 1_000_000_000,
            ClockReading::BeforeEpoch { nanoseconds, .. } => nanoseconds < 1_000_000_000,
        },
{
    match std::time::SystemTime::now().duration_since(std::time::UNIX_EPOCH) {
        Ok(past) => ClockReading::SinceEpoch { seconds: past.as_secs(), nanoseconds: past.subsec_nanos() },
        Err(before) => ClockReading::BeforeEpoch {
            seconds: before.duration().as_secs(),
            nanoseconds: before.duration().subsec_nanos(),
        },
    }
}

/// The order on timestamps is a strict total order.
pub proof fn lemma_precedes_strict_total_order(a: Timestamp, b: Timestamp, c: Timestamp)
    ensures
        !a.precedes(a),
        a.precedes(b) ==> !b.precedes(a),
        a.precedes(b) && b.precedes(c) ==> a.precedes(c),
        a.precedes(b) || b.precedes(a) || a == b,
{
}

} // verus!
