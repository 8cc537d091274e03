//! Points in time.
use crate::failure::{self, Failure};
use vstd::prelude::*;

verus! {

/// The nanoseconds in a second.
pub const SECOND: i128 = 1_000_000_000;

/// A point in time, to the nanosecond.
#[derive(Clone, Copy, Debug, PartialEq, Eq)]
pub struct Timestamp {
    seconds: i64,
    nanos: u32,
}

impl View for Timestamp {
    type V = int;

    /// The nanoseconds since the Unix epoch.
    closed spec fn view(&self) -> int {
        self.seconds * SECOND + self.nanos
    }
}

/// The time of an optional timestamp.
pub open spec fn time_option(time: Option<Timestamp>) -> Option<int> {
    match time {
        None => None,
        Some(t) => Some(t@),
    }
}

/// The whole seconds from `earlier` to `now`, if `now` is not before it.
pub open spec fn seconds_between(earlier: int, now: int) -> Option<u64> {
    if now >= earlier {
        Some(((now - earlier) / (SECOND as int)) as u64)
    } else {
        None
    }
}

/// The whole seconds from the Unix epoch to `time`.
pub open spec fn unix_seconds(time: int) -> Result<u64, Seq<Seq<char>>> {
    match seconds_between(0, time) {
        Some(seconds) => Ok(seconds),
        None => Err(
            seq!["system time is before UNIX_EPOCH"@, "second time provided was later than self"@],
        ),
    }
}

/// Whether `time` is at most `seconds` before `now`. A time after `now` is.
pub open spec fn recent(time: int, now: int, seconds: u64) -> bool {
    now - time <= seconds * SECOND
}

impl Timestamp {
    #[verifier::type_invariant]
    spec fn in_range(self) -> bool {
        self.nanos < SECOND
    }

    /// The time `seconds` after the Unix epoch and `nanos` nanoseconds after that. The seconds are
    /// negative before the epoch; the nanoseconds are less than one second.
    pub fn new(seconds: i64, nanos: u32) -> (r: Option<Timestamp>)
        ensures
            r is Some == (nanos < SECOND),
            r is Some ==> r->0@ == seconds * SECOND + nanos,
    {
        if nanos < 1_000_000_000 {
            Some(Timestamp { seconds, nanos })
        } else {
            None
        }
    }

    fn total_nanos(&self) -> (r: i128)
        ensures
            r == self@,
            i64::MIN * SECOND <= r < (i64::MAX + 1) * SECOND,
    {
        proof {
            use_type_invariant(self);
        }
        self.seconds as i128 * SECOND + self.nanos as i128
    }

    /// The whole seconds from `earlier` to this time, if this time is not before it.
    pub fn seconds_since(&self, earlier: &Timestamp) -> (r: Option<u64>)
        ensures
            r == seconds_between(earlier@, self@),
            r is Some ==> r->0 == (self@ - earlier@) / (SECOND as int),
    {
        let now: i128 = self.total_nanos();
        let start: i128 = earlier.total_nanos();
        if now < start {
            return None;
        }
        let seconds: i128 = (now - start) / SECOND;
        assert(0 <= seconds <= u64::MAX);
        Some(seconds as u64)
    }

    /// Whether `time` is at most `seconds` before this time.
    pub fn follows_within(&self, time: &Timestamp, seconds: u64) -> (r: bool)
        ensures
            r == recent(time@, self@, seconds),
    {
        let now: i128 = self.total_nanos();
        let past: i128 = time.total_nanos();
        now - past <= seconds as i128 * SECOND
    }
}

/// The whole seconds from the Unix epoch to `time`.
pub fn unix_timestamp(time: &Timestamp) -> (r: Result<u64, Failure>)
    ensures
        failure::outcome(r) == unix_seconds(time@),
        r is Ok == (time@ >= 0),
        r is Ok ==> r->Ok_0 == time@ / (SECOND as int),
{
    let now: i128 = time.total_nanos();
    if now < 0 {
        return Err(
            Failure::because(
                "system time is before UNIX_EPOCH".to_owned(),
                "second time provided was later than self".to_owned(),
            ),
        );
    }
    let seconds: i128 = now / SECOND;
    assert(0 <= seconds <= u64::MAX);
    Ok(seconds as u64)
}

/// Times are told apart to the nanosecond and told in whole seconds, of which there are none before
/// the start: as many as fit, and never one more. A time lies within a window exactly where it is no
/// further back than the window is long.
pub proof fn law_seconds_are_whole(earlier: int, now: int, seconds: u64)
    ensures
        seconds_between(earlier, now) is None <==> now < earlier,
        0 <= now - earlier < 0x1_0000_0000_0000_0000 * 1_000_000_000 ==> ({
            let n = seconds_between(earlier, now)->0;
            n * 1_000_000_000 <= now - earlier < (n + 1) * 1_000_000_000
        }),
        unix_seconds(now) is Err <==> now < 0,
        0 <= now < 0x1_0000_0000_0000_0000 * 1_000_000_000 ==> ({
            let n = unix_seconds(now)->Ok_0;
            n * 1_000_000_000 <= now < (n + 1) * 1_000_000_000
        }),
        recent(earlier, now, seconds) <==> now - earlier <= seconds * 1_000_000_000,
{
}

} // verus!
