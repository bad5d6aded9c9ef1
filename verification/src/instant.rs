//! Instants on the wall clock and the whole seconds between two of them.

use vstd::prelude::*;

verus! {

/// An instant on the wall clock: whole seconds since the Unix epoch and the
/// nanoseconds that have passed since that second began.
///
/// Every pair of field values is an instant; `nanos` may exceed one second,
/// in which case it simply reaches into the following seconds.
#[derive(Clone, Copy, Debug, PartialEq, Eq)]
pub struct Timestamp {
    pub secs: i64,
    pub nanos: u32,
}

/// The whole seconds contained in a span of `nanos` nanoseconds, rounding
/// toward zero.
pub open spec fn whole_seconds(nanos: int) -> int {
    if nanos >= 0 {
        nanos / 1_000_000_000
    } else {
        -((-nanos) / 1_000_000_000)
    }
}

/// The value of type `i64` nearest to `v`.
pub open spec fn nearest_i64(v: int) -> i64 {
    if v > i64::MAX {
        i64::MAX
    } else if v < i64::MIN {
        i64::MIN
    } else {
        v as i64
    }
}

impl Timestamp {
    /// The instant as nanoseconds since the Unix epoch.
    pub open spec fn nanos_since_epoch(self) -> int {
        self.secs as int * 1_000_000_000 + self.nanos as int
    }

    /// Whether `self` lies strictly later than `other`.
    pub open spec fn later_than(self, other: Timestamp) -> bool {
        self.nanos_since_epoch() > other.nanos_since_epoch()
    }

    /// The whole seconds from `now` until `self`, rounded toward zero and
    /// held to the range of `i64`.
    pub open spec fn whole_seconds_after(self, now: Timestamp) -> i64 {
        nearest_i64(whole_seconds(self.nanos_since_epoch() - now.nanos_since_epoch()))
    }

    fn total_nanos(&self) -> (n: i128)
        ensures
            n == self.nanos_since_epoch(),
    {
        self.secs as i128 * 1_000_000_000 + self.nanos as i128
    }

    /// Tells whether `self` lies strictly later than `other`.
    pub fn is_after(&self, other: &Timestamp) -> (later: bool)
        ensures
            later == self.later_than(*other),
    {
        self.total_nanos() > other.total_nanos()
    }

    /// Counts the whole seconds from `now` until `self`, rounding toward
    /// zero; negative when `self` lies in the past.
    pub fn seconds_after(&self, now: &Timestamp) -> (secs: i64)
        ensures
            secs == self.whole_seconds_after(*now),
    {
        let span: i128 = self.total_nanos() - now.total_nanos();
        let whole: i128 = if span >= 0 {
            span / 1_000_000_000
        } else {
            -((-span) / 1_000_000_000)
        };
        if whole > i64::MAX as i128 {
            i64::MAX
        } else if whole < i64::MIN as i128 {
            i64::MIN
        } else {
            whole as i64
        }
    }
}

/// Between instants whose seconds stay within a quarter of the range of
/// `i64` the count of whole seconds is exact: nothing is cut off at the ends
/// of `i64`.
pub proof fn lemma_whole_seconds_are_exact(later: Timestamp, now: Timestamp)
    requires
        -0x2000_0000_0000_0000 <= later.secs <= 0x2000_0000_0000_0000,
        -0x2000_0000_0000_0000 <= now.secs <= 0x2000_0000_0000_0000,
    ensures
        later.whole_seconds_after(now) == whole_seconds(
            later.nanos_since_epoch() - now.nanos_since_epoch(),
        ),
{
}

/// Reads the wall clock with `chrono::Utc::now` and hands back the instant it
/// reports, as the seconds and nanoseconds that `DateTime::timestamp` and
/// `DateTime::timestamp_subsec_nanos` give for it. Nothing is claimed about
/// the instant: the clock may be set to anything and may step backwards
/// between two reads. The instant is the one `chrono::Local::now` reports as
/// well; only the offset from UTC differs, which no arithmetic here reads.
/// `chrono` panics when the system clock is set before the Unix epoch.
#[verifier::external_body]
pub(crate) fn read_clock() -> (now: Timestamp) {
    let now = chrono::Utc::now();
    Timestamp { secs: now.timestamp(), nanos: now.timestamp_subsec_nanos() }
}

} // verus!
