//! Points in time and the retention window of discovered peers.

use vstd::prelude::*;

verus! {

/// Seconds a discovered peer stays fresh after its last announcement.
pub const RETENTION_SECS: u64 = 30;

/// A point in time: whole seconds since the Unix epoch plus a number of
/// nanoseconds on top of them.
#[derive(Clone, Copy, Debug, PartialEq, Eq, Structural)]
pub struct Timestamp {
    pub secs: u64,
    pub nanos: u32,
}

impl Timestamp {
    /// Nanoseconds since the epoch.
    pub open spec fn as_nanos(self) -> int {
        self.secs as int * 1_000_000_000 + self.nanos as int
    }

    /// The time `secs` seconds and `nanos` nanoseconds after the epoch.
    pub fn new(secs: u64, nanos: u32) -> (t: Timestamp)
        ensures
            t == (Timestamp { secs, nanos }),
    {
        Timestamp { secs, nanos }
    }

    /// Whole seconds since the epoch, as signed notifications carry them.
    /// A count beyond `i64::MAX` wraps around, as a plain cast does.
    pub open spec fn spec_unix_epoch_secs(self) -> i64 {
        self.secs as i64
    }

    #[verifier::when_used_as_spec(spec_unix_epoch_secs)]
    pub fn unix_epoch_secs(self) -> (secs: i64)
        ensures
            secs == self.spec_unix_epoch_secs(),
            self.secs <= i64::MAX ==> secs == self.secs,
    {
        self.secs as i64
    }
}

/// Time from `earlier` to `now` in nanoseconds; negative where `earlier` lies
/// after `now`.
pub open spec fn age_nanos(earlier: Timestamp, now: Timestamp) -> int {
    now.as_nanos() - earlier.as_nanos()
}

/// A peer last seen at `last_seen` is stale at `now` once its age has reached
/// the retention window.
pub open spec fn is_stale(last_seen: Timestamp, now: Timestamp) -> bool {
    age_nanos(last_seen, now) >= RETENTION_SECS as int * 1_000_000_000
}

/// Tells whether a peer last seen at `last_seen` is stale at `now`.
pub fn stale_at(last_seen: Timestamp, now: Timestamp) -> (stale: bool)
    ensures
        stale == is_stale(last_seen, now),
{
    let seen: u128 = last_seen.secs as u128 * 1_000_000_000 + last_seen.nanos as u128;
    let current: u128 = now.secs as u128 * 1_000_000_000 + now.nanos as u128;
    if current < seen {
        false
    } else {
        current - seen >= RETENTION_SECS as u128 * 1_000_000_000
    }
}

} // verus!
