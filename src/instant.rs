//! Absolute instants that also carry the offset of the local clock.
use vstd::prelude::*;
use crate::timerange::{TimeOfDay, SECONDS_PER_DAY};

verus! {

/// An instant, as whole seconds since 1970-01-01T00:00:00Z, together with
/// the number of seconds that the local clock is ahead of UTC at that instant.
#[derive(Clone, Copy, Debug, PartialEq, Eq, Structural)]
pub struct LocalInstant {
    pub timestamp: i64,
    pub utc_offset: i32,
}

impl LocalInstant {
    /// The offset is less than a day either way.
    pub open spec fn wf(self) -> bool {
        -86400 < self.utc_offset < 86400
    }

    /// Seconds since midnight on the local clock.
    pub open spec fn spec_time(self) -> TimeOfDay {
        TimeOfDay { secs: ((self.timestamp + self.utc_offset) % (SECONDS_PER_DAY as int)) as u32 }
    }

    /// The instant `timestamp` seen from a clock `utc_offset` seconds ahead of UTC.
    pub fn new(timestamp: i64, utc_offset: i32) -> (r: LocalInstant)
        requires
            -86400 < utc_offset < 86400,
        ensures
            r.wf(),
            r.timestamp == timestamp,
            r.utc_offset == utc_offset,
    {
        LocalInstant { timestamp, utc_offset }
    }

    /// The time of day that the local clock shows at this instant.
    pub fn time(&self) -> (r: TimeOfDay)
        ensures
            r.wf(),
            r == self.spec_time(),
    {
        let local: i128 = self.timestamp as i128 + self.utc_offset as i128;
        let secs: i128 = match local.checked_rem_euclid(SECONDS_PER_DAY as i128) {
            Some(v) => v,
            None => 0,
        };
        TimeOfDay { secs: secs as u32 }
    }
}

} // verus!
