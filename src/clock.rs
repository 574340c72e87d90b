//! Request timestamps that never run backwards within one process.
use vstd::prelude::*;

verus! {

/// The timestamp issued when the clock reads `now` after having issued `last`:
/// the later of the two.
pub open spec fn next_stamp(last: u64, now: u64) -> u64 {
    if now < last {
        last
    } else {
        now
    }
}

/// Remembers the last timestamp issued, so that a wall clock that steps
/// backwards never yields an earlier request time.
#[derive(Clone, Copy, Debug)]
pub struct RequestClock {
    pub last_issued: u64,
}

impl RequestClock {
    pub fn new() -> (r: RequestClock)
        ensures
            r.last_issued == 0,
    {
        RequestClock { last_issued: 0 }
    }

    /// Issues the timestamp for a request made when the wall clock reads
    /// `now` (seconds since the Unix epoch).
    pub fn stamp(&mut self, now: u64) -> (t: u64)
        ensures
            t == next_stamp(old(self).last_issued, now),
            final(self).last_issued == t,
    {
        if now > self.last_issued {
            self.last_issued = now;
        }
        self.last_issued
    }
}

/// Successive timestamps from one clock never decrease, whatever the wall
/// clock reads, and none is earlier than its wall-clock reading.
pub proof fn lemma_stamps_non_decreasing(last: u64, first_now: u64, second_now: u64)
    ensures
        last <= next_stamp(last, first_now),
        first_now <= next_stamp(last, first_now),
        next_stamp(last, first_now) <= next_stamp(next_stamp(last, first_now), second_now),
{
}

} // verus!
