//! The elapsed-time counter of the real-time timer examples, advanced once
//! per second by a timer.
//!
//! The seconds are not reset when they pass 59: from then on the minutes
//! advance on every tick, the hours likewise once the minutes pass 59, and the
//! whole counter restarts from zero when the hours pass 23.

use vstd::prelude::*;

verus! {

/// Hours, minutes and seconds counted since start.
#[derive(Clone, Copy, Debug, PartialEq, Eq, Structural)]
pub struct ElapsedTime {
    pub seconds: u32,
    pub minutes: u32,
    pub hours: u32,
}

/// The counter after one tick.
pub open spec fn spec_elapsed_tick(t: ElapsedTime) -> ElapsedTime {
    let s = if t.seconds == u32::MAX { 0u32 } else { (t.seconds + 1) as u32 };
    let m = if s > 59 { (t.minutes + 1) as u32 } else { t.minutes };
    let h = if m > 59 { (t.hours + 1) as u32 } else { t.hours };
    if h > 23 {
        ElapsedTime { seconds: 0, minutes: 0, hours: 0 }
    } else {
        ElapsedTime { seconds: s, minutes: m, hours: h }
    }
}

/// One tick does not overflow the minutes or the hours.
pub open spec fn elapsed_tick_in_range(t: ElapsedTime) -> bool {
    let s = if t.seconds == u32::MAX { 0u32 } else { (t.seconds + 1) as u32 };
    &&& s > 59 ==> t.minutes < u32::MAX
    &&& (if s > 59 { t.minutes + 1 } else { t.minutes as int }) > 59 ==> t.hours < u32::MAX
}

impl ElapsedTime {
    /// The counter at start.
    pub fn new() -> (t: ElapsedTime)
        ensures
            t == (ElapsedTime { seconds: 0, minutes: 0, hours: 0 }),
    {
        ElapsedTime { seconds: 0, minutes: 0, hours: 0 }
    }

    /// Counts one second.
    pub fn tick(&mut self)
        requires
            elapsed_tick_in_range(*old(self)),
        ensures
            *final(self) == spec_elapsed_tick(*old(self)),
    {
        self.seconds = self.seconds.wrapping_add(1);
        if self.seconds > 59 {
            self.minutes += 1;
        }
        if self.minutes > 59 {
            self.hours += 1;
        }
        if self.hours > 23 {
            self.seconds = 0;
            self.minutes = 0;
            self.hours = 0;
        }
    }
}

/// The counter values reachable from zero: seconds up to 141, minutes one
/// more for every second past 59, hours one more for every minute past 59.
pub open spec fn elapsed_reachable(t: ElapsedTime) -> bool {
    &&& t.seconds <= 141
    &&& t.minutes == (if t.seconds <= 59 { 0 } else { t.seconds - 59 })
    &&& t.hours == (if t.minutes <= 59 { 0 } else { t.minutes - 59 })
}

/// The counter starts reachable, a tick from a reachable value never
/// overflows and leads to a reachable value, and reachable values stay
/// below 142 seconds, 83 minutes and 24 hours.
pub proof fn lemma_elapsed_stays_bounded(t: ElapsedTime)
    ensures
        elapsed_reachable(ElapsedTime { seconds: 0, minutes: 0, hours: 0 }),
        elapsed_reachable(t) ==> elapsed_tick_in_range(t),
        elapsed_reachable(t) ==> elapsed_reachable(spec_elapsed_tick(t)),
        elapsed_reachable(t) ==> t.seconds < 142 && t.minutes < 83 && t.hours < 24,
{
}

} // verus!
