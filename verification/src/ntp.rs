//! The local timestamp handed to the SNTP client of the time
//! synchronisation example: microseconds split into whole seconds and the
//! microseconds within the second.

use vstd::prelude::*;

verus! {

/// A timestamp in microseconds.
#[derive(Clone, Copy, Debug, PartialEq, Eq, Structural)]
pub struct Timestamp {
    pub current_time_us: u64,
}

impl Timestamp {
    /// Resets the timestamp to zero.
    pub fn init(&mut self)
        ensures
            final(self).current_time_us == 0,
    {
        self.current_time_us = 0;
    }

    /// Whole seconds of the timestamp.
    pub fn timestamp_sec(&self) -> (s: u64)
        ensures
            s == self.current_time_us / 1_000_000,
    {
        self.current_time_us / 1_000_000
    }

    /// Microseconds past the last whole second.
    pub fn timestamp_subsec_micros(&self) -> (us: u32)
        ensures
            us == self.current_time_us % 1_000_000,
    {
        (self.current_time_us % 1_000_000) as u32
    }
}

/// Seconds and sub-second microseconds together give back the timestamp,
/// and the sub-second part stays below one second.
pub proof fn lemma_timestamp_split(t: Timestamp)
    ensures
        (t.current_time_us / 1_000_000) * 1_000_000 + t.current_time_us % 1_000_000
            == t.current_time_us,
        t.current_time_us % 1_000_000 < 1_000_000,
{
}

} // verus!
