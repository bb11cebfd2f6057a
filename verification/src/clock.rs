//! Timestamps for the Cyphal stack.
use vstd::prelude::*;
use crate::time::{embassy_instant_as_micros, shown_by_timer, timer_ticks};

verus! {

/// Monotonic clock that counts microseconds in 32 bits, on top of Embassy's timer.
#[derive(Clone, Copy, Debug)]
pub struct TimerClock;

impl TimerClock {
    /// The timestamp of an Embassy tick: microseconds since boot, modulo 2^32.
    pub fn timestamp(ticks: u64) -> (t: u32)
        ensures
            t == ticks % 0x1_0000_0000,
    {
        (embassy_instant_as_micros(ticks) % 0x1_0000_0000) as u32
    }

    /// The timestamp of the present moment: [`TimerClock::timestamp`] of a tick that the timer
    /// showed. Of the tick itself nothing can be said.
    pub fn now(&mut self) -> (t: u32)
        ensures
            exists|ticks: u64|
                #[trigger] shown_by_timer(ticks) && t == ticks % 0x1_0000_0000,
    {
        let ticks: u64 = timer_ticks();
        TimerClock::timestamp(ticks)
    }
}

} // verus!
