//! The delay and sound countdown counters.

use vstd::prelude::*;

verus! {

/// The two counters, each of which counts down to zero.
#[derive(Clone, Copy, Debug, PartialEq, Eq, Structural)]
pub struct Timers {
    pub delay: u8,
    pub sound: u8,
}

impl Timers {
    /// Both counters at zero.
    pub fn new() -> (timers: Timers)
        ensures
            timers.delay == 0,
            timers.sound == 0,
    {
        Timers { delay: 0, sound: 0 }
    }

    /// Counts both counters down by one; a counter at zero stays there.
    pub fn tick(&mut self)
        ensures
            final(self).delay == (if old(self).delay > 0 { old(self).delay - 1 } else { 0 }),
            final(self).sound == (if old(self).sound > 0 { old(self).sound - 1 } else { 0 }),
    {
        if self.delay > 0 {
            self.delay -= 1;
        }
        if self.sound > 0 {
            self.sound -= 1;
        }
    }
}

} // verus!
