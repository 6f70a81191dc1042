//! A twenty-four-hour clock the device ticks once a second.

use vstd::prelude::*;

verus! {

#[derive(Clone, Copy, Debug, PartialEq, Eq, Structural)]
pub struct Clock {
    pub seconds: u32,
    pub minutes: u32,
    pub hours: u32,
}

impl Clock {
    /// A clock holds a time of day.
    pub open spec fn wf(&self) -> bool {
        self.seconds <= 59 && self.minutes <= 59 && self.hours <= 23
    }

    /// The time one second after `c`, carrying into minutes and hours and
    /// wrapping at midnight.
    pub open spec fn spec_next(c: Clock) -> Clock
        recommends
            c.wf(),
    {
        let seconds: u32 = if c.seconds + 1 == 60 {
            0u32
        } else {
            (c.seconds + 1) as u32
        };
        let minutes: u32 = if c.seconds + 1 == 60 && c.minutes + 1 == 60 {
            0u32
        } else if c.seconds + 1 == 60 {
            (c.minutes + 1) as u32
        } else {
            c.minutes
        };
        let hours: u32 = if c.seconds + 1 == 60 && c.minutes + 1 == 60 {
            if c.hours + 1 == 24 {
                0u32
            } else {
                (c.hours + 1) as u32
            }
        } else {
            c.hours
        };
        Clock { seconds, minutes, hours }
    }

    /// Midnight.
    pub fn new() -> (r: Self)
        ensures
            r == (Clock { seconds: 0, minutes: 0, hours: 0 }),
            r.wf(),
    {
        Clock { seconds: 0, minutes: 0, hours: 0 }
    }

    /// Advance the clock by one second.
    pub fn tick(&mut self)
        requires
            old(self).wf(),
        ensures
            *final(self) == Clock::spec_next(*old(self)),
            final(self).wf(),
    {
        self.seconds = self.seconds + 1;
        if self.seconds == 60 {
            self.seconds = 0;
            self.minutes = self.minutes + 1;
        }
        if self.minutes == 60 {
            self.minutes = 0;
            self.hours = self.hours + 1;
        }
        if self.hours == 24 {
            self.hours = 0;
        }
    }
}

/// Marker for the display layer's time widget; it renders a [`Clock`] as
/// `HH:MM:SS`. The drawing itself lives with the display driver.
#[derive(Clone, Copy, Debug, PartialEq, Eq, Structural)]
pub struct TimeWidget;

} // verus!
