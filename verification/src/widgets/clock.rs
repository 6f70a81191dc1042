//! A twelve-hour wall-clock widget, ticked once a second.

use vstd::prelude::*;

verus! {

#[derive(Clone, Copy, Debug, PartialEq, Eq, Structural)]
pub struct Clock {
    pub seconds: u32,
    pub minutes: u32,
    pub hours: u32,
}

impl View for Clock {
    type V = Clock;

    open spec fn view(&self) -> Clock {
        *self
    }
}

impl Clock {
    /// A clock holds a twelve-hour time of day.
    pub open spec fn wf(&self) -> bool {
        self.seconds <= 59 && self.minutes <= 59 && self.hours <= 12
    }

    /// The time one second after `c`, carrying into minutes and hours and
    /// rolling the hour from twelve back to one.
    pub open spec fn spec_next(c: Clock) -> Clock
        recommends
            c.wf(),
    {
        let seconds: u32 = if c.seconds + 1 == 60 {
            0u32
        } else {
            (c.seconds + 1) as u32
        };
        let minutes: u32 = if c.seconds + 1 == 60 && c.minutes + 1 == 60 {
            0u32
        } else if c.seconds + 1 == 60 {
            (c.minutes + 1) as u32
        } else {
            c.minutes
        };
        let hours: u32 = if c.seconds + 1 == 60 && c.minutes + 1 == 60 {
            if c.hours + 1 == 13 {
                1u32
            } else {
                (c.hours + 1) as u32
            }
        } else {
            c.hours
        };
        Clock { seconds, minutes, hours }
    }

    pub fn new(hours: u32, minutes: u32, seconds: u32) -> (r: Self)
        ensures
            r == (Clock { seconds, minutes, hours }),
    {
        Clock { seconds, minutes, hours }
    }

    /// Advance the clock by one second.
    pub fn update(&mut self)
        requires
            old(self).wf(),
        ensures
            *final(self) == Clock::spec_next(*old(self)),
            final(self).wf(),
    {
        self.seconds = self.seconds + 1;
        if self.seconds == 60 {
            self.seconds = 0;
            self.minutes = self.minutes + 1;
        }
        if self.minutes == 60 {
            self.minutes = 0;
            self.hours = self.hours + 1;
        }
        if self.hours == 13 {
            self.hours = 1;
        }
    }
}

impl Default for Clock {
    /// Midnight, displayed as zero hours.
    fn default() -> (r: Self)
        ensures
            r == (Clock { seconds: 0, minutes: 0, hours: 0 }),
    {
        Clock::new(0, 0, 0)
    }
}

} // verus!
