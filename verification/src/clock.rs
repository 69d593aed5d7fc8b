//! Time keeping for the alarm clock: the running clock, the alarm setting
//! and which of the two the display shows.

use vstd::prelude::*;

verus! {

/// Seconds in one day.
pub open spec fn day_seconds() -> int {
    86400
}

/// A time of day as hours, minutes and seconds.
#[derive(Clone, Copy, Debug, PartialEq, Eq, Structural)]
pub struct Time {
    pub hours: u8,
    pub minutes: u8,
    pub seconds: u8,
}

impl Time {
    /// A time that stands on a 24-hour clock face.
    pub open spec fn valid(self) -> bool {
        &&& self.hours < 24
        &&& self.minutes < 60
        &&& self.seconds < 60
    }

    /// The number of seconds since midnight.
    pub open spec fn seconds_of_day(self) -> int {
        self.hours * 3600 + self.minutes * 60 + self.seconds
    }

    /// Midnight, 00:00:00.
    pub fn midnight() -> (t: Time)
        ensures
            t == midnight_time(),
    {
        Time { hours: 0, minutes: 0, seconds: 0 }
    }
}

/// Whether the display shows the running clock or the alarm setting.
#[derive(Clone, Copy, Debug, PartialEq, Eq, Structural)]
pub enum DisplayMode {
    ShowClock,
    ShowAlarm,
}

/// The shared time keeping state of the alarm clock.
#[derive(Clone, Copy, Debug, PartialEq, Eq, Structural)]
pub struct TimeKeeper {
    pub clocktime: Time,
    pub alarmtime: Time,
    pub display_mode: DisplayMode,
}

/// 00:00:00.
pub open spec fn midnight_time() -> Time {
    Time { hours: 0, minutes: 0, seconds: 0 }
}

/// `tick` can add one second without overflowing a field.
pub open spec fn tick_in_range(t: Time) -> bool {
    &&& t.seconds < 255
    &&& t.seconds + 1 >= 60 ==> t.minutes < 255
    &&& t.seconds + 1 >= 60 && t.minutes + 1 >= 60 ==> t.hours < 255
}

/// The time one second after `t`: seconds carry into minutes at 60,
/// minutes into hours at 60, and hours wrap to 0 at 24.
pub open spec fn ticked(t: Time) -> Time {
    if t.seconds + 1 < 60 {
        Time { seconds: (t.seconds + 1) as u8, ..t }
    } else if t.minutes + 1 < 60 {
        Time { hours: t.hours, minutes: (t.minutes + 1) as u8, seconds: 0 }
    } else if t.hours + 1 < 24 {
        Time { hours: (t.hours + 1) as u8, minutes: 0, seconds: 0 }
    } else {
        Time { hours: 0, minutes: 0, seconds: 0 }
    }
}

/// The successor of `v` on a dial of `n` positions.
pub open spec fn dial_next(v: u8, n: int) -> u8 {
    ((v + 1) % n) as u8
}

impl TimeKeeper {
    /// Both times are on the clock face.
    pub open spec fn valid(self) -> bool {
        self.clocktime.valid() && self.alarmtime.valid()
    }

    /// Clock and alarm at midnight, display showing the clock.
    pub fn new() -> (tk: TimeKeeper)
        ensures
            tk.clocktime == midnight_time(),
            tk.alarmtime == midnight_time(),
            tk.display_mode == DisplayMode::ShowClock,
            tk.valid(),
    {
        TimeKeeper {
            clocktime: Time::midnight(),
            alarmtime: Time::midnight(),
            display_mode: DisplayMode::ShowClock,
        }
    }

    /// Clock and alarm agree on hours and minutes; seconds are ignored.
    pub open spec fn alarm_matches(self) -> bool {
        self.clocktime.hours == self.alarmtime.hours && self.clocktime.minutes
            == self.alarmtime.minutes
    }

    /// The alarm fires on the minute: hours and minutes agree, seconds are ignored.
    pub fn alarm_time_match(&self) -> (r: bool)
        ensures
            r == self.alarm_matches(),
    {
        self.clocktime.hours == self.alarmtime.hours && self.clocktime.minutes
            == self.alarmtime.minutes
    }

    /// Advances the clock hours by one, wrapping at 24.
    pub fn increment_time_hours(&mut self)
        requires
            old(self).clocktime.hours < 255,
        ensures
            *final(self) == (TimeKeeper {
                clocktime: Time { hours: dial_next(old(self).clocktime.hours, 24), ..old(self).clocktime },
                ..*old(self)
            }),
            old(self).valid() ==> final(self).valid(),
    {
        self.clocktime.hours = (self.clocktime.hours + 1) % 24;
    }

    /// Advances the clock minutes by one, wrapping at 60 without carrying into the hours.
    pub fn increment_time_minutes(&mut self)
        requires
            old(self).clocktime.minutes < 255,
        ensures
            *final(self) == (TimeKeeper {
                clocktime: Time { minutes: dial_next(old(self).clocktime.minutes, 60), ..old(self).clocktime },
                ..*old(self)
            }),
            old(self).valid() ==> final(self).valid(),
    {
        self.clocktime.minutes = (self.clocktime.minutes + 1) % 60;
    }

    /// Advances the alarm hours by one, wrapping at 24.
    pub fn increment_alarm_hours(&mut self)
        requires
            old(self).alarmtime.hours < 255,
        ensures
            *final(self) == (TimeKeeper {
                alarmtime: Time { hours: dial_next(old(self).alarmtime.hours, 24), ..old(self).alarmtime },
                ..*old(self)
            }),
            old(self).valid() ==> final(self).valid(),
    {
        self.alarmtime.hours = (self.alarmtime.hours + 1) % 24;
    }

    /// Advances the alarm minutes by one, wrapping at 60 without carrying into the hours.
    pub fn increment_alarm_minutes(&mut self)
        requires
            old(self).alarmtime.minutes < 255,
        ensures
            *final(self) == (TimeKeeper {
                alarmtime: Time { minutes: dial_next(old(self).alarmtime.minutes, 60), ..old(self).alarmtime },
                ..*old(self)
            }),
            old(self).valid() ==> final(self).valid(),
    {
        self.alarmtime.minutes = (self.alarmtime.minutes + 1) % 60;
    }

    /// Makes the display show the running clock.
    pub fn show_clock_time(&mut self)
        ensures
            *final(self) == (TimeKeeper { display_mode: DisplayMode::ShowClock, ..*old(self) }),
    {
        self.display_mode = DisplayMode::ShowClock;
    }

    /// Makes the display show the alarm setting.
    pub fn show_alarm_time(&mut self)
        ensures
            *final(self) == (TimeKeeper { display_mode: DisplayMode::ShowAlarm, ..*old(self) }),
    {
        self.display_mode = DisplayMode::ShowAlarm;
    }

    /// Advances the running clock by one second.
    pub fn tick(&mut self)
        requires
            tick_in_range(old(self).clocktime),
        ensures
            *final(self) == (TimeKeeper { clocktime: ticked(old(self).clocktime), ..*old(self) }),
            old(self).valid() ==> final(self).valid(),
    {
        self.clocktime.seconds += 1;
        if self.clocktime.seconds >= 60 {
            self.clocktime.seconds = 0;
            self.clocktime.minutes += 1;
            if self.clocktime.minutes >= 60 {
                self.clocktime.minutes = 0;
                self.clocktime.hours += 1;
                if self.clocktime.hours >= 24 {
                    self.clocktime.hours = 0;
                }
            }
        }
    }
}

/// On a valid time, one tick moves the clock exactly one second forward
/// around the day, and the result is again a valid time.
pub proof fn lemma_tick_advances_one_second(t: Time)
    requires
        t.valid(),
    ensures
        tick_in_range(t),
        ticked(t).valid(),
        ticked(t).seconds_of_day() == (t.seconds_of_day() + 1) % day_seconds(),
{
}

} // verus!
