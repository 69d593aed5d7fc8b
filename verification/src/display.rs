//! What the four-digit display shows: hours and minutes of the clock or of
//! the alarm, in 12- or 24-hour format, with the PM LED in 12-hour format.

use vstd::prelude::*;
use crate::clock::{DisplayMode, TimeKeeper};
use crate::events::{FormatSwitch, SystemEvents};

verus! {

/// Hours and minutes of the time the display mode selects.
pub open spec fn spec_displayed_time(tk: TimeKeeper) -> (u8, u8) {
    match tk.display_mode {
        DisplayMode::ShowClock => (tk.clocktime.hours, tk.clocktime.minutes),
        DisplayMode::ShowAlarm => (tk.alarmtime.hours, tk.alarmtime.minutes),
    }
}

/// Hours and minutes of the time the display mode selects.
pub fn displayed_time(tk: &TimeKeeper) -> (hm: (u8, u8))
    ensures
        hm == spec_displayed_time(*tk),
{
    match tk.display_mode {
        DisplayMode::ShowClock => (tk.clocktime.hours, tk.clocktime.minutes),
        DisplayMode::ShowAlarm => (tk.alarmtime.hours, tk.alarmtime.minutes),
    }
}

/// The hours shown and whether the PM LED is lit, for `hours` in the given
/// format. In 24-hour format the hours are shown as they are and the LED is
/// off; in 12-hour format midnight shows 12 (LED off), noon 12 (LED on),
/// afternoon hours less 12 (LED on), and morning hours as they are (LED off).
pub open spec fn spec_format_hours(hours: u8, fmt: FormatSwitch) -> (u8, bool) {
    match fmt {
        FormatSwitch::H24 => (hours, false),
        FormatSwitch::H12 => if hours == 0 {
            (12, false)
        } else if hours == 12 {
            (12, true)
        } else if hours > 12 {
            ((hours - 12) as u8, true)
        } else {
            (hours, false)
        },
    }
}

/// The hours shown and the PM LED state for `hours` in format `fmt`.
pub fn format_hours(hours: u8, fmt: FormatSwitch) -> (r: (u8, bool))
    ensures
        r == spec_format_hours(hours, fmt),
{
    match fmt {
        FormatSwitch::H24 => (hours, false),
        FormatSwitch::H12 => {
            if hours == 0 {
                (12, false)
            } else if hours == 12 {
                (12, true)
            } else if hours > 12 {
                (hours - 12, true)
            } else {
                (hours, false)
            }
        },
    }
}

/// One refresh of the display: the four digit values, left to right, and
/// the PM LED state to write (`None` leaves the LED as it is).
#[derive(Clone, Copy, Debug, PartialEq, Eq)]
pub struct DisplayFrame {
    pub digits: [u8; 4],
    pub pm_led_on: Option<bool>,
}

/// Tens and units of the shown hours, then of the minutes.
pub open spec fn spec_digits(hours: u8, minutes: u8) -> Seq<u8> {
    seq![hours / 10, hours % 10, minutes / 10, minutes % 10]
}

/// The refresh for time keeper `tk` and the latest input snapshot. Before
/// the first snapshot the hours are shown as kept and the LED is left alone.
pub open spec fn spec_display_frame_digits(tk: TimeKeeper, events: Option<SystemEvents>) -> Seq<u8> {
    let (hours, minutes) = spec_displayed_time(tk);
    match events {
        Some(e) => spec_digits(spec_format_hours(hours, e.fmt_sw).0, minutes),
        None => spec_digits(hours, minutes),
    }
}

/// The PM LED write of the refresh for `tk` and the latest input snapshot.
pub open spec fn spec_display_frame_led(tk: TimeKeeper, events: Option<SystemEvents>) -> Option<bool> {
    match events {
        Some(e) => Some(spec_format_hours(spec_displayed_time(tk).0, e.fmt_sw).1),
        None => None,
    }
}

/// Computes one refresh of the display.
pub fn display_frame(tk: &TimeKeeper, events: Option<SystemEvents>) -> (f: DisplayFrame)
    ensures
        f.digits@ == spec_display_frame_digits(*tk, events),
        f.pm_led_on == spec_display_frame_led(*tk, events),
{
    let (hours, minutes) = displayed_time(tk);
    let mut display_hours = hours;
    let mut pm_led_on = None;
    if let Some(event) = events {
        let (h, pm) = format_hours(hours, event.fmt_sw);
        display_hours = h;
        pm_led_on = Some(pm);
    }
    let digits = [display_hours / 10, display_hours % 10, minutes / 10, minutes % 10];
    assert(digits@ =~= spec_digits(display_hours, minutes));
    DisplayFrame { digits, pm_led_on }
}

/// On a valid hour, the 12-hour format shows an hour from 1 to 12 that agrees
/// with the hour modulo 12, and lights the PM LED exactly from noon on; the
/// 24-hour format shows the hour itself with the LED off.
pub proof fn lemma_twelve_hour_format(hours: u8)
    requires
        hours < 24,
    ensures
        ({
            let (shown, pm) = spec_format_hours(hours, FormatSwitch::H12);
            &&& 1 <= shown <= 12
            &&& shown % 12 == hours % 12
            &&& pm == (hours >= 12)
        }),
        spec_format_hours(hours, FormatSwitch::H24) == (hours, false),
{
}

/// Every digit of a refresh of valid times is a decimal digit, and the
/// minutes digits always read the minutes.
pub proof fn lemma_display_digits_decimal(tk: TimeKeeper, events: Option<SystemEvents>)
    requires
        tk.valid(),
    ensures
        ({
            let d = spec_display_frame_digits(tk, events);
            let m = spec_displayed_time(tk).1;
            &&& d.len() == 4
            &&& forall|i: int| 0 <= i < 4 ==> d[i] < 10
            &&& d[2] * 10 + d[3] == m
        }),
{
}

/// The hour of the time the display shows: the alarm's in alarm mode, the
/// clock's otherwise.
proof fn lemma_shown_hour(tk: TimeKeeper)
    ensures
        spec_displayed_time(tk).0 == (if tk.display_mode == DisplayMode::ShowAlarm {
            tk.alarmtime.hours
        } else {
            tk.clocktime.hours
        }),
{
}

/// With an input snapshot, the PM LED follows the hour of the time being
/// shown (the alarm's in alarm mode, the clock's otherwise): in 12-hour format
/// it is lit exactly when that hour is 12 or later, in 24-hour format it is
/// off; the minutes digits always spell the shown minutes, and in 24-hour
/// format the hours digits spell the shown hour.
pub proof fn lemma_pm_led_follows_shown_hour(tk: TimeKeeper, e: SystemEvents)
    ensures
        ({
            let h = if tk.display_mode == DisplayMode::ShowAlarm {
                tk.alarmtime.hours
            } else {
                tk.clocktime.hours
            };
            let m = if tk.display_mode == DisplayMode::ShowAlarm {
                tk.alarmtime.minutes
            } else {
                tk.clocktime.minutes
            };
            let d = spec_display_frame_digits(tk, Some(e));
            &&& e.fmt_sw == FormatSwitch::H12 ==> spec_display_frame_led(tk, Some(e)) == Some(h >= 12)
            &&& e.fmt_sw == FormatSwitch::H24 ==> spec_display_frame_led(tk, Some(e)) == Some(false)
            &&& spec_display_frame_led(tk, None) is None
            &&& d.len() == 4
            &&& d[2] == m / 10 && d[3] == m % 10
            &&& e.fmt_sw == FormatSwitch::H24 ==> d[0] == h / 10 && d[1] == h % 10
        }),
{
    lemma_shown_hour(tk);
}

} // verus!
