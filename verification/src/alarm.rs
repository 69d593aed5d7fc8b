//! The states of the alarm clock and the decisions taken in each of them.
//!
//! The clock's main task waits in one state at a time and polls the latest
//! input snapshot every 100 ms; `poll` is one such poll: it applies the
//! settings adjustment the snapshot asks for and says which state comes next,
//! if any. `entry_actions` lists what the main task does on entering a state.

use vstd::prelude::*;
use crate::clock::{DisplayMode, TimeKeeper, dial_next, Time};
use crate::events::{AlarmSwitch, Button, SystemEvents};

verus! {

/// The states of the alarm clock.
#[derive(Clone, Copy, Debug, PartialEq, Eq, Structural)]
pub enum State {
    Unarmed,
    Armed,
    Snoozing,
    Alarming,
    SetAlarm,
    SetTime,
}

/// How long a snooze lasts before the alarm sounds again: five minutes.
pub const SNOOZE_PERIOD_MICROS: u64 = 300_000_000;

/// The state that follows one poll in `state`, given the latest input
/// snapshot (none before the inputs were first read), whether the clock
/// matches the alarm, and how long the clock has been snoozing.
pub open spec fn spec_next_state(
    state: State,
    events: Option<SystemEvents>,
    alarm_match: bool,
    snoozed_for_us: u64,
) -> Option<State> {
    match state {
        State::Unarmed => match events {
            Some(e) => if e.alarm_sw == AlarmSwitch::On {
                Some(State::Armed)
            } else if e.alarm_but == Button::Pressed {
                Some(State::SetAlarm)
            } else if e.time_but == Button::Pressed {
                Some(State::SetTime)
            } else {
                None
            },
            None => None,
        },
        State::Armed => if alarm_match {
            Some(State::Alarming)
        } else {
            match events {
                Some(e) => if e.alarm_sw == AlarmSwitch::Off {
                    Some(State::Unarmed)
                } else if e.alarm_but == Button::Pressed {
                    Some(State::SetAlarm)
                } else if e.time_but == Button::Pressed {
                    Some(State::SetTime)
                } else {
                    None
                },
                None => None,
            }
        },
        State::SetTime => match events {
            Some(e) => if e.hour_but == Button::Pressed || e.min_but == Button::Pressed {
                None
            } else if e.time_but == Button::Released {
                Some(State::Unarmed)
            } else {
                None
            },
            None => None,
        },
        State::SetAlarm => match events {
            Some(e) => if e.hour_but == Button::Pressed || e.min_but == Button::Pressed {
                None
            } else if e.alarm_but == Button::Released {
                Some(State::Unarmed)
            } else {
                None
            },
            None => None,
        },
        State::Alarming => match events {
            Some(e) => if e.snooze_but == Button::Pressed {
                Some(State::Snoozing)
            } else if e.alarm_sw == AlarmSwitch::Off {
                Some(State::Unarmed)
            } else {
                None
            },
            None => None,
        },
        State::Snoozing => if events is Some && events->0.alarm_sw == AlarmSwitch::Off {
            Some(State::Unarmed)
        } else if snoozed_for_us >= SNOOZE_PERIOD_MICROS {
            Some(State::Alarming)
        } else {
            None
        },
    }
}

/// The time keeper after one poll in `state`: while setting the time, a held
/// hour button advances the clock hours, else a held minute button the clock
/// minutes; while setting the alarm, the same for the alarm. Nothing else
/// changes it.
pub open spec fn spec_poll_keeper(
    state: State,
    events: Option<SystemEvents>,
    tk: TimeKeeper,
) -> TimeKeeper {
    match events {
        Some(e) => if state == State::SetTime {
            if e.hour_but == Button::Pressed {
                TimeKeeper {
                    clocktime: Time { hours: dial_next(tk.clocktime.hours, 24), ..tk.clocktime },
                    ..tk
                }
            } else if e.min_but == Button::Pressed {
                TimeKeeper {
                    clocktime: Time { minutes: dial_next(tk.clocktime.minutes, 60), ..tk.clocktime },
                    ..tk
                }
            } else {
                tk
            }
        } else if state == State::SetAlarm {
            if e.hour_but == Button::Pressed {
                TimeKeeper {
                    alarmtime: Time { hours: dial_next(tk.alarmtime.hours, 24), ..tk.alarmtime },
                    ..tk
                }
            } else if e.min_but == Button::Pressed {
                TimeKeeper {
                    alarmtime: Time { minutes: dial_next(tk.alarmtime.minutes, 60), ..tk.alarmtime },
                    ..tk
                }
            } else {
                tk
            }
        } else {
            tk
        },
        None => tk,
    }
}

/// The adjustment a poll makes does not overflow a field.
pub open spec fn poll_in_range(state: State, events: Option<SystemEvents>, tk: TimeKeeper) -> bool {
    events matches Some(e) ==> {
        &&& state == State::SetTime && e.hour_but == Button::Pressed ==> tk.clocktime.hours < 255
        &&& state == State::SetTime && e.hour_but != Button::Pressed && e.min_but == Button::Pressed
            ==> tk.clocktime.minutes < 255
        &&& state == State::SetAlarm && e.hour_but == Button::Pressed ==> tk.alarmtime.hours < 255
        &&& state == State::SetAlarm && e.hour_but != Button::Pressed && e.min_but
            == Button::Pressed ==> tk.alarmtime.minutes < 255
    }
}

/// One poll of the main task in `state`: applies the adjustment the input
/// snapshot asks for to the time keeper and returns the next state, or
/// `None` to stay and poll again. `snoozed_for_us` is the time since the
/// snooze began (read only in `Snoozing`).
pub fn poll(
    state: State,
    events: Option<SystemEvents>,
    tk: &mut TimeKeeper,
    snoozed_for_us: u64,
) -> (next: Option<State>)
    requires
        poll_in_range(state, events, *old(tk)),
    ensures
        next == spec_next_state(state, events, old(tk).alarm_matches(), snoozed_for_us),
        *final(tk) == spec_poll_keeper(state, events, *old(tk)),
{
    match state {
        State::Unarmed => {
            if let Some(event) = events {
                if event.alarm_sw == AlarmSwitch::On {
                    return Some(State::Armed);
                } else if event.alarm_but == Button::Pressed {
                    return Some(State::SetAlarm);
                } else if event.time_but == Button::Pressed {
                    return Some(State::SetTime);
                }
            }
            None
        },
        State::Armed => {
            if tk.alarm_time_match() {
                return Some(State::Alarming);
            }
            if let Some(event) = events {
                if event.alarm_sw == AlarmSwitch::Off {
                    return Some(State::Unarmed);
                } else if event.alarm_but == Button::Pressed {
                    return Some(State::SetAlarm);
                } else if event.time_but == Button::Pressed {
                    return Some(State::SetTime);
                }
            }
            None
        },
        State::SetTime => {
            if let Some(event) = events {
                if event.hour_but == Button::Pressed {
                    tk.increment_time_hours();
                } else if event.min_but == Button::Pressed {
                    tk.increment_time_minutes();
                } else if event.time_but == Button::Released {
                    return Some(State::Unarmed);
                }
            }
            None
        },
        State::SetAlarm => {
            if let Some(event) = events {
                if event.hour_but == Button::Pressed {
                    tk.increment_alarm_hours();
                } else if event.min_but == Button::Pressed {
                    tk.increment_alarm_minutes();
                } else if event.alarm_but == Button::Released {
                    return Some(State::Unarmed);
                }
            }
            None
        },
        State::Alarming => {
            if let Some(event) = events {
                if event.snooze_but == Button::Pressed {
                    return Some(State::Snoozing);
                } else if event.alarm_sw == AlarmSwitch::Off {
                    return Some(State::Unarmed);
                }
            }
            None
        },
        State::Snoozing => {
            if let Some(event) = events {
                if event.alarm_sw == AlarmSwitch::Off {
                    return Some(State::Unarmed);
                }
            }
            if snoozed_for_us >= SNOOZE_PERIOD_MICROS {
                return Some(State::Alarming);
            }
            None
        },
    }
}

/// What the main task does on entering a state: drive the alarm LED, set the
/// buzzer's duty cycle in percent, switch what the display shows, and write
/// the clock time to the real-time clock. `None` leaves a device as it is.
#[derive(Clone, Copy, Debug, PartialEq, Eq, Structural)]
pub struct EntryActions {
    pub alarm_led_on: Option<bool>,
    pub buzzer_duty_pct: Option<u8>,
    pub display: Option<DisplayMode>,
    pub save_time_to_rtc: bool,
}

/// The actions on entering each state.
pub open spec fn spec_entry_actions(state: State) -> EntryActions {
    match state {
        State::Unarmed => EntryActions {
            alarm_led_on: Some(false),
            buzzer_duty_pct: Some(0),
            display: Some(DisplayMode::ShowClock),
            save_time_to_rtc: true,
        },
        State::Armed => EntryActions {
            alarm_led_on: Some(true),
            buzzer_duty_pct: None,
            display: None,
            save_time_to_rtc: false,
        },
        State::SetTime => EntryActions {
            alarm_led_on: None,
            buzzer_duty_pct: None,
            display: Some(DisplayMode::ShowClock),
            save_time_to_rtc: false,
        },
        State::SetAlarm => EntryActions {
            alarm_led_on: None,
            buzzer_duty_pct: None,
            display: Some(DisplayMode::ShowAlarm),
            save_time_to_rtc: false,
        },
        State::Snoozing => EntryActions {
            alarm_led_on: None,
            buzzer_duty_pct: Some(0),
            display: None,
            save_time_to_rtc: false,
        },
        State::Alarming => EntryActions {
            alarm_led_on: None,
            buzzer_duty_pct: Some(50),
            display: None,
            save_time_to_rtc: false,
        },
    }
}

/// The actions the main task takes on entering `state`.
pub fn entry_actions(state: State) -> (a: EntryActions)
    ensures
        a == spec_entry_actions(state),
{
    match state {
        State::Unarmed => EntryActions {
            alarm_led_on: Some(false),
            buzzer_duty_pct: Some(0),
            display: Some(DisplayMode::ShowClock),
            save_time_to_rtc: true,
        },
        State::Armed => EntryActions {
            alarm_led_on: Some(true),
            buzzer_duty_pct: None,
            display: None,
            save_time_to_rtc: false,
        },
        State::SetTime => EntryActions {
            alarm_led_on: None,
            buzzer_duty_pct: None,
            display: Some(DisplayMode::ShowClock),
            save_time_to_rtc: false,
        },
        State::SetAlarm => EntryActions {
            alarm_led_on: None,
            buzzer_duty_pct: None,
            display: Some(DisplayMode::ShowAlarm),
            save_time_to_rtc: false,
        },
        State::Snoozing => EntryActions {
            alarm_led_on: None,
            buzzer_duty_pct: Some(0),
            display: None,
            save_time_to_rtc: false,
        },
        State::Alarming => EntryActions {
            alarm_led_on: None,
            buzzer_duty_pct: Some(50),
            display: None,
            save_time_to_rtc: false,
        },
    }
}

/// The alarm starts sounding only when the armed clock reaches the alarm
/// time, or when a snooze has run its five minutes without the alarm being
/// switched off; and an armed clock that reaches the alarm time always
/// starts sounding, whatever the inputs.
pub proof fn lemma_alarm_sounds_only_when_due(
    state: State,
    events: Option<SystemEvents>,
    alarm_match: bool,
    snoozed_for_us: u64,
)
    ensures
        spec_next_state(state, events, alarm_match, snoozed_for_us) == Some(State::Alarming) <==> (
        (state == State::Armed && alarm_match) || (state == State::Snoozing && snoozed_for_us
            >= SNOOZE_PERIOD_MICROS && !(events matches Some(e) && e.alarm_sw == AlarmSwitch::Off))),
{
}

/// Switching the alarm off while it sounds (snooze not pressed), while
/// snoozing, or while armed before the alarm time, disarms the clock.
pub proof fn lemma_switch_off_disarms(state: State, e: SystemEvents, alarm_match: bool, snoozed_for_us: u64)
    requires
        e.alarm_sw == AlarmSwitch::Off,
        state == State::Snoozing || (state == State::Alarming && e.snooze_but == Button::Released)
            || (state == State::Armed && !alarm_match),
    ensures
        spec_next_state(state, Some(e), alarm_match, snoozed_for_us) == Some(State::Unarmed),
{
}

/// Without an input snapshot nothing changes but by the clock: only the
/// alarm time (when armed) or the end of a snooze leads anywhere.
pub proof fn lemma_no_inputs_no_transition(state: State, alarm_match: bool, snoozed_for_us: u64)
    requires
        !(state == State::Armed && alarm_match),
        !(state == State::Snoozing && snoozed_for_us >= SNOOZE_PERIOD_MICROS),
    ensures
        spec_next_state(state, None, alarm_match, snoozed_for_us) is None,
{
}

/// Setting the time never touches the alarm, setting the alarm never touches
/// the clock, no other state changes the time keeper, the display mode is
/// never changed by a poll, and every poll keeps valid times valid.
pub proof fn lemma_poll_keeps_settings_apart(state: State, events: Option<SystemEvents>, tk: TimeKeeper)
    ensures
        ({
            let after = spec_poll_keeper(state, events, tk);
            &&& state != State::SetAlarm ==> after.alarmtime == tk.alarmtime
            &&& state != State::SetTime ==> after.clocktime == tk.clocktime
            &&& after.display_mode == tk.display_mode
            &&& tk.valid() ==> after.valid()
        }),
{
}

/// While setting the alarm, with the hour and minute buttons released, the
/// clock goes back to Unarmed exactly when the alarm button is released and
/// stays while it is held, whatever the time button reads; a held hour
/// button advances the alarm hours round the dial and leaves the clock alone.
pub proof fn lemma_set_alarm_follows_alarm_button(e: SystemEvents, tk: TimeKeeper, snoozed_for_us: u64)
    ensures
        e.hour_but == Button::Released && e.min_but == Button::Released ==> {
            &&& (spec_next_state(State::SetAlarm, Some(e), tk.alarm_matches(), snoozed_for_us) == Some(
                State::Unarmed,
            ) <==> e.alarm_but == Button::Released)
            &&& (spec_next_state(State::SetAlarm, Some(e), tk.alarm_matches(), snoozed_for_us) is None
                <==> e.alarm_but == Button::Pressed)
            &&& spec_poll_keeper(State::SetAlarm, Some(e), tk) == tk
        },
        e.hour_but == Button::Pressed ==> {
            &&& spec_next_state(State::SetAlarm, Some(e), tk.alarm_matches(), snoozed_for_us) is None
            &&& spec_poll_keeper(State::SetAlarm, Some(e), tk).alarmtime.hours == (tk.alarmtime.hours
                + 1) % 24
            &&& spec_poll_keeper(State::SetAlarm, Some(e), tk).alarmtime.minutes == tk.alarmtime.minutes
            &&& spec_poll_keeper(State::SetAlarm, Some(e), tk).clocktime == tk.clocktime
        },
        e.hour_but == Button::Released && e.min_but == Button::Pressed ==> {
            &&& spec_next_state(State::SetAlarm, Some(e), tk.alarm_matches(), snoozed_for_us) is None
            &&& spec_poll_keeper(State::SetAlarm, Some(e), tk).alarmtime.minutes == (
            tk.alarmtime.minutes + 1) % 60
            &&& spec_poll_keeper(State::SetAlarm, Some(e), tk).alarmtime.hours == tk.alarmtime.hours
            &&& spec_poll_keeper(State::SetAlarm, Some(e), tk).clocktime == tk.clocktime
        },
{
}

/// While setting the time, with the hour and minute buttons released, the
/// clock goes back to Unarmed exactly when the time button is released and
/// stays while it is held, whatever the alarm button reads; a held hour or
/// minute button advances the clock round the dial and leaves the alarm alone.
pub proof fn lemma_set_time_follows_time_button(e: SystemEvents, tk: TimeKeeper, snoozed_for_us: u64)
    ensures
        e.hour_but == Button::Released && e.min_but == Button::Released ==> {
            &&& (spec_next_state(State::SetTime, Some(e), tk.alarm_matches(), snoozed_for_us) == Some(
                State::Unarmed,
            ) <==> e.time_but == Button::Released)
            &&& (spec_next_state(State::SetTime, Some(e), tk.alarm_matches(), snoozed_for_us) is None
                <==> e.time_but == Button::Pressed)
            &&& spec_poll_keeper(State::SetTime, Some(e), tk) == tk
        },
        e.hour_but == Button::Pressed ==> {
            &&& spec_next_state(State::SetTime, Some(e), tk.alarm_matches(), snoozed_for_us) is None
            &&& spec_poll_keeper(State::SetTime, Some(e), tk).clocktime.hours == (tk.clocktime.hours
                + 1) % 24
            &&& spec_poll_keeper(State::SetTime, Some(e), tk).clocktime.minutes == tk.clocktime.minutes
            &&& spec_poll_keeper(State::SetTime, Some(e), tk).alarmtime == tk.alarmtime
        },
        e.hour_but == Button::Released && e.min_but == Button::Pressed ==> {
            &&& spec_next_state(State::SetTime, Some(e), tk.alarm_matches(), snoozed_for_us) is None
            &&& spec_poll_keeper(State::SetTime, Some(e), tk).clocktime.minutes == (
            tk.clocktime.minutes + 1) % 60
            &&& spec_poll_keeper(State::SetTime, Some(e), tk).clocktime.hours == tk.clocktime.hours
            &&& spec_poll_keeper(State::SetTime, Some(e), tk).alarmtime == tk.alarmtime
        },
{
}

/// On entering a state: the buzzer is driven to a non-zero duty only when
/// the alarm starts sounding (50%), and silenced on disarming and snoozing;
/// arming only lights the alarm LED and leaves the buzzer and display alone;
/// the LED goes on only when arming and off only when disarming; the time is
/// saved to the real-time clock only when disarming.
pub proof fn lemma_entry_actions_drive_devices(s: State)
    ensures
        spec_entry_actions(s).buzzer_duty_pct matches Some(d) && d != 0 ==> s == State::Alarming,
        s == State::Alarming ==> spec_entry_actions(s).buzzer_duty_pct == Some(50u8),
        s == State::Unarmed || s == State::Snoozing ==> spec_entry_actions(s).buzzer_duty_pct == Some(0u8),
        s == State::Armed ==> spec_entry_actions(s).buzzer_duty_pct is None && spec_entry_actions(s).display is None,
        spec_entry_actions(s).alarm_led_on == Some(true) <==> s == State::Armed,
        spec_entry_actions(s).alarm_led_on == Some(false) <==> s == State::Unarmed,
        spec_entry_actions(s).save_time_to_rtc <==> s == State::Unarmed,
        spec_entry_actions(s).display == Some(DisplayMode::ShowAlarm) <==> s == State::SetAlarm,
{
}

} // verus!
