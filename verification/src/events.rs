//! The input events of the alarm clock: buttons and switches as last seen.

use vstd::prelude::*;

verus! {

/// A push button's state.
#[derive(Clone, Copy, Debug, PartialEq, Eq, Structural)]
pub enum Button {
    Pressed,
    Released,
}

/// The alarm arming switch.
#[derive(Clone, Copy, Debug, PartialEq, Eq, Structural)]
pub enum AlarmSwitch {
    On,
    Off,
}

/// The 12/24-hour format switch.
#[derive(Clone, Copy, Debug, PartialEq, Eq, Structural)]
pub enum FormatSwitch {
    H12,
    H24,
}

/// A snapshot of every button and switch of the clock.
#[derive(Clone, Copy, Debug, PartialEq, Eq, Structural)]
pub struct SystemEvents {
    pub time_but: Button,
    pub alarm_but: Button,
    pub hour_but: Button,
    pub min_but: Button,
    pub snooze_but: Button,
    pub alarm_sw: AlarmSwitch,
    pub fmt_sw: FormatSwitch,
}

/// The snooze button sits on its own pin with a pull-up: it reads low while pressed.
pub open spec fn spec_snooze_state(snooze_pin_low: bool) -> Button {
    if snooze_pin_low {
        Button::Pressed
    } else {
        Button::Released
    }
}

impl SystemEvents {
    /// The same snapshot with the snooze button set from its pin level.
    pub fn with_snooze(self, snooze_pin_low: bool) -> (e: SystemEvents)
        ensures
            e == (SystemEvents { snooze_but: spec_snooze_state(snooze_pin_low), ..self }),
    {
        let snooze_but = if snooze_pin_low {
            Button::Pressed
        } else {
            Button::Released
        };
        SystemEvents { snooze_but, ..self }
    }
}

} // verus!
