//! The TCA6424 24-bit I/O expander of the alarm clock: its registers, the
//! meaning of its pins, and the register values the drivers write.
//!
//! Port 0 holds the switches and buttons (inputs, active low), port 1 the
//! digit selects of the display (active low), two LEDs and the format switch,
//! and port 2 the segments of the display.

use vstd::prelude::*;
use crate::events::{AlarmSwitch, Button, FormatSwitch, SystemEvents};

verus! {

/// I2C address of the expander.
pub const TCA6424_ADDR: u8 = 0x22;
/// Input port registers.
pub const IN_PORT0: u8 = 0x80;
pub const IN_PORT1: u8 = 0x81;
pub const IN_PORT2: u8 = 0x82;
/// Output port registers.
pub const OUT_PORT0: u8 = 0x84;
pub const OUT_PORT1: u8 = 0x85;
pub const OUT_PORT2: u8 = 0x86;
/// Polarity inversion registers.
pub const POL_INV_PORT0: u8 = 0x88;
pub const POL_INV_PORT1: u8 = 0x89;
pub const POL_INV_PORT2: u8 = 0x8A;
/// Configuration (direction) registers; a set bit makes the pin an input.
pub const CONFIG_PORT0: u8 = 0x8C;
pub const CONFIG_PORT1: u8 = 0x8D;
pub const CONFIG_PORT2: u8 = 0x8E;

/// Port 0 all inputs, port 1 inputs on pins 6 and 7, port 2 all outputs.
pub const PORT0_DIR: u8 = 0xFF;
pub const PORT1_DIR: u8 = 0xC0;
pub const PORT2_DIR: u8 = 0x00;

/// The four digit select pins of port 1 (pins 0 to 3).
pub const ALL_DIGITS_MASK: u8 = 0x0F;

/// Pins of port 0.
#[derive(Clone, Copy, Debug, PartialEq, Eq, Structural)]
pub enum IoExpPort0 {
    /// Pin 0.
    AlarmSwitchOn,
    /// Pin 1.
    AlarmSwitchOff,
    /// Pin 2, unused.
    P02,
    /// Pin 3, unused.
    P03,
    /// Pin 4.
    AlarmButton,
    /// Pin 5.
    TimeButton,
    /// Pin 6.
    MinuteButton,
    /// Pin 7.
    HourButton,
}

/// Pins of port 1.
#[derive(Clone, Copy, Debug, PartialEq, Eq, Structural)]
pub enum IoExpPort1 {
    /// Pin 0.
    Digit1,
    /// Pin 1.
    Digit2,
    /// Pin 2.
    Digit3,
    /// Pin 3.
    Digit4,
    /// Pin 4.
    Led,
    /// Pin 5.
    PmLed,
    /// Pin 6.
    FormatSwitch12,
    /// Pin 7.
    FormatSwitch24,
}

/// Pins of port 2.
#[derive(Clone, Copy, Debug, PartialEq, Eq, Structural)]
pub enum IoExpPort2 {
    /// Pin 0.
    SegA,
    /// Pin 1.
    SegB,
    /// Pin 2.
    SegC,
    /// Pin 3.
    SegD,
    /// Pin 4.
    SegE,
    /// Pin 5.
    SegF,
    /// Pin 6, the colon.
    Dp,
    /// Pin 7.
    SegG,
}

/// The mask of pin `n` of a port.
pub open spec fn pin_mask(n: int) -> u8 {
    if n == 0 {
        0x01
    } else if n == 1 {
        0x02
    } else if n == 2 {
        0x04
    } else if n == 3 {
        0x08
    } else if n == 4 {
        0x10
    } else if n == 5 {
        0x20
    } else if n == 6 {
        0x40
    } else {
        0x80
    }
}

impl IoExpPort0 {
    /// The pin number.
    pub open spec fn pin(self) -> int {
        match self {
            IoExpPort0::AlarmSwitchOn => 0,
            IoExpPort0::AlarmSwitchOff => 1,
            IoExpPort0::P02 => 2,
            IoExpPort0::P03 => 3,
            IoExpPort0::AlarmButton => 4,
            IoExpPort0::TimeButton => 5,
            IoExpPort0::MinuteButton => 6,
            IoExpPort0::HourButton => 7,
        }
    }

    /// The pin's bit in the port register.
    pub fn bits(self) -> (b: u8)
        ensures
            b == pin_mask(self.pin()),
    {
        match self {
            IoExpPort0::AlarmSwitchOn => 0x01,
            IoExpPort0::AlarmSwitchOff => 0x02,
            IoExpPort0::P02 => 0x04,
            IoExpPort0::P03 => 0x08,
            IoExpPort0::AlarmButton => 0x10,
            IoExpPort0::TimeButton => 0x20,
            IoExpPort0::MinuteButton => 0x40,
            IoExpPort0::HourButton => 0x80,
        }
    }
}

impl IoExpPort1 {
    /// The pin number.
    pub open spec fn pin(self) -> int {
        match self {
            IoExpPort1::Digit1 => 0,
            IoExpPort1::Digit2 => 1,
            IoExpPort1::Digit3 => 2,
            IoExpPort1::Digit4 => 3,
            IoExpPort1::Led => 4,
            IoExpPort1::PmLed => 5,
            IoExpPort1::FormatSwitch12 => 6,
            IoExpPort1::FormatSwitch24 => 7,
        }
    }

    /// The pin's bit in the port register.
    pub fn bits(self) -> (b: u8)
        ensures
            b == pin_mask(self.pin()),
    {
        match self {
            IoExpPort1::Digit1 => 0x01,
            IoExpPort1::Digit2 => 0x02,
            IoExpPort1::Digit3 => 0x04,
            IoExpPort1::Digit4 => 0x08,
            IoExpPort1::Led => 0x10,
            IoExpPort1::PmLed => 0x20,
            IoExpPort1::FormatSwitch12 => 0x40,
            IoExpPort1::FormatSwitch24 => 0x80,
        }
    }
}

impl IoExpPort2 {
    /// The pin number.
    pub open spec fn pin(self) -> int {
        match self {
            IoExpPort2::SegA => 0,
            IoExpPort2::SegB => 1,
            IoExpPort2::SegC => 2,
            IoExpPort2::SegD => 3,
            IoExpPort2::SegE => 4,
            IoExpPort2::SegF => 5,
            IoExpPort2::Dp => 6,
            IoExpPort2::SegG => 7,
        }
    }

    /// The pin's bit in the port register.
    pub fn bits(self) -> (b: u8)
        ensures
            b == pin_mask(self.pin()),
    {
        match self {
            IoExpPort2::SegA => 0x01,
            IoExpPort2::SegB => 0x02,
            IoExpPort2::SegC => 0x04,
            IoExpPort2::SegD => 0x08,
            IoExpPort2::SegE => 0x10,
            IoExpPort2::SegF => 0x20,
            IoExpPort2::Dp => 0x40,
            IoExpPort2::SegG => 0x80,
        }
    }
}

/// The mask of a segment pin.
pub open spec fn seg(p: IoExpPort2) -> u8 {
    pin_mask(p.pin())
}

/// The segments lit to show decimal digit `d`; nothing for any other value.
pub open spec fn spec_digit_segments(d: u8) -> u8 {
    if d == 0 {
        seg(IoExpPort2::SegA) | seg(IoExpPort2::SegB) | seg(IoExpPort2::SegC) | seg(IoExpPort2::SegD)
            | seg(IoExpPort2::SegE) | seg(IoExpPort2::SegF)
    } else if d == 1 {
        seg(IoExpPort2::SegB) | seg(IoExpPort2::SegC)
    } else if d == 2 {
        seg(IoExpPort2::SegA) | seg(IoExpPort2::SegB) | seg(IoExpPort2::SegD) | seg(IoExpPort2::SegE)
            | seg(IoExpPort2::SegG)
    } else if d == 3 {
        seg(IoExpPort2::SegA) | seg(IoExpPort2::SegB) | seg(IoExpPort2::SegC) | seg(IoExpPort2::SegD)
            | seg(IoExpPort2::SegG)
    } else if d == 4 {
        seg(IoExpPort2::SegB) | seg(IoExpPort2::SegC) | seg(IoExpPort2::SegF) | seg(IoExpPort2::SegG)
    } else if d == 5 {
        seg(IoExpPort2::SegA) | seg(IoExpPort2::SegC) | seg(IoExpPort2::SegD) | seg(IoExpPort2::SegF)
            | seg(IoExpPort2::SegG)
    } else if d == 6 {
        seg(IoExpPort2::SegA) | seg(IoExpPort2::SegC) | seg(IoExpPort2::SegD) | seg(IoExpPort2::SegE)
            | seg(IoExpPort2::SegF) | seg(IoExpPort2::SegG)
    } else if d == 7 {
        seg(IoExpPort2::SegA) | seg(IoExpPort2::SegB) | seg(IoExpPort2::SegC)
    } else if d == 8 {
        seg(IoExpPort2::SegA) | seg(IoExpPort2::SegB) | seg(IoExpPort2::SegC) | seg(IoExpPort2::SegD)
            | seg(IoExpPort2::SegE) | seg(IoExpPort2::SegF) | seg(IoExpPort2::SegG)
    } else if d == 9 {
        seg(IoExpPort2::SegA) | seg(IoExpPort2::SegB) | seg(IoExpPort2::SegC) | seg(IoExpPort2::SegD)
            | seg(IoExpPort2::SegF) | seg(IoExpPort2::SegG)
    } else {
        0
    }
}

/// The port 2 value that shows decimal digit `digit` on the seven segments;
/// 0 (all segments dark) for a value above 9.
pub fn digit_to_segments(digit: u8) -> (segments: u8)
    ensures
        segments == spec_digit_segments(digit),
{
    let segments = match digit {
        0 => {
            IoExpPort2::SegA.bits() | IoExpPort2::SegB.bits() | IoExpPort2::SegC.bits()
                | IoExpPort2::SegD.bits() | IoExpPort2::SegE.bits() | IoExpPort2::SegF.bits()
        },
        1 => IoExpPort2::SegB.bits() | IoExpPort2::SegC.bits(),
        2 => {
            IoExpPort2::SegA.bits() | IoExpPort2::SegB.bits() | IoExpPort2::SegD.bits()
                | IoExpPort2::SegE.bits() | IoExpPort2::SegG.bits()
        },
        3 => {
            IoExpPort2::SegA.bits() | IoExpPort2::SegB.bits() | IoExpPort2::SegC.bits()
                | IoExpPort2::SegD.bits() | IoExpPort2::SegG.bits()
        },
        4 => {
            IoExpPort2::SegB.bits() | IoExpPort2::SegC.bits() | IoExpPort2::SegF.bits()
                | IoExpPort2::SegG.bits()
        },
        5 => {
            IoExpPort2::SegA.bits() | IoExpPort2::SegC.bits() | IoExpPort2::SegD.bits()
                | IoExpPort2::SegF.bits() | IoExpPort2::SegG.bits()
        },
        6 => {
            IoExpPort2::SegA.bits() | IoExpPort2::SegC.bits() | IoExpPort2::SegD.bits()
                | IoExpPort2::SegE.bits() | IoExpPort2::SegF.bits() | IoExpPort2::SegG.bits()
        },
        7 => IoExpPort2::SegA.bits() | IoExpPort2::SegB.bits() | IoExpPort2::SegC.bits(),
        8 => {
            IoExpPort2::SegA.bits() | IoExpPort2::SegB.bits() | IoExpPort2::SegC.bits()
                | IoExpPort2::SegD.bits() | IoExpPort2::SegE.bits() | IoExpPort2::SegF.bits()
                | IoExpPort2::SegG.bits()
        },
        9 => {
            IoExpPort2::SegA.bits() | IoExpPort2::SegB.bits() | IoExpPort2::SegC.bits()
                | IoExpPort2::SegD.bits() | IoExpPort2::SegF.bits() | IoExpPort2::SegG.bits()
        },
        _ => 0,
    };
    segments
}

/// The seven-segment patterns as port 2 values.
pub proof fn lemma_digit_segments_values()
    ensures
        spec_digit_segments(0) == 0x3F,
        spec_digit_segments(1) == 0x06,
        spec_digit_segments(2) == 0x9B,
        spec_digit_segments(3) == 0x8F,
        spec_digit_segments(4) == 0xA6,
        spec_digit_segments(5) == 0xAD,
        spec_digit_segments(6) == 0xBD,
        spec_digit_segments(7) == 0x07,
        spec_digit_segments(8) == 0xBF,
        spec_digit_segments(9) == 0xAF,
{
    assert(0x01u8 | 0x02u8 | 0x04u8 | 0x08u8 | 0x10u8 | 0x20u8 == 0x3Fu8
        && 0x02u8 | 0x04u8 == 0x06u8
        && 0x01u8 | 0x02u8 | 0x08u8 | 0x10u8 | 0x80u8 == 0x9Bu8
        && 0x01u8 | 0x02u8 | 0x04u8 | 0x08u8 | 0x80u8 == 0x8Fu8
        && 0x02u8 | 0x04u8 | 0x20u8 | 0x80u8 == 0xA6u8
        && 0x01u8 | 0x04u8 | 0x08u8 | 0x20u8 | 0x80u8 == 0xADu8
        && 0x01u8 | 0x04u8 | 0x08u8 | 0x10u8 | 0x20u8 | 0x80u8 == 0xBDu8
        && 0x01u8 | 0x02u8 | 0x04u8 == 0x07u8
        && 0x01u8 | 0x02u8 | 0x04u8 | 0x08u8 | 0x10u8 | 0x20u8 | 0x80u8 == 0xBFu8
        && 0x01u8 | 0x02u8 | 0x04u8 | 0x08u8 | 0x20u8 | 0x80u8 == 0xAFu8) by (bit_vector);
}

/// Every decimal digit has its own pattern, and no pattern lights the colon:
/// the colon is under the caller's control alone.
pub proof fn lemma_digit_segments_distinct(a: u8, b: u8)
    requires
        a < 10,
        b < 10,
        a != b,
    ensures
        spec_digit_segments(a) != spec_digit_segments(b),
        spec_digit_segments(a) & seg(IoExpPort2::Dp) == 0,
        spec_digit_segments(a) != 0,
{
    lemma_digit_segments_values();
    let v = spec_digit_segments(a);
    assert(v == 0x3F || v == 0x06 || v == 0x9B || v == 0x8F || v == 0xA6 || v == 0xAD || v == 0xBD
        || v == 0x07 || v == 0xBF || v == 0xAF);
    assert((v == 0x3F || v == 0x06 || v == 0x9B || v == 0x8F || v == 0xA6 || v == 0xAD || v == 0xBD
        || v == 0x07 || v == 0xBF || v == 0xAF) ==> v & 0x40u8 == 0) by (bit_vector);
}

/// The three port writes that show one digit of the multiplexed display.
#[derive(Clone, Copy, Debug, PartialEq, Eq, Structural)]
pub struct DigitWrites {
    /// Port 1 with every digit deselected (blanking), LEDs and switches kept.
    pub blank_port1: u8,
    /// Port 2: the digit's segments with the colon lit.
    pub segments: u8,
    /// Port 1 with only the chosen digit selected (low), LEDs and switches kept.
    pub select_port1: u8,
}

/// The mask of digit select pin `i` (0 to 3) of port 1.
pub open spec fn digit_pin(i: u8) -> u8 {
    pin_mask(i as int)
}

/// Port 1 values and segments to show `value` on digit `digit_index`, given
/// the current port 1 output value: blank all digits, write the segments
/// (with the colon), then select the one digit.
pub open spec fn spec_digit_writes(current_port1: u8, digit_index: u8, value: u8) -> DigitWrites {
    let leds_state = current_port1 & !ALL_DIGITS_MASK;
    DigitWrites {
        blank_port1: leds_state | ALL_DIGITS_MASK,
        segments: spec_digit_segments(value) | seg(IoExpPort2::Dp),
        select_port1: leds_state | (ALL_DIGITS_MASK & !digit_pin(digit_index)),
    }
}

/// The values written to show `value` (0 to 9) on digit `digit_index` (0 to 3)
/// when port 1 currently outputs `current_port1`.
pub fn digit_writes(current_port1: u8, digit_index: u8, value: u8) -> (w: DigitWrites)
    requires
        digit_index < 4,
    ensures
        w == spec_digit_writes(current_port1, digit_index, value),
{
    let digit_pins: [u8; 4] = [
        IoExpPort1::Digit1.bits(),
        IoExpPort1::Digit2.bits(),
        IoExpPort1::Digit3.bits(),
        IoExpPort1::Digit4.bits(),
    ];
    let all_digits_mask = ALL_DIGITS_MASK;
    let mut segments = digit_to_segments(value);
    segments = segments | IoExpPort2::Dp.bits();
    let leds_state = current_port1 & !all_digits_mask;
    let blank_state = leds_state | all_digits_mask;
    let pin = digit_pins[digit_index as usize];
    let new_digit_state = all_digits_mask & !pin;
    let new_port1 = leds_state | new_digit_state;
    DigitWrites { blank_port1: blank_state, segments, select_port1: new_port1 }
}

/// Showing a digit never disturbs the LEDs and switch pins (4 to 7) of port 1,
/// blanks every digit first, and then selects exactly the chosen digit.
pub proof fn lemma_digit_writes_select_one(current_port1: u8, digit_index: u8, value: u8, i: u8)
    requires
        digit_index < 4,
        i < 4,
    ensures
        ({
            let w = spec_digit_writes(current_port1, digit_index, value);
            &&& w.blank_port1 & 0xF0 == current_port1 & 0xF0
            &&& w.select_port1 & 0xF0 == current_port1 & 0xF0
            &&& w.blank_port1 & digit_pin(i) != 0
            &&& (w.select_port1 & digit_pin(i) == 0 <==> i == digit_index)
            &&& w.segments & seg(IoExpPort2::Dp) != 0
        }),
{
    let p = digit_pin(digit_index);
    let q = digit_pin(i);
    let dp = seg(IoExpPort2::Dp);
    let sg = spec_digit_segments(value);
    assert(p == 1 || p == 2 || p == 4 || p == 8);
    assert(q == 1 || q == 2 || q == 4 || q == 8);
    assert(dp == 0x40);
    assert((p == q) == (i == digit_index));
    assert(((p == 1 || p == 2 || p == 4 || p == 8) && (q == 1 || q == 2 || q == 4 || q == 8)) ==> (
        ((current_port1 & !0x0Fu8) | 0x0Fu8) & 0xF0u8 == current_port1 & 0xF0u8
        && ((current_port1 & !0x0Fu8) | (0x0Fu8 & !p)) & 0xF0u8 == current_port1 & 0xF0u8
        && ((current_port1 & !0x0Fu8) | 0x0Fu8) & q != 0
        && ((((current_port1 & !0x0Fu8) | (0x0Fu8 & !p)) & q == 0) == (p == q))
        && (sg | 0x40u8) & 0x40u8 != 0)) by (bit_vector);
}

/// Port 1 with the PM LED (pin 5) switched on.
pub fn pm_led_on(current_port1: u8) -> (new_port1: u8)
    ensures
        new_port1 == current_port1 | pin_mask(IoExpPort1::PmLed.pin()),
{
    current_port1 | IoExpPort1::PmLed.bits()
}

/// Port 1 with the PM LED (pin 5) switched off.
pub fn pm_led_off(current_port1: u8) -> (new_port1: u8)
    ensures
        new_port1 == current_port1 & !pin_mask(IoExpPort1::PmLed.pin()),
{
    current_port1 & !IoExpPort1::PmLed.bits()
}

/// Port 1 with the alarm LED (pin 4) switched on.
pub fn led_on(current_port1: u8) -> (new_port1: u8)
    ensures
        new_port1 == current_port1 | pin_mask(IoExpPort1::Led.pin()),
{
    current_port1 | IoExpPort1::Led.bits()
}

/// Port 1 with the alarm LED (pin 4) switched off.
pub fn led_off(current_port1: u8) -> (new_port1: u8)
    ensures
        new_port1 == current_port1 & !pin_mask(IoExpPort1::Led.pin()),
{
    current_port1 & !IoExpPort1::Led.bits()
}

/// Setting or clearing a pin of port 1 changes that pin alone, and clearing
/// after setting leaves the pin off whatever it was before.
pub proof fn lemma_pin_write_changes_one_pin(current: u8, n: int, m: int)
    requires
        0 <= n < 8,
        0 <= m < 8,
        n != m,
    ensures
        (current | pin_mask(n)) & pin_mask(n) != 0,
        (current & !pin_mask(n)) & pin_mask(n) == 0,
        (current | pin_mask(n)) & pin_mask(m) == current & pin_mask(m),
        (current & !pin_mask(n)) & pin_mask(m) == current & pin_mask(m),
        ((current | pin_mask(n)) & !pin_mask(n)) == current & !pin_mask(n),
{
    let a = pin_mask(n);
    let b = pin_mask(m);
    assert(a == 1 || a == 2 || a == 4 || a == 8 || a == 16 || a == 32 || a == 64 || a == 128);
    assert(b == 1 || b == 2 || b == 4 || b == 8 || b == 16 || b == 32 || b == 64 || b == 128);
    assert(a != b);
    assert(((a == 1 || a == 2 || a == 4 || a == 8 || a == 16 || a == 32 || a == 64 || a == 128)
        && (b == 1 || b == 2 || b == 4 || b == 8 || b == 16 || b == 32 || b == 64 || b == 128)
        && a != b) ==> (
        (current | a) & a != 0
        && (current & !a) & a == 0
        && (current | a) & b == current & b
        && (current & !a) & b == current & b
        && ((current | a) & !a) == current & !a)) by (bit_vector);
}

/// The first initialisation write: all outputs low except the four digit
/// selects (pins 0 to 3 of port 1), which start high, i.e. dark.
pub fn init_output_frame() -> (frame: [u8; 4])
    ensures
        frame@ == seq![OUT_PORT0, 0u8, ALL_DIGITS_MASK, 0u8],
{
    let frame = [OUT_PORT0, 0, ALL_DIGITS_MASK, 0];
    assert(frame@ =~= seq![OUT_PORT0, 0u8, ALL_DIGITS_MASK, 0u8]);
    frame
}

/// The second initialisation write: the pin directions of the three ports.
pub fn init_direction_frame() -> (frame: [u8; 4])
    ensures
        frame@ == seq![CONFIG_PORT0, PORT0_DIR, PORT1_DIR, PORT2_DIR],
{
    let frame = [CONFIG_PORT0, PORT0_DIR, PORT1_DIR, PORT2_DIR];
    assert(frame@ =~= seq![CONFIG_PORT0, PORT0_DIR, PORT1_DIR, PORT2_DIR]);
    frame
}

/// Pin `n` of a port value reads low.
pub open spec fn pin_low(port: u8, n: int) -> bool {
    port & pin_mask(n) == 0
}

/// A button wired active-low: pressed while its pin reads low.
pub open spec fn button_from_pin(port: u8, n: int) -> Button {
    if pin_low(port, n) {
        Button::Pressed
    } else {
        Button::Released
    }
}

/// The events read from input ports 0 and 1. The snooze button is not on the
/// expander and reads as released here.
pub open spec fn spec_decode_inputs(port0: u8, port1: u8) -> SystemEvents {
    SystemEvents {
        time_but: button_from_pin(port0, IoExpPort0::TimeButton.pin()),
        alarm_but: button_from_pin(port0, IoExpPort0::AlarmButton.pin()),
        hour_but: button_from_pin(port0, IoExpPort0::HourButton.pin()),
        min_but: button_from_pin(port0, IoExpPort0::MinuteButton.pin()),
        snooze_but: Button::Released,
        alarm_sw: if pin_low(port0, IoExpPort0::AlarmSwitchOn.pin()) {
            AlarmSwitch::On
        } else {
            AlarmSwitch::Off
        },
        fmt_sw: if pin_low(port1, IoExpPort1::FormatSwitch12.pin()) {
            FormatSwitch::H12
        } else {
            FormatSwitch::H24
        },
    }
}

/// Decodes the values read from input ports 0 and 1 into events.
pub fn decode_inputs(port0: u8, port1: u8) -> (events: SystemEvents)
    ensures
        events == spec_decode_inputs(port0, port1),
{
    SystemEvents {
        time_but: if port0 & IoExpPort0::TimeButton.bits() == 0 {
            Button::Pressed
        } else {
            Button::Released
        },
        alarm_but: if port0 & IoExpPort0::AlarmButton.bits() == 0 {
            Button::Pressed
        } else {
            Button::Released
        },
        hour_but: if port0 & IoExpPort0::HourButton.bits() == 0 {
            Button::Pressed
        } else {
            Button::Released
        },
        min_but: if port0 & IoExpPort0::MinuteButton.bits() == 0 {
            Button::Pressed
        } else {
            Button::Released
        },
        snooze_but: Button::Released,
        alarm_sw: if port0 & IoExpPort0::AlarmSwitchOn.bits() == 0 {
            AlarmSwitch::On
        } else {
            AlarmSwitch::Off
        },
        fmt_sw: if port1 & IoExpPort1::FormatSwitch12.bits() == 0 {
            FormatSwitch::H12
        } else {
            FormatSwitch::H24
        },
    }
}

/// Each decoded input reads its own expander pin, active low: the hour
/// button is pin 7 of port 0, the minute button pin 6, the time button pin 5,
/// the alarm button pin 4, the alarm switch pin 0, and the format switch pin
/// 6 of port 1; the snooze button is never read from the expander.
pub proof fn lemma_decode_inputs_pins(port0: u8, port1: u8)
    ensures
        ({
            let e = spec_decode_inputs(port0, port1);
            &&& (e.hour_but == Button::Pressed <==> port0 & 0x80 == 0)
            &&& (e.min_but == Button::Pressed <==> port0 & 0x40 == 0)
            &&& (e.time_but == Button::Pressed <==> port0 & 0x20 == 0)
            &&& (e.alarm_but == Button::Pressed <==> port0 & 0x10 == 0)
            &&& (e.alarm_sw == AlarmSwitch::On <==> port0 & 0x01 == 0)
            &&& (e.fmt_sw == FormatSwitch::H12 <==> port1 & 0x40 == 0)
            &&& e.snooze_but == Button::Released
        }),
{
}

} // verus!
