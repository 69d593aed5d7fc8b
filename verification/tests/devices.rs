use ser_no_std::events::{AlarmSwitch, Button, FormatSwitch};
use ser_no_std::expander::{
    decode_inputs, digit_to_segments, digit_writes, init_direction_frame, init_output_frame,
    led_off, led_on, pm_led_off, pm_led_on, IoExpPort0, IoExpPort1, IoExpPort2,
};
use ser_no_std::clock::Time;
use ser_no_std::rtc::{from_bcd, rtc_decode_time, rtc_time_frame, to_bcd, RTC_ADDR};

#[test]
fn pin_bits() {
    assert_eq!(IoExpPort0::AlarmSwitchOn.bits(), 0x01);
    assert_eq!(IoExpPort0::AlarmButton.bits(), 0x10);
    assert_eq!(IoExpPort0::HourButton.bits(), 0x80);
    assert_eq!(IoExpPort1::Digit3.bits(), 0x04);
    assert_eq!(IoExpPort1::PmLed.bits(), 0x20);
    assert_eq!(IoExpPort1::FormatSwitch12.bits(), 0x40);
    assert_eq!(IoExpPort2::Dp.bits(), 0x40);
    assert_eq!(IoExpPort2::SegG.bits(), 0x80);
}

#[test]
fn seven_segment_patterns() {
    let expected = [0x3F, 0x06, 0x9B, 0x8F, 0xA6, 0xAD, 0xBD, 0x07, 0xBF, 0xAF];
    for d in 0u8..10 {
        assert_eq!(digit_to_segments(d), expected[d as usize]);
        assert_eq!(digit_to_segments(d) & IoExpPort2::Dp.bits(), 0);
    }
    assert_eq!(digit_to_segments(10), 0);
    assert_eq!(digit_to_segments(255), 0);
    for a in 0u8..10 {
        for b in 0u8..10 {
            if a != b {
                assert_ne!(digit_to_segments(a), digit_to_segments(b));
            }
        }
    }
}

#[test]
fn digit_writes_blank_then_select() {
    let w = digit_writes(0b1011_0110, 2, 7);
    assert_eq!(w.blank_port1, 0b1011_1111);
    assert_eq!(w.segments, 0x07 | 0x40);
    assert_eq!(w.select_port1, 0b1011_1011);
    let w = digit_writes(0x00, 0, 8);
    assert_eq!(w.blank_port1, 0x0F);
    assert_eq!(w.segments, 0xFF);
    assert_eq!(w.select_port1, 0x0E);
    let w = digit_writes(0xF0, 3, 42);
    assert_eq!(w.segments, 0x40);
    assert_eq!(w.select_port1, 0xF7);
}

#[test]
fn led_writes_touch_one_pin() {
    assert_eq!(pm_led_on(0x0F), 0x2F);
    assert_eq!(pm_led_off(0xFF), 0xDF);
    assert_eq!(led_on(0x00), 0x10);
    assert_eq!(led_off(0x1F), 0x0F);
    assert_eq!(pm_led_off(pm_led_on(0x55)), 0x55 & !0x20);
}

#[test]
fn init_frames() {
    assert_eq!(init_output_frame(), [0x84, 0x00, 0x0F, 0x00]);
    assert_eq!(init_direction_frame(), [0x8C, 0xFF, 0xC0, 0x00]);
}

#[test]
fn decode_inputs_active_low() {
    let e = decode_inputs(0xFF, 0xFF);
    assert_eq!(e.time_but, Button::Released);
    assert_eq!(e.alarm_but, Button::Released);
    assert_eq!(e.hour_but, Button::Released);
    assert_eq!(e.min_but, Button::Released);
    assert_eq!(e.snooze_but, Button::Released);
    assert_eq!(e.alarm_sw, AlarmSwitch::Off);
    assert_eq!(e.fmt_sw, FormatSwitch::H24);
    let e = decode_inputs(0x00, 0x00);
    assert_eq!(e.time_but, Button::Pressed);
    assert_eq!(e.alarm_but, Button::Pressed);
    assert_eq!(e.hour_but, Button::Pressed);
    assert_eq!(e.min_but, Button::Pressed);
    assert_eq!(e.snooze_but, Button::Released);
    assert_eq!(e.alarm_sw, AlarmSwitch::On);
    assert_eq!(e.fmt_sw, FormatSwitch::H12);
    let e = decode_inputs(!0x20u8 & !0x01u8, !0x40u8);
    assert_eq!(e.time_but, Button::Pressed);
    assert_eq!(e.alarm_but, Button::Released);
    assert_eq!(e.alarm_sw, AlarmSwitch::On);
    assert_eq!(e.fmt_sw, FormatSwitch::H12);
}

#[test]
fn bcd_values() {
    assert_eq!(RTC_ADDR, 0x68);
    assert_eq!(to_bcd(0), 0x00);
    assert_eq!(to_bcd(9), 0x09);
    assert_eq!(to_bcd(10), 0x10);
    assert_eq!(to_bcd(59), 0x59);
    assert_eq!(to_bcd(99), 0x99);
    assert_eq!(to_bcd(165), 0x05);
    assert_eq!(to_bcd(123), 0xC3);
    assert_eq!(from_bcd(0x59), 59);
    assert_eq!(from_bcd(0x23), 23);
    assert_eq!(from_bcd(0xFF), 165);
    for v in 0u8..100 {
        assert_eq!(from_bcd(to_bcd(v)), v);
    }
}

#[test]
fn rtc_frames_roundtrip() {
    let t = Time { hours: 21, minutes: 7, seconds: 45 };
    let f = rtc_time_frame(t);
    assert_eq!(f, [0x00, 0x45, 0x07, 0x21]);
    assert_eq!(rtc_decode_time([f[1], f[2], f[3]]), t);
    assert_eq!(rtc_decode_time([0x00, 0x30, 0x12]), Time { hours: 12, minutes: 30, seconds: 0 });
}
