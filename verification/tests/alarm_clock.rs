use ser_no_std::alarm::{entry_actions, poll, State, SNOOZE_PERIOD_MICROS};
use ser_no_std::clock::{DisplayMode, Time, TimeKeeper};
use ser_no_std::display::{display_frame, displayed_time, format_hours};
use ser_no_std::events::{AlarmSwitch, Button, FormatSwitch, SystemEvents};

fn idle_events() -> SystemEvents {
    SystemEvents {
        time_but: Button::Released,
        alarm_but: Button::Released,
        hour_but: Button::Released,
        min_but: Button::Released,
        snooze_but: Button::Released,
        alarm_sw: AlarmSwitch::Off,
        fmt_sw: FormatSwitch::H24,
    }
}

fn keeper(h: u8, m: u8, s: u8, ah: u8, am: u8) -> TimeKeeper {
    TimeKeeper {
        clocktime: Time { hours: h, minutes: m, seconds: s },
        alarmtime: Time { hours: ah, minutes: am, seconds: 0 },
        display_mode: DisplayMode::ShowClock,
    }
}

#[test]
fn new_time_keeper_is_midnight_showing_clock() {
    let tk = TimeKeeper::new();
    assert_eq!(tk.clocktime, Time { hours: 0, minutes: 0, seconds: 0 });
    assert_eq!(tk.alarmtime, Time { hours: 0, minutes: 0, seconds: 0 });
    assert_eq!(tk.display_mode, DisplayMode::ShowClock);
}

#[test]
fn tick_carries_seconds_minutes_hours() {
    let mut tk = keeper(10, 20, 30, 0, 0);
    tk.tick();
    assert_eq!(tk.clocktime, Time { hours: 10, minutes: 20, seconds: 31 });
    let mut tk = keeper(10, 20, 59, 0, 0);
    tk.tick();
    assert_eq!(tk.clocktime, Time { hours: 10, minutes: 21, seconds: 0 });
    let mut tk = keeper(10, 59, 59, 0, 0);
    tk.tick();
    assert_eq!(tk.clocktime, Time { hours: 11, minutes: 0, seconds: 0 });
    let mut tk = keeper(23, 59, 59, 0, 0);
    tk.tick();
    assert_eq!(tk.clocktime, Time { hours: 0, minutes: 0, seconds: 0 });
}

#[test]
fn one_day_of_ticks_returns_to_the_same_time() {
    let mut tk = keeper(7, 45, 12, 6, 30);
    for _ in 0..86400 {
        tk.tick();
    }
    assert_eq!(tk.clocktime, Time { hours: 7, minutes: 45, seconds: 12 });
    assert_eq!(tk.alarmtime, Time { hours: 6, minutes: 30, seconds: 0 });
}

#[test]
fn tick_on_out_of_range_seconds_resets_them() {
    let mut tk = keeper(3, 4, 165, 0, 0);
    tk.tick();
    assert_eq!(tk.clocktime, Time { hours: 3, minutes: 5, seconds: 0 });
}

#[test]
fn increments_wrap_without_carry() {
    let mut tk = keeper(23, 59, 10, 23, 59);
    tk.increment_time_hours();
    assert_eq!(tk.clocktime, Time { hours: 0, minutes: 59, seconds: 10 });
    tk.increment_time_minutes();
    assert_eq!(tk.clocktime, Time { hours: 0, minutes: 0, seconds: 10 });
    tk.increment_alarm_hours();
    assert_eq!(tk.alarmtime.hours, 0);
    tk.increment_alarm_minutes();
    assert_eq!(tk.alarmtime.minutes, 0);
    assert_eq!(tk.alarmtime.hours, 0);
}

#[test]
fn alarm_matches_on_hours_and_minutes_only() {
    assert!(keeper(6, 30, 0, 6, 30).alarm_time_match());
    assert!(keeper(6, 30, 45, 6, 30).alarm_time_match());
    assert!(!keeper(6, 31, 0, 6, 30).alarm_time_match());
    assert!(!keeper(7, 30, 0, 6, 30).alarm_time_match());
}

#[test]
fn show_modes_switch_display() {
    let mut tk = keeper(1, 2, 3, 4, 5);
    tk.show_alarm_time();
    assert_eq!(tk.display_mode, DisplayMode::ShowAlarm);
    assert_eq!(displayed_time(&tk), (4, 5));
    tk.show_clock_time();
    assert_eq!(tk.display_mode, DisplayMode::ShowClock);
    assert_eq!(displayed_time(&tk), (1, 2));
}

#[test]
fn unarmed_transitions_by_priority() {
    let mut tk = keeper(1, 0, 0, 2, 0);
    assert_eq!(poll(State::Unarmed, None, &mut tk, 0), None);
    let mut e = idle_events();
    assert_eq!(poll(State::Unarmed, Some(e), &mut tk, 0), None);
    e.time_but = Button::Pressed;
    assert_eq!(poll(State::Unarmed, Some(e), &mut tk, 0), Some(State::SetTime));
    e.alarm_but = Button::Pressed;
    assert_eq!(poll(State::Unarmed, Some(e), &mut tk, 0), Some(State::SetAlarm));
    e.alarm_sw = AlarmSwitch::On;
    assert_eq!(poll(State::Unarmed, Some(e), &mut tk, 0), Some(State::Armed));
    assert_eq!(tk, keeper(1, 0, 0, 2, 0));
}

#[test]
fn armed_rings_at_alarm_time_whatever_the_inputs() {
    let mut e = idle_events();
    e.alarm_sw = AlarmSwitch::Off;
    let mut tk = keeper(6, 30, 5, 6, 30);
    assert_eq!(poll(State::Armed, Some(e), &mut tk, 0), Some(State::Alarming));
    assert_eq!(poll(State::Armed, None, &mut tk, 0), Some(State::Alarming));
    let mut tk = keeper(6, 29, 5, 6, 30);
    assert_eq!(poll(State::Armed, None, &mut tk, 0), None);
    assert_eq!(poll(State::Armed, Some(e), &mut tk, 0), Some(State::Unarmed));
    e.alarm_sw = AlarmSwitch::On;
    assert_eq!(poll(State::Armed, Some(e), &mut tk, 0), None);
    e.time_but = Button::Pressed;
    assert_eq!(poll(State::Armed, Some(e), &mut tk, 0), Some(State::SetTime));
    e.alarm_but = Button::Pressed;
    assert_eq!(poll(State::Armed, Some(e), &mut tk, 0), Some(State::SetAlarm));
}

#[test]
fn set_time_adjusts_clock_only() {
    let mut e = idle_events();
    e.time_but = Button::Pressed;
    e.hour_but = Button::Pressed;
    e.min_but = Button::Pressed;
    let mut tk = keeper(23, 59, 0, 5, 5);
    assert_eq!(poll(State::SetTime, Some(e), &mut tk, 0), None);
    assert_eq!(tk, keeper(0, 59, 0, 5, 5));
    e.hour_but = Button::Released;
    assert_eq!(poll(State::SetTime, Some(e), &mut tk, 0), None);
    assert_eq!(tk, keeper(0, 0, 0, 5, 5));
    e.min_but = Button::Released;
    assert_eq!(poll(State::SetTime, Some(e), &mut tk, 0), None);
    e.time_but = Button::Released;
    assert_eq!(poll(State::SetTime, Some(e), &mut tk, 0), Some(State::Unarmed));
    assert_eq!(tk, keeper(0, 0, 0, 5, 5));
}

#[test]
fn set_alarm_adjusts_alarm_only() {
    let mut e = idle_events();
    e.alarm_but = Button::Pressed;
    e.hour_but = Button::Pressed;
    let mut tk = keeper(8, 8, 8, 23, 59);
    assert_eq!(poll(State::SetAlarm, Some(e), &mut tk, 0), None);
    assert_eq!(tk, keeper(8, 8, 8, 0, 59));
    e.hour_but = Button::Released;
    e.min_but = Button::Pressed;
    assert_eq!(poll(State::SetAlarm, Some(e), &mut tk, 0), None);
    assert_eq!(tk, keeper(8, 8, 8, 0, 0));
    e.min_but = Button::Released;
    e.alarm_but = Button::Released;
    assert_eq!(poll(State::SetAlarm, Some(e), &mut tk, 0), Some(State::Unarmed));
}

#[test]
fn alarming_snooze_and_switch_off() {
    let mut tk = keeper(6, 30, 0, 6, 30);
    let mut e = idle_events();
    e.alarm_sw = AlarmSwitch::On;
    assert_eq!(poll(State::Alarming, Some(e), &mut tk, 0), None);
    e.alarm_sw = AlarmSwitch::Off;
    assert_eq!(poll(State::Alarming, Some(e), &mut tk, 0), Some(State::Unarmed));
    e.snooze_but = Button::Pressed;
    assert_eq!(poll(State::Alarming, Some(e), &mut tk, 0), Some(State::Snoozing));
}

#[test]
fn snooze_lasts_five_minutes() {
    let mut tk = keeper(6, 30, 0, 6, 30);
    let mut e = idle_events();
    e.alarm_sw = AlarmSwitch::On;
    assert_eq!(SNOOZE_PERIOD_MICROS, 300_000_000);
    assert_eq!(poll(State::Snoozing, Some(e), &mut tk, 299_999_999), None);
    assert_eq!(poll(State::Snoozing, Some(e), &mut tk, 300_000_000), Some(State::Alarming));
    assert_eq!(poll(State::Snoozing, None, &mut tk, 300_000_000), Some(State::Alarming));
    e.alarm_sw = AlarmSwitch::Off;
    assert_eq!(poll(State::Snoozing, Some(e), &mut tk, 300_000_000), Some(State::Unarmed));
}

#[test]
fn entry_actions_per_state() {
    let a = entry_actions(State::Unarmed);
    assert_eq!(a.alarm_led_on, Some(false));
    assert_eq!(a.buzzer_duty_pct, Some(0));
    assert_eq!(a.display, Some(DisplayMode::ShowClock));
    assert!(a.save_time_to_rtc);
    let a = entry_actions(State::Armed);
    assert_eq!(a.alarm_led_on, Some(true));
    assert!(!a.save_time_to_rtc);
    assert_eq!(entry_actions(State::SetTime).display, Some(DisplayMode::ShowClock));
    assert_eq!(entry_actions(State::SetAlarm).display, Some(DisplayMode::ShowAlarm));
    assert_eq!(entry_actions(State::Snoozing).buzzer_duty_pct, Some(0));
    assert_eq!(entry_actions(State::Alarming).buzzer_duty_pct, Some(50));
}

#[test]
fn twelve_hour_format() {
    assert_eq!(format_hours(0, FormatSwitch::H12), (12, false));
    assert_eq!(format_hours(1, FormatSwitch::H12), (1, false));
    assert_eq!(format_hours(11, FormatSwitch::H12), (11, false));
    assert_eq!(format_hours(12, FormatSwitch::H12), (12, true));
    assert_eq!(format_hours(13, FormatSwitch::H12), (1, true));
    assert_eq!(format_hours(23, FormatSwitch::H12), (11, true));
    assert_eq!(format_hours(0, FormatSwitch::H24), (0, false));
    assert_eq!(format_hours(23, FormatSwitch::H24), (23, false));
    for h in 0u8..24 {
        let (shown, pm) = format_hours(h, FormatSwitch::H12);
        assert!((1..=12).contains(&shown));
        assert_eq!(shown % 12, h % 12);
        assert_eq!(pm, h >= 12);
    }
}

#[test]
fn display_frame_digits_and_pm_led() {
    let tk = keeper(17, 45, 0, 6, 5);
    let f = display_frame(&tk, None);
    assert_eq!(f.digits, [1, 7, 4, 5]);
    assert_eq!(f.pm_led_on, None);
    let mut e = idle_events();
    e.fmt_sw = FormatSwitch::H12;
    let f = display_frame(&tk, Some(e));
    assert_eq!(f.digits, [0, 5, 4, 5]);
    assert_eq!(f.pm_led_on, Some(true));
    e.fmt_sw = FormatSwitch::H24;
    let f = display_frame(&tk, Some(e));
    assert_eq!(f.digits, [1, 7, 4, 5]);
    assert_eq!(f.pm_led_on, Some(false));
    let mut tk2 = tk;
    tk2.show_alarm_time();
    let f = display_frame(&tk2, Some(e));
    assert_eq!(f.digits, [0, 6, 0, 5]);
}

#[test]
fn with_snooze_sets_button_from_pin() {
    let e = idle_events();
    assert_eq!(e.with_snooze(true).snooze_but, Button::Pressed);
    assert_eq!(e.with_snooze(false).snooze_but, Button::Released);
    let mut expect = e;
    expect.snooze_but = Button::Pressed;
    assert_eq!(e.with_snooze(true), expect);
}
