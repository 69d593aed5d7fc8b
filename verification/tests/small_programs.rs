use ser_no_std::adc::adc_to_millivolts;
use ser_no_std::blink::{blink_delay_after_press, next_cycle_delay, toggle_due, BLINK_DELAY_START};
use ser_no_std::counter::{count_message, count_press, next_shared_count};
use ser_no_std::elapsed::ElapsedTime;
use ser_no_std::i2c_scan::scan_addresses;
use ser_no_std::ntp::Timestamp;
use ser_no_std::pwm::fade_duties;
use ser_no_std::serial::{echo_frame, next_letter};
use ser_no_std::wifi::{link_step, LinkAction, LinkEvent, LinkState, RECONNECT_DELAY_MS};

#[test]
fn blink_delay_steps_and_wraps() {
    assert_eq!(blink_delay_after_press(1_000_000), 975_000);
    assert_eq!(blink_delay_after_press(50_000), 25_000);
    assert_eq!(blink_delay_after_press(25_000), 1_000_000);
    let mut d = BLINK_DELAY_START;
    for _ in 0..40 {
        d = blink_delay_after_press(d);
        assert!((25_000..=1_000_000).contains(&d));
        assert_eq!(d % 25_000, 0);
    }
    assert_eq!(d, BLINK_DELAY_START);
}

#[test]
fn cycle_delay_steps() {
    assert_eq!(next_cycle_delay(200), 150);
    assert_eq!(next_cycle_delay(150), 100);
    assert_eq!(next_cycle_delay(100), 50);
    assert_eq!(next_cycle_delay(50), 200);
    assert_eq!(next_cycle_delay(0), 200);
    assert_eq!(next_cycle_delay(51), 1);
}

#[test]
fn toggle_after_a_second() {
    assert!(!toggle_due(0));
    assert!(toggle_due(1));
    assert!(toggle_due(7));
}

#[test]
fn elapsed_counter_sequence() {
    let mut t = ElapsedTime::new();
    for _ in 0..59 {
        t.tick();
    }
    assert_eq!(t, ElapsedTime { seconds: 59, minutes: 0, hours: 0 });
    t.tick();
    assert_eq!(t, ElapsedTime { seconds: 60, minutes: 1, hours: 0 });
    t.tick();
    assert_eq!(t, ElapsedTime { seconds: 61, minutes: 2, hours: 0 });
    let mut t = ElapsedTime::new();
    for _ in 0..141 {
        t.tick();
    }
    assert_eq!(t, ElapsedTime { seconds: 141, minutes: 82, hours: 23 });
    t.tick();
    assert_eq!(t, ElapsedTime { seconds: 0, minutes: 0, hours: 0 });
    for _ in 0..100_000 {
        t.tick();
        assert!(t.seconds < 142 && t.minutes < 83 && t.hours < 24);
    }
}

#[test]
fn press_counter_and_shared_counter() {
    assert_eq!(count_press(false, 5), None);
    assert_eq!(count_press(true, 5), Some(6));
    assert_eq!(next_shared_count(41), 42);
    assert_eq!(next_shared_count(u32::MAX), 0);
}

#[test]
fn count_message_text() {
    assert_eq!(count_message(0).as_str(), "00\n");
    assert_eq!(count_message(7).as_str(), "07\n");
    assert_eq!(count_message(42).as_str(), "42\n");
    assert_eq!(count_message(123).as_str(), "123\n");
    assert_eq!(count_message(9_999_999).as_str(), "9999999\n");
    for v in [0u32, 5, 10, 99, 100, 65_535, 1_234_567] {
        assert_eq!(count_message(v).as_str(), format!("{:02}\n", v));
    }
}

#[test]
fn loopback_letters() {
    assert_eq!(next_letter(b'a'), b'b');
    assert_eq!(next_letter(b'y'), b'z');
    assert_eq!(next_letter(b'z'), b'a');
    let mut c = b'a';
    for _ in 0..26 {
        c = next_letter(c);
        assert!(c.is_ascii_lowercase());
    }
    assert_eq!(c, b'a');
}

#[test]
fn echo_appends_crlf() {
    assert_eq!(echo_frame(b"hi"), vec![b'h', b'i', 0x0D, 0x0A]);
    assert_eq!(echo_frame(&[]), vec![0x0D, 0x0A]);
}

#[test]
fn voltmeter_conversion() {
    assert_eq!(adc_to_millivolts(0), 0);
    assert_eq!(adc_to_millivolts(4095), 3300);
    assert_eq!(adc_to_millivolts(2048), 1650);
    assert_eq!(adc_to_millivolts(1), 0);
    assert_eq!(adc_to_millivolts(65535), 52812);
    let mut prev = 0;
    for s in 0u16..=4095 {
        let mv = adc_to_millivolts(s);
        assert_eq!(mv, s as u32 * 3300 / 4095);
        assert!(mv >= prev);
        prev = mv;
    }
}

#[test]
fn fade_cycle() {
    let d = fade_duties();
    assert_eq!(d.len(), 200);
    assert_eq!(d[0], 0);
    assert_eq!(d[99], 99);
    assert_eq!(d[100], 99);
    assert_eq!(d[199], 0);
    for i in 0..200 {
        assert_eq!(d[i], d[199 - i]);
        assert!(d[i] < 100);
    }
}

#[test]
fn scanner_addresses() {
    let a = scan_addresses();
    assert_eq!(a.len(), 127);
    assert_eq!(a[0], 1);
    assert_eq!(a[126], 127);
}

#[test]
fn ntp_timestamp_split() {
    let mut t = Timestamp { current_time_us: 3_250_000 };
    assert_eq!(t.timestamp_sec(), 3);
    assert_eq!(t.timestamp_subsec_micros(), 250_000);
    let t2 = Timestamp { current_time_us: u64::MAX };
    assert_eq!(t2.timestamp_sec() * 1_000_000 + t2.timestamp_subsec_micros() as u64, u64::MAX);
    t.init();
    assert_eq!(t.current_time_us, 0);
    assert_eq!(t.timestamp_sec(), 0);
    assert_eq!(t.timestamp_subsec_micros(), 0);
}

#[test]
fn wifi_link_steps() {
    assert_eq!(
        link_step(LinkState::Connecting, LinkEvent::Connected),
        Some((LinkState::Connected, LinkAction::AwaitDisconnect))
    );
    assert_eq!(
        link_step(LinkState::Connecting, LinkEvent::ConnectFailed),
        Some((LinkState::Waiting, LinkAction::Sleep(RECONNECT_DELAY_MS)))
    );
    assert_eq!(
        link_step(LinkState::Connected, LinkEvent::Disconnected),
        Some((LinkState::Waiting, LinkAction::Sleep(5000)))
    );
    assert_eq!(
        link_step(LinkState::Waiting, LinkEvent::DelayElapsed),
        Some((LinkState::Connecting, LinkAction::Connect))
    );
    assert_eq!(link_step(LinkState::Connected, LinkEvent::Connected), None);
}
