# ser_no_std

Verified logic of a set of ESP32 example programs, centred on an alarm clock
built from a TCA6424 I/O expander, a real-time clock, a buzzer and a
four-digit seven-segment display.

- `src/` is the library, checked by Verus: time keeping (`clock`), the
  real-time clock's BCD registers (`rtc`), the expander's pins and register
  values (`expander`), input events (`events`), the alarm clock's states
  (`alarm`), the display refresh (`display`), and the small computations of
  the other examples (`blink`, `elapsed`, `counter`, `serial`, `adc`, `pwm`,
  `ntp`, `http`, `wifi`, `i2c_scan`).
- `tests/` runs the library on concrete values.
- `app/` holds the programs themselves: peripheral set-up, bus transfers,
  tasks and timers, calling the library for every decision.
