//! Verified logic of a collection of ESP32 example programs: an alarm clock
//! driven by a TCA6424 I/O expander and an RV-3028-style real-time clock,
//! plus the small computations of the GPIO, timer, ADC, PWM, UART,
//! synchronisation and networking examples.
//!
//! Everything here is plain computation on plain values; the programs that
//! talk to the hardware hand their readings in and take the results out.

pub mod clock;
pub mod rtc;
pub mod events;
pub mod expander;
pub mod alarm;
pub mod display;
pub mod blink;
pub mod elapsed;
pub mod counter;
pub mod serial;
pub mod adc;
pub mod pwm;
pub mod ntp;
pub mod http;
pub mod wifi;
pub mod i2c_scan;

