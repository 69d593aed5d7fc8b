//! Binary-coded decimal transfer of the time to and from the real-time clock.
//!
//! The clock keeps seconds, minutes and hours in its registers 0, 1 and 2,
//! each as two decimal digits, tens in the high nibble and units in the low one.

use vstd::prelude::*;
use crate::clock::Time;

verus! {

/// I2C address of the real-time clock.
pub const RTC_ADDR: u8 = 0x68;

/// The register the time registers start at.
pub const RTC_TIME_REGISTER: u8 = 0x00;

/// The byte written for `v`: tens shifted into the high nibble (bits shifted
/// past bit 7 are lost), units in the low nibble.
pub open spec fn spec_to_bcd(v: u8) -> u8 {
    ((((v / 10) as int) * 16) % 256 + (v % 10) as int) as u8
}

/// The value read from a register byte: high nibble times ten plus the low nibble.
pub open spec fn spec_from_bcd(b: u8) -> u8 {
    ((b / 16) * 10 + b % 16) as u8
}

/// A byte whose two nibbles are both decimal digits.
pub open spec fn is_bcd(b: u8) -> bool {
    b / 16 < 10 && b % 16 < 10
}

/// Encodes one field as binary-coded decimal.
pub fn to_bcd(v: u8) -> (b: u8)
    ensures
        b == spec_to_bcd(v),
        v < 100 ==> b as int == (v / 10) * 16 + v % 10,
{
    let tens = v / 10;
    let units = v % 10;
    let b = (tens << 4u8) | units;
    assert(b == ((((tens as int) * 16) % 256 + units as int) as u8)) by (bit_vector)
        requires
            units < 10,
            b == (tens << 4u8) | units,
    ;
    b
}

/// Decodes one binary-coded decimal register byte.
pub fn from_bcd(b: u8) -> (v: u8)
    ensures
        v == spec_from_bcd(b),
{
    let tens = b >> 4u8;
    let units = b & 0x0Fu8;
    assert(tens == b / 16 && units == b % 16) by (bit_vector)
        requires
            tens == b >> 4u8,
            units == b & 0x0Fu8,
    ;
    (tens * 10) + units
}

/// The bytes written to the clock to set `time`: the start register, then
/// seconds, minutes and hours in binary-coded decimal.
pub fn rtc_time_frame(time: Time) -> (frame: [u8; 4])
    ensures
        frame@ == seq![
            RTC_TIME_REGISTER,
            spec_to_bcd(time.seconds),
            spec_to_bcd(time.minutes),
            spec_to_bcd(time.hours),
        ],
{
    let seconds_bcd = to_bcd(time.seconds);
    let minutes_bcd = to_bcd(time.minutes);
    let hours_bcd = to_bcd(time.hours);
    let frame = [RTC_TIME_REGISTER, seconds_bcd, minutes_bcd, hours_bcd];
    assert(frame@ =~= seq![RTC_TIME_REGISTER, seconds_bcd, minutes_bcd, hours_bcd]);
    frame
}

/// The time held in the three registers read back from the clock,
/// seconds first.
pub fn rtc_decode_time(regs: [u8; 3]) -> (time: Time)
    ensures
        time.seconds == spec_from_bcd(regs@[0]),
        time.minutes == spec_from_bcd(regs@[1]),
        time.hours == spec_from_bcd(regs@[2]),
{
    let seconds = from_bcd(regs[0]);
    let minutes = from_bcd(regs[1]);
    let hours = from_bcd(regs[2]);
    Time { hours, minutes, seconds }
}

/// Reading back what was written gives the value again, for every value
/// of two decimal digits.
pub proof fn lemma_bcd_roundtrip(v: u8)
    requires
        v < 100,
    ensures
        is_bcd(spec_to_bcd(v)),
        spec_from_bcd(spec_to_bcd(v)) == v,
{
    let b = spec_to_bcd(v);
    assert(b as int == (v / 10) * 16 + v % 10);
    assert(b / 16 == v / 10 && b % 16 == v % 10);
}

/// Writing what was read gives the register byte again, for every byte
/// whose nibbles are decimal digits.
pub proof fn lemma_bcd_roundtrip_byte(b: u8)
    requires
        is_bcd(b),
    ensures
        spec_from_bcd(b) < 100,
        spec_to_bcd(spec_from_bcd(b)) == b,
{
    let v = spec_from_bcd(b);
    assert(v as int == (b / 16) * 10 + b % 16);
    assert(v / 10 == b / 16 && v % 10 == b % 16);
}

/// A valid time written to the clock and read back is the same time.
pub proof fn lemma_rtc_time_roundtrip(time: Time)
    requires
        time.valid(),
    ensures
        ({
            let t2 = Time {
                seconds: spec_from_bcd(spec_to_bcd(time.seconds)),
                minutes: spec_from_bcd(spec_to_bcd(time.minutes)),
                hours: spec_from_bcd(spec_to_bcd(time.hours)),
            };
            t2 == time
        }),
{
    lemma_bcd_roundtrip(time.seconds);
    lemma_bcd_roundtrip(time.minutes);
    lemma_bcd_roundtrip(time.hours);
}

} // verus!
