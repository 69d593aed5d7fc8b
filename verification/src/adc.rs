//! The voltmeter example's conversion of a 12-bit ADC reading to millivolts.

use vstd::prelude::*;

verus! {

/// The full-scale voltage in millivolts.
pub const FULL_SCALE_MV: u32 = 3300;

/// The largest 12-bit reading.
pub const ADC_MAX: u32 = 4095;

/// The millivolts for an ADC reading: the reading scaled from 0..=4095 to
/// 0..=3300, rounded down.
pub open spec fn spec_millivolts(sample: u16) -> int {
    (sample as int * 3300) / 4095
}

/// Converts a raw ADC reading to millivolts.
pub fn adc_to_millivolts(sample: u16) -> (mv: u32)
    ensures
        mv == spec_millivolts(sample),
{
    assert(sample as u32 * FULL_SCALE_MV <= 65535 * 3300) by (nonlinear_arith)
        requires
            sample <= 65535,
    ;
    sample as u32 * FULL_SCALE_MV / ADC_MAX
}

/// The conversion grows with the reading, reads 0 mV at 0 and the full
/// 3300 mV at the top of the 12-bit range.
pub proof fn lemma_millivolts_monotonic(a: u16, b: u16)
    requires
        a <= b,
    ensures
        spec_millivolts(a) <= spec_millivolts(b),
        spec_millivolts(0) == 0,
        spec_millivolts(4095) == 3300,
{
    assert((a as int * 3300) / 4095 <= (b as int * 3300) / 4095) by (nonlinear_arith)
        requires
            a <= b,
    ;
}

} // verus!
