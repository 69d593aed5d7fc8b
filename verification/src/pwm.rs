//! The duty cycles of the LED fading example.

use vstd::prelude::*;

verus! {

/// The duty cycle, in percent, at step `i` of one fade cycle: up from 0 to
/// 99 over the first hundred steps, then down from 99 to 0.
pub open spec fn spec_fade_duty(i: int) -> u8 {
    if i < 100 {
        i as u8
    } else {
        (199 - i) as u8
    }
}

/// The duty cycles, in percent, set one after another in one fade cycle.
pub fn fade_duties() -> (duties: Vec<u8>)
    ensures
        duties@.len() == 200,
        forall|i: int| 0 <= i < 200 ==> #[trigger] duties@[i] == spec_fade_duty(i),
{
    let max_duty: u8 = 100;
    let min_duty: u8 = 0;
    let mut duties: Vec<u8> = Vec::new();
    let mut duty: u8 = min_duty;
    while duty < max_duty
        invariant
            min_duty == 0,
            max_duty == 100,
            duty <= max_duty,
            duties@.len() == duty,
            forall|i: int| 0 <= i < duties@.len() ==> #[trigger] duties@[i] == spec_fade_duty(i),
        decreases max_duty - duty,
    {
        duties.push(duty);
        duty += 1;
    }
    while duty > min_duty
        invariant
            min_duty == 0,
            duty <= 100,
            duties@.len() == 200 - duty,
            forall|i: int| 0 <= i < duties@.len() ==> #[trigger] duties@[i] == spec_fade_duty(i),
        decreases duty,
    {
        duty -= 1;
        duties.push(duty);
    }
    duties
}

/// A fade cycle is symmetric: the way down retraces the way up, and every
/// duty cycle is below 100%.
pub proof fn lemma_fade_symmetric(i: int)
    requires
        0 <= i < 200,
    ensures
        spec_fade_duty(i) == spec_fade_duty(199 - i),
        spec_fade_duty(i) < 100,
{
}

} // verus!
