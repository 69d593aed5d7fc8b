//! Blink timing of the GPIO and timer examples.

use vstd::prelude::*;

verus! {

/// Busy-loop length of one blink half-period at start and after wrapping.
pub const BLINK_DELAY_START: u32 = 1_000_000;

/// How much one button reading shortens the busy loop.
pub const BLINK_DELAY_STEP: u32 = 25_000;

/// The busy-loop length after the button reads pressed once: one step
/// shorter, back to the start length when that would fall below one step.
pub open spec fn spec_blink_delay_after_press(delay: u32) -> u32 {
    if delay - BLINK_DELAY_STEP < BLINK_DELAY_STEP {
        BLINK_DELAY_START
    } else {
        (delay - BLINK_DELAY_STEP) as u32
    }
}

/// Shortens the busy-loop length for one pressed reading of the button.
pub fn blink_delay_after_press(delay: u32) -> (next: u32)
    requires
        delay >= BLINK_DELAY_STEP,
    ensures
        next == spec_blink_delay_after_press(delay),
{
    let mut next = delay - BLINK_DELAY_STEP;
    if next < BLINK_DELAY_STEP {
        next = BLINK_DELAY_START;
    }
    next
}

/// A busy-loop length the blinker can reach from its start length.
pub open spec fn blink_delay_reachable(delay: u32) -> bool {
    BLINK_DELAY_STEP <= delay <= BLINK_DELAY_START && delay % BLINK_DELAY_STEP == 0
}

/// From the start length, presses keep the length a whole number of steps
/// between one step and the start length, so it never underflows.
pub proof fn lemma_blink_delay_stays_in_range(delay: u32)
    requires
        blink_delay_reachable(delay),
    ensures
        blink_delay_reachable(spec_blink_delay_after_press(delay)),
{
}

/// Initial LED on-time of the LED cycling example, in milliseconds.
pub const CYCLE_DELAY_START_MS: u32 = 200;

/// How much one button press shortens the LED on-time, in milliseconds.
pub const CYCLE_DELAY_STEP_MS: u32 = 50;

/// The LED on-time after a button press: 50 ms shorter, back to 200 ms once
/// it is 50 ms or less.
pub open spec fn spec_next_cycle_delay(delay_ms: u32) -> u32 {
    if delay_ms <= CYCLE_DELAY_STEP_MS {
        CYCLE_DELAY_START_MS
    } else {
        (delay_ms - CYCLE_DELAY_STEP_MS) as u32
    }
}

/// The LED on-time after one button press.
pub fn next_cycle_delay(delay_ms: u32) -> (next: u32)
    ensures
        next == spec_next_cycle_delay(delay_ms),
{
    if delay_ms <= CYCLE_DELAY_STEP_MS {
        CYCLE_DELAY_START_MS
    } else {
        delay_ms - CYCLE_DELAY_STEP_MS
    }
}

/// From 200 ms, presses cycle the on-time through 150, 100 and 50 ms and
/// back to 200 ms: it stays a positive multiple of 50 ms of at most 200 ms.
pub proof fn lemma_cycle_delay_cycles(delay_ms: u32)
    requires
        0 < delay_ms <= CYCLE_DELAY_START_MS,
        delay_ms % CYCLE_DELAY_STEP_MS == 0,
    ensures
        ({
            let n = spec_next_cycle_delay(delay_ms);
            0 < n <= CYCLE_DELAY_START_MS && n % CYCLE_DELAY_STEP_MS == 0
        }),
        spec_next_cycle_delay(50) == 200,
        spec_next_cycle_delay(spec_next_cycle_delay(spec_next_cycle_delay(spec_next_cycle_delay(200))))
            == 200,
{
}

/// The timer example toggles its LED once a whole second has passed since
/// the last toggle.
pub fn toggle_due(elapsed_secs: u64) -> (due: bool)
    ensures
        due == (elapsed_secs >= 1),
{
    elapsed_secs >= 1
}

} // verus!
