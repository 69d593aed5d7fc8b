//! Counters of the interrupt and synchronisation examples, and the text
//! message that carries a counter value over the UART.

use vstd::prelude::*;

verus! {

/// The press count after polling the interrupt flag: one more when the
/// interrupt handler raised the flag (the caller then clears the flag and
/// reports the count), `None` when it did not.
pub fn count_press(flag: bool, count: u32) -> (r: Option<u32>)
    requires
        flag ==> count < u32::MAX,
    ensures
        flag ==> r == Some((count + 1) as u32),
        !flag ==> r is None,
{
    if flag {
        Some(count + 1)
    } else {
        None
    }
}

/// The shared counter after one increment by a task: wraps to 0 after
/// `u32::MAX`.
pub fn next_shared_count(value: u32) -> (next: u32)
    ensures
        next == (if value == u32::MAX { 0 } else { value + 1 }),
{
    value.wrapping_add(1)
}

/// The ASCII decimal digits of `v`, most significant first, without
/// leading zeros ("0" for zero).
pub open spec fn decimal_digits(v: nat) -> Seq<u8>
    decreases v,
{
    if v < 10 {
        seq![(48 + v) as u8]
    } else {
        decimal_digits(v / 10).push((48 + v % 10) as u8)
    }
}

/// The text of `v` formatted with at least two digits, zero-padded, and
/// followed by a newline.
pub open spec fn spec_count_text(v: nat) -> Seq<u8> {
    let digits = decimal_digits(v);
    let padded = if digits.len() < 2 { seq![48u8] + digits } else { digits };
    padded.push(10u8)
}

/// Appends the decimal digits of `v` to `out`.
fn push_decimal(v: u32, out: &mut Vec<u8>)
    ensures
        final(out)@ == old(out)@ + decimal_digits(v as nat),
    decreases v,
{
    if v >= 10 {
        push_decimal(v / 10, out);
    }
    out.push(48u8 + (v % 10) as u8);
}

/// Powers of ten.
pub open spec fn pow10(k: nat) -> nat
    decreases k,
{
    if k == 0 {
        1
    } else {
        10 * pow10((k - 1) as nat)
    }
}

/// A number below `10^k` (k at least 1) has at most `k` digits; a number
/// of ten or more has at least two.
proof fn lemma_decimal_digits_len(v: nat, k: nat)
    requires
        k >= 1,
        v < pow10(k),
    ensures
        1 <= decimal_digits(v).len() <= k,
        v < 10 ==> decimal_digits(v).len() == 1,
        v >= 10 ==> decimal_digits(v).len() >= 2,
    decreases v,
{
    if v >= 10 {
        if k == 1 {
            assert(pow10(1) == 10) by {
                reveal_with_fuel(pow10, 2);
            }
        }
        let p = pow10((k - 1) as nat);
        assert(pow10(k) == 10 * p);
        assert(v / 10 < p) by (nonlinear_arith)
            requires
                v < 10 * p,
        ;
        lemma_decimal_digits_len(v / 10, (k - 1) as nat);
    }
}

/// The bytes of text held by a `heapless::String<8>`.
pub uninterp spec fn message_bytes(s: heapless::String<8>) -> Seq<u8>;

#[verifier::external_type_specification]
#[verifier::external_body]
pub struct ExHeaplessString<const N: usize>(heapless::String<N>);

/// `heapless::String::new`: an empty string.
#[verifier::external_body]
fn new_message() -> (s: heapless::String<8>)
    ensures
        message_bytes(s) == Seq::<u8>::empty(),
{
    heapless::String::new()
}

/// `heapless::String::push` of an ASCII character: appended when the string
/// holds fewer than its capacity of 8 bytes, else refused with the string
/// left as it was.
#[verifier::external_body]
fn push_ascii(s: &mut heapless::String<8>, b: u8) -> (r: Result<(), ()>)
    requires
        b < 128,
    ensures
        message_bytes(*old(s)).len() < 8 ==> r is Ok && message_bytes(*final(s)) == message_bytes(
            *old(s),
        ).push(b),
        message_bytes(*old(s)).len() >= 8 ==> r is Err && message_bytes(*final(s))
            == message_bytes(*old(s)),
{
    s.push(b as char)
}

/// The UART message carrying the shared counter: its value with at least
/// two digits, then a newline, in an 8-byte string. A value of ten million
/// or more does not fit.
pub fn count_message(value: u32) -> (msg: heapless::String<8>)
    requires
        value < 10_000_000,
    ensures
        message_bytes(msg) == spec_count_text(value as nat),
{
    let mut text: Vec<u8> = Vec::new();
    proof {
        assert(pow10(7) == 10_000_000) by {
            reveal_with_fuel(pow10, 8);
        }
        lemma_decimal_digits_len(value as nat, 7);
    }
    if value < 10 {
        text.push(48u8);
    }
    push_decimal(value, &mut text);
    text.push(10u8);
    assert(text@ =~= spec_count_text(value as nat));
    proof {
        lemma_digits_ascii(value as nat);
        let digits = decimal_digits(value as nat);
        assert forall|i: int| 0 <= i < text@.len() implies text@[i] < 128 by {
            if value < 10 {
                if 1 <= i < 1 + digits.len() {
                    assert(text@[i] == digits[i - 1]);
                }
            } else {
                if i < digits.len() {
                    assert(text@[i] == digits[i]);
                }
            }
        }
    }
    let mut msg = new_message();
    let mut i: usize = 0;
    while i < text.len()
        invariant
            i <= text@.len(),
            text@.len() <= 8,
            text@ == spec_count_text(value as nat),
            forall|j: int| 0 <= j < text@.len() ==> text@[j] < 128,
            message_bytes(msg) == text@.subrange(0, i as int),
        decreases text@.len() - i,
    {
        let _ = push_ascii(&mut msg, text[i]);
        assert(text@.subrange(0, i + 1) =~= text@.subrange(0, i as int).push(text@[i as int]));
        i += 1;
    }
    assert(text@.subrange(0, text@.len() as int) =~= text@);
    msg
}

/// Decimal digits are ASCII digit characters.
proof fn lemma_digits_ascii(v: nat)
    ensures
        forall|i: int| 0 <= i < decimal_digits(v).len() ==> 48 <= #[trigger] decimal_digits(v)[i] <= 57,
    decreases v,
{
    if v >= 10 {
        lemma_digits_ascii(v / 10);
        let inner = decimal_digits(v / 10);
        assert(decimal_digits(v) == inner.push((48 + v % 10) as u8));
        assert forall|i: int| 0 <= i < decimal_digits(v).len() implies 48 <= #[trigger] decimal_digits(
            v,
        )[i] <= 57 by {
            if i < inner.len() {
                assert(decimal_digits(v)[i] == inner[i]);
            }
        }
    }
}

} // verus!
