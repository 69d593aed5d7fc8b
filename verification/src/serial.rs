//! The UART examples: the loopback letter sequence and the echo of received
//! characters.

use vstd::prelude::*;

verus! {

/// ASCII `a`.
pub const LETTER_A: u8 = 0x61;
/// ASCII `z`.
pub const LETTER_Z: u8 = 0x7A;

/// The letter sent after `letter`: the next byte, and `a` again after `z`.
pub open spec fn spec_next_letter(letter: u8) -> u8 {
    if letter == LETTER_Z {
        LETTER_A
    } else {
        (letter + 1) as u8
    }
}

/// The next letter the loopback example sends.
pub fn next_letter(letter: u8) -> (next: u8)
    requires
        letter != u8::MAX,
    ensures
        next == spec_next_letter(letter),
{
    if letter == LETTER_Z {
        LETTER_A
    } else {
        letter + 1
    }
}

/// Starting from `a`, the sender cycles through the lowercase alphabet:
/// every letter is followed by a lowercase letter, and 26 steps return to
/// the start.
pub proof fn lemma_letters_cycle(letter: u8)
    requires
        LETTER_A <= letter <= LETTER_Z,
    ensures
        LETTER_A <= spec_next_letter(letter) <= LETTER_Z,
        spec_next_letter(letter) == (if letter == LETTER_Z { LETTER_A } else { (letter + 1) as u8 }),
        letter_after(letter, 26) == letter,
{
    lemma_letter_after(letter, 26);
}

/// The letter after `n` steps from `letter`.
pub open spec fn letter_after(letter: u8, n: nat) -> u8
    decreases n,
{
    if n == 0 {
        letter
    } else {
        spec_next_letter(letter_after(letter, (n - 1) as nat))
    }
}

/// `n` steps from a lowercase letter move `n` places round the alphabet.
proof fn lemma_letter_after(letter: u8, n: nat)
    requires
        LETTER_A <= letter <= LETTER_Z,
    ensures
        letter_after(letter, n) == LETTER_A + (letter - LETTER_A + n) % 26,
    decreases n,
{
    if n > 0 {
        lemma_letter_after(letter, (n - 1) as nat);
    }
}

/// Carriage return and line feed, sent after each echoed chunk.
pub open spec fn line_end() -> Seq<u8> {
    seq![0x0Du8, 0x0Au8]
}

/// The bytes the echo example transmits for one chunk taken from its pipe:
/// the chunk, then a carriage return and a line feed.
pub fn echo_frame(chunk: &[u8]) -> (out: Vec<u8>)
    ensures
        out@ == chunk@ + line_end(),
{
    let mut out: Vec<u8> = Vec::new();
    let mut i: usize = 0;
    while i < chunk.len()
        invariant
            i <= chunk@.len(),
            out@ == chunk@.subrange(0, i as int),
        decreases chunk@.len() - i,
    {
        out.push(chunk[i]);
        assert(chunk@.subrange(0, i + 1) =~= chunk@.subrange(0, i as int).push(chunk@[i as int]));
        i += 1;
    }
    out.push(0x0D);
    out.push(0x0A);
    assert(chunk@.subrange(0, chunk@.len() as int) =~= chunk@);
    assert(out@ =~= chunk@ + line_end());
    out
}

} // verus!
