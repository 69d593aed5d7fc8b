//! The HTTP examples: when the server has read a whole request, and how the
//! client picks a header out of a response.

use vstd::prelude::*;
use vstd::utf8::valid_utf8;
use vstd::string::StringSliceAdditionalSpecFns;

verus! {

/// `core::str::from_utf8`: the bytes as a string slice exactly when they are
/// valid UTF-8, and then a slice of the same bytes.
#[verifier::external_body]
fn str_from_utf8(bytes: &[u8]) -> (r: Option<&str>)
    ensures
        r is Some <==> valid_utf8(bytes@),
        r matches Some(s) ==> s.spec_bytes() == bytes@,
{
    core::str::from_utf8(bytes).ok()
}

/// The blank line that ends the head of an HTTP request: CR LF CR LF.
pub open spec fn blank_line() -> Seq<u8> {
    seq![13u8, 10u8, 13u8, 10u8]
}

/// `bytes` holds a blank line starting at `i`.
pub open spec fn blank_line_at(bytes: Seq<u8>, i: int) -> bool {
    0 <= i && i + 4 <= bytes.len() && bytes.subrange(i, i + 4) == blank_line()
}

/// `bytes` holds a blank line somewhere.
pub open spec fn has_blank_line(bytes: Seq<u8>) -> bool {
    exists|i: int| blank_line_at(bytes, i)
}

/// The server stops reading a request once the bytes read so far are text
/// (valid UTF-8) holding a blank line, or once the buffer is full.
pub open spec fn spec_request_complete(buffer: Seq<u8>, pos: int) -> bool {
    ||| valid_utf8(buffer.subrange(0, pos)) && has_blank_line(buffer.subrange(0, pos))
    ||| pos == buffer.len()
}

/// Whether `bytes` holds a blank line.
fn contains_blank_line(bytes: &[u8]) -> (r: bool)
    ensures
        r == has_blank_line(bytes@),
{
    let n = bytes.len();
    if n < 4 {
        return false;
    }
    let mut i: usize = 0;
    while i <= n - 4
        invariant
            n == bytes@.len(),
            n >= 4,
            i <= n - 3,
            forall|j: int| 0 <= j < i ==> !blank_line_at(bytes@, j),
        decreases n - i,
    {
        if bytes[i] == 13 && bytes[i + 1] == 10 && bytes[i + 2] == 13 && bytes[i + 3] == 10 {
            assert(blank_line_at(bytes@, i as int)) by {
                assert(bytes@.subrange(i as int, i + 4) =~= blank_line());
            }
            return true;
        }
        assert(!blank_line_at(bytes@, i as int)) by {
            if blank_line_at(bytes@, i as int) {
                let w = bytes@.subrange(i as int, i + 4);
                assert(w[0] == bytes@[i as int]);
                assert(w[1] == bytes@[i + 1]);
                assert(w[2] == bytes@[i + 2]);
                assert(w[3] == bytes@[i + 3]);
            }
        }
        i += 1;
    }
    false
}

/// Whether the first `pos` bytes of `buffer` complete a request.
pub fn request_complete(buffer: &[u8], pos: usize) -> (r: bool)
    requires
        pos <= buffer@.len(),
    ensures
        r == spec_request_complete(buffer@, pos as int),
{
    let head = slice_prefix(buffer, pos);
    let text = str_from_utf8(head);
    let found = match text {
        Some(_) => contains_blank_line(head),
        None => false,
    };
    found || pos == buffer.len()
}

/// The first `n` elements of a slice.
fn slice_prefix(s: &[u8], n: usize) -> (r: &[u8])
    requires
        n <= s@.len(),
    ensures
        r@ == s@.subrange(0, n as int),
{
    let (head, _) = s.split_at(n);
    head
}

/// What a read from the client connection gave.
#[derive(Clone, Copy, Debug, PartialEq, Eq, Structural)]
pub enum ReadEvent {
    /// The connection closed (a read of zero bytes).
    Closed,
    /// This many bytes were read into the buffer at the current position.
    Received(usize),
    /// The read failed.
    Failed,
}

/// Whether to read on, and the position reached.
#[derive(Clone, Copy, Debug, PartialEq, Eq, Structural)]
pub enum ReadStep {
    Continue(usize),
    Done(usize),
}

/// The step after a read while collecting a request: stop on a closed
/// connection, an empty read or an error; otherwise advance the position
/// and stop once the request is complete.
pub open spec fn spec_read_step(buffer: Seq<u8>, pos: usize, event: ReadEvent) -> ReadStep {
    match event {
        ReadEvent::Closed => ReadStep::Done(pos),
        ReadEvent::Failed => ReadStep::Done(pos),
        ReadEvent::Received(n) => if n == 0 {
            ReadStep::Done(pos)
        } else if spec_request_complete(buffer, pos + n) {
            ReadStep::Done((pos + n) as usize)
        } else {
            ReadStep::Continue((pos + n) as usize)
        },
    }
}

/// One step of collecting a request into `buffer`, which already holds the
/// bytes of the read that produced `event`.
pub fn request_read_step(buffer: &[u8], pos: usize, event: ReadEvent) -> (step: ReadStep)
    requires
        pos <= buffer@.len(),
        event is Received ==> pos + event->0 <= buffer@.len(),
    ensures
        step == spec_read_step(buffer@, pos, event),
{
    match event {
        ReadEvent::Closed => ReadStep::Done(pos),
        ReadEvent::Failed => ReadStep::Done(pos),
        ReadEvent::Received(n) => {
            if n == 0 {
                ReadStep::Done(pos)
            } else {
                let len = buffer.len();
                assert(pos + n <= len);
                let p = pos + n;
                if request_complete(buffer, p) {
                    ReadStep::Done(p)
                } else {
                    ReadStep::Continue(p)
                }
            }
        },
    }
}

/// A read prefix that is valid UTF-8 and holds CR LF CR LF anywhere in it
/// (not only at its end) completes the request; a full buffer always does;
/// and a prefix that is not full completes only when it is valid UTF-8
/// holding CR LF CR LF somewhere.
pub proof fn lemma_request_complete_anywhere(buffer: Seq<u8>, pos: int, i: int)
    requires
        0 <= pos <= buffer.len(),
    ensures
        valid_utf8(buffer.subrange(0, pos)) && 0 <= i && i + 4 <= pos && buffer[i] == 13 && buffer[i
            + 1] == 10 && buffer[i + 2] == 13 && buffer[i + 3] == 10 ==> spec_request_complete(
            buffer,
            pos,
        ),
        pos == buffer.len() ==> spec_request_complete(buffer, pos),
        spec_request_complete(buffer, pos) && pos < buffer.len() ==> valid_utf8(buffer.subrange(0, pos))
            && exists|j: int|
            0 <= j && j + 4 <= pos && #[trigger] buffer[j] == 13 && buffer[j + 1] == 10 && buffer[j
                + 2] == 13 && buffer[j + 3] == 10,
{
    let p = buffer.subrange(0, pos);
    if valid_utf8(p) && 0 <= i && i + 4 <= pos && buffer[i] == 13 && buffer[i + 1] == 10 && buffer[i
        + 2] == 13 && buffer[i + 3] == 10 {
        assert(p.subrange(i, i + 4) =~= blank_line());
        assert(blank_line_at(p, i));
    }
    if spec_request_complete(buffer, pos) && pos < buffer.len() {
        let j = choose|j: int| blank_line_at(p, j);
        let w = p.subrange(j, j + 4);
        assert(w[0] == buffer[j]);
        assert(w[1] == buffer[j + 1]);
        assert(w[2] == buffer[j + 2]);
        assert(w[3] == buffer[j + 3]);
    }
}

/// Collecting a request never runs past the buffer: a step that continues
/// has advanced the position and left room for more.
pub proof fn lemma_read_step_progress(buffer: Seq<u8>, pos: usize, event: ReadEvent)
    requires
        pos <= buffer.len(),
        buffer.len() <= usize::MAX,
        event is Received ==> pos + event->0 <= buffer.len(),
    ensures
        spec_read_step(buffer, pos, event) matches ReadStep::Continue(p) ==> pos < p < buffer.len(),
        spec_read_step(buffer, pos, event) matches ReadStep::Done(p) ==> pos <= p <= buffer.len(),
{
}

/// A response header as received: name and raw value bytes.
#[derive(Debug, PartialEq, Eq)]
pub struct Header {
    pub name: Vec<u8>,
    pub value: Vec<u8>,
}

/// ASCII lower case of a byte; other bytes unchanged.
pub open spec fn ascii_lower(b: u8) -> u8 {
    if 65 <= b <= 90 {
        (b + 32) as u8
    } else {
        b
    }
}

/// Equal up to ASCII case.
pub open spec fn eq_ignore_ascii_case(a: Seq<u8>, b: Seq<u8>) -> bool {
    a.len() == b.len() && forall|i: int| 0 <= i < a.len() ==> ascii_lower(#[trigger] a[i]) == ascii_lower(b[i])
}

/// Header `i` is the first whose name is `name` up to ASCII case.
pub open spec fn is_first_header(headers: Seq<Header>, name: Seq<u8>, i: int) -> bool {
    &&& 0 <= i < headers.len()
    &&& eq_ignore_ascii_case(headers[i].name@, name)
    &&& forall|j: int| 0 <= j < i ==> !eq_ignore_ascii_case(#[trigger] headers[j].name@, name)
}

/// Whether two byte strings are equal up to ASCII case.
fn bytes_eq_ignore_ascii_case(a: &[u8], b: &[u8]) -> (r: bool)
    ensures
        r == eq_ignore_ascii_case(a@, b@),
{
    if a.len() != b.len() {
        return false;
    }
    let mut i: usize = 0;
    while i < a.len()
        invariant
            a@.len() == b@.len(),
            i <= a@.len(),
            forall|j: int| 0 <= j < i ==> ascii_lower(#[trigger] a@[j]) == ascii_lower(b@[j]),
        decreases a@.len() - i,
    {
        let x = a[i];
        let y = b[i];
        let lx = if 65 <= x && x <= 90 { x + 32 } else { x };
        let ly = if 65 <= y && y <= 90 { y + 32 } else { y };
        if lx != ly {
            return false;
        }
        i += 1;
    }
    true
}

/// The value of the first header named `name` (up to ASCII case) as text:
/// `None` when there is no such header or its value is not valid UTF-8.
pub fn find_header_value<'a>(headers: &'a Vec<Header>, name: &[u8]) -> (r: Option<&'a str>)
    ensures
        (forall|i: int| 0 <= i < headers@.len() ==> !eq_ignore_ascii_case(
            #[trigger] headers@[i].name@,
            name@,
        )) ==> r is None,
        forall|i: int|
            #[trigger] is_first_header(headers@, name@, i) ==> {
                &&& (r is Some <==> valid_utf8(headers@[i].value@))
                &&& (r matches Some(s) ==> s.spec_bytes() == headers@[i].value@)
            },
{
    let mut i: usize = 0;
    while i < headers.len()
        invariant
            i <= headers@.len(),
            forall|j: int| 0 <= j < i ==> !eq_ignore_ascii_case(#[trigger] headers@[j].name@, name@),
        decreases headers@.len() - i,
    {
        let h = &headers[i];
        if bytes_eq_ignore_ascii_case(h.name.as_slice(), name) {
            let r = str_from_utf8(h.value.as_slice());
            assert(is_first_header(headers@, name@, i as int));
            assert forall|k: int| #[trigger] is_first_header(headers@, name@, k) implies k == i by {
                if k < i {
                } else if k > i {
                    assert(!eq_ignore_ascii_case(headers@[i as int].name@, name@));
                }
            }
            return r;
        }
        i += 1;
    }
    None
}

} // verus!
