//! The line transport: CRLF framing over a raw byte stream.
//!
//! Outgoing, [`frame_line`] turns one payload into the exact bytes
//! put on the wire: the payload followed by the two-byte terminator.
//! Incoming, a [`LineBuffer`] accumulates whatever the stream handed
//! over and yields one line per found terminator, however the bytes
//! were split across reads — a line that spans two reads waits in the
//! buffer until its terminator arrives, rather than being cut short
//! at a read boundary.

use vstd::prelude::*;

use vstd::slice::{slice_subrange, slice_to_vec};

verus! {

/// The carriage-return byte, first half of the terminator.
pub open spec fn cr() -> u8 {
    13
}

/// The line-feed byte, second half of the terminator.
pub open spec fn lf() -> u8 {
    10
}

/// The bytes written for one line: the payload, then the terminator.
pub open spec fn framed(payload: Seq<u8>) -> Seq<u8> {
    payload + seq![cr(), lf()]
}

/// Frames one payload, as [`framed`] describes.  The caller writes
/// the returned bytes and flushes at once, so the message leaves
/// whole.
pub fn frame_line(payload: &[u8]) -> (r: Vec<u8>)
    ensures
        r@ == framed(payload@),
{
    let mut out = slice_to_vec(payload);
    out.push(13);
    out.push(10);
    proof {
        assert(out@ =~= framed(payload@));
    }
    out
}

/// Whether the terminator stands at position `i`.
pub open spec fn crlf_at(s: Seq<u8>, i: int) -> bool {
    0 <= i && i + 1 < s.len() && s[i] == cr() && s[i + 1] == lf()
}

pub open spec fn first_crlf_from(s: Seq<u8>, i: int) -> int
    decreases s.len() - i,
    when 0 <= i <= s.len()
{
    if i + 1 >= s.len() {
        -1
    } else if s[i] == cr() && s[i + 1] == lf() {
        i
    } else {
        first_crlf_from(s, i + 1)
    }
}

/// The position of the first terminator in `s`, or `-1` for none.
pub open spec fn first_crlf(s: Seq<u8>) -> int {
    first_crlf_from(s, 0)
}

proof fn lemma_first_crlf_found(s: Seq<u8>, j: int, p: int)
    requires
        0 <= j <= p,
        crlf_at(s, p),
        forall|k: int| j <= k < p ==> !crlf_at(s, k),
    ensures
        first_crlf_from(s, j) == p,
    decreases p - j,
{
    if j < p {
        assert(!crlf_at(s, j));
        lemma_first_crlf_found(s, j + 1, p);
    }
}

proof fn lemma_first_crlf_none(s: Seq<u8>, j: int)
    requires
        0 <= j <= s.len(),
        forall|k: int| j <= k ==> !crlf_at(s, k),
    ensures
        first_crlf_from(s, j) == -1,
    decreases s.len() - j,
{
    if j + 1 < s.len() {
        assert(!crlf_at(s, j));
        lemma_first_crlf_none(s, j + 1);
    }
}

/// A persistent accumulator between the stream and the line protocol:
/// raw reads go in, whole lines come out.
pub struct LineBuffer {
    data: Vec<u8>,
}

impl View for LineBuffer {
    type V = Seq<u8>;

    closed spec fn view(&self) -> Seq<u8> {
        self.data@
    }
}

impl LineBuffer {
    /// An empty buffer.
    pub fn new() -> (r: LineBuffer)
        ensures
            r@ == Seq::<u8>::empty(),
    {
        LineBuffer { data: Vec::new() }
    }

    /// Whether nothing is buffered — end-of-stream with an empty
    /// buffer is a clean disconnect.
    pub fn is_empty(&self) -> (b: bool)
        ensures
            b == (self@.len() == 0),
    {
        self.data.len() == 0
    }

    /// Appends one read's worth of bytes.
    pub fn push_chunk(&mut self, chunk: &[u8])
        ensures
            final(self)@ == old(self)@ + chunk@,
    {
        self.data.extend_from_slice(chunk);
    }

    /// Empties the buffer: at end-of-stream a terminator-less tail is
    /// all the stream still had to say.
    pub fn take_all(&mut self) -> (r: Vec<u8>)
        ensures
            r@ == old(self)@,
            final(self)@ == Seq::<u8>::empty(),
    {
        let out = slice_to_vec(self.data.as_slice());
        self.data = Vec::new();
        out
    }

    /// Takes the first whole line out of the buffer: everything up to
    /// the first terminator, which leaves with it.  Without a
    /// terminator nothing is consumed — the line's tail is still in
    /// flight.
    pub fn pop_line(&mut self) -> (r: Option<Vec<u8>>)
        ensures
            first_crlf(old(self)@) < 0 ==> r is None && final(self)@ == old(self)@,
            first_crlf(old(self)@) >= 0 ==> {
                let p = first_crlf(old(self)@);
                &&& r matches Some(line) && line@ == old(self)@.take(p)
                &&& final(self)@ == old(self)@.skip(p + 2)
            },
    {
        let n = self.data.len();
        let mut i: usize = 0;
        loop
            invariant
                n == self@.len(),
                0 <= i <= n,
                forall|k: int| 0 <= k < i ==> !crlf_at(self@, k),
            ensures
                0 <= i <= n,
                forall|k: int| 0 <= k < i ==> !crlf_at(self@, k),
                i + 1 < n ==> crlf_at(self@, i as int),
                i + 1 >= n ==> forall|k: int| 0 <= k ==> !crlf_at(self@, k),
            decreases n - i,
        {
            if n == 0 || i >= n - 1 {
                proof {
                    assert(forall|k: int| i <= k ==> !crlf_at(self@, k));
                }
                break ;
            }
            if self.data[i] == 13 && self.data[i + 1] == 10 {
                break ;
            }
            i = i + 1;
        }
        if n == 0 || i >= n - 1 {
            proof {
                lemma_first_crlf_none(self@, 0);
            }
            return None;
        }
        proof {
            lemma_first_crlf_found(self@, 0, i as int);
        }
        let line = slice_to_vec(slice_subrange(self.data.as_slice(), 0, i));
        let rest = slice_to_vec(slice_subrange(self.data.as_slice(), i + 2, n));
        proof {
            assert(line@ =~= self@.take(i as int));
            assert(rest@ =~= self@.skip(i + 2));
        }
        self.data = rest;
        Some(line)
    }
}

} // verus!
