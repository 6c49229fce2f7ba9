//! A context buffer of fixed capacity that lives inside the error value: it
//! never allocates, and what does not fit is cut off.

use vstd::prelude::*;
use vstd::string::*;
use vstd::utf8::*;
use crate::text::{fit_len, floor_boundary, lemma_floor_boundary};

verus! {

broadcast use vstd::utf8::group_utf8_lib;

/// `N` bytes of storage, of which the first `curr_pos` are in use.
pub struct ResBuf<const N: usize> {
    curr_pos: u16,
    buf: [u8; N],
}

/// The most bytes a buffer holds, however large its storage: its fill level
/// is a `u16`.
pub const MAX_BUF_SIZE: usize = 65535;

/// How many bytes a buffer with `n` bytes of storage holds.
pub open spec fn capacity_of(n: usize) -> int {
    if n <= MAX_BUF_SIZE {
        n as int
    } else {
        MAX_BUF_SIZE as int
    }
}

/// `buf` after as many of `bytes` as `cap` allows are put behind it.
pub open spec fn extended(buf: Seq<u8>, bytes: Seq<u8>, cap: int) -> Seq<u8> {
    if bytes.len() <= cap - buf.len() {
        buf + bytes
    } else {
        buf + bytes.take(cap - buf.len())
    }
}

/// `buf` after as many whole characters of the text `bytes` as `cap` allows
/// are put behind it.
pub open spec fn written(buf: Seq<u8>, bytes: Seq<u8>, cap: int) -> Seq<u8> {
    buf + bytes.take(floor_boundary(bytes, cap - buf.len()))
}

/// Writing text behind text gives text, within the capacity.
pub proof fn lemma_written(buf: Seq<u8>, bytes: Seq<u8>, cap: int)
    requires
        valid_utf8(bytes),
        buf.len() <= cap,
    ensures
        written(buf, bytes, cap).len() <= cap,
        valid_utf8(buf) ==> valid_utf8(written(buf, bytes, cap)),
        bytes.len() <= cap - buf.len() ==> written(buf, bytes, cap) == buf + bytes,
{
    let n = floor_boundary(bytes, cap - buf.len());
    lemma_floor_boundary(bytes, cap - buf.len());
    valid_utf8_split(bytes, n);
    if valid_utf8(buf) {
        valid_utf8_concat(buf, bytes.take(n));
    }
    if bytes.len() <= cap - buf.len() {
        assert(bytes.take(n) =~= bytes);
    }
}

impl<const N: usize> View for ResBuf<N> {
    type V = Seq<u8>;

    /// The bytes in use, in order.
    closed spec fn view(&self) -> Seq<u8> {
        self.buf@.subrange(0, self.curr_pos as int)
    }
}

impl<const N: usize> ResBuf<N> {
    #[verifier::type_invariant]
    spec fn inv(&self) -> bool {
        self.curr_pos <= N
    }

    /// How many bytes the buffer holds at most.
    pub open spec fn capacity() -> int {
        capacity_of(N)
    }

    /// An empty buffer.
    pub fn new() -> (r: Self)
        ensures
            r@ == Seq::<u8>::empty(),
            r@.len() <= Self::capacity(),
    {
        let r = ResBuf { curr_pos: 0, buf: [0u8;N] };
        assert(r@ =~= Seq::<u8>::empty());
        r
    }

    /// Number of bytes in use.
    pub fn len(&self) -> (n: usize)
        ensures
            n == self@.len(),
            n <= Self::capacity(),
    {
        proof {
            use_type_invariant(self);
        }
        self.curr_pos as usize
    }

    /// Whether no byte is in use.
    pub fn is_empty(&self) -> (r: bool)
        ensures
            r == (self@.len() == 0),
    {
        proof {
            use_type_invariant(self);
        }
        self.curr_pos == 0
    }

    /// The bytes in use.
    pub fn get_slice(&self) -> (r: &[u8])
        ensures
            r@ == self@,
    {
        proof {
            use_type_invariant(self);
        }
        vstd::slice::slice_subrange(self.buf.as_slice(), 0, self.curr_pos as usize)
    }

    /// The contents as text.
    pub fn as_str(&self) -> (r: &str)
        requires
            valid_utf8(self@),
        ensures
            r.spec_bytes() == self@,
            r@ == decode_utf8(self@),
    {
        match core::str::from_utf8(self.get_slice()) {
            Ok(s) => s,
            Err(_) => vstd::pervasive::unreached(),
        }
    }

    /// How many more bytes fit.
    pub fn room(&self) -> (n: usize)
        ensures
            n == Self::capacity() - self@.len(),
    {
        if N <= MAX_BUF_SIZE {
            N - self.len()
        } else {
            MAX_BUF_SIZE - self.len()
        }
    }

    /// Copies the first `count` bytes of `bytes` behind the contents.
    fn put(&mut self, bytes: &[u8], count: usize)
        requires
            count <= bytes@.len(),
            old(self)@.len() + count <= Self::capacity(),
        ensures
            final(self)@ == old(self)@ + bytes@.take(count as int),
    {
        proof {
            use_type_invariant(&*self);
        }
        let pos: usize = self.curr_pos as usize;
        let mut i: usize = 0;
        while i < count
            invariant
                i <= count <= bytes@.len(),
                pos + count <= N,
                pos + count <= MAX_BUF_SIZE,
                self.curr_pos == pos,
                self.buf@.subrange(0, pos as int) == old(self)@,
                self.buf@.subrange(pos as int, pos + i) == bytes@.take(i as int),
            decreases count - i,
        {
            let b: u8 = bytes[i];
            self.buf[pos + i] = b;
            proof {
                assert(self.buf@.subrange(0, pos as int) =~= old(self)@);
                assert(self.buf@.subrange(pos as int, pos + i + 1) =~= bytes@.take(i + 1));
            }
            i = i + 1;
        }
        self.curr_pos = (pos + count) as u16;
        proof {
            assert(self@ =~= old(self)@ + bytes@.take(count as int));
        }
    }

    /// Appends as many bytes of `bytes` as fit; the rest is dropped.
    pub fn extend_from_slice(&mut self, bytes: &[u8])
        ensures
            final(self)@ == extended(old(self)@, bytes@, Self::capacity()),
            final(self)@.len() <= Self::capacity(),
    {
        let room: usize = self.room();
        let count: usize = if bytes.len() <= room {
            bytes.len()
        } else {
            room
        };
        proof {
            assert(bytes@.take(bytes@.len() as int) =~= bytes@);
        }
        self.put(bytes, count);
    }

    /// Appends as many whole characters of `s` as fit; the rest is dropped.
    /// Text in the buffer stays text.
    pub fn write_str(&mut self, s: &str)
        ensures
            final(self)@ == written(old(self)@, s.spec_bytes(), Self::capacity()),
            valid_utf8(old(self)@) ==> valid_utf8(final(self)@),
            final(self)@.len() <= Self::capacity(),
    {
        let room: usize = self.room();
        let count: usize = fit_len(s, room);
        proof {
            lemma_written(old(self)@, s.spec_bytes(), Self::capacity());
        }
        self.put(s.as_bytes(), count);
    }
}

} // verus!
