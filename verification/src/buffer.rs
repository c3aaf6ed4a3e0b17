//! The byte buffer a format parses from.

use vstd::prelude::*;
use vstd::slice::{slice_subrange, slice_to_vec};

verus! {

/// The bytes that have arrived and that no value has consumed yet, oldest
/// first.
///
/// Consuming bytes only moves a position; the consumed front is given back
/// when bytes are next appended.
pub struct InputBuf {
    bytes: Vec<u8>,
    pos: usize,
}

impl View for InputBuf {
    type V = Seq<u8>;

    closed spec fn view(&self) -> Seq<u8> {
        self.bytes@.skip(self.pos as int)
    }
}

impl InputBuf {
    #[verifier::type_invariant]
    spec fn in_bounds(&self) -> bool {
        self.pos <= self.bytes@.len()
    }

    /// An empty buffer.
    pub fn new() -> (buf: InputBuf)
        ensures
            buf@ == Seq::<u8>::empty(),
    {
        let buf = InputBuf { bytes: Vec::new(), pos: 0 };
        assert(buf@ =~= Seq::<u8>::empty());
        buf
    }

    /// How many unconsumed bytes the buffer holds.
    pub fn len(&self) -> (n: usize)
        ensures
            n == self@.len(),
    {
        proof {
            use_type_invariant(&*self);
        }
        self.bytes.len() - self.pos
    }

    /// Whether the buffer holds no byte.
    pub fn is_empty(&self) -> (empty: bool)
        ensures
            empty == (self@.len() == 0),
    {
        proof {
            use_type_invariant(&*self);
        }
        self.bytes.len() == self.pos
    }

    /// The byte at position `at`, counted from the front.
    pub fn byte(&self, at: usize) -> (b: u8)
        requires
            at < self@.len(),
        ensures
            b == self@[at as int],
    {
        proof {
            use_type_invariant(&*self);
        }
        let total = self.bytes.len();
        assert(self@.len() == total - self.pos);
        self.bytes[self.pos + at]
    }

    /// Removes the first `len` bytes and returns them.
    pub fn take(&mut self, len: usize) -> (head: Vec<u8>)
        requires
            len <= old(self)@.len(),
        ensures
            head@ == old(self)@.take(len as int),
            final(self)@ == old(self)@.skip(len as int),
    {
        proof {
            use_type_invariant(&*self);
        }
        let total = self.bytes.len();
        assert(self@.len() == total - self.pos);
        let head = slice_to_vec(slice_subrange(self.bytes.as_slice(), self.pos, self.pos + len));
        assert(head@ =~= self@.take(len as int));
        self.pos = self.pos + len;
        assert(self@ =~= old(self)@.skip(len as int));
        head
    }

    /// Drops the first `len` bytes.
    pub fn skip(&mut self, len: usize)
        requires
            len <= old(self)@.len(),
        ensures
            final(self)@ == old(self)@.skip(len as int),
    {
        proof {
            use_type_invariant(&*self);
        }
        let total = self.bytes.len();
        assert(self@.len() == total - self.pos);
        self.pos = self.pos + len;
        assert(self@ =~= old(self)@.skip(len as int));
    }

    /// Appends `more` behind the bytes already held.
    pub fn extend(&mut self, more: Vec<u8>)
        ensures
            final(self)@ == old(self)@ + more@,
    {
        proof {
            use_type_invariant(&*self);
        }
        let mut arrived = more;
        let start = self.pos;
        let mut held: Vec<u8> = Vec::new();
        self.pos = 0;
        core::mem::swap(&mut self.bytes, &mut held);
        if start == 0 {
            held.append(&mut arrived);
        } else {
            let mut kept = held.split_off(start);
            kept.append(&mut arrived);
            held = kept;
        }
        core::mem::swap(&mut self.bytes, &mut held);
        assert(self@ =~= old(self)@ + more@);
    }

    /// Drops every byte.
    pub fn clear(&mut self)
        ensures
            final(self)@ == Seq::<u8>::empty(),
    {
        *self = InputBuf { bytes: Vec::new(), pos: 0 };
        assert(self@ =~= Seq::<u8>::empty());
    }
}

} // verus!
