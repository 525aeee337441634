//! Byte capture: collects a number of bytes fixed at construction, through
//! push_decode's `ByteVecDecoder`.
use crate::external::{byte_vec_end, byte_vec_new, byte_vec_take, collected, required_len};
use vstd::math::min;
use vstd::prelude::*;

verus! {

/// Collects exactly `required` bytes across any number of chunks.
pub struct ByteCapture {
    inner: push_decode::decoders::ByteVecDecoder,
    taken: usize,
    required: usize,
}

impl ByteCapture {
    /// The bytes taken so far.
    pub closed spec fn received(&self) -> Seq<u8> {
        collected(self.inner)
    }

    /// The number of bytes this decoder takes in all.
    pub closed spec fn required(&self) -> nat {
        self.required as nat
    }

    pub closed spec fn wf(&self) -> bool {
        &&& collected(self.inner).len() == self.taken
        &&& required_len(self.inner) == self.required
        &&& self.taken <= self.required
    }

    pub broadcast proof fn lemma_wf(&self)
        requires
            #[trigger] self.wf(),
        ensures
            self.received().len() <= self.required(),
    {
    }

    /// How many of `avail` offered bytes the decoder takes.
    pub open spec fn wanted(&self, avail: int) -> int {
        min(avail, self.required() - self.received().len())
    }

    pub fn new(required_bytes: usize) -> (r: Self)
        ensures
            r.wf(),
            r.required() == required_bytes,
            r.received() == Seq::<u8>::empty(),
    {
        ByteCapture { inner: byte_vec_new(required_bytes), taken: 0, required: required_bytes }
    }

    /// Takes from `bytes[*pos..]` as many bytes as are still missing and moves
    /// the cursor past them.
    pub fn decode_chunk(&mut self, bytes: &[u8], pos: &mut usize)
        requires
            old(self).wf(),
            *old(pos) <= bytes@.len(),
        ensures
            final(self).wf(),
            final(self).required() == old(self).required(),
            *final(pos) == *old(pos) + old(self).wanted(bytes@.len() - *old(pos)),
            final(self).received() == old(self).received() + bytes@.subrange(
                *old(pos) as int,
                *final(pos) as int,
            ),
    {
        let rest = vstd::slice::slice_subrange(bytes, *pos, bytes.len());
        match byte_vec_take(&mut self.inner, rest) {
            Ok(n) => {
                assert(rest@.subrange(0, n as int) =~= bytes@.subrange(
                    *pos as int,
                    *pos + n,
                ));
                *pos = *pos + n;
                self.taken = self.taken + n;
            },
            Err(_) => {},
        }
    }

    /// Whether every required byte has been taken.
    pub fn is_complete(&self) -> (r: bool)
        requires
            self.wf(),
        ensures
            r == (self.received().len() == self.required()),
    {
        self.taken == self.required
    }

    /// The collected bytes, or `None` when some are still missing.
    pub fn end(self) -> (r: Option<Vec<u8>>)
        requires
            self.wf(),
        ensures
            self.received().len() < self.required() ==> r.is_none(),
            self.received().len() == self.required() ==> r.is_some() && r.unwrap()@
                == self.received(),
    {
        match byte_vec_end(self.inner) {
            Ok(v) => Some(v),
            Err(_) => None,
        }
    }
}

} // verus!
