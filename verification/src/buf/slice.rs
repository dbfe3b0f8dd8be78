//! An owned slice of a buffer.
//!
//! A slice records `(buffer, begin, end)` and re-exposes the buffer protocol
//! over that window: its capacity is `end - begin`, its initialized length is
//! `min(end, parent length) - begin`, and growing it grows the parent from
//! `begin`.

use vstd::prelude::*;

use crate::buf::IoBuf;
use crate::buf::IoBufMut;

verus! {

/// An owned view of a sub-range `[begin, end)` of a buffer.
pub struct Slice<T> {
    /// The buffer the slice owns.
    pub buffer: T,
    /// First offset of the window.
    pub begin: usize,
    /// One past the last offset of the window.
    pub end: usize,
}

impl<T: IoBuf> Slice<T> {
    /// The window is inside the parent's capacity, starts inside its
    /// initialized prefix, and is ordered.
    pub open spec fn slice_wf(&self) -> bool {
        &&& self.buffer.buf_wf()
        &&& self.begin <= self.end
        &&& self.end <= self.buffer.buf_cap()
        &&& self.begin <= self.buffer.buf_bytes().len()
    }

    /// Takes ownership of `buffer` and exposes the range `[begin, end)`.
    pub fn new(buffer: T, begin: usize, end: usize) -> (r: Self)
        requires
            buffer.buf_wf(),
            begin < buffer.buf_cap(),
            end <= buffer.buf_cap(),
            begin <= buffer.buf_bytes().len(),
            begin <= end,
        ensures
            r == (Slice { buffer, begin, end }),
            r.slice_wf(),
    {
        Slice { buffer, begin, end }
    }

    /// Offset in the buffer where this slice starts.
    pub fn begin(&self) -> (r: usize)
        ensures
            r == self.begin,
    {
        self.begin
    }

    /// Offset in the buffer where this slice ends.
    pub fn end(&self) -> (r: usize)
        ensures
            r == self.end,
    {
        self.end
    }

    /// Gets a reference to the underlying buffer.
    pub fn as_inner(&self) -> (r: &T)
        ensures
            r == &self.buffer,
    {
        &self.buffer
    }

    /// Gets a mutable reference to the underlying buffer.
    pub fn as_inner_mut(&mut self) -> (r: &mut T)
        ensures
            *r == old(self).buffer,
            *final(self) == (Slice {
                buffer: *final(r),
                begin: old(self).begin,
                end: old(self).end,
            }),
    {
        &mut self.buffer
    }

    /// Unwraps this slice into its underlying buffer.
    pub fn into_inner(self) -> (r: T)
        ensures
            r == self.buffer,
    {
        self.buffer
    }
}

impl<T: IoBuf> IoBuf for Slice<T> {
    /// The initialized bytes of the window: the parent's initialized bytes
    /// from `begin` up to `end`, as far as they go.
    open spec fn buf_bytes(&self) -> Seq<u8> {
        self.buffer.buf_bytes().subrange(
            self.begin as int,
            vstd::math::min(self.end as int, self.buffer.buf_bytes().len() as int),
        )
    }

    open spec fn buf_cap(&self) -> int {
        self.end - self.begin
    }

    open spec fn buf_wf(&self) -> bool {
        self.slice_wf()
    }

    proof fn lemma_buf_wf(&self) {
        self.buffer.lemma_buf_wf();
    }

    fn buf_len(&self) -> (r: usize) {
        let parent_len = self.buffer.buf_len();
        let visible = if self.end < parent_len {
            self.end
        } else {
            parent_len
        };
        visible - self.begin
    }

    fn buf_capacity(&self) -> (r: usize) {
        self.end - self.begin
    }
}

impl<T: IoBufMut> IoBufMut for Slice<T> {
    /// Growing the slice to `len` grows the parent to `begin + len`.
    open spec fn with_len(&self, len: int) -> Self {
        Slice { buffer: self.buffer.with_len(self.begin + len), begin: self.begin, end: self.end }
    }

    proof fn lemma_with_len(&self, len: int) {
        self.buffer.lemma_buf_wf();
        self.buffer.lemma_with_len(self.begin + len);
        let grown = self.buffer.with_len(self.begin + len);
        let old_plen = self.buffer.buf_bytes().len() as int;
        let new_plen = grown.buf_bytes().len() as int;
        assert(new_plen == vstd::math::max(self.begin + len, old_plen));
        assert forall|i: int| 0 <= i < old_plen implies grown.buf_bytes()[i]
            == self.buffer.buf_bytes()[i] by {
            assert(grown.buf_bytes().subrange(0, old_plen)[i] == grown.buf_bytes()[i]);
        }
        assert(self.with_len(len).buf_bytes().len() == vstd::math::max(
            len,
            self.buf_bytes().len() as int,
        ));
        assert(self.with_len(len).buf_bytes().subrange(0, self.buf_bytes().len() as int)
            =~= self.buf_bytes());
        if len <= self.buf_bytes().len() {
            assert(self.begin + len <= old_plen);
            assert(self.buffer.with_len(self.begin + len) == self.buffer);
        }
    }

    fn set_buf_len(&mut self, len: usize) {
        proof {
            self.buffer.lemma_buf_wf();
        }
        let target = self.begin + len;
        self.buffer.set_buf_len(target);
    }
}

/// The slicing law: a slice of a well-formed buffer over `[begin, end)` has
/// initialized length `min(end, parent length) - begin` and capacity
/// `end - begin`, and setting its initialized length to `k` sets the
/// parent's to `begin + k`.
pub proof fn lemma_slice_protocol<T: IoBufMut>(s: Slice<T>, k: int)
    requires
        s.slice_wf(),
        0 <= k <= s.buf_cap(),
    ensures
        s.buf_bytes().len() == vstd::math::min(s.end as int, s.buffer.buf_bytes().len() as int)
            - s.begin,
        s.buf_cap() == s.end - s.begin,
        s.with_len(k).buffer == s.buffer.with_len(s.begin + k),
{
}

} // verus!
