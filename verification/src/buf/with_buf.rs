//! Custody of a buffer during one operation.
//!
//! A descriptor does not hold its user buffer bare: it wraps it in a value
//! that tracks custody (taken on submit, given back exactly once on the
//! terminal outcome) and that presents the buffer to the kernel as a list of
//! gather/scatter segment lengths. The pointers that accompany those lengths
//! in the kernel's records are the unverified shell's business.

use vstd::prelude::*;

verus! {

/// A wrapper that holds a buffer for the duration of one operation.
pub trait WrapBuf: Sized {
    /// The buffer type held under custody.
    type Buffer;

    /// Validity of a buffer value of this wrapper's buffer type.
    spec fn buffer_wf(buffer: Self::Buffer) -> bool;

    /// Whether the wrapper still holds its buffer.
    spec fn has_buf(&self) -> bool;

    /// The held buffer.
    spec fn buf_view(&self) -> Self::Buffer;

    /// Takes custody of `buffer`.
    fn new(buffer: Self::Buffer) -> (r: Self)
        requires
            Self::buffer_wf(buffer),
        ensures
            r.has_buf(),
            r.buf_view() == buffer,
            Self::buffer_wf(r.buf_view()),
    ;

    /// Gives the buffer back; custody ends.
    fn take_buf(&mut self) -> (r: Self::Buffer)
        requires
            old(self).has_buf(),
        ensures
            r == old(self).buf_view(),
            !final(self).has_buf(),
    ;
}

/// A wrapper whose buffer a reading operation may fill.
pub trait WrapBufMut: WrapBuf {
    /// Total capacity of the held buffer, in bytes.
    spec fn total_cap(&self) -> int;

    /// How `set_len` transforms the held buffer: each wrapper type states
    /// exactly what a transfer count does to what it holds.
    spec fn set_len_post(pre: Self, post: Self, len: int) -> bool;

    /// Publishes a transfer of `len` bytes into the held buffer.
    fn set_len(&mut self, len: usize)
        requires
            old(self).has_buf(),
            Self::buffer_wf(old(self).buf_view()),
            len <= old(self).total_cap(),
        ensures
            final(self).has_buf(),
            Self::buffer_wf(final(self).buf_view()),
            final(self).total_cap() == old(self).total_cap(),
            Self::set_len_post(*old(self), *final(self), len as int),
    ;
}

/// A wrapper that can present its buffer to a gathering (sending) kernel
/// call.
pub trait WithBuf: WrapBuf {
    /// The lengths of the gather segments, one per kernel record.
    spec fn spec_submit_lens(&self) -> Seq<int>;

    /// The gather segment lengths handed to the kernel: for each segment,
    /// the number of initialized bytes the kernel is to send.
    fn submit_lens(&self) -> (r: Vec<usize>)
        requires
            self.has_buf(),
            Self::buffer_wf(self.buf_view()),
        ensures
            r@.map_values(|v: usize| v as int) == self.spec_submit_lens(),
    ;
}

/// A wrapper that can present its buffer to a scattering (receiving) kernel
/// call.
pub trait WithBufMut: WrapBufMut {
    /// The lengths of the scatter segments, one per kernel record.
    spec fn spec_recv_lens(&self) -> Seq<int>;

    /// The scatter segment lengths handed to the kernel: for each segment,
    /// the room the kernel may fill.
    fn recv_lens(&self) -> (r: Vec<usize>)
        requires
            self.has_buf(),
            Self::buffer_wf(self.buf_view()),
        ensures
            r@.map_values(|v: usize| v as int) == self.spec_recv_lens(),
    ;
}

} // verus!
