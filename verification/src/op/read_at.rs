//! The positional-read descriptor.

use vstd::prelude::*;

use crate::BufResult;
use crate::IoError;
use crate::buf::IoBufMut;
use crate::buf::buf_wrapper::BufWrapper;
use crate::buf::with_buf::WithBufMut;
use crate::buf::with_buf::WrapBuf;
use crate::buf::with_buf::WrapBufMut;
use crate::op::split_offset;

verus! {

/// A read of up to the buffer's capacity at a byte offset of the resource.
pub struct ReadAt<T> {
    /// Custody of the destination buffer.
    pub buffer: BufWrapper<T>,
    /// The byte offset the read starts at.
    pub pos: u64,
}

impl<T: IoBufMut> ReadAt<T> {
    /// Takes custody of `buffer` for a read at offset `pos`.
    pub fn new(buffer: T, pos: u64) -> (r: Self)
        requires
            buffer.buf_wf(),
        ensures
            r.buffer.has_buf(),
            r.buffer.buf_view() == buffer,
            r.pos == pos,
    {
        ReadAt { buffer: BufWrapper::new(buffer), pos }
    }

    /// The offset halves to write into the overlapped header.
    pub fn offset_parts(&self) -> (r: (u32, u32))
        ensures
            r.0 as int + r.1 as int * 0x1_0000_0000 == self.pos as int,
    {
        split_offset(self.pos)
    }

    /// The room handed to the kernel: the buffer's whole capacity.
    pub fn recv_len(&self) -> (r: usize)
        requires
            self.buffer.has_buf(),
            self.buffer.buf_view().buf_wf(),
        ensures
            r == self.buffer.buf_view().buf_cap(),
    {
        proof {
            self.buffer.buf_view().lemma_buf_wf();
        }
        let lens = self.buffer.recv_lens();
        proof {
            assert(lens@.map_values(|v: usize| v as int).len() == lens@.len());
            assert(lens@.map_values(|v: usize| v as int)[0] == lens@[0] as int);
        }
        lens[0]
    }

    /// Publishes the transfer count into the buffer's initialized length.
    pub fn set_buf_len(&mut self, len: usize)
        requires
            old(self).buffer.has_buf(),
            old(self).buffer.buf_view().buf_wf(),
            len <= old(self).buffer.buf_view().buf_cap(),
        ensures
            final(self).pos == old(self).pos,
            final(self).buffer.has_buf(),
            final(self).buffer.buf_view() == old(self).buffer.buf_view().with_len(len as int),
    {
        self.buffer.set_len(len);
    }

    /// Shapes a successful transfer: the count, and the buffer back.
    pub fn result(&mut self, transferred: usize) -> (r: BufResult<usize, T>)
        requires
            old(self).buffer.has_buf(),
        ensures
            r == (Ok::<usize, IoError>(transferred), old(self).buffer.buf_view()),
            !final(self).buffer.has_buf(),
    {
        (Ok(transferred), self.buffer.take_buf())
    }

    /// Shapes a failure: the error, and the buffer back all the same.
    pub fn error(&mut self, err: IoError) -> (r: BufResult<usize, T>)
        requires
            old(self).buffer.has_buf(),
        ensures
            r == (Err::<usize, IoError>(err), old(self).buffer.buf_view()),
            !final(self).buffer.has_buf(),
    {
        (Err(err), self.buffer.take_buf())
    }
}

/// The publishing law of a read: when a transfer of `n` bytes is published
/// into a buffer that started with nothing initialized, the buffer reports
/// exactly `n` initialized bytes.
pub proof fn lemma_read_publishes_count<T: IoBufMut>(b: T, n: int)
    requires
        b.buf_wf(),
        b.buf_bytes().len() == 0,
        0 <= n <= b.buf_cap(),
    ensures
        b.with_len(n).buf_bytes().len() == n,
{
    b.lemma_with_len(n);
}

} // verus!
