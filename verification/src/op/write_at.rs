//! The positional-write descriptor.

use vstd::prelude::*;

use crate::BufResult;
use crate::IoError;
use crate::buf::IoBuf;
use crate::buf::buf_wrapper::BufWrapper;
use crate::buf::with_buf::WithBuf;
use crate::buf::with_buf::WrapBuf;
use crate::op::split_offset;

verus! {

/// A write of the buffer's initialized bytes at a byte offset of the
/// resource.
pub struct WriteAt<T> {
    /// Custody of the source buffer.
    pub buffer: BufWrapper<T>,
    /// The byte offset the write starts at.
    pub pos: u64,
}

impl<T: IoBuf> WriteAt<T> {
    /// Takes custody of `buffer` for a write at offset `pos`.
    pub fn new(buffer: T, pos: u64) -> (r: Self)
        requires
            buffer.buf_wf(),
        ensures
            r.buffer.has_buf(),
            r.buffer.buf_view() == buffer,
            r.pos == pos,
    {
        WriteAt { buffer: BufWrapper::new(buffer), pos }
    }

    /// The offset halves to write into the overlapped header.
    pub fn offset_parts(&self) -> (r: (u32, u32))
        ensures
            r.0 as int + r.1 as int * 0x1_0000_0000 == self.pos as int,
    {
        split_offset(self.pos)
    }

    /// The bytes handed to the kernel: exactly the initialized bytes, so a
    /// full transfer count equals the buffer's initialized length.
    pub fn submit_len(&self) -> (r: usize)
        requires
            self.buffer.has_buf(),
            self.buffer.buf_view().buf_wf(),
        ensures
            r == self.buffer.buf_view().buf_bytes().len(),
    {
        let lens = self.buffer.submit_lens();
        proof {
            assert(lens@.map_values(|v: usize| v as int).len() == lens@.len());
            assert(lens@.map_values(|v: usize| v as int)[0] == lens@[0] as int);
        }
        lens[0]
    }

    /// A transfer count does not change a source buffer.
    pub fn set_buf_len(&mut self, len: usize)
        ensures
            *final(self) == *old(self),
    {
    }

    /// Shapes a successful transfer: the count, and the buffer back
    /// unchanged.
    pub fn result(&mut self, transferred: usize) -> (r: BufResult<usize, T>)
        requires
            old(self).buffer.has_buf(),
        ensures
            r == (Ok::<usize, IoError>(transferred), old(self).buffer.buf_view()),
            !final(self).buffer.has_buf(),
    {
        (Ok(transferred), self.buffer.take_buf())
    }

    /// Shapes a failure: the error, and the buffer back all the same.
    pub fn error(&mut self, err: IoError) -> (r: BufResult<usize, T>)
        requires
            old(self).buffer.has_buf(),
        ensures
            r == (Err::<usize, IoError>(err), old(self).buffer.buf_view()),
            !final(self).buffer.has_buf(),
    {
        (Err(err), self.buffer.take_buf())
    }
}

} // verus!
