//! The socket operation descriptors: receive, send, receive-from,
//! send-to, connect and accept.

use vstd::prelude::*;

use crate::BufResult;
use crate::IoError;
use crate::buf::buf_wrapper::BufWrapper;
use crate::buf::buf_wrapper::VectoredBufWrapper;
use crate::buf::with_buf::WithBuf;
use crate::buf::with_buf::WithBufMut;
use crate::buf::with_buf::WrapBuf;
use crate::buf::with_buf::WrapBufMut;
use crate::net::sockaddr::MAX_ADDR_SIZE;

verus! {

/// A receive into the wrapped buffer.
pub struct Recv<T> {
    /// Custody of the destination buffer.
    pub buffer: T,
}

impl<T: WithBufMut> Recv<T> {
    /// Takes custody of `buffer` for a receive.
    pub fn new(buffer: T::Buffer) -> (r: Self)
        requires
            T::buffer_wf(buffer),
        ensures
            r.buffer.has_buf(),
            r.buffer.buf_view() == buffer,
            T::buffer_wf(r.buffer.buf_view()),
    {
        Recv { buffer: T::new(buffer) }
    }

    /// The scatter segment lengths handed to the kernel.
    pub fn recv_lens(&self) -> (r: Vec<usize>)
        requires
            self.buffer.has_buf(),
            T::buffer_wf(self.buffer.buf_view()),
        ensures
            r@.map_values(|v: usize| v as int) == self.buffer.spec_recv_lens(),
    {
        self.buffer.recv_lens()
    }

    /// Publishes the transfer count into the wrapped buffer.
    pub fn set_buf_len(&mut self, len: usize)
        requires
            old(self).buffer.has_buf(),
            T::buffer_wf(old(self).buffer.buf_view()),
            len <= old(self).buffer.total_cap(),
        ensures
            final(self).buffer.has_buf(),
            T::buffer_wf(final(self).buffer.buf_view()),
            T::set_len_post(old(self).buffer, final(self).buffer, len as int),
    {
        self.buffer.set_len(len);
    }

    /// Shapes a successful transfer: the count, and the buffer back.
    pub fn result(&mut self, transferred: usize) -> (r: BufResult<usize, T::Buffer>)
        requires
            old(self).buffer.has_buf(),
        ensures
            r == (Ok::<usize, IoError>(transferred), old(self).buffer.buf_view()),
            !final(self).buffer.has_buf(),
    {
        (Ok(transferred), self.buffer.take_buf())
    }

    /// Shapes a failure: the error, and the buffer back all the same.
    pub fn error(&mut self, err: IoError) -> (r: BufResult<usize, T::Buffer>)
        requires
            old(self).buffer.has_buf(),
        ensures
            r == (Err::<usize, IoError>(err), old(self).buffer.buf_view()),
            !final(self).buffer.has_buf(),
    {
        (Err(err), self.buffer.take_buf())
    }
}

/// A receive into one buffer.
pub type RecvOne<T> = Recv<BufWrapper<T>>;

/// A receive scattered over a group of buffers.
pub type RecvVectored<T> = Recv<VectoredBufWrapper<T>>;

/// A send of the wrapped buffer's initialized bytes.
pub struct Send<T> {
    /// Custody of the source buffer.
    pub buffer: T,
}

impl<T: WithBuf> Send<T> {
    /// Takes custody of `buffer` for a send.
    pub fn new(buffer: T::Buffer) -> (r: Self)
        requires
            T::buffer_wf(buffer),
        ensures
            r.buffer.has_buf(),
            r.buffer.buf_view() == buffer,
            T::buffer_wf(r.buffer.buf_view()),
    {
        Send { buffer: T::new(buffer) }
    }

    /// The gather segment lengths handed to the kernel.
    pub fn submit_lens(&self) -> (r: Vec<usize>)
        requires
            self.buffer.has_buf(),
            T::buffer_wf(self.buffer.buf_view()),
        ensures
            r@.map_values(|v: usize| v as int) == self.buffer.spec_submit_lens(),
    {
        self.buffer.submit_lens()
    }

    /// Shapes a successful transfer: the count, and the buffer back.
    pub fn result(&mut self, transferred: usize) -> (r: BufResult<usize, T::Buffer>)
        requires
            old(self).buffer.has_buf(),
        ensures
            r == (Ok::<usize, IoError>(transferred), old(self).buffer.buf_view()),
            !final(self).buffer.has_buf(),
    {
        (Ok(transferred), self.buffer.take_buf())
    }

    /// Shapes a failure: the error, and the buffer back all the same.
    pub fn error(&mut self, err: IoError) -> (r: BufResult<usize, T::Buffer>)
        requires
            old(self).buffer.has_buf(),
        ensures
            r == (Err::<usize, IoError>(err), old(self).buffer.buf_view()),
            !final(self).buffer.has_buf(),
    {
        (Err(err), self.buffer.take_buf())
    }
}

/// A send of one buffer.
pub type SendOne<T> = Send<BufWrapper<T>>;

/// A send gathered from a group of buffers.
pub type SendVectored<T> = Send<VectoredBufWrapper<T>>;

/// A receive that also reports the sender's address: the descriptor holds
/// the address-receive buffer the kernel fills and the cell for its
/// length.
pub struct RecvFrom<T> {
    /// Custody of the destination buffer.
    pub buffer: T,
    /// The fixed-size buffer the kernel writes the sender's address into.
    pub addr_buffer: Vec<u8>,
    /// The address length cell, initialized to the buffer's size and
    /// overwritten by the kernel.
    pub addr_size: u32,
}

impl<T: WithBufMut> RecvFrom<T> {
    /// Takes custody of `buffer` and prepares an address buffer of the
    /// platform's maximum address size.
    pub fn new(buffer: T::Buffer) -> (r: Self)
        requires
            T::buffer_wf(buffer),
        ensures
            r.buffer.has_buf(),
            r.buffer.buf_view() == buffer,
            T::buffer_wf(r.buffer.buf_view()),
            r.addr_buffer@.len() == MAX_ADDR_SIZE,
            forall|j: int| 0 <= j < r.addr_buffer@.len() ==> r.addr_buffer@[j] == 0u8,
            r.addr_size == MAX_ADDR_SIZE,
    {
        let mut addr_buffer: Vec<u8> = Vec::new();
        addr_buffer.resize(MAX_ADDR_SIZE, 0u8);
        RecvFrom { buffer: T::new(buffer), addr_buffer, addr_size: MAX_ADDR_SIZE as u32 }
    }

    /// The scatter segment lengths handed to the kernel.
    pub fn recv_lens(&self) -> (r: Vec<usize>)
        requires
            self.buffer.has_buf(),
            T::buffer_wf(self.buffer.buf_view()),
        ensures
            r@.map_values(|v: usize| v as int) == self.buffer.spec_recv_lens(),
    {
        self.buffer.recv_lens()
    }

    /// Publishes the transfer count into the wrapped buffer.
    pub fn set_buf_len(&mut self, len: usize)
        requires
            old(self).buffer.has_buf(),
            T::buffer_wf(old(self).buffer.buf_view()),
            len <= old(self).buffer.total_cap(),
        ensures
            final(self).buffer.has_buf(),
            T::buffer_wf(final(self).buffer.buf_view()),
            T::set_len_post(old(self).buffer, final(self).buffer, len as int),
            final(self).addr_buffer == old(self).addr_buffer,
            final(self).addr_size == old(self).addr_size,
    {
        self.buffer.set_len(len);
    }

    /// Shapes a successful transfer: the count, and the buffer back. The
    /// address stays readable through the descriptor's address buffer.
    pub fn result(&mut self, transferred: usize) -> (r: BufResult<usize, T::Buffer>)
        requires
            old(self).buffer.has_buf(),
        ensures
            r == (Ok::<usize, IoError>(transferred), old(self).buffer.buf_view()),
            !final(self).buffer.has_buf(),
            final(self).addr_buffer == old(self).addr_buffer,
            final(self).addr_size == old(self).addr_size,
    {
        (Ok(transferred), self.buffer.take_buf())
    }

    /// Shapes a failure: the error, and the buffer back all the same.
    pub fn error(&mut self, err: IoError) -> (r: BufResult<usize, T::Buffer>)
        requires
            old(self).buffer.has_buf(),
        ensures
            r == (Err::<usize, IoError>(err), old(self).buffer.buf_view()),
            !final(self).buffer.has_buf(),
    {
        (Err(err), self.buffer.take_buf())
    }
}

/// A receive-from into one buffer.
pub type RecvFromOne<T> = RecvFrom<BufWrapper<T>>;

/// A receive-from scattered over a group of buffers.
pub type RecvFromVectored<T> = RecvFrom<VectoredBufWrapper<T>>;

/// A send to an explicit address, carried by value with the descriptor.
pub struct SendTo<T, A> {
    /// Custody of the source buffer.
    pub buffer: T,
    /// The destination address.
    pub addr: A,
}

impl<T: WithBuf, A> SendTo<T, A> {
    /// Takes custody of `buffer` and the destination address.
    pub fn new(buffer: T::Buffer, addr: A) -> (r: Self)
        requires
            T::buffer_wf(buffer),
        ensures
            r.buffer.has_buf(),
            r.buffer.buf_view() == buffer,
            T::buffer_wf(r.buffer.buf_view()),
            r.addr == addr,
    {
        SendTo { buffer: T::new(buffer), addr }
    }

    /// The destination address, for the submit call.
    pub fn addr(&self) -> (r: &A)
        ensures
            r == &self.addr,
    {
        &self.addr
    }

    /// The gather segment lengths handed to the kernel.
    pub fn submit_lens(&self) -> (r: Vec<usize>)
        requires
            self.buffer.has_buf(),
            T::buffer_wf(self.buffer.buf_view()),
        ensures
            r@.map_values(|v: usize| v as int) == self.buffer.spec_submit_lens(),
    {
        self.buffer.submit_lens()
    }

    /// Shapes a successful transfer: the count, and the buffer back.
    pub fn result(&mut self, transferred: usize) -> (r: BufResult<usize, T::Buffer>)
        requires
            old(self).buffer.has_buf(),
        ensures
            r == (Ok::<usize, IoError>(transferred), old(self).buffer.buf_view()),
            !final(self).buffer.has_buf(),
    {
        (Ok(transferred), self.buffer.take_buf())
    }

    /// Shapes a failure: the error, and the buffer back all the same.
    pub fn error(&mut self, err: IoError) -> (r: BufResult<usize, T::Buffer>)
        requires
            old(self).buffer.has_buf(),
        ensures
            r == (Err::<usize, IoError>(err), old(self).buffer.buf_view()),
            !final(self).buffer.has_buf(),
    {
        (Err(err), self.buffer.take_buf())
    }
}

/// A send-to of one buffer.
pub type SendToOne<T, A> = SendTo<BufWrapper<T>, A>;

/// A send-to gathered from a group of buffers.
pub type SendToVectored<T, A> = SendTo<VectoredBufWrapper<T>, A>;

/// A connect to an address, carried by value; its success value is unit
/// and the address is discarded at the end.
pub struct Connect<A> {
    /// The destination address.
    pub addr: A,
}

impl<A> Connect<A> {
    /// Takes the destination address.
    pub fn new(addr: A) -> (r: Self)
        ensures
            r.addr == addr,
    {
        Connect { addr }
    }

    /// The destination address, for the submit call.
    pub fn addr(&self) -> (r: &A)
        ensures
            r == &self.addr,
    {
        &self.addr
    }

    /// Shapes a successful completion; the transfer count of a connect
    /// means nothing and is discarded.
    pub fn result(&mut self, transferred: usize) -> (r: BufResult<(), ()>)
        ensures
            r == (Ok::<(), IoError>(()), ()),
    {
        (Ok(()), ())
    }

    /// Shapes a failure.
    pub fn error(&mut self, err: IoError) -> (r: BufResult<(), ()>)
        ensures
            r == (Err::<(), IoError>(err), ()),
    {
        (Err(err), ())
    }
}

/// An accept: custody of the pre-created socket that will carry the
/// connection, and the address buffer the kernel fills with the local and
/// remote addresses.
pub struct Accept<H> {
    /// The accepted-socket handle under custody; `None` once given back.
    pub accept_handle: Option<H>,
    /// The buffer the kernel writes both endpoint addresses into, twice
    /// the platform's maximum address size.
    pub addr_buffer: Vec<u8>,
}

impl<H> Accept<H> {
    /// Takes custody of the pre-created socket handle.
    pub fn new(handle: H) -> (r: Self)
        ensures
            r.accept_handle == Some(handle),
            r.addr_buffer@.len() == 2 * MAX_ADDR_SIZE,
            forall|j: int| 0 <= j < r.addr_buffer@.len() ==> r.addr_buffer@[j] == 0u8,
    {
        let mut addr_buffer: Vec<u8> = Vec::new();
        addr_buffer.resize(2 * MAX_ADDR_SIZE, 0u8);
        Accept { accept_handle: Some(handle), addr_buffer }
    }

    /// Shapes a successful completion: the accepted socket comes back in
    /// the buffer slot; its peer address is read out of the address buffer
    /// by the shell's address helper.
    pub fn result(&mut self, transferred: usize) -> (r: BufResult<(), H>)
        requires
            old(self).accept_handle is Some,
        ensures
            r == (Ok::<(), IoError>(()), old(self).accept_handle.unwrap()),
            final(self).accept_handle is None,
    {
        (Ok(()), self.accept_handle.take().unwrap())
    }

    /// Shapes a failure: the accepted socket comes back all the same.
    pub fn error(&mut self, err: IoError) -> (r: BufResult<(), H>)
        requires
            old(self).accept_handle is Some,
        ensures
            r == (Err::<(), IoError>(err), old(self).accept_handle.unwrap()),
            final(self).accept_handle is None,
    {
        (Err(err), self.accept_handle.take().unwrap())
    }
}

} // verus!
