//! The buffer-ownership protocol.
//!
//! A buffer handed to the runtime is described by an initialized length and a
//! capacity; the runtime (and, through it, the kernel) may fill the region
//! between the two and then grow the initialized length, never past the
//! capacity and never shrinking it. The traits here state that contract; the
//! types implement it over owned storage.

use vstd::prelude::*;

pub mod buf_wrapper;
pub mod slice;
pub mod with_buf;

verus! {

/// A buffer that can be submitted to an I/O operation.
///
/// The value owns its storage, so the region it describes stays put while the
/// runtime holds the value. `buf_bytes` is the sequence of initialized bytes;
/// `buf_cap` is the total room, counting bytes not yet initialized.
pub trait IoBuf: Sized {
    /// The initialized bytes of the buffer.
    spec fn buf_bytes(&self) -> Seq<u8>;

    /// The total capacity of the buffer, in bytes.
    spec fn buf_cap(&self) -> int;

    /// Structural well-formedness of the buffer value.
    spec fn buf_wf(&self) -> bool;

    /// A well-formed buffer's initialized length never exceeds its capacity,
    /// and the capacity is addressable.
    proof fn lemma_buf_wf(&self)
        requires
            self.buf_wf(),
        ensures
            self.buf_bytes().len() <= self.buf_cap(),
            self.buf_cap() <= usize::MAX as int,
    ;

    /// Number of initialized bytes.
    fn buf_len(&self) -> (r: usize)
        requires
            self.buf_wf(),
        ensures
            r == self.buf_bytes().len(),
    ;

    /// Total size of the buffer, including uninitialized room, if any.
    fn buf_capacity(&self) -> (r: usize)
        requires
            self.buf_wf(),
        ensures
            r == self.buf_cap(),
    ;
}

/// A buffer an I/O operation may fill.
///
/// Growing the initialized length is the only mutation the protocol needs:
/// the kernel reports how many bytes it wrote and the runtime marks that many
/// as initialized. Shrinking is a no-op, and growing past the capacity is
/// excluded.
pub trait IoBufMut: IoBuf {
    /// The buffer value after its initialized length is set to `len`.
    spec fn with_len(&self, len: int) -> Self;

    /// What setting the initialized length does: the length becomes the
    /// maximum of the old and requested lengths (growth only), the capacity
    /// and the already-initialized prefix are untouched, and a request at or
    /// below the current length changes nothing.
    proof fn lemma_with_len(&self, len: int)
        requires
            self.buf_wf(),
            0 <= len <= self.buf_cap(),
        ensures
            self.with_len(len).buf_wf(),
            self.with_len(len).buf_cap() == self.buf_cap(),
            self.with_len(len).buf_bytes().len() == vstd::math::max(
                len,
                self.buf_bytes().len() as int,
            ),
            self.with_len(len).buf_bytes().subrange(0, self.buf_bytes().len() as int)
                == self.buf_bytes(),
            len <= self.buf_bytes().len() ==> self.with_len(len) == *self,
    ;

    /// Updates the number of initialized bytes.
    fn set_buf_len(&mut self, len: usize)
        requires
            old(self).buf_wf(),
            len <= old(self).buf_cap(),
        ensures
            *final(self) == old(self).with_len(len as int),
    ;
}

impl IoBuf for Vec<u8> {
    /// A plain vector is fully initialized; room the allocator may have
    /// reserved beyond its length is not part of the protocol's capacity.
    open spec fn buf_bytes(&self) -> Seq<u8> {
        self@
    }

    open spec fn buf_cap(&self) -> int {
        self@.len() as int
    }

    open spec fn buf_wf(&self) -> bool {
        true
    }

    proof fn lemma_buf_wf(&self) {
        vstd::std_specs::vec::axiom_spec_len(self);
    }

    fn buf_len(&self) -> (r: usize) {
        self.len()
    }

    fn buf_capacity(&self) -> (r: usize) {
        self.len()
    }
}

impl IoBufMut for Vec<u8> {
    /// With capacity equal to length, growth is impossible and every
    /// permitted request leaves the vector as it is.
    open spec fn with_len(&self, len: int) -> Self {
        *self
    }

    proof fn lemma_with_len(&self, len: int) {
        assert(self@.subrange(0, self@.len() as int) =~= self@);
    }

    fn set_buf_len(&mut self, len: usize) {
    }
}

/// A buffer with spare room: owned storage of a fixed capacity, of which a
/// prefix is initialized.
///
/// This is the buffer to hand to a reading operation: the storage past the
/// initialized prefix is the room the kernel fills, and `set_buf_len` then
/// publishes the transfer count.
pub struct FixedBuf {
    storage: Vec<u8>,
    init: usize,
}

impl FixedBuf {
    /// The raw storage, including not-yet-published bytes.
    pub closed spec fn spec_storage(&self) -> Seq<u8> {
        self.storage@
    }

    /// Creates a buffer of capacity `cap` with nothing initialized.
    pub fn with_capacity(cap: usize) -> (r: Self)
        ensures
            r.buf_wf(),
            r.buf_cap() == cap,
            r.buf_bytes() == Seq::<u8>::empty(),
    {
        let mut storage: Vec<u8> = Vec::new();
        storage.resize(cap, 0u8);
        FixedBuf { storage, init: 0 }
    }

    /// Creates a fully initialized buffer holding `data`.
    pub fn from_vec(data: Vec<u8>) -> (r: Self)
        ensures
            r.buf_wf(),
            r.buf_cap() == data@.len(),
            r.buf_bytes() == data@,
    {
        let init = data.len();
        FixedBuf { storage: data, init }
    }

    /// Writes one byte of storage without publishing it.
    ///
    /// This is the effect a partial kernel transfer has on the buffer: bytes
    /// land in storage first, and only `set_buf_len` makes them initialized.
    pub fn write_byte(&mut self, i: usize, value: u8)
        requires
            old(self).buf_wf(),
            i < old(self).buf_cap(),
        ensures
            final(self).buf_wf(),
            final(self).spec_storage() == old(self).spec_storage().update(i as int, value),
            final(self).buf_cap() == old(self).buf_cap(),
            i < old(self).buf_bytes().len() ==> final(self).buf_bytes() == old(
                self,
            ).buf_bytes().update(i as int, value),
            i >= old(self).buf_bytes().len() ==> final(self).buf_bytes() == old(self).buf_bytes(),
    {
        self.storage[i] = value;
        proof {
            if i < self.init {
                assert(self.buf_bytes() =~= old(self).buf_bytes().update(i as int, value));
            } else {
                assert(self.buf_bytes() =~= old(self).buf_bytes());
            }
        }
    }

    /// The byte at index `i` of the initialized prefix.
    pub fn byte_at(&self, i: usize) -> (r: u8)
        requires
            self.buf_wf(),
            i < self.buf_bytes().len(),
        ensures
            r == self.buf_bytes()[i as int],
    {
        self.storage[i]
    }

    /// Gives the initialized prefix up as a plain vector.
    pub fn into_vec(self) -> (r: Vec<u8>)
        requires
            self.buf_wf(),
        ensures
            r@ == self.buf_bytes(),
    {
        let mut data = self.storage;
        data.truncate(self.init);
        data
    }
}

impl IoBuf for FixedBuf {
    closed spec fn buf_bytes(&self) -> Seq<u8> {
        self.storage@.subrange(0, self.init as int)
    }

    closed spec fn buf_cap(&self) -> int {
        self.storage@.len() as int
    }

    closed spec fn buf_wf(&self) -> bool {
        self.init <= self.storage@.len()
    }

    proof fn lemma_buf_wf(&self) {
        vstd::std_specs::vec::axiom_spec_len(&self.storage);
    }

    fn buf_len(&self) -> (r: usize) {
        self.init
    }

    fn buf_capacity(&self) -> (r: usize) {
        self.storage.len()
    }
}

impl IoBufMut for FixedBuf {
    closed spec fn with_len(&self, len: int) -> Self {
        FixedBuf {
            storage: self.storage,
            init: vstd::math::max(len, self.init as int) as usize,
        }
    }

    proof fn lemma_with_len(&self, len: int) {
        vstd::std_specs::vec::axiom_spec_len(&self.storage);
        assert(self.with_len(len).buf_bytes().subrange(0, self.buf_bytes().len() as int)
            =~= self.buf_bytes());
    }

    fn set_buf_len(&mut self, len: usize) {
        if len > self.init {
            self.init = len;
        }
    }
}

} // verus!
