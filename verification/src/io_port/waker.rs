//! The control block of one in-flight operation.
//!
//! The kernel-facing half of the control block is an overlapped header whose
//! address identifies the operation; here it is modeled by the positional
//! offset the submission writes into it. The task-facing half is a waker
//! slot, an error slot for a completion-time error, and custody of the
//! operation's payload. The waker type is a parameter so that the machinery
//! is stated for any waker the host scheduler uses.

use vstd::prelude::*;

use crate::IoError;

verus! {

/// The shared core of a control block: the overlapped header's offset
/// fields, the waker slot and the error slot.
pub struct OverlappedWakerBase<W> {
    /// Low half of the positional offset in the overlapped header.
    pub offset: u32,
    /// High half of the positional offset in the overlapped header.
    pub offset_high: u32,
    /// The waker of the task awaiting the operation, if one is registered.
    pub waker: Option<W>,
    /// A completion-time error stored by the poller, if any.
    pub err: Option<IoError>,
}

impl<W> OverlappedWakerBase<W> {
    /// A zeroed header with empty waker and error slots.
    pub fn new() -> (r: Self)
        ensures
            r.offset == 0,
            r.offset_high == 0,
            r.waker is None,
            r.err is None,
    {
        OverlappedWakerBase { offset: 0, offset_high: 0, waker: None, err: None }
    }

    /// Writes the positional offset halves into the header.
    pub fn set_offset(&mut self, low: u32, high: u32)
        ensures
            *final(self) == (OverlappedWakerBase {
                offset: low,
                offset_high: high,
                ..*old(self)
            }),
    {
        self.offset = low;
        self.offset_high = high;
    }

    /// Registers `waker`, dropping whichever waker was registered before:
    /// at most one waker is held at a time.
    pub fn set_waker(&mut self, waker: W)
        ensures
            *final(self) == (OverlappedWakerBase { waker: Some(waker), ..*old(self) }),
    {
        self.waker = Some(waker);
    }

    /// Removes and returns the registered waker, leaving the slot empty, so
    /// that later wake attempts find nothing to wake.
    pub fn take_waker(&mut self) -> (r: Option<W>)
        ensures
            r == old(self).waker,
            *final(self) == (OverlappedWakerBase { waker: None, ..*old(self) }),
    {
        self.waker.take()
    }

    /// Stores a completion-time error for the future to pick up.
    pub fn set_err(&mut self, err: IoError)
        ensures
            *final(self) == (OverlappedWakerBase { err: Some(err), ..*old(self) }),
    {
        self.err = Some(err);
    }

    /// Removes and returns the stored completion-time error, if any.
    pub fn take_err(&mut self) -> (r: Option<IoError>)
        ensures
            r == old(self).err,
            *final(self) == (OverlappedWakerBase { err: None, ..*old(self) }),
    {
        self.err.take()
    }
}

/// A control block together with custody of the operation's payload.
pub struct OverlappedWaker<W, B> {
    /// The kernel-visible header and the task-facing slots.
    pub base: OverlappedWakerBase<W>,
    /// The payload under custody; `None` once it has been given back.
    pub buffer: Option<B>,
}

impl<W, B> OverlappedWaker<W, B> {
    /// A fresh control block holding `buffer`.
    pub fn new(buffer: B) -> (r: Self)
        ensures
            r.base.offset == 0,
            r.base.offset_high == 0,
            r.base.waker is None,
            r.base.err is None,
            r.buffer == Some(buffer),
    {
        OverlappedWaker { base: OverlappedWakerBase::new(), buffer: Some(buffer) }
    }

    /// Gives the payload back; it is present on every terminal outcome and
    /// can be taken exactly once.
    pub fn take_buffer(&mut self) -> (r: B)
        requires
            old(self).buffer is Some,
        ensures
            Some(r) == old(self).buffer,
            *final(self) == (OverlappedWaker::<W, B> { buffer: None, base: old(self).base }),
    {
        self.buffer.take().unwrap()
    }
}

} // verus!
