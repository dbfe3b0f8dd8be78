//! The completion port's poller, on the runtime's side of the kernel.
//!
//! Each poll dequeues at most one completion packet. A failed dequeue is
//! classified first: no packet ready and end-of-file packets are normal,
//! anything else is a completion-time error that travels with the packet.
//! For a dequeued packet the poller reclaims the kernel's share of the
//! control block, stores the error, takes the waker and signals it.

use vstd::prelude::*;

pub mod future;
pub mod waker;

use crate::IoError;
use crate::io_port::waker::OverlappedWaker;
use crate::winerr::ERROR_HANDLE_EOF;
use crate::winerr::WAIT_TIMEOUT;

verus! {

/// How a dequeue's failure code travels with the packet: a timeout (no
/// packet ready) and end of file carry no error; any other code is stored
/// on the control block as a completion-time error.
pub open spec fn spec_classify_dequeue(succeeded: bool, last_error: u32) -> Option<IoError> {
    if succeeded || last_error == WAIT_TIMEOUT || last_error == ERROR_HANDLE_EOF {
        None
    } else {
        Some(IoError::Completion(last_error))
    }
}

/// Classifies the outcome of one completion-port dequeue.
pub fn classify_dequeue(succeeded: bool, last_error: u32) -> (r: Option<IoError>)
    ensures
        r == spec_classify_dequeue(succeeded, last_error),
{
    if succeeded || last_error == WAIT_TIMEOUT || last_error == ERROR_HANDLE_EOF {
        None
    } else {
        Some(IoError::Completion(last_error))
    }
}

/// What the poller does to the control block of a dequeued packet: store
/// the packet's error, if it carries one, and take the waker out so the
/// caller can signal it. The payload under custody is untouched, and the
/// waker slot is left empty, so a second delivery would wake nothing.
pub fn deliver_packet<W, B>(cb: &mut OverlappedWaker<W, B>, err: Option<IoError>) -> (w: Option<
    W,
>)
    ensures
        w == old(cb).base.waker,
        final(cb).base.waker is None,
        final(cb).base.err == if err is Some {
            err
        } else {
            old(cb).base.err
        },
        final(cb).base.offset == old(cb).base.offset,
        final(cb).base.offset_high == old(cb).base.offset_high,
        final(cb).buffer == old(cb).buffer,
{
    if let Some(e) = err {
        cb.base.set_err(e);
    }
    cb.base.take_waker()
}

/// The two holders of a control block: the awaiting future, and the kernel
/// until it posts (and the poller consumes) the completion packet.
pub struct CbOwnership {
    /// Whether the future still holds its reference.
    pub held_by_future: bool,
    /// Whether the kernel still owes the completion that carries its
    /// reference back.
    pub held_by_kernel: bool,
}

impl CbOwnership {
    /// How many holders keep the block alive.
    pub open spec fn refs(&self) -> int {
        (if self.held_by_future {
            1int
        } else {
            0int
        }) + (if self.held_by_kernel {
            1int
        } else {
            0int
        })
    }

    /// At submission the block has exactly two holders: the future, and
    /// the kernel through the pointer written into the submission.
    pub fn on_submit() -> (r: Self)
        ensures
            r.held_by_future,
            r.held_by_kernel,
            r.refs() == 2,
    {
        CbOwnership { held_by_future: true, held_by_kernel: true }
    }

    /// The future resolves or is dropped: its reference is released. The
    /// kernel's share is untouched, so an operation the kernel still owes
    /// a completion for keeps the block alive.
    pub fn release_future(&mut self)
        ensures
            !final(self).held_by_future,
            final(self).held_by_kernel == old(self).held_by_kernel,
            final(self).refs() == old(self).refs() - if old(self).held_by_future {
                1int
            } else {
                0int
            },
    {
        self.held_by_future = false;
    }

    /// The poller dequeues the block's completion packet: the kernel's
    /// reference is reclaimed and dropped.
    pub fn on_dequeue(&mut self)
        ensures
            !final(self).held_by_kernel,
            final(self).held_by_future == old(self).held_by_future,
            final(self).refs() == old(self).refs() - if old(self).held_by_kernel {
                1int
            } else {
                0int
            },
    {
        self.held_by_kernel = false;
    }
}

/// The reclamation law: an operation abandoned while pending is still
/// cleaned up. Dropping the future releases its reference and leaves the
/// block to the kernel; when the poller dequeues the completion the kernel
/// later posts, no holder is left and the block is freed — nothing leaks.
/// Because the drop also emptied the waker slot, that late delivery wakes
/// no task: the completion of an abandoned operation reaches no other
/// future.
pub proof fn lemma_abandoned_op_reclaimed(
    at_submit: CbOwnership,
    after_drop: CbOwnership,
    after_dequeue: CbOwnership,
)
    requires
        at_submit.held_by_future,
        at_submit.held_by_kernel,
        after_drop == (CbOwnership { held_by_future: false, ..at_submit }),
        after_dequeue == (CbOwnership { held_by_kernel: false, ..after_drop }),
    ensures
        after_drop.refs() == 1,
        after_dequeue.refs() == 0,
{
}

} // verus!
