//! The state machine of one operation future.
//!
//! A future drives a single submission through its states: the submit
//! primitive runs once and its immediate outcome is classified; a pending
//! operation is then resolved by overlapped-status answers, and every
//! operation ends in exactly one terminal outcome. The kernel calls that
//! produce the classified values happen outside; this machine decides what
//! each answer means and where to go next.

use vstd::prelude::*;

use crate::IoError;
use crate::winerr::ERROR_HANDLE_EOF;
use crate::winerr::ERROR_IO_INCOMPLETE;
use crate::winerr::ERROR_IO_PENDING;
use crate::winerr::ERROR_NO_DATA;
use crate::winerr::ERROR_PIPE_CONNECTED;

verus! {

/// The immediate outcome of the submit primitive, as classified from the
/// call's return value and the thread's last error code.
#[derive(Clone, Copy, Debug, PartialEq, Eq, Structural)]
pub enum SubmitStatus {
    /// The kernel queued the operation and will post a completion packet.
    Pending,
    /// The operation is already settled; the first status query resolves it.
    Ready,
    /// The kernel rejected the submission with this error code.
    Failed(u32),
}

/// Whether a submit call's result means queued, settled, or rejected.
///
/// A nonzero return settles the call. A zero return defers to the last
/// error code: `ERROR_IO_PENDING` means queued; a benign code (no error,
/// status queried too early, end of file, pipe already connected, no data)
/// means settled; anything else is a rejection carrying that code.
pub open spec fn spec_classify_submit(succeeded: bool, last_error: u32) -> SubmitStatus {
    if succeeded {
        SubmitStatus::Ready
    } else if last_error == ERROR_IO_PENDING {
        SubmitStatus::Pending
    } else if last_error == 0 || last_error == ERROR_IO_INCOMPLETE || last_error
        == ERROR_HANDLE_EOF || last_error == ERROR_PIPE_CONNECTED || last_error
        == ERROR_NO_DATA {
        SubmitStatus::Ready
    } else {
        SubmitStatus::Failed(last_error)
    }
}

/// Classifies what the submit primitive just reported.
pub fn classify_submit(succeeded: bool, last_error: u32) -> (r: SubmitStatus)
    ensures
        r == spec_classify_submit(succeeded, last_error),
{
    if succeeded {
        SubmitStatus::Ready
    } else if last_error == ERROR_IO_PENDING {
        SubmitStatus::Pending
    } else if last_error == 0 || last_error == ERROR_IO_INCOMPLETE || last_error
        == ERROR_HANDLE_EOF || last_error == ERROR_PIPE_CONNECTED || last_error
        == ERROR_NO_DATA {
        SubmitStatus::Ready
    } else {
        SubmitStatus::Failed(last_error)
    }
}

/// What one poll of the future concludes.
#[derive(Clone, Copy, Debug, PartialEq, Eq, Structural)]
pub enum PollOutcome {
    /// The operation is still in flight; the waker stays registered.
    StillPending,
    /// The operation succeeded with this transfer count.
    Success(u32),
    /// The operation failed with this error.
    Failure(IoError),
}

/// How an overlapped-status answer resolves a submitted operation.
///
/// For an operation the kernel queued (`pending`), a failed status query
/// means: still in progress if the code is `ERROR_IO_INCOMPLETE`; success
/// with zero bytes at end of file; otherwise a completion error with that
/// code. In every other case the operation is settled: a completion-time
/// error stored by the poller wins, else the transfer count stands.
pub open spec fn spec_resolve_status(
    pending: bool,
    succeeded: bool,
    last_error: u32,
    transferred: u32,
    stored_err: Option<IoError>,
) -> PollOutcome {
    if pending && !succeeded {
        if last_error == ERROR_IO_INCOMPLETE {
            PollOutcome::StillPending
        } else if last_error == ERROR_HANDLE_EOF {
            PollOutcome::Success(0)
        } else {
            PollOutcome::Failure(IoError::Completion(last_error))
        }
    } else {
        match stored_err {
            Some(e) => PollOutcome::Failure(e),
            None => PollOutcome::Success(transferred),
        }
    }
}

/// The state of one operation future.
#[derive(Clone, Copy, Debug, PartialEq, Eq, Structural)]
pub enum OpState {
    /// Submitted; `pending` records whether the kernel queued it.
    Submitted { pending: bool },
    /// The submission itself was rejected; the next poll reports it.
    FailedSubmit { code: u32 },
    /// A terminal outcome has been returned (or the future was dropped).
    Finished,
}

/// The future driving a single submission.
pub struct OpFuture {
    /// Where the operation stands.
    pub state: OpState,
}

impl OpFuture {
    /// Creates the future from the classified outcome of the one submit
    /// call made for this operation.
    pub fn new(submit: SubmitStatus) -> (r: Self)
        ensures
            r.state == match submit {
                SubmitStatus::Pending => OpState::Submitted { pending: true },
                SubmitStatus::Ready => OpState::Submitted { pending: false },
                SubmitStatus::Failed(code) => OpState::FailedSubmit { code },
            },
    {
        match submit {
            SubmitStatus::Pending => OpFuture { state: OpState::Submitted { pending: true } },
            SubmitStatus::Ready => OpFuture { state: OpState::Submitted { pending: false } },
            SubmitStatus::Failed(code) => OpFuture { state: OpState::FailedSubmit { code } },
        }
    }

    /// Reports a rejected submission: the terminal outcome is a submission
    /// error with the rejection code, and the future is finished.
    pub fn resolve_failed(&mut self) -> (r: PollOutcome)
        requires
            old(self).state matches OpState::FailedSubmit { .. },
        ensures
            final(self).state == OpState::Finished,
            r == match old(self).state {
                OpState::FailedSubmit { code } => PollOutcome::Failure(IoError::Submission(code)),
                _ => r,
            },
    {
        let code = match self.state {
            OpState::FailedSubmit { code } => code,
            _ => 0,
        };
        self.state = OpState::Finished;
        PollOutcome::Failure(IoError::Submission(code))
    }

    /// Takes one overlapped-status answer and either stays pending or
    /// finishes with the resolved outcome.
    pub fn poll_step(
        &mut self,
        succeeded: bool,
        last_error: u32,
        transferred: u32,
        stored_err: Option<IoError>,
    ) -> (r: PollOutcome)
        requires
            old(self).state matches OpState::Submitted { .. },
        ensures
            r == match old(self).state {
                OpState::Submitted { pending } => spec_resolve_status(
                    pending,
                    succeeded,
                    last_error,
                    transferred,
                    stored_err,
                ),
                _ => r,
            },
            final(self).state == if r is StillPending {
                old(self).state
            } else {
                OpState::Finished
            },
    {
        let pending = match self.state {
            OpState::Submitted { pending } => pending,
            _ => false,
        };
        if pending && !succeeded {
            if last_error == ERROR_IO_INCOMPLETE {
                PollOutcome::StillPending
            } else if last_error == ERROR_HANDLE_EOF {
                self.state = OpState::Finished;
                PollOutcome::Success(0)
            } else {
                self.state = OpState::Finished;
                PollOutcome::Failure(IoError::Completion(last_error))
            }
        } else {
            self.state = OpState::Finished;
            match stored_err {
                Some(e) => PollOutcome::Failure(e),
                None => PollOutcome::Success(transferred),
            }
        }
    }

    /// Decides what dropping the future does: a cancel is issued for the
    /// operation exactly when the kernel still owes a completion.
    pub fn on_drop(&mut self) -> (cancel: bool)
        ensures
            final(self).state == OpState::Finished,
            cancel == (old(self).state == OpState::Submitted { pending: true }),
    {
        let cancel = match self.state {
            OpState::Submitted { pending } => pending,
            _ => false,
        };
        self.state = OpState::Finished;
        cancel
    }
}

/// The single-resolution law: a submitted operation's poll either leaves it
/// in flight or settles it, and it stays in flight only for a failed status
/// query on a queued operation that reports "still in progress". Combined
/// with the state machine (`poll_step` finishes the future on anything but
/// `StillPending`, and a finished future takes no further step), every
/// operation resolves to exactly one terminal outcome.
pub proof fn lemma_single_resolution(
    pending: bool,
    succeeded: bool,
    last_error: u32,
    transferred: u32,
    stored_err: Option<IoError>,
)
    ensures
        ({
            let r = spec_resolve_status(pending, succeeded, last_error, transferred, stored_err);
            &&& (r is StillPending <==> (pending && !succeeded && last_error
                == ERROR_IO_INCOMPLETE))
            &&& (r is StillPending || r is Success || r is Failure)
        }),
{
}

/// End-of-file law: a queued operation whose status query reports end of
/// file resolves to a successful transfer of zero bytes.
pub proof fn lemma_eof_is_empty_success(transferred: u32, stored_err: Option<IoError>)
    ensures
        spec_resolve_status(true, false, ERROR_HANDLE_EOF, transferred, stored_err)
            == PollOutcome::Success(0),
{
}

} // verus!
