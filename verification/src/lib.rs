//! Core logic of a completion-based asynchronous I/O runtime.
//!
//! The runtime submits operations that own their buffers to a kernel
//! completion port and reconciles the completions with the awaiting tasks.
//! This crate holds the part of that runtime that can be stated and proved:
//! the buffer-ownership protocol, the operation descriptors, the control
//! block, the future state machine, the poller's packet classification, and
//! the encodings (socket addresses, pipe flags) that the submissions consume.
//! The kernel calls themselves live outside, in an unverified shell that
//! drives these state machines.

use vstd::prelude::*;

pub mod buf;
pub mod io_port;
pub mod net;
pub mod op;
pub mod winerr;

verus! {

/// Why an operation failed, by the stage that rejected it.
#[derive(Clone, Copy, Debug, PartialEq, Eq, Structural)]
pub enum IoError {
    /// The kernel rejected the submission itself; carries the OS error code.
    Submission(u32),
    /// The kernel accepted the submission and the asynchronous result is an
    /// error; carries the OS error code.
    Completion(u32),
    /// Creating or attaching to the completion port failed.
    Setup(u32),
    /// A caller-supplied value (an address, a name) was rejected before any
    /// kernel call was made.
    InvalidInput,
}

/// The result of an I/O operation.
pub type IoResult<T> = Result<T, IoError>;

/// The result of an I/O operation together with the buffer it owned.
///
/// The buffer is present on every terminal outcome, success or error.
pub type BufResult<T, B> = (IoResult<T>, B);

} // verus!
