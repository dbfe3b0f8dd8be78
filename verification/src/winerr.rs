//! The OS status codes the completion path distinguishes.
//!
//! These values are fixed by the platform ABI; the classification functions
//! in `op`, `io_port` and `io_port::future` give each its meaning.

use vstd::prelude::*;

verus! {

/// The operation was accepted and will complete asynchronously.
pub const ERROR_IO_PENDING: u32 = 997;

/// The operation is still in progress (status queried too early).
pub const ERROR_IO_INCOMPLETE: u32 = 996;

/// The operation reached the end of the file; mapped to a successful
/// transfer of zero bytes.
pub const ERROR_HANDLE_EOF: u32 = 38;

/// A client is already connected to the pipe; connecting is a success.
pub const ERROR_PIPE_CONNECTED: u32 = 535;

/// No more data; treated as an already-settled submission.
pub const ERROR_NO_DATA: u32 = 232;

/// A zero-timeout dequeue found no completion packet; not an error.
pub const WAIT_TIMEOUT: u32 = 258;

} // verus!
