//! The descriptor of a named-pipe server waiting for a client.

use vstd::prelude::*;

use crate::BufResult;
use crate::IoError;

verus! {

/// Waits for a client to connect to a named-pipe instance. The operation
/// carries no buffer; its success value is unit.
pub struct ConnectNamedPipe {}

impl ConnectNamedPipe {
    /// A fresh connect-pipe descriptor.
    pub fn new() -> (r: Self) {
        ConnectNamedPipe {  }
    }

    /// Shapes a successful completion: the transfer count of a pipe
    /// connection means nothing and is discarded.
    pub fn result(&mut self, transferred: usize) -> (r: BufResult<(), ()>)
        ensures
            r == (Ok::<(), IoError>(()), ()),
    {
        (Ok(()), ())
    }

    /// Shapes a failure.
    pub fn error(&mut self, err: IoError) -> (r: BufResult<(), ()>)
        ensures
            r == (Err::<(), IoError>(err), ()),
    {
        (Err(err), ())
    }
}

} // verus!
