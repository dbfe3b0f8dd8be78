//! Operation descriptors: the per-operation values that hold the submission
//! parameters and the buffer custody, and that shape the kernel's transfer
//! count into each operation's result.
//!
//! The submit primitive itself — the kernel call made with a resource handle
//! and a control-block pointer — runs in the unverified shell; everything
//! the descriptor computes around it is here.

use vstd::prelude::*;

pub mod connect_named_pipe;
pub mod net;
pub mod read_at;
pub mod write_at;

verus! {

/// Splits a positional offset into the low and high halves written into the
/// overlapped header's offset fields before a positional submit.
pub fn split_offset(pos: u64) -> (r: (u32, u32))
    ensures
        r.0 as int == pos as int % 0x1_0000_0000,
        r.1 as int == pos as int / 0x1_0000_0000,
        r.0 as int + r.1 as int * 0x1_0000_0000 == pos as int,
{
    let low = (pos % 0x1_0000_0000) as u32;
    let high = (pos / 0x1_0000_0000) as u32;
    (low, high)
}

} // verus!
