//! Result codes shared with the host interface.
//!
//! Every entry point reports 0 or a value on success and one of these negative
//! codes on failure.

use vstd::prelude::*;

verus! {

/// Success.
pub const OK: i32 = 0;

/// The host passed no callback table, or no output buffer.
pub const ERR_NULL_HAL: i32 = -1;

/// An argument or buffer is outside what the command can carry.
pub const ERR_BUFFER: i32 = -5;

/// Nothing is driving MISO: the status byte read as all zeros or all ones.
pub const ERR_NO_CHIP: i32 = -6;

} // verus!
