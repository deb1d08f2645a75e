//! Driver core for a two-wire serial bus controller.
//!
//! The core turns logical bus transactions (write, read, write-then-read)
//! into exact sequences of hardware operations: encoded command words staged
//! into a fixed-depth command queue, bytes pushed through the FIFO write
//! path, a transmission trigger, busy-waits on per-slot completion flags in
//! slot order, and byte pops through the FIFO read path. An unverified shim
//! replays those sequences onto the memory-mapped registers.

pub mod command;
pub mod driver;
pub mod error;
pub mod instance;
pub mod ops;
pub mod plan;
pub mod timing;

use vstd::prelude::*;

verus! {

} // verus!
