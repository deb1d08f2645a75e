//! Failure indicators surfaced by the driver.

use vstd::prelude::*;

verus! {

/// A driver failure, distinguished by direction, plus the one
/// construction-time failure that is validated eagerly.
#[derive(Clone, Copy, Debug, PartialEq, Eq, Structural)]
pub enum Error {
    /// A transmit-path failure: the write payload cannot be staged
    /// (its length field would leave the 1 to 255 range).
    Transmit,
    /// A receive-path failure: the receive buffer length cannot be
    /// realized by the command queue.
    Receive,
    /// The target bus frequency is out of range for the reference clock.
    InvalidFrequency,
}

} // verus!
