//! FIFO control bits.

use vstd::prelude::*;

verus! {

/// Transmit buffer flush.
pub const XMTFLUSH: u16 = 0x0001;

/// Receive buffer flush.
pub const RCVFLUSH: u16 = 0x0002;

/// Transmit buffer interrupt length.
pub const XMTINTLEN: u16 = 0x0004;

/// Receive buffer interrupt length.
pub const RCVINTLEN: u16 = 0x0008;

} // verus!
