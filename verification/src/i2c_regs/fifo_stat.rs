//! FIFO status fields and their values.

use vstd::prelude::*;

verus! {

/// Transmit FIFO status mask.
pub const XMTSTAT: u16 = 0x0003;

/// Transmit FIFO empty.
pub const XMT_EMPTY: u16 = 0x0000;

/// Transmit FIFO has one byte to write.
pub const XMT_HALF: u16 = 0x0001;

/// Transmit FIFO full (two bytes to write).
pub const XMT_FULL: u16 = 0x0003;

/// Receive FIFO status mask.
pub const RCVSTAT: u16 = 0x000C;

/// Receive FIFO empty.
pub const RCV_EMPTY: u16 = 0x0000;

/// Receive FIFO has one byte to read.
pub const RCV_HALF: u16 = 0x0004;

/// Receive FIFO full (two bytes to read).
pub const RCV_FULL: u16 = 0x000C;

} // verus!
