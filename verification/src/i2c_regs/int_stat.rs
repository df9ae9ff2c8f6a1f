//! Interrupt status flags.

use vstd::prelude::*;

verus! {

/// Slave transfer initiated.
pub const SINIT: u16 = 0x0001;

/// Slave transfer complete.
pub const SCOMP: u16 = 0x0002;

/// Slave transfer error.
pub const SERR: u16 = 0x0004;

/// Slave overflow.
pub const SOVF: u16 = 0x0008;

/// Master transfer complete.
pub const MCOMP: u16 = 0x0010;

/// Master transfer error.
pub const MERR: u16 = 0x0020;

/// Transmit FIFO service.
pub const XMTSERV: u16 = 0x0040;

/// Receive FIFO service.
pub const RCVSERV: u16 = 0x0080;

} // verus!
