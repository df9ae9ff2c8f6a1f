//! Master control (enable, addressing, flow).

use vstd::prelude::*;

verus! {

/// Master mode enable.
pub const MEN: u16 = 0x0001;

/// Master address length.
pub const MADD_LEN: u16 = 0x0002;

/// Master transmit direction (RX/TX*).
pub const MDIR: u16 = 0x0004;

/// Use fast-mode timing.
pub const FAST: u16 = 0x0008;

/// Issue STOP condition.
pub const STOP: u16 = 0x0010;

/// Repeat START or STOP* at end of transfer.
pub const RSTART: u16 = 0x0020;

/// Bit position of the data byte-count field.
pub const BITP_DCNT: u16 = 0x6;

/// Data byte-count mask (bytes to transfer).
pub const MSK_DCNT: u16 = 0x3FC0;

/// Serial data override.
pub const SDAOVR: u16 = 0x4000;

/// Serial clock override.
pub const SCLOVR: u16 = 0x8000;

} // verus!
