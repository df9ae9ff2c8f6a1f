//! Slave control (enable, addressing, behaviour).

use vstd::prelude::*;

verus! {

/// Slave enable.
pub const SEN: u16 = 0x0001;

/// Slave address length.
pub const SADD_LEN: u16 = 0x0002;

/// Slave transmit data valid.
pub const STDVAL: u16 = 0x0004;

/// NAK generated at conclusion of transfer.
pub const TSC_NAK: u16 = 0x0008;

/// General call address matching enabled.
pub const GEN: u16 = 0x0010;

} // verus!
