//! Global clock-and-mode bits of the control register.

use vstd::prelude::*;

verus! {

/// SCLKs per internal time reference (10 MHz).
pub const PRESCALE: u16 = 0x007F;

/// TWI enable.
pub const TWI_ENA: u16 = 0x0080;

/// SCCB compatibility enable.
pub const SCCB: u16 = 0x0200;

} // verus!
