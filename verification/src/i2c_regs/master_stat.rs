//! Master status flags.

use vstd::prelude::*;

verus! {

/// Master transfer in progress.
pub const MPROG: u16 = 0x0001;

/// Lost arbitration (transfer aborted).
pub const LOSTARB: u16 = 0x0002;

/// Address not acknowledged.
pub const ANAK: u16 = 0x0004;

/// Data not acknowledged.
pub const DNAK: u16 = 0x0008;

/// Buffer read error.
pub const BUFRDERR: u16 = 0x0010;

/// Buffer write error.
pub const BUFWRERR: u16 = 0x0020;

/// Serial data sense.
pub const SDASEN: u16 = 0x0040;

/// Serial clock sense.
pub const SCLSEN: u16 = 0x0080;

/// Bus busy indicator.
pub const BUSBUSY: u16 = 0x0100;

} // verus!
