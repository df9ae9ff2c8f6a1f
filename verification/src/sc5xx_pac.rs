//! Clocking facts of the ADSP-SC598 shared by its peripherals.

use vstd::prelude::*;

verus! {

/// Frequency of SCLK0, the clock the peripherals run from, in Hz.
pub const SCLK0: u32 = 25000000;

} // verus!
