//! Bus speeds of the TWI controller.

use vstd::prelude::*;

verus! {

/// The fastest bus speed the controller is set up for, in Hz.
pub const SPEED_MAX: u32 = 400_000;

/// One more than the duty cycle of [`SPEED_MAX`].
pub const DUTY_MAX: u16 = 13;

/// The largest duty cycle the divider field holds.
pub const DUTY_MIN: u16 = 0xff;

} // verus!
