//! Slave status flags.

use vstd::prelude::*;

verus! {

/// Slave transfer direction.
pub const SDIR: u16 = 0x0001;

/// General call indicator.
pub const GCALL: u16 = 0x0002;

} // verus!
