//! Register-level logic of the ADSP-SC598 and Allwinner H616 boot stages.
//!
//! Every routine here computes what the boot code does to the hardware: the
//! register writes it issues (as [`mmio::MmioOp`] values, in order), the
//! decisions it takes on the values it reads, and the bytes it sends on a
//! serial line. Carrying the operations out on real memory-mapped registers
//! is left to the caller.
#![allow(non_camel_case_types)]

pub mod h616;
pub mod i2c;
pub mod i2c_regs;
pub mod mmio;
pub mod sc5xx_init;
pub mod sc5xx_pac;
pub mod uart;

