//! Register map and clock arithmetic of the TWI (I2C) controller.

use vstd::prelude::*;

pub mod clk_mode;
pub mod clk_speed;
pub mod fifo_ctl;
pub mod fifo_stat;
pub mod int_stat;
pub mod master_ctl;
pub mod master_stat;
pub mod slave_ctl;
pub mod slave_stat;

verus! {

/// Low byte of a clock-divider word: the low period.
pub open spec fn clk_low_spec(x: u16) -> u16 {
    x & 0x00FF
}

/// High byte of a clock-divider word, built from the low byte of `y`: the
/// high period.
pub open spec fn clk_hi_spec(y: u16) -> u16 {
    (y & 0x00FF) << 8
}

/// The duty-cycle count for a bus speed of `speed` Hz: five million divided
/// by the speed, truncated to 16 bits.
pub open spec fn duty_cycle(speed: u32) -> u16 {
    (5_000_000u32 / speed) as u16
}

/// Keeps the low byte of `x`, the low-period field of the divider.
#[verifier::when_used_as_spec(clk_low_spec)]
pub fn clk_low(x: u16) -> (r: u16)
    ensures
        r == clk_low_spec(x),
{
    x & 0x00FF
}

/// Moves the low byte of `y` into the high byte, the high-period field of
/// the divider.
#[verifier::when_used_as_spec(clk_hi_spec)]
pub fn clk_hi(y: u16) -> (r: u16)
    ensures
        r == clk_hi_spec(y),
{
    (y & 0x00FF) << 8
}

/// Converts a bus speed in Hz into the duty-cycle count of the divider.
pub fn speed_to_duty_cycle(speed: u32) -> (r: u16)
    requires
        speed != 0,
    ensures
        r == duty_cycle(speed),
        r as int == (5_000_000int / speed as int) % 0x10000,
{
    let q: u32 = 5_000_000 / speed;
    assert(q as u16 == q % 0x10000) by (bit_vector);
    q as u16
}

/// A divider word holds two independent fields: composing a low period and
/// a high period with `|` gives back each of them unchanged, and a word
/// that repeats one count in both bytes is the composition of that count
/// with itself.
pub proof fn lemma_clk_fields(x: u16, y: u16)
    ensures
        clk_low(clk_hi(y) | clk_low(x)) == clk_low(x),
        (clk_hi(y) | clk_low(x)) >> 8 == clk_low(y),
        (clk_hi(y) | clk_low(x)) & 0xFF00 == clk_hi(y),
        clk_hi(x) | clk_low(x) == (x << 8) | (x & 0x00FF),
{
    assert((((y & 0x00FF) << 8) | (x & 0x00FF)) & 0x00FF == x & 0x00FF) by (bit_vector);
    assert((((y & 0x00FF) << 8) | (x & 0x00FF)) >> 8 == y & 0x00FF) by (bit_vector);
    assert((((y & 0x00FF) << 8) | (x & 0x00FF)) & 0xFF00 == (y & 0x00FF) << 8) by (bit_vector);
    assert((((x & 0x00FF) << 8) | (x & 0x00FF)) == ((x << 8) | (x & 0x00FF))) by (bit_vector);
}

/// The duty-cycle bounds: the largest count is one more than the count of
/// the fastest speed, and every count fits the 8-bit period fields.
pub proof fn lemma_duty_bounds()
    ensures
        clk_speed::DUTY_MAX == duty_cycle(clk_speed::SPEED_MAX) + 1,
        clk_low(clk_speed::DUTY_MIN) == clk_speed::DUTY_MIN,
{
    assert(5_000_000u32 / 400_000u32 == 12);
    assert(0xffu16 & 0x00FF == 0xff) by (bit_vector);
}

/// Base address of the controller (TWI2).
pub const BASE: usize = 0x3100_1600;

/// Clock divider register.
pub const CLKDIV: usize = BASE + 0x00;

/// Control register.
pub const CONTROL: usize = BASE + 0x04;

/// Slave control register.
pub const SLAVE_CTL: usize = BASE + 0x08;

/// Slave status register.
pub const SLAVE_STAT: usize = BASE + 0x0C;

/// Slave address register.
pub const SLAVE_ADDR: usize = BASE + 0x10;

/// Master control register.
pub const MASTER_CTL: usize = BASE + 0x14;

/// Master status register.
pub const MASTER_STAT: usize = BASE + 0x18;

/// Master address register.
pub const MASTER_ADDR: usize = BASE + 0x1C;

/// Interrupt status register.
pub const INT_STAT: usize = BASE + 0x20;

/// Interrupt mask register.
pub const INT_MASK: usize = BASE + 0x24;

/// FIFO control register.
pub const FIFO_CTL: usize = BASE + 0x28;

/// FIFO status register.
pub const FIFO_STAT: usize = BASE + 0x2C;

/// Transmit data register, one byte.
pub const XMT_DATA8: usize = BASE + 0x80;

/// Transmit data register, two bytes.
pub const XMT_DATA16: usize = BASE + 0x84;

/// Receive data register, one byte.
pub const RCV_DATA8: usize = BASE + 0x88;

/// Receive data register, two bytes.
pub const RCV_DATA16: usize = BASE + 0x8C;

} // verus!
