//! Early boot of the Allwinner H616: console pin and clock setup, the
//! status LED, and hexadecimal output.

use vstd::prelude::*;

use crate::mmio::MmioOp;

verus! {

/// Base of the clock control unit.
pub const CCU_BASE: usize = 0x0300_1000;

/// Base of the port controller.
pub const GPIO_BASE: usize = 0x0300_B000;

/// Configuration of port C pins 8 to 15.
pub const GPIO_PORTC_CFG1: usize = GPIO_BASE + 0x004C;

/// Data of port C.
pub const GPIO_PORTC_DATA: usize = GPIO_BASE + 0x0058;

/// Configuration of port H pins 0 to 7.
pub const GPIO_PORTH_CFG0: usize = GPIO_BASE + 0x00FC;

/// Data of port H.
pub const GPIO_PORTH_DATA: usize = GPIO_BASE + 0x010C;

/// Pull-up/down of port H.
pub const GPIO_PORTH_PULL: usize = GPIO_BASE + 0x0118;

/// PH6 as output.
pub const PH6_OUT: u32 = 0x0100_0000;

/// PH6 driven high.
pub const PH6_HIGH: u32 = 0x40;

/// PC13 as output.
pub const PC13_OUT: u32 = 0x0010_0000;

/// PC13 driven high.
pub const PC13_HIGH: u32 = 0x2000;

/// APB2 clock configuration.
pub const APB2_CFG_REG: usize = CCU_BASE + 0x0524;

/// UART bus gating and reset.
pub const UART_BGR_REG: usize = CCU_BASE + 0x090C;

/// UART0 reset bit (set: reset deasserted).
pub const UART0_RESET: u32 = 0x0001_0000;

/// UART0 bus clock gating bit (set: clock passes).
pub const UART0_GATING: u32 = 0x1;

/// Reset vector base address register of H6-generation parts.
pub const RVBAR: usize = 0x0901_0040;

/// Reset vector base address register of the other parts.
pub const RVBAR_ALT: usize = 0x0810_0040;

/// Whether the target is of the H6 generation.
pub const ARCH_H6: bool = true;

/// Whether the 32-bit stage prints its program counter.
pub const PRINT_PC: bool = false;

/// Whether the 32-bit stage prints its stack pointer.
pub const PRINT_SP: bool = true;

/// Busy-loop iterations per unit of blink delay.
pub const BLINK_UNIT: usize = 0x10000;

/// The register updates that select APB at 24 MHz and bring UART0 up: the
/// APB2 source bits cleared, PH0 and PH1 switched to the UART function with
/// pull-ups, the UART0 reset deasserted and its bus clock ungated.
pub open spec fn console_setup_ops() -> Seq<MmioOp> {
    seq![
        MmioOp::Update32 { addr: APB2_CFG_REG, clear: 0x0300_0000, set: 0 },
        MmioOp::Update32 {
            addr: GPIO_PORTH_CFG0,
            clear: 0x0000_00FF,
            set: 0x22,
        },
        MmioOp::Update32 {
            addr: GPIO_PORTH_PULL,
            clear: 0x0000_000F,
            set: 0x5,
        },
        MmioOp::Update32 { addr: UART_BGR_REG, clear: UART0_RESET, set: UART0_RESET },
        MmioOp::Update32 { addr: UART_BGR_REG, clear: UART0_GATING, set: UART0_GATING },
    ]
}

/// The same setup with PH6 (the status LED) made an output right after the
/// APB2 selection.
pub open spec fn led_console_setup_ops() -> Seq<MmioOp> {
    seq![console_setup_ops()[0], MmioOp::Write32 { addr: GPIO_PORTH_CFG0, value: PH6_OUT }]
        + console_setup_ops().skip(1)
}

/// One blink of the status LED: on, wait, off, wait.
pub open spec fn blink_ops(delay: usize) -> Seq<MmioOp> {
    seq![
        MmioOp::Write32 { addr: GPIO_PORTH_DATA, value: PH6_HIGH },
        MmioOp::Delay { cycles: (delay * BLINK_UNIT) as usize },
        MmioOp::Write32 { addr: GPIO_PORTH_DATA, value: 0 },
        MmioOp::Delay { cycles: (delay * BLINK_UNIT) as usize },
    ]
}

/// The ASCII character of the hexadecimal digit `x` (below 16): `0` to `9`,
/// then `A` to `F`.
pub open spec fn hex_digit(x: u8) -> u8 {
    if x > 9 {
        (x + 0x37) as u8
    } else {
        (x + 0x30) as u8
    }
}

/// The value of the hexadecimal digit character `c`.
pub open spec fn hex_value(c: u8) -> int {
    if c >= 0x41 {
        c - 0x37
    } else {
        c - 0x30
    }
}

/// The four bits of `n` from bit `s` on.
pub open spec fn nibble(n: u32, s: u32) -> u8 {
    ((n >> s) & 0x0f) as u8
}

/// The eight digits of `i`, most significant first.
pub open spec fn hex_digits(i: u32) -> Seq<u8> {
    Seq::new(8, |k: int| hex_digit(nibble(i, (28 - 4 * k) as u32)))
}

/// The line that shows `i`: `0x`, its eight digits, carriage return, line
/// feed.
pub open spec fn hex_line(i: u32) -> Seq<u8> {
    seq![0x30u8, 0x78u8] + hex_digits(i) + seq![13u8, 10u8]
}

/// The number that the digit characters `digits` spell, most significant
/// first.
pub open spec fn hex_number(digits: Seq<u8>) -> int
    decreases digits.len(),
{
    if digits.len() == 0 {
        0
    } else {
        hex_number(digits.drop_last()) * 16 + hex_value(digits.last())
    }
}

/// The register updates of the 64-bit first stage.
pub fn bt0_main_setup(out: &mut Vec<MmioOp>)
    ensures
        final(out)@ == old(out)@ + console_setup_ops(),
{
    // System init: select APB@24MHz
    out.push(MmioOp::Update32 { addr: APB2_CFG_REG, clear: 0x0300_0000, set: 0 });  // 0b11 << 24
    uart0_setup(out);
    assert(final(out)@ =~= old(out)@ + console_setup_ops());
}

/// The register updates of the 32-bit first stage: as the 64-bit one, with
/// the status LED pin made an output first.
pub fn bt32_main_setup(out: &mut Vec<MmioOp>)
    ensures
        final(out)@ == old(out)@ + led_console_setup_ops(),
{
    // System init: select APB@24MHz
    out.push(MmioOp::Update32 { addr: APB2_CFG_REG, clear: 0x0300_0000, set: 0 });  // 0b11 << 24
    // PH6 (status LED) as output: first sign of life
    out.push(MmioOp::Write32 { addr: GPIO_PORTH_CFG0, value: PH6_OUT });
    uart0_setup(out);
    assert(final(out)@ =~= old(out)@ + led_console_setup_ops());
}

fn uart0_setup(out: &mut Vec<MmioOp>)
    ensures
        final(out)@ == old(out)@ + console_setup_ops().skip(1),
{
    // UART0: TX on port H pin 0, RX on port H pin 1
    // function 0b010 (UART) on PH0 and PH1
    out.push(MmioOp::Update32 { addr: GPIO_PORTH_CFG0, clear: 0x0000_00FF, set: 0x22 });
    // pull-up (0b01) on PH0 and PH1
    out.push(MmioOp::Update32 { addr: GPIO_PORTH_PULL, clear: 0x0000_000F, set: 0x5 });
    // deassert reset
    out.push(MmioOp::Update32 { addr: UART_BGR_REG, clear: UART0_RESET, set: UART0_RESET });
    // gating pass: the UART0 bus clock on
    out.push(MmioOp::Update32 { addr: UART_BGR_REG, clear: UART0_GATING, set: UART0_GATING });
    assert(final(out)@ =~= old(out)@ + console_setup_ops().skip(1));
}

/// Calls `core::hint::spin_loop`, a hint to the processor that the caller
/// is busy-waiting. Nothing is claimed of it: it has no result and changes
/// no state that the library models.
#[verifier::external_body]
fn spin_loop_hint() {
    core::hint::spin_loop()
}

/// Spins for `t` iterations.
pub fn sleep(t: usize) {
    let mut k: usize = 0;
    while k < t
        invariant
            k <= t,
        decreases t - k,
    {
        spin_loop_hint();
        k = k + 1;
    }
}

/// Blinks the status LED once, holding each level for `delay` units.
pub fn blink(delay: usize, out: &mut Vec<MmioOp>)
    requires
        delay * BLINK_UNIT <= usize::MAX,
    ensures
        final(out)@ == old(out)@ + blink_ops(delay),
{
    let cycs = delay * BLINK_UNIT;
    out.push(MmioOp::Write32 { addr: GPIO_PORTH_DATA, value: PH6_HIGH });
    out.push(MmioOp::Delay { cycles: cycs });
    out.push(MmioOp::Write32 { addr: GPIO_PORTH_DATA, value: 0 });
    out.push(MmioOp::Delay { cycles: cycs });
    assert(final(out)@ =~= old(out)@ + blink_ops(delay));
}

/// The exception level in the program status word `cpsr`: its mode field.
pub fn get_el(cpsr: u32) -> (r: u32)
    ensures
        r == cpsr & 0x1F,
{
    cpsr & 0x1F
}

/// The reset vector base address register of the target.
pub fn rv_bar() -> (r: usize)
    ensures
        r == if ARCH_H6 {
            RVBAR
        } else {
            RVBAR_ALT
        },
{
    if ARCH_H6 {
        RVBAR
    } else {
        RVBAR_ALT
    }
}

/// The address the 64-bit stage starts at: the instruction after the magic
/// word at `jump_code`.
pub fn aarch64_entry(jump_code: usize) -> (r: usize)
    requires
        jump_code + 4 <= usize::MAX,
    ensures
        r == jump_code + 4,
{
    jump_code + 4
}

/// The ASCII hexadecimal digit of the four bits of `n` from bit `s` on.
pub fn shift_and_hex(n: u32, s: u8) -> (r: u8)
    requires
        s < 32,
    ensures
        r == hex_digit(nibble(n, s as u32)),
{
    // drop to a single nibble (4 bits), i.e., what a hex digit can hold
    let x = (n >> s) as u8 & 0x0f;
    assert(x == nibble(n, s as u32) && x <= 15) by (bit_vector)
        requires
            x == (n >> s) as u8 & 0x0f,
            s < 32,
    ;
    // digits are in the range 0x30..0x39
    // letters start at 0x41, i.e., off by 7 from 0x3a
    if x > 9 {
        x + 0x37
    } else {
        x + 0x30
    }
}

/// Appends the line that shows `i` in hexadecimal: `0x`, eight digits,
/// carriage return and line feed.
pub fn print_hex(out: &mut Vec<u8>, i: u32)
    ensures
        final(out)@ == old(out)@ + hex_line(i),
{
    out.push(0x30u8);
    out.push(0x78u8);
    // nibble by nibble... keep it simple
    out.push(shift_and_hex(i, 28));
    out.push(shift_and_hex(i, 24));
    out.push(shift_and_hex(i, 20));
    out.push(shift_and_hex(i, 16));
    out.push(shift_and_hex(i, 12));
    out.push(shift_and_hex(i, 8));
    out.push(shift_and_hex(i, 4));
    out.push(shift_and_hex(i, 0));
    out.push(13u8);
    out.push(10u8);
    assert(final(out)@ =~= old(out)@ + hex_line(i));
}

/// The digit character of every value below 16 is `0` to `9` or `A` to `F`,
/// and reading it back gives the value.
pub proof fn lemma_hex_digit(x: u8)
    requires
        x < 16,
    ensures
        (0x30 <= hex_digit(x) <= 0x39) || (0x41 <= hex_digit(x) <= 0x46),
        hex_value(hex_digit(x)) == x,
{
}

/// Digit `k` of `i` (most significant first) is a digit character and
/// reads back as the `k`-th group of four bits of `i` from the top.
proof fn lemma_digit_of(i: u32, k: int)
    requires
        0 <= k < 8,
    ensures
        (0x30 <= hex_digits(i)[k] <= 0x39) || (0x41 <= hex_digits(i)[k] <= 0x46),
        hex_value(hex_digits(i)[k]) == (i >> ((28 - 4 * k) as u32)) & 0xf,
{
    let s = (28 - 4 * k) as u32;
    let x = nibble(i, s);
    assert(x < 16 && x == (i >> s) & 0xf) by (bit_vector)
        requires
            x == ((i >> s) & 0x0f) as u8,
    ;
    lemma_hex_digit(x);
}

/// The line of [`print_hex`] is twelve bytes: `0x`, then eight digit
/// characters (each `0` to `9` or `A` to `F`), then carriage return and line
/// feed; and the digits spell `i` back.
pub proof fn lemma_hex_line(i: u32)
    ensures
        hex_line(i).len() == 12,
        hex_line(i).subrange(0, 2) == seq![0x30u8, 0x78u8],
        hex_line(i).subrange(2, 10) == hex_digits(i),
        hex_line(i).subrange(10, 12) == seq![13u8, 10u8],
        forall|k: int|
            0 <= k < 8 ==> (0x30 <= #[trigger] hex_digits(i)[k] <= 0x39) || (0x41
                <= hex_digits(i)[k] <= 0x46),
        hex_number(hex_digits(i)) == i,
{
    let d = hex_digits(i);
    assert(hex_line(i).subrange(0, 2) =~= seq![0x30u8, 0x78u8]);
    assert(hex_line(i).subrange(2, 10) =~= d);
    assert(hex_line(i).subrange(10, 12) =~= seq![13u8, 10u8]);
    assert forall|k: int| 0 <= k < 8 implies (0x30 <= #[trigger] d[k] <= 0x39) || (0x41 <= d[k]
        <= 0x46) by {
        lemma_digit_of(i, k);
    }
    let v0 = (i >> 28u32) & 0xf;
    let v1 = (i >> 24u32) & 0xf;
    let v2 = (i >> 20u32) & 0xf;
    let v3 = (i >> 16u32) & 0xf;
    let v4 = (i >> 12u32) & 0xf;
    let v5 = (i >> 8u32) & 0xf;
    let v6 = (i >> 4u32) & 0xf;
    let v7 = (i >> 0u32) & 0xf;
    assert(i == v0 * 0x1000_0000 + v1 * 0x100_0000 + v2 * 0x10_0000 + v3 * 0x1_0000 + v4 * 0x1000
        + v5 * 0x100 + v6 * 0x10 + v7) by (bit_vector)
        requires
            v0 == (i >> 28u32) & 0xf,
            v1 == (i >> 24u32) & 0xf,
            v2 == (i >> 20u32) & 0xf,
            v3 == (i >> 16u32) & 0xf,
            v4 == (i >> 12u32) & 0xf,
            v5 == (i >> 8u32) & 0xf,
            v6 == (i >> 4u32) & 0xf,
            v7 == (i >> 0u32) & 0xf,
    ;
    lemma_digit_of(i, 0);
    lemma_digit_of(i, 1);
    lemma_digit_of(i, 2);
    lemma_digit_of(i, 3);
    lemma_digit_of(i, 4);
    lemma_digit_of(i, 5);
    lemma_digit_of(i, 6);
    lemma_digit_of(i, 7);
    assert forall|m: int| 1 <= m <= 8 implies #[trigger] hex_number(d.take(m)) == hex_number(
        d.take(m - 1),
    ) * 16 + hex_value(d[m - 1]) by {
        assert(d.take(m).drop_last() =~= d.take(m - 1));
    }
    assert(hex_number(d.take(0)) == 0);
    assert(hex_number(d.take(1)) == v0);
    assert(hex_number(d.take(2)) == v0 * 16 + v1);
    assert(hex_number(d.take(3)) == (v0 * 16 + v1) * 16 + v2);
    assert(hex_number(d.take(4)) == ((v0 * 16 + v1) * 16 + v2) * 16 + v3);
    assert(hex_number(d.take(5)) == (((v0 * 16 + v1) * 16 + v2) * 16 + v3) * 16 + v4);
    assert(hex_number(d.take(6)) == ((((v0 * 16 + v1) * 16 + v2) * 16 + v3) * 16 + v4) * 16 + v5);
    assert(hex_number(d.take(7)) == (((((v0 * 16 + v1) * 16 + v2) * 16 + v3) * 16 + v4) * 16 + v5)
        * 16 + v6);
    assert(hex_number(d.take(8)) == ((((((v0 * 16 + v1) * 16 + v2) * 16 + v3) * 16 + v4) * 16 + v5)
        * 16 + v6) * 16 + v7);
    assert(d.take(8) =~= d);
}

/// One blink of the status LED: PH6 high (0x40 to port H data, 0x0300B10C),
/// a pause of `delay` times 0x10000 cycles, PH6 low, the same pause again.
/// The pause grows with the delay: blinks with different delays pause for
/// different times.
pub proof fn lemma_blink_pauses(delay: usize, other: usize)
    requires
        delay * 0x10000 <= usize::MAX,
        other * 0x10000 <= usize::MAX,
    ensures
        blink_ops(delay) == seq![
            MmioOp::Write32 { addr: 0x0300B10C, value: 0x40 },
            MmioOp::Delay { cycles: (delay * 0x10000) as usize },
            MmioOp::Write32 { addr: 0x0300B10C, value: 0 },
            MmioOp::Delay { cycles: (delay * 0x10000) as usize },
        ],
        delay != other ==> blink_ops(delay)[1] != blink_ops(other)[1],
        delay < other ==> blink_ops(delay)[1]->cycles < blink_ops(other)[1]->cycles,
{
    assert(blink_ops(delay) =~= seq![
        MmioOp::Write32 { addr: 0x0300B10C, value: 0x40 },
        MmioOp::Delay { cycles: (delay * 0x10000) as usize },
        MmioOp::Write32 { addr: 0x0300B10C, value: 0 },
        MmioOp::Delay { cycles: (delay * 0x10000) as usize },
    ]);
}

/// The console setup of the 64-bit stage, in order: the two APB2 source
/// bits (24 and 25) of 0x03001524 cleared; PH0 and PH1 switched to function
/// 2 (UART) in 0x0300B0FC, their other pins kept; pull-ups on PH0 and PH1
/// in 0x0300B118; then in 0x0300190C the UART0 reset bit (16) set and the
/// UART0 gating bit (0) set. Every update keeps the bits it does not name.
/// The 32-bit stage does the same with PH6 made an output (0x01000000 to
/// 0x0300B0FC) right after the APB2 update.
pub proof fn lemma_console_setup()
    ensures
        console_setup_ops() == seq![
            MmioOp::Update32 { addr: 0x03001524, clear: 0x0300_0000, set: 0 },
            MmioOp::Update32 { addr: 0x0300B0FC, clear: 0xFF, set: 0x22 },
            MmioOp::Update32 { addr: 0x0300B118, clear: 0xF, set: 0x5 },
            MmioOp::Update32 { addr: 0x0300190C, clear: 0x0001_0000, set: 0x0001_0000 },
            MmioOp::Update32 { addr: 0x0300190C, clear: 0x1, set: 0x1 },
        ],
        led_console_setup_ops() == seq![
            MmioOp::Update32 { addr: 0x03001524, clear: 0x0300_0000, set: 0 },
            MmioOp::Write32 { addr: 0x0300B0FC, value: 0x0100_0000 },
            MmioOp::Update32 { addr: 0x0300B0FC, clear: 0xFF, set: 0x22 },
            MmioOp::Update32 { addr: 0x0300B118, clear: 0xF, set: 0x5 },
            MmioOp::Update32 { addr: 0x0300190C, clear: 0x0001_0000, set: 0x0001_0000 },
            MmioOp::Update32 { addr: 0x0300190C, clear: 0x1, set: 0x1 },
        ],
{
    assert(led_console_setup_ops() =~= seq![
        MmioOp::Update32 { addr: 0x03001524, clear: 0x0300_0000, set: 0 },
        MmioOp::Write32 { addr: 0x0300B0FC, value: 0x0100_0000 },
        MmioOp::Update32 { addr: 0x0300B0FC, clear: 0xFF, set: 0x22 },
        MmioOp::Update32 { addr: 0x0300B118, clear: 0xF, set: 0x5 },
        MmioOp::Update32 { addr: 0x0300190C, clear: 0x0001_0000, set: 0x0001_0000 },
        MmioOp::Update32 { addr: 0x0300190C, clear: 0x1, set: 0x1 },
    ]);
}

} // verus!
