//! Board bring-up of the ADSP-SC598: opening the peripherals to the core
//! and driving the status LEDs.

use vstd::prelude::*;

use crate::mmio::MmioOp;

verus! {

/// Number of registers of a system protection unit that bring-up clears.
pub const SPU_REGISTERS: usize = 214;

/// System protection unit 0.
pub const SPU0: usize = 0x3108BA00;

/// Write-protect registers of system protection unit 0.
pub const SPU0_WP: usize = 0x3108B400;

/// Value that opens a system memory protection unit.
pub const SMPU_OPEN: u32 = 0x500;

/// First LED port register (LEDs 7, 9 and 10).
pub const LED_PORT1: usize = 0x3100411C;

/// Second LED port register (LEDs 7, 9 and 10).
pub const LED_PORT2: usize = 0x3100410C;

/// The LED bits of both port registers.
pub const LED_MASK: u32 = 0xE;

/// Base addresses of the system memory protection units SMPU0, SMPU2 to
/// SMPU6, SMPU9, SMPU11 and SMPU12.
pub open spec fn smpu_bases() -> Seq<usize> {
    seq![
        0x31007800usize,
        0x31083800usize,
        0x31084800usize,
        0x31085800usize,
        0x31086800usize,
        0x31087800usize,
        0x310A0800usize,
        0x310A1800usize,
        0x31012800usize,
    ]
}

/// Zero written to each of the [`SPU_REGISTERS`] words from `base` on.
pub open spec fn clear_writes(base: usize) -> Seq<MmioOp> {
    Seq::new(
        SPU_REGISTERS as nat,
        |i: int| MmioOp::Write32 { addr: (base + 4 * i) as usize, value: 0 },
    )
}

/// [`SMPU_OPEN`] written to each protection unit, in order.
pub open spec fn smpu_writes() -> Seq<MmioOp> {
    smpu_bases().map_values(|a: usize| MmioOp::Write32 { addr: a, value: SMPU_OPEN })
}

/// Everything that opens the peripherals: the protection unit cleared, its
/// write protection cleared, and the memory protection units opened.
pub open spec fn peripheral_access_writes() -> Seq<MmioOp> {
    clear_writes(SPU0) + clear_writes(SPU0_WP) + smpu_writes()
}

/// The writes that light the LEDs.
pub open spec fn leds_on_writes() -> Seq<MmioOp> {
    seq![
        MmioOp::Write32 { addr: LED_PORT1, value: LED_MASK },
        MmioOp::Write32 { addr: LED_PORT2, value: LED_MASK },
    ]
}

/// The writes that turn the LEDs off, when the port registers held
/// `config1` and `config2`: the LED bits cleared, every other bit kept.
pub open spec fn leds_off_writes(config1: u32, config2: u32) -> Seq<MmioOp> {
    seq![
        MmioOp::Write32 { addr: LED_PORT1, value: config1 & !LED_MASK },
        MmioOp::Write32 { addr: LED_PORT2, value: config2 & !LED_MASK },
    ]
}

fn clear_registers(base: usize, out: &mut Vec<MmioOp>)
    requires
        base + 4 * SPU_REGISTERS <= usize::MAX,
    ensures
        final(out)@ == old(out)@ + clear_writes(base),
{
    let mut i: usize = 0;
    while i < SPU_REGISTERS
        invariant
            i <= SPU_REGISTERS,
            base + 4 * SPU_REGISTERS <= usize::MAX,
            out@ == old(out)@ + clear_writes(base).take(i as int),
        decreases SPU_REGISTERS - i,
    {
        out.push(MmioOp::Write32 { addr: base + i * 4, value: 0 });
        i = i + 1;
        assert(clear_writes(base).take(i as int) =~= clear_writes(base).take(i - 1 as int).push(
            MmioOp::Write32 { addr: (base + 4 * (i - 1)) as usize, value: 0 },
        ));
    }
    assert(clear_writes(base).take(SPU_REGISTERS as int) =~= clear_writes(base));
}

/// Clears the registers of system protection unit 0.
pub fn disable_spu(out: &mut Vec<MmioOp>)
    ensures
        final(out)@ == old(out)@ + clear_writes(SPU0),
{
    clear_registers(SPU0, out);
}

/// Clears the write-protect registers of system protection unit 0.
pub fn disable_spu_wp(out: &mut Vec<MmioOp>)
    ensures
        final(out)@ == old(out)@ + clear_writes(SPU0_WP),
{
    clear_registers(SPU0_WP, out);
}

/// Opens every system memory protection unit.
pub fn set_smpus(out: &mut Vec<MmioOp>)
    ensures
        final(out)@ == old(out)@ + smpu_writes(),
{
    let smpus: Vec<usize> = vec![
        0x31007800,  // SMPU0
        0x31083800,  // SMPU2
        0x31084800,  // SMPU3
        0x31085800,  // SMPU4
        0x31086800,  // SMPU5
        0x31087800,  // SMPU6
        0x310A0800,  // SMPU9
        0x310A1800,  // SMPU11
        0x31012800,  // SMPU12
    ];
    assert(smpus@ =~= smpu_bases());
    let mut i: usize = 0;
    while i < smpus.len()
        invariant
            i <= smpus.len(),
            smpus@ == smpu_bases(),
            out@ == old(out)@ + smpu_writes().take(i as int),
        decreases smpus.len() - i,
    {
        out.push(MmioOp::Write32 { addr: smpus[i], value: SMPU_OPEN });
        i = i + 1;
        assert(smpu_writes().take(i as int) =~= smpu_writes().take(i - 1 as int).push(
            MmioOp::Write32 { addr: smpus@[i - 1], value: SMPU_OPEN },
        ));
    }
    assert(smpu_writes().take(i as int) =~= smpu_writes());
}

/// Configures the protection units so that the core may reach the
/// peripherals.
pub fn init_sc59x_peripheral_access(out: &mut Vec<MmioOp>)
    ensures
        final(out)@ == old(out)@ + peripheral_access_writes(),
{
    disable_spu(out);
    disable_spu_wp(out);
    set_smpus(out);
    assert(final(out)@ =~= old(out)@ + peripheral_access_writes());
}

/// Turns LEDs 7, 9 and 10 off; `config1` and `config2` are what the two LED
/// port registers held. Only the LED bits change.
pub fn disable_board_leds(config1: u32, config2: u32, out: &mut Vec<MmioOp>)
    ensures
        final(out)@ == old(out)@ + leds_off_writes(config1, config2),
{
    out.push(MmioOp::Write32 { addr: LED_PORT1, value: config1 & !LED_MASK });
    out.push(MmioOp::Write32 { addr: LED_PORT2, value: config2 & !LED_MASK });
    assert(final(out)@ =~= old(out)@ + leds_off_writes(config1, config2));
}

/// Lights LEDs 7, 9 and 10.
pub fn enable_board_leds(out: &mut Vec<MmioOp>)
    ensures
        final(out)@ == old(out)@ + leds_on_writes(),
{
    out.push(MmioOp::Write32 { addr: LED_PORT1, value: LED_MASK });
    out.push(MmioOp::Write32 { addr: LED_PORT2, value: LED_MASK });
    assert(final(out)@ =~= old(out)@ + leds_on_writes());
}

/// Turning the LEDs off leaves every LED bit clear and every other bit as it
/// was; turning them off right after turning them on leaves the port
/// registers at zero.
pub proof fn lemma_leds_off(config: u32)
    ensures
        (config & !LED_MASK) & LED_MASK == 0,
        (config & !LED_MASK) & !LED_MASK == config & !LED_MASK,
        (LED_MASK & !LED_MASK) == 0,
        leds_off_writes(LED_MASK, LED_MASK) == seq![
            MmioOp::Write32 { addr: LED_PORT1, value: 0 },
            MmioOp::Write32 { addr: LED_PORT2, value: 0 },
        ],
{
    assert((config & !0xEu32) & 0xEu32 == 0) by (bit_vector);
    assert((config & !0xEu32) & !0xEu32 == config & !0xEu32) by (bit_vector);
    assert((0xEu32 & !0xEu32) == 0) by (bit_vector);
}

/// Turning the LEDs off writes each port register (0x3100411C, then
/// 0x3100410C) with the value read for it, its LED bits (0xE) cleared and
/// every other bit kept, whatever values were read.
pub proof fn lemma_leds_off_writes(config1: u32, config2: u32)
    ensures
        leds_off_writes(config1, config2).len() == 2,
        leds_off_writes(config1, config2)[0] matches MmioOp::Write32 { addr, value } && addr
            == 0x3100411C && value & 0xE == 0 && value & !0xEu32 == config1 & !0xEu32,
        leds_off_writes(config1, config2)[1] matches MmioOp::Write32 { addr, value } && addr
            == 0x3100410C && value & 0xE == 0 && value & !0xEu32 == config2 & !0xEu32,
{
    lemma_leds_off(config1);
    lemma_leds_off(config2);
}

/// A word with the LED bits clear and every other bit as in `config` is
/// `config` with the LED bits cleared: the two properties of
/// [`lemma_leds_off_writes`] fix the written value.
pub proof fn lemma_leds_off_value_unique(config: u32, value: u32)
    requires
        value & 0xE == 0,
        value & !0xEu32 == config & !0xEu32,
    ensures
        value == config & !0xEu32,
{
    assert(value == config & !0xEu32) by (bit_vector)
        requires
            value & 0xE == 0,
            value & !0xEu32 == config & !0xEu32,
    ;
}

/// Opening the memory protection units writes 0x500 once to each of the
/// nine units SMPU0, SMPU2 to SMPU6, SMPU9, SMPU11 and SMPU12, in this
/// order: nine distinct addresses.
pub proof fn lemma_smpus_each_opened_once()
    ensures
        smpu_writes() == seq![
            MmioOp::Write32 { addr: 0x31007800, value: 0x500 },
            MmioOp::Write32 { addr: 0x31083800, value: 0x500 },
            MmioOp::Write32 { addr: 0x31084800, value: 0x500 },
            MmioOp::Write32 { addr: 0x31085800, value: 0x500 },
            MmioOp::Write32 { addr: 0x31086800, value: 0x500 },
            MmioOp::Write32 { addr: 0x31087800, value: 0x500 },
            MmioOp::Write32 { addr: 0x310A0800, value: 0x500 },
            MmioOp::Write32 { addr: 0x310A1800, value: 0x500 },
            MmioOp::Write32 { addr: 0x31012800, value: 0x500 },
        ],
        forall|i: int, j: int|
            0 <= i < j < 9 ==> #[trigger] smpu_writes()[i] != #[trigger] smpu_writes()[j],
{
    assert(smpu_writes() =~= seq![
        MmioOp::Write32 { addr: 0x31007800, value: 0x500 },
        MmioOp::Write32 { addr: 0x31083800, value: 0x500 },
        MmioOp::Write32 { addr: 0x31084800, value: 0x500 },
        MmioOp::Write32 { addr: 0x31085800, value: 0x500 },
        MmioOp::Write32 { addr: 0x31086800, value: 0x500 },
        MmioOp::Write32 { addr: 0x31087800, value: 0x500 },
        MmioOp::Write32 { addr: 0x310A0800, value: 0x500 },
        MmioOp::Write32 { addr: 0x310A1800, value: 0x500 },
        MmioOp::Write32 { addr: 0x31012800, value: 0x500 },
    ]);
}

/// Opening the peripherals zeroes the 214 words of SPU0 from 0x3108BA00
/// on, then the 214 words of its write protection from 0x3108B400 on, each
/// once and in increasing order, then opens the nine memory protection
/// units.
pub proof fn lemma_peripheral_access_writes()
    ensures
        peripheral_access_writes().len() == 214 * 2 + 9,
        forall|k: int|
            0 <= k < 214 ==> #[trigger] peripheral_access_writes()[k] == (MmioOp::Write32 {
                addr: (0x3108BA00 + 4 * k) as usize,
                value: 0,
            }),
        forall|k: int|
            0 <= k < 214 ==> #[trigger] peripheral_access_writes()[214 + k] == (MmioOp::Write32 {
                addr: (0x3108B400 + 4 * k) as usize,
                value: 0,
            }),
        peripheral_access_writes().skip(428) == smpu_writes(),
{
    assert(peripheral_access_writes().skip(428) =~= smpu_writes());
}

/// Turning the LEDs on writes 0xE (LEDs 7, 9 and 10) to both LED port
/// registers, 0x3100411C then 0x3100410C.
pub proof fn lemma_leds_on_writes()
    ensures
        leds_on_writes() == seq![
            MmioOp::Write32 { addr: 0x3100411C, value: 0xE },
            MmioOp::Write32 { addr: 0x3100410C, value: 0xE },
        ],
{
}

} // verus!
