//! The UART of the ADSP-SC598: setup, status and line encoding.

use vstd::prelude::*;
use vstd::string::StringSliceAdditionalSpecFns;

use crate::mmio::MmioOp;
use crate::sc5xx_pac::SCLK0;

verus! {

/// Transmit holding register empty.
pub const THRE: u8 = 0x20;

/// Data ready.
pub const DR: u8 = 0x01;

/// UART enable.
pub const UEN: u32 = 0x01;

/// UART mode.
pub const UMOD_UART: u32 = 0x000;

/// Word length select: 8 bits.
pub const WLS_8: u32 = 0x300;

/// Base address of UART0.
pub const UART_BASE: usize = 0x31003000;

/// Revision register.
pub const REVID: usize = UART_BASE + 0x00;

/// Control register.
pub const CONTROL: usize = UART_BASE + 0x04;

/// Status register.
pub const STATUS: usize = UART_BASE + 0x08;

/// Scratch register.
pub const SCR: usize = UART_BASE + 0x0C;

/// Clock (divisor) register.
pub const CLOCK: usize = UART_BASE + 0x10;

/// Interrupt mask register.
pub const EMASK: usize = UART_BASE + 0x14;

/// Interrupt mask set register.
pub const EMASKST: usize = UART_BASE + 0x18;

/// Interrupt mask clear register.
pub const EMASKCL: usize = UART_BASE + 0x1C;

/// Receive buffer register.
pub const RBR: usize = UART_BASE + 0x20;

/// Transmit hold register.
pub const THR: usize = UART_BASE + 0x24;

/// Transmit address/insert pulse register.
pub const TAIP: usize = UART_BASE + 0x28;

/// Transmit shift register.
pub const TSR: usize = UART_BASE + 0x2C;

/// Receive shift register.
pub const RSR: usize = UART_BASE + 0x30;

/// Transmit divisor counter.
pub const TXDIV_CNT: usize = UART_BASE + 0x34;

/// Receive divisor counter.
pub const RXDIV_CNT: usize = UART_BASE + 0x38;

/// The UART. It holds no state of its own.
pub struct adi_uart {}

/// The clock divisor for `baud_rate`, within 16 bits.
pub open spec fn divisor(baud_rate: u32) -> u32 {
    ((SCLK0 / (baud_rate / 2)) / baud_rate) & 0xFFFF
}

/// The writes that set the UART up for `baud_rate`: enabled in UART mode
/// with 8-bit words, every status flag cleared, and the clock divisor.
pub open spec fn init_writes(baud_rate: u32) -> Seq<MmioOp> {
    seq![
        MmioOp::Write32 { addr: CONTROL, value: UEN | UMOD_UART | WLS_8 },
        MmioOp::Write32 { addr: STATUS, value: 0xFFFF_FFFF },
        MmioOp::Write32 { addr: CLOCK, value: divisor(baud_rate) },
    ]
}

/// Whether the status byte `status` lets the line move a byte: for sending
/// the transmit holding register must be empty, for receiving data must be
/// ready.
pub open spec fn is_ready(tx: bool, status: u8) -> bool {
    if tx {
        status & THRE != 0
    } else {
        status & DR != 0
    }
}

/// The bytes that carry `bytes` on the line: each line feed is preceded by a
/// carriage return, every other byte goes as it is.
pub open spec fn with_crlf(bytes: Seq<u8>) -> Seq<u8>
    decreases bytes.len(),
{
    if bytes.len() == 0 {
        Seq::empty()
    } else {
        let prev = with_crlf(bytes.drop_last());
        if bytes.last() == 10 {
            prev + seq![13u8, 10u8]
        } else {
            prev.push(bytes.last())
        }
    }
}

/// Undoes [`with_crlf`]: a carriage return directly before a line feed is
/// dropped, working from the end of the line.
pub open spec fn without_crlf(line: Seq<u8>) -> Seq<u8>
    decreases line.len(),
{
    if line.len() == 0 {
        Seq::empty()
    } else if line.len() >= 2 && line.last() == 10 && line[line.len() - 2] == 13 {
        without_crlf(line.subrange(0, line.len() - 2)).push(10u8)
    } else {
        without_crlf(line.drop_last()).push(line.last())
    }
}

/// The number of line feeds in `bytes`.
pub open spec fn line_feeds(bytes: Seq<u8>) -> nat
    decreases bytes.len(),
{
    if bytes.len() == 0 {
        0
    } else {
        line_feeds(bytes.drop_last()) + if bytes.last() == 10 { 1nat } else { 0nat }
    }
}

impl adi_uart {
    /// The UART, before any setup.
    pub fn new() -> (r: Self) {
        adi_uart {}
    }

    /// Sets the UART up for `baud_rate` baud.
    pub fn init(&self, baud_rate: u32, out: &mut Vec<MmioOp>)
        requires
            baud_rate >= 2,
        ensures
            final(out)@ == old(out)@ + init_writes(baud_rate),
    {
        let divisor: u32 = ((SCLK0 / (baud_rate / 2)) / baud_rate) & 0xFFFF;
        out.push(MmioOp::Write32 { addr: CONTROL, value: UEN | UMOD_UART | WLS_8 });
        out.push(MmioOp::Write32 { addr: STATUS, value: u32::MAX });
        out.push(MmioOp::Write32 { addr: CLOCK, value: divisor });
        assert(final(out)@ =~= old(out)@ + init_writes(baud_rate));
    }

    /// Whether the status byte `status` (as read from `STATUS`) lets the
    /// line send (`tx`) or receive a byte.
    pub fn ready(&self, tx: bool, status: u8) -> (r: bool)
        ensures
            r == is_ready(tx, status),
    {
        if tx {
            status & THRE != 0
        } else {
            status & DR != 0
        }
    }

    /// Sends the byte `c` when the status byte `status` (as read from
    /// `STATUS`) shows the transmit holding register empty: the store of `c`
    /// to the transmit register, or `None` when the line would block.
    pub fn write(&self, c: u8, status: u8) -> (r: Option<MmioOp>)
        ensures
            r == (if is_ready(true, status) {
                Some(MmioOp::Write8 { addr: THR, value: c })
            } else {
                None
            }),
    {
        if !self.ready(true, status) {
            return None;
        }
        Some(MmioOp::Write8 { addr: THR, value: c })
    }

    /// The bytes that sending `s` puts on the line, with a carriage return
    /// injected before each newline.
    pub fn write_str(&self, s: &str) -> (r: Vec<u8>)
        ensures
            r@ == with_crlf(s.spec_bytes()),
    {
        let bytes = s.as_bytes();
        let mut out: Vec<u8> = Vec::new();
        let mut i: usize = 0;
        while i < bytes.len()
            invariant
                i <= bytes@.len(),
                bytes@ == s.spec_bytes(),
                out@ == with_crlf(bytes@.take(i as int)),
            decreases bytes@.len() - i,
        {
            let byte = bytes[i];
            assert(bytes@.take(i + 1 as int).drop_last() =~= bytes@.take(i as int));
            // inject a carriage return before a line feed
            if byte == 10u8 {
                out.push(13u8);
            }
            out.push(byte);
            i = i + 1;
            assert(out@ =~= with_crlf(bytes@.take(i as int)));
        }
        assert(bytes@.take(i as int) =~= bytes@);
        out
    }
}

/// Removing the injected carriage returns gives the text back: no byte is
/// lost, added or reordered by the line encoding.
pub proof fn lemma_crlf_round_trip(bytes: Seq<u8>)
    ensures
        without_crlf(with_crlf(bytes)) == bytes,
    decreases bytes.len(),
{
    if bytes.len() > 0 {
        let prev = with_crlf(bytes.drop_last());
        lemma_crlf_round_trip(bytes.drop_last());
        let line = with_crlf(bytes);
        if bytes.last() == 10 {
            assert(line.subrange(0, line.len() - 2) =~= prev);
        } else {
            assert(line.drop_last() =~= prev);
            if line.len() >= 2 && line[line.len() - 2] == 13 {
                assert(line.last() != 10);
            }
        }
        assert(bytes.drop_last().push(bytes.last()) =~= bytes);
    }
}

/// In the encoded line every line feed comes right after a carriage return,
/// and the line is longer than the text by one byte per line feed.
pub proof fn lemma_crlf_shape(bytes: Seq<u8>)
    ensures
        with_crlf(bytes).len() == bytes.len() + line_feeds(bytes),
        forall|i: int|
            0 <= i < with_crlf(bytes).len() && #[trigger] with_crlf(bytes)[i] == 10 ==> i > 0
                && with_crlf(bytes)[i - 1] == 13,
    decreases bytes.len(),
{
    if bytes.len() > 0 {
        lemma_crlf_shape(bytes.drop_last());
        let prev = with_crlf(bytes.drop_last());
        let line = with_crlf(bytes);
        assert forall|i: int| 0 <= i < line.len() && #[trigger] line[i] == 10 implies i > 0 && line[i
            - 1] == 13 by {
            if i < prev.len() {
                assert(line[i] == prev[i]);
                assert(prev[i] == 10);
                assert(line[i - 1] == prev[i - 1]);
            }
        }
    }
}

/// Setting the UART up for `baud_rate` writes, in order: 0x301 (enabled,
/// UART mode, 8-bit words) to the control register (0x31003004), all ones
/// to the status register (0x31003008), and to the clock register
/// (0x31003010) the quotient of 25 MHz by half the baud rate, divided by the
/// baud rate, in 16 bits.
pub proof fn lemma_init_writes(baud_rate: u32)
    requires
        baud_rate >= 2,
    ensures
        init_writes(baud_rate) == seq![
            MmioOp::Write32 { addr: 0x31003004, value: 0x301 },
            MmioOp::Write32 { addr: 0x31003008, value: 0xFFFF_FFFF },
            MmioOp::Write32 {
                addr: 0x31003010,
                value: ((25_000_000u32 / (baud_rate / 2)) / baud_rate) % 0x10000,
            },
        ],
{
    let q: u32 = (25_000_000u32 / (baud_rate / 2)) / baud_rate;
    assert(q & 0xFFFF == q % 0x10000) by (bit_vector);
    assert(0x01u32 | 0x000u32 | 0x300u32 == 0x301u32) by (bit_vector);
    assert(init_writes(baud_rate) =~= seq![
        MmioOp::Write32 { addr: 0x31003004, value: 0x301 },
        MmioOp::Write32 { addr: 0x31003008, value: 0xFFFF_FFFF },
        MmioOp::Write32 { addr: 0x31003010, value: q % 0x10000 },
    ]);
}

/// The line can send a byte exactly when the status shows the transmit
/// holding register empty (bit 0x20), and receive one exactly when it shows
/// data ready (bit 0x01); a byte is sent by storing it to the transmit
/// register (0x31003024).
pub proof fn lemma_ready_bits(status: u8, c: u8)
    ensures
        is_ready(true, status) <==> status & 0x20 != 0,
        is_ready(false, status) <==> status & 0x01 != 0,
        THR == 0x31003024,
{
}

} // verus!
