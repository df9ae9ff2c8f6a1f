//! The TWI (I2C) master of the ADSP-SC598: controller setup, bus status
//! and the transfer state machine.

use vstd::prelude::*;
use vstd::pervasive::VecAdditionalExecFns;

use crate::i2c_regs::{
    clk_hi, clk_low, clk_mode, clk_speed, duty_cycle, lemma_clk_fields, fifo_ctl, int_stat, master_ctl, master_stat, speed_to_duty_cycle,
    CLKDIV, CONTROL, FIFO_CTL, INT_MASK, INT_STAT, MASTER_ADDR, MASTER_CTL, MASTER_STAT, RCV_DATA8,
    XMT_DATA8,
};
use crate::mmio::MmioOp;
use crate::sc5xx_pac::SCLK0;

verus! {

/// The TWI master controller. It holds no state of its own: everything it
/// knows lives in the controller's registers.
pub struct adi_twi_i2c;

/// Why a transfer did not complete.
#[derive(Debug, Clone, Copy, PartialEq, Eq, Structural)]
pub enum Error {
    /// The bus stayed busy.
    BusBusy,
    /// The controller reported a master transfer error.
    MemErr,
    /// The transfer took too long.
    Timeout,
}

/// Flags that a message of a transfer may carry.
#[derive(Debug, Clone, Copy, PartialEq, Eq, Structural)]
pub enum msg_flags {
    /// Combined read/write.
    COMBO,
    /// Issue a STOP condition.
    STOP,
    /// Read operation.
    READ,
}

/// The divider word for `speed`: the duty-cycle count in both bytes.
pub open spec fn clock_divider(speed: u32) -> u16 {
    let d = duty_cycle(speed);
    (d << 8) | (d & 0xFF)
}

/// The divider holds the duty-cycle count of the speed as both its low and
/// its high period.
pub proof fn lemma_divider_fields(speed: u32)
    ensures
        clock_divider(speed) == clk_hi(duty_cycle(speed)) | clk_low(duty_cycle(speed)),
        clk_low(clock_divider(speed)) == clk_low(duty_cycle(speed)),
        clock_divider(speed) >> 8 == clk_low(duty_cycle(speed)),
{
    let d = duty_cycle(speed);
    lemma_clk_fields(d, d);
}

/// The writes that set the bus to `speed` Hz: the divider (twice), a zero
/// to the interrupt status register (its flags clear by writing ones, so
/// this leaves them as they are), and the master control register set to
/// fast-mode timing above 100 kHz and to standard timing otherwise. The
/// control register (prescale and enable) is left alone.
pub open spec fn bus_speed_writes(speed: u32) -> Seq<MmioOp> {
    seq![
        MmioOp::Write16 { addr: CLKDIV, value: clock_divider(speed) },
        MmioOp::Write16 { addr: CLKDIV, value: clock_divider(speed) },
        MmioOp::Write16 { addr: INT_STAT, value: 0 },
        MmioOp::Write16 {
            addr: MASTER_CTL,
            value: if speed > 100_000 { master_ctl::FAST } else { 0 },
        },
    ]
}

/// The prescale field: SCLK0 in MHz, divided by ten and rounded, within
/// the field's mask.
pub open spec fn prescale() -> u16 {
    ((SCLK0 / 1000 / 1000 + 5) / 10) as u16 & clk_mode::PRESCALE
}

/// The writes that bring the controller up: the prescaler with the
/// controller disabled, the bus at its highest speed, then the prescaler
/// with the controller enabled.
pub open spec fn init_writes() -> Seq<MmioOp> {
    seq![MmioOp::Write16 { addr: CONTROL, value: prescale() }] + bus_speed_writes(
        clk_speed::SPEED_MAX,
    ) + seq![MmioOp::Write16 { addr: CONTROL, value: clk_mode::TWI_ENA | prescale() }]
}

/// The setup writes in numbers: a prescale of 3 (25 MHz over the 10 MHz
/// reference, rounded), a divider of 12 in both periods for 400 kHz, and fast
/// mode in the master control register.
pub proof fn lemma_init_values()
    ensures
        prescale() == 3,
        clock_divider(clk_speed::SPEED_MAX) == 0x0C0C,
        init_writes() == seq![
            MmioOp::Write16 { addr: CONTROL, value: 3 },
            MmioOp::Write16 { addr: CLKDIV, value: 0x0C0C },
            MmioOp::Write16 { addr: CLKDIV, value: 0x0C0C },
            MmioOp::Write16 { addr: INT_STAT, value: 0 },
            MmioOp::Write16 { addr: MASTER_CTL, value: 0x0008 },
            MmioOp::Write16 { addr: CONTROL, value: 0x0083 },
        ],
{
    assert(((25000000u32 / 1000 / 1000 + 5) / 10) as u16 == 3u16);
    assert(3u16 & 0x007Fu16 == 3u16) by (bit_vector);
    assert(5_000_000u32 / 400_000u32 == 12);
    assert(((12u16 << 8u16) | (12u16 & 0xFFu16)) == 0x0C0Cu16) by (bit_vector);
    assert(0x0080u16 | 3u16 == 0x0083u16) by (bit_vector);
    assert(init_writes() =~= seq![
        MmioOp::Write16 { addr: CONTROL, value: 3 },
        MmioOp::Write16 { addr: CLKDIV, value: 0x0C0C },
        MmioOp::Write16 { addr: CLKDIV, value: 0x0C0C },
        MmioOp::Write16 { addr: INT_STAT, value: 0 },
        MmioOp::Write16 { addr: MASTER_CTL, value: 0x0008 },
        MmioOp::Write16 { addr: CONTROL, value: 0x0083 },
    ]);
}

/// The write that turns the controller off.
pub open spec fn stop_writes() -> Seq<MmioOp> {
    seq![MmioOp::Write16 { addr: CONTROL, value: 0 }]
}

/// Whether a master status word reports the bus as busy.
pub open spec fn bus_busy(master_stat: u16) -> bool {
    master_stat & master_stat::BUSBUSY != 0
}

impl adi_twi_i2c {
    /// Brings the controller up (see [`adi_twi_i2c::init`]) and returns it.
    pub fn new(out: &mut Vec<MmioOp>) -> (r: Self)
        ensures
            final(out)@ == old(out)@ + init_writes(),
    {
        Self::init(out);
        adi_twi_i2c
    }

    /// Sets the bus speed to `speed` Hz.
    pub fn set_bus_speed(speed: u32, out: &mut Vec<MmioOp>)
        requires
            speed != 0,
        ensures
            final(out)@ == old(out)@ + bus_speed_writes(speed),
    {
        let mut clock_div = speed_to_duty_cycle(speed);
        // the same count for the internal and the 10 MHz reference
        clock_div = (clock_div << 8) | (clock_div & 0xFF);
        out.push(MmioOp::Write16 { addr: CLKDIV, value: clock_div });
        out.push(MmioOp::Write16 { addr: CLKDIV, value: clock_div });
        // a zero to the interrupt status, whose flags clear by writing ones
        out.push(MmioOp::Write16 { addr: INT_STAT, value: 0 });
        // fast-mode timing is a master control bit
        if speed > 100_000 {
            out.push(MmioOp::Write16 { addr: MASTER_CTL, value: master_ctl::FAST });
        } else {
            out.push(MmioOp::Write16 { addr: MASTER_CTL, value: 0 });
        }
    }

    /// Whether the master status word `master_stat` (as read from
    /// `MASTER_STAT`) reports the bus as busy.
    pub fn check_bus_busy(master_stat: u16) -> (r: bool)
        ensures
            r == bus_busy(master_stat),
    {
        (master_stat & master_stat::BUSBUSY) != 0
    }

    /// Sets the controller up: prescaler, bus speed, enable.
    pub fn init(out: &mut Vec<MmioOp>)
        ensures
            final(out)@ == old(out)@ + init_writes(),
    {
        let prescale: u16 = ((SCLK0 / 1000 / 1000 + 5) / 10) as u16 & clk_mode::PRESCALE;
        out.push(MmioOp::Write16 { addr: CONTROL, value: prescale });
        Self::set_bus_speed(clk_speed::SPEED_MAX, out);
        out.push(MmioOp::Write16 { addr: CONTROL, value: clk_mode::TWI_ENA | prescale });
    }

    /// Turns the controller off. It cannot fail.
    pub fn stop(out: &mut Vec<MmioOp>) -> (r: Result<(), Error>)
        ensures
            final(out)@ == old(out)@ + stop_writes(),
            r == Ok::<(), Error>(()),
    {
        out.push(MmioOp::Write16 { addr: CONTROL, value: 0 });
        Ok(())
    }
}

/// Direction of one operation of a transfer.
#[derive(Debug, Clone, Copy, PartialEq, Eq, Structural)]
pub enum OpKind {
    /// Send the bytes of the operation's buffer.
    Write,
    /// Fill the operation's buffer with received bytes.
    Read,
}

/// One operation of a transfer, with its buffer.
#[derive(Debug)]
pub enum Operation {
    /// Send these bytes.
    Write(Vec<u8>),
    /// Receive as many bytes as the buffer holds, into the buffer.
    Read(Vec<u8>),
}

impl Operation {
    /// The direction of the operation.
    pub open spec fn kind(self) -> OpKind {
        match self {
            Operation::Write(_) => OpKind::Write,
            Operation::Read(_) => OpKind::Read,
        }
    }

    /// The bytes of the operation's buffer.
    pub open spec fn data(self) -> Seq<u8> {
        match self {
            Operation::Write(b) => b@,
            Operation::Read(b) => b@,
        }
    }

    /// The number of bytes the operation moves.
    pub fn len(&self) -> (r: usize)
        ensures
            r == self.data().len(),
    {
        match self {
            Operation::Write(b) => b.len(),
            Operation::Read(b) => b.len(),
        }
    }
}

/// The directions of `ops`.
pub open spec fn kinds_of(ops: Seq<Operation>) -> Seq<OpKind> {
    ops.map_values(|o: Operation| o.kind())
}

/// The buffers of `ops`.
pub open spec fn buffers_of(ops: Seq<Operation>) -> Seq<Seq<u8>> {
    ops.map_values(|o: Operation| o.data())
}

/// Where a transfer stands: which register access comes next.
#[derive(Debug, Clone, Copy, PartialEq, Eq, Structural)]
pub enum Phase {
    /// Issuing write `step` of the controller setup ([`init_writes`]).
    Configure { step: usize },
    /// Polling the master status until the bus is free.
    AwaitIdle,
    /// Issuing write `step` of the addressing and flushing
    /// ([`prepare_writes`]).
    Prepare { step: usize },
    /// Reading the master control register.
    ReadControl,
    /// Writing the master control word: the master enabled, the fast-mode
    /// bit as read, and the number of bytes of the transfer as data count.
    EnableMaster,
    /// Reading the interrupt status before the bytes of the current
    /// operation move.
    ReadStatus,
    /// Polling the master status until the bus is free before the current
    /// byte.
    AwaitByte,
    /// Sending or receiving the current byte.
    MoveByte,
    /// Polling the interrupt status, after the bytes of the current
    /// operation moved, until it reports completion or an error.
    AwaitCompletion,
    /// Clearing the completion flag of the current operation.
    Acknowledge,
    /// Turning the controller off.
    Stop,
    /// The transfer completed.
    Done,
    /// The transfer ended with `error`.
    Failed { error: Error },
}

/// What the caller has to do next for a transfer.
#[derive(Debug, Clone, Copy, PartialEq, Eq, Structural)]
pub enum BusAction {
    /// Carry out a register write.
    Write(MmioOp),
    /// Read the byte at `addr` and hand it back.
    Read8 { addr: usize },
    /// Read the half-word at `addr` and hand it back.
    Read16 { addr: usize },
    /// Nothing more: the transfer completed.
    Done,
    /// Nothing more: the transfer ended with this error.
    Failed(Error),
}

/// The number of bytes that the buffers `bufs` hold together.
pub open spec fn total_bytes(bufs: Seq<Seq<u8>>) -> nat
    decreases bufs.len(),
{
    if bufs.len() == 0 {
        0
    } else {
        total_bytes(bufs.drop_last()) + bufs.last().len()
    }
}

/// The master control word that starts a transfer of `bytes` bytes when the
/// register read `read`: the master enabled, the fast-mode bit as read, and
/// the byte count in the data-count field (its low eight bits, which is all
/// the field holds).
pub open spec fn master_control(read: u16, bytes: nat) -> u16 {
    (read & master_ctl::FAST) | ((((bytes % 0x10000) as u16) << master_ctl::BITP_DCNT)
        & master_ctl::MSK_DCNT) | master_ctl::MEN
}

/// The byte count of `ops`, modulo 2^16.
fn byte_count(ops: &Vec<Operation>) -> (r: u16)
    ensures
        r == total_bytes(buffers_of(ops@)) % 0x10000,
{
    let mut acc: u32 = 0;
    let mut i: usize = 0;
    while i < ops.len()
        invariant
            i <= ops.len(),
            acc == total_bytes(buffers_of(ops@.take(i as int))) % 0x10000,
        decreases ops.len() - i,
    {
        let len = ops[i].len();
        let part: u32 = (len % 0x10000) as u32;
        proof {
            let b = buffers_of(ops@.take(i as int));
            let b1 = buffers_of(ops@.take(i + 1 as int));
            assert(b1.drop_last() =~= b);
            assert(b1.last() == ops@[i as int].data());
            vstd::arithmetic::div_mod::lemma_add_mod_noop(
                total_bytes(b) as int,
                len as int,
                0x10000,
            );
        }
        acc = (acc + part) % 0x10000;
        i = i + 1;
    }
    assert(ops@.take(i as int) =~= ops@);
    acc as u16
}

/// The writes that address the target and reset the FIFOs and the status
/// registers before the data moves.
pub open spec fn prepare_writes(address: u8) -> Seq<MmioOp> {
    seq![
        MmioOp::Write16 { addr: MASTER_ADDR, value: address as u16 },
        MmioOp::Write16 { addr: FIFO_CTL, value: fifo_ctl::XMTFLUSH | fifo_ctl::RCVFLUSH },
        MmioOp::Write16 { addr: FIFO_CTL, value: 0 },
        MmioOp::Write16 { addr: MASTER_STAT, value: 0xFFFF },
        MmioOp::Write16 { addr: INT_STAT, value: 0xFFFF },
        MmioOp::Write16 { addr: INT_MASK, value: 0 },
    ]
}

/// The abstract state of a transfer.
pub ghost struct TransferView {
    /// The register access that comes next.
    pub phase: Phase,
    /// The 7-bit target address.
    pub address: u8,
    /// The direction of each operation.
    pub kinds: Seq<OpKind>,
    /// The buffer of each operation: the bytes to send, or the bytes
    /// received so far.
    pub bufs: Seq<Seq<u8>>,
    /// The operation in progress.
    pub op: int,
    /// The byte of the current operation in progress.
    pub byte: int,
    /// The interrupt status last read for the current operation.
    pub status: u16,
    /// The master control word computed from the register and the number of
    /// operations.
    pub control: u16,
}

impl TransferView {
    /// The state after the accesses of a run, where `values[k]` is what the
    /// `k`-th access returned (ignored after a write).
    pub open spec fn run(self, values: Seq<u16>) -> TransferView
        decreases values.len(),
    {
        if values.len() == 0 {
            self
        } else {
            self.step(values[0]).run(values.drop_first())
        }
    }

    /// The number of operations.
    pub open spec fn count(self) -> int {
        self.kinds.len() as int
    }

    /// The state is one that a transfer can reach.
    pub open spec fn wf(self) -> bool {
        &&& self.bufs.len() == self.kinds.len()
        &&& self.count() == 0 ==> self.phase == Phase::Done
        &&& 0 <= self.op <= self.count()
        &&& match self.phase {
            Phase::Configure { step } => step < init_writes().len() && self.op == 0,
            Phase::AwaitIdle => self.op == 0,
            Phase::Prepare { step } => step < prepare_writes(self.address).len() && self.op == 0,
            Phase::ReadControl => self.op == 0,
            Phase::EnableMaster => self.op == 0 && self.count() > 0,
            Phase::ReadStatus => self.op < self.count(),
            Phase::AwaitByte => self.op < self.count() && 0 <= self.byte < self.bufs[self.op].len(),
            Phase::MoveByte => self.op < self.count() && 0 <= self.byte < self.bufs[self.op].len(),
            Phase::AwaitCompletion => self.op < self.count(),
            Phase::Acknowledge => self.op < self.count(),
            Phase::Stop => self.op == self.count(),
            Phase::Done => self.op == self.count(),
            Phase::Failed { .. } => true,
        }
    }

    /// The register access the state asks for.
    pub open spec fn action(self) -> BusAction {
        match self.phase {
            Phase::Configure { step } => BusAction::Write(init_writes()[step as int]),
            Phase::AwaitIdle => BusAction::Read16 { addr: MASTER_STAT },
            Phase::Prepare { step } => BusAction::Write(prepare_writes(self.address)[step as int]),
            Phase::ReadControl => BusAction::Read16 { addr: MASTER_CTL },
            Phase::EnableMaster => BusAction::Write(
                MmioOp::Write16 { addr: MASTER_CTL, value: self.control },
            ),
            Phase::ReadStatus => BusAction::Read16 { addr: INT_STAT },
            Phase::AwaitByte => BusAction::Read16 { addr: MASTER_STAT },
            Phase::MoveByte => if self.kinds[self.op] == OpKind::Write {
                BusAction::Write(
                    MmioOp::Write8 { addr: XMT_DATA8, value: self.bufs[self.op][self.byte] },
                )
            } else {
                BusAction::Read8 { addr: RCV_DATA8 }
            },
            Phase::AwaitCompletion => BusAction::Read16 { addr: INT_STAT },
            Phase::Acknowledge => BusAction::Write(
                MmioOp::Write16 { addr: INT_STAT, value: int_stat::MCOMP },
            ),
            Phase::Stop => BusAction::Write(MmioOp::Write16 { addr: CONTROL, value: 0 }),
            Phase::Done => BusAction::Done,
            Phase::Failed { error } => BusAction::Failed(error),
        }
    }

    /// The verdict on the current operation once its bytes have moved,
    /// from the interrupt status last read: a master error ends the
    /// transfer, a missing completion flag means waiting for it (polling the
    /// status, without moving the bytes again), and otherwise the completion
    /// is acknowledged.
    pub open spec fn settle(self) -> TransferView {
        if self.status & int_stat::MERR != 0 {
            TransferView { phase: Phase::Failed { error: Error::MemErr }, ..self }
        } else if self.status & int_stat::MCOMP == 0 {
            TransferView { phase: Phase::AwaitCompletion, ..self }
        } else {
            TransferView { phase: Phase::Acknowledge, ..self }
        }
    }

    /// The state after the access of [`TransferView::action`] was carried
    /// out; `value` is what a read returned (ignored after a write).
    pub open spec fn step(self, value: u16) -> TransferView {
        match self.phase {
            Phase::Configure { step } => if step + 1 < init_writes().len() {
                TransferView { phase: Phase::Configure { step: (step + 1) as usize }, ..self }
            } else {
                TransferView { phase: Phase::AwaitIdle, ..self }
            },
            Phase::AwaitIdle => if bus_busy(value) {
                self
            } else {
                TransferView { phase: Phase::Prepare { step: 0 }, ..self }
            },
            Phase::Prepare { step } => if step + 1 < prepare_writes(self.address).len() {
                TransferView { phase: Phase::Prepare { step: (step + 1) as usize }, ..self }
            } else {
                TransferView { phase: Phase::ReadControl, ..self }
            },
            Phase::ReadControl => TransferView {
                phase: Phase::EnableMaster,
                op: 0,
                control: master_control(value, total_bytes(self.bufs)),
                ..self
            },
            Phase::EnableMaster => TransferView { phase: Phase::ReadStatus, ..self },
            Phase::ReadStatus => {
                let fresh = TransferView { status: value, byte: 0, ..self };
                if self.bufs[self.op].len() > 0 {
                    TransferView { phase: Phase::AwaitByte, ..fresh }
                } else {
                    fresh.settle()
                }
            },
            Phase::AwaitByte => if bus_busy(value) {
                self
            } else {
                TransferView { phase: Phase::MoveByte, ..self }
            },
            Phase::MoveByte => {
                let bufs = if self.kinds[self.op] == OpKind::Read {
                    self.bufs.update(self.op, self.bufs[self.op].update(self.byte, value as u8))
                } else {
                    self.bufs
                };
                let next = TransferView { bufs, byte: self.byte + 1, ..self };
                if self.byte + 1 < self.bufs[self.op].len() {
                    TransferView { phase: Phase::AwaitByte, ..next }
                } else {
                    next.settle()
                }
            },
            Phase::AwaitCompletion => TransferView { status: value, ..self }.settle(),
            Phase::Acknowledge => if self.op + 1 < self.count() {
                TransferView { phase: Phase::ReadStatus, op: self.op + 1, ..self }
            } else {
                TransferView { phase: Phase::Stop, op: self.op + 1, ..self }
            },
            Phase::Stop => TransferView { phase: Phase::Done, ..self },
            Phase::Done => self,
            Phase::Failed { .. } => self,
        }
    }
}

/// A transfer in progress: a sequence of write and read operations to one
/// target, driven one register access at a time.
///
/// The caller asks for the next access with [`Transfer::action`], carries
/// it out, and reports it with [`Transfer::advance`], handing back the
/// value of a read.
pub struct Transfer {
    address: u8,
    ops: Vec<Operation>,
    configure: Vec<MmioOp>,
    prepare: Vec<MmioOp>,
    phase: Phase,
    op: usize,
    byte: usize,
    status: u16,
    control: u16,
}

impl View for Transfer {
    type V = TransferView;

    closed spec fn view(&self) -> TransferView {
        TransferView {
            phase: self.phase,
            address: self.address,
            kinds: kinds_of(self.ops@),
            bufs: buffers_of(self.ops@),
            op: self.op as int,
            byte: self.byte as int,
            status: self.status,
            control: self.control,
        }
    }
}

impl Transfer {
    /// The internal representation agrees with the view, and the view is
    /// reachable.
    pub closed spec fn wf(&self) -> bool {
        &&& self@.wf()
        &&& self.configure@ == init_writes()
        &&& self.prepare@ == prepare_writes(self.address)
    }

    /// A well-formed transfer has a reachable view, to which the laws on
    /// [`TransferView`] apply.
    pub proof fn lemma_view_wf(&self)
        requires
            self.wf(),
        ensures
            self@.wf(),
    {
    }

    /// Operation `i`, with its buffer as it stands.
    pub fn operation(&self, i: usize) -> (r: &Operation)
        requires
            self.wf(),
            i < self@.count(),
        ensures
            r.kind() == self@.kinds[i as int],
            r.data() == self@.bufs[i as int],
    {
        &self.ops[i]
    }

    /// Ends the transfer and hands the operations back, with the bytes
    /// received in the buffers of the reads.
    pub fn into_operations(self) -> (r: Vec<Operation>)
        requires
            self.wf(),
        ensures
            kinds_of(r@) == self@.kinds,
            buffers_of(r@) == self@.bufs,
    {
        self.ops
    }

    /// The register access to carry out next.
    pub fn action(&self) -> (r: BusAction)
        requires
            self.wf(),
        ensures
            r == self@.action(),
    {
        match self.phase {
            Phase::Configure { step } => BusAction::Write(self.configure[step]),
            Phase::AwaitIdle => BusAction::Read16 { addr: MASTER_STAT },
            Phase::Prepare { step } => BusAction::Write(self.prepare[step]),
            Phase::ReadControl => BusAction::Read16 { addr: MASTER_CTL },
            Phase::EnableMaster => BusAction::Write(
                MmioOp::Write16 { addr: MASTER_CTL, value: self.control },
            ),
            Phase::ReadStatus => BusAction::Read16 { addr: INT_STAT },
            Phase::AwaitByte => BusAction::Read16 { addr: MASTER_STAT },
            Phase::MoveByte => {
                match &self.ops[self.op] {
                    Operation::Write(data) => BusAction::Write(
                        MmioOp::Write8 { addr: XMT_DATA8, value: data[self.byte] },
                    ),
                    Operation::Read(_) => BusAction::Read8 { addr: RCV_DATA8 },
                }
            },
            Phase::AwaitCompletion => BusAction::Read16 { addr: INT_STAT },
            Phase::Acknowledge => BusAction::Write(
                MmioOp::Write16 { addr: INT_STAT, value: int_stat::MCOMP },
            ),
            Phase::Stop => BusAction::Write(MmioOp::Write16 { addr: CONTROL, value: 0 }),
            Phase::Done => BusAction::Done,
            Phase::Failed { error } => BusAction::Failed(error),
        }
    }

    fn settle(&mut self)
        ensures
            final(self)@ == old(self)@.settle(),
            final(self).address == old(self).address,
            final(self).configure == old(self).configure,
            final(self).prepare == old(self).prepare,
    {
        if self.status & int_stat::MERR != 0 {
            self.phase = Phase::Failed { error: Error::MemErr };
        } else if self.status & int_stat::MCOMP == 0 {
            self.phase = Phase::AwaitCompletion;
        } else {
            self.phase = Phase::Acknowledge;
        }
    }

    /// Records that the access of [`Transfer::action`] was carried out;
    /// `value` is what a read returned (ignored after a write or when the
    /// transfer has ended).
    pub fn advance(&mut self, value: u16)
        requires
            old(self).wf(),
        ensures
            final(self).wf(),
            final(self)@.wf(),
            final(self)@ == old(self)@.step(value),
    {
        proof {
            lemma_step_wf(self@, value);
        }
        match self.phase {
            Phase::Configure { step } => {
                if step + 1 < self.configure.len() {
                    self.phase = Phase::Configure { step: step + 1 };
                } else {
                    self.phase = Phase::AwaitIdle;
                }
            },
            Phase::AwaitIdle => {
                if adi_twi_i2c::check_bus_busy(value) {
                } else {
                    self.phase = Phase::Prepare { step: 0 };
                }
            },
            Phase::Prepare { step } => {
                if step + 1 < self.prepare.len() {
                    self.phase = Phase::Prepare { step: step + 1 };
                } else {
                    self.phase = Phase::ReadControl;
                }
            },
            Phase::ReadControl => {
                // transfer mode, then the number of bytes as data count
                let bytes = byte_count(&self.ops);
                let mut ctl = value & master_ctl::FAST;
                ctl = ctl | ((bytes << master_ctl::BITP_DCNT) & master_ctl::MSK_DCNT);
                // enable master
                ctl = ctl | master_ctl::MEN;
                self.control = ctl;
                self.op = 0;
                self.phase = Phase::EnableMaster;
            },
            Phase::EnableMaster => {
                self.phase = Phase::ReadStatus;
            },
            Phase::ReadStatus => {
                self.status = value;
                self.byte = 0;
                if self.ops[self.op].len() > 0 {
                    self.phase = Phase::AwaitByte;
                } else {
                    self.settle();
                }
            },
            Phase::AwaitByte => {
                if adi_twi_i2c::check_bus_busy(value) {
                } else {
                    self.phase = Phase::MoveByte;
                }
            },
            Phase::MoveByte => {
                let op = self.op;
                let len = self.ops[op].len();
                let mut slot = Operation::Write(Vec::new());
                self.ops.set_and_swap(op, &mut slot);
                let restored = match slot {
                    Operation::Write(data) => Operation::Write(data),
                    Operation::Read(mut buf) => {
                        buf.set(self.byte, value as u8);
                        Operation::Read(buf)
                    },
                };
                let mut back = restored;
                self.ops.set_and_swap(op, &mut back);
                proof {
                    assert(kinds_of(self.ops@) =~= old(self)@.kinds);
                    if old(self)@.kinds[op as int] == OpKind::Read {
                        assert(buffers_of(self.ops@) =~= old(self)@.bufs.update(
                            op as int,
                            old(self)@.bufs[op as int].update(self.byte as int, value as u8),
                        ));
                    } else {
                        assert(buffers_of(self.ops@) =~= old(self)@.bufs);
                    }
                }
                self.byte = self.byte + 1;
                if self.byte < len {
                    self.phase = Phase::AwaitByte;
                } else {
                    self.settle();
                }
            },
            Phase::AwaitCompletion => {
                self.status = value;
                self.settle();
            },
            Phase::Acknowledge => {
                assert(self.op < self.ops.len());
                self.op = self.op + 1;
                if self.op < self.ops.len() {
                    self.phase = Phase::ReadStatus;
                } else {
                    self.phase = Phase::Stop;
                }
            },
            Phase::Stop => {
                self.phase = Phase::Done;
            },
            Phase::Done => {},
            Phase::Failed { .. } => {},
        }
    }
}

/// Every step of a transfer keeps its state reachable.
pub proof fn lemma_step_wf(s: TransferView, value: u16)
    requires
        s.wf(),
    ensures
        s.step(value).wf(),
{
    let t = s.step(value);
    match s.phase {
        Phase::MoveByte => {
            let bufs = if s.kinds[s.op] == OpKind::Read {
                s.bufs.update(s.op, s.bufs[s.op].update(s.byte, value as u8))
            } else {
                s.bufs
            };
            assert(bufs.len() == s.bufs.len());
            assert(bufs[s.op].len() == s.bufs[s.op].len());
            let next = TransferView { bufs, byte: s.byte + 1, ..s };
            assert(next.bufs.len() == next.kinds.len());
            if s.byte + 1 < s.bufs[s.op].len() {
                assert(t.wf());
            } else {
                assert(next.settle().wf());
            }
        },
        _ => {},
    }
}

/// A transfer that has ended stays as it is: completion and failure are
/// final, whatever a further access returns.
pub proof fn lemma_end_is_final(s: TransferView, value: u16)
    requires
        s.phase == Phase::Done || s.phase is Failed,
    ensures
        s.step(value) == s,
        s.action() == BusAction::Done || s.action() is Failed,
{
}

/// A transfer fails only with [`Error::MemErr`], only once the bytes of the
/// current operation have moved (right after the last one, or right after a
/// status read), and only when the interrupt status last read reported a
/// master error.
pub proof fn lemma_failure_cause(s: TransferView, value: u16)
    requires
        s.wf(),
        !(s.phase is Failed),
        s.step(value).phase is Failed,
    ensures
        s.step(value).phase == (Phase::Failed { error: Error::MemErr }),
        s.step(value).status & int_stat::MERR != 0,
        s.phase == Phase::ReadStatus || s.phase == Phase::MoveByte || s.phase
            == Phase::AwaitCompletion,
        s.step(value).op == s.op,
{
}

/// An operation is acknowledged only when the interrupt status last read
/// reported completion and no master error.
pub proof fn lemma_acknowledge_cause(s: TransferView, value: u16)
    requires
        s.wf(),
        s.phase != Phase::Acknowledge,
        s.step(value).phase == Phase::Acknowledge,
    ensures
        s.step(value).status & int_stat::MCOMP != 0,
        s.step(value).status & int_stat::MERR == 0,
        s.step(value).op == s.op,
{
}

/// When the status shows neither completion nor error once the bytes of an
/// operation have moved, the transfer waits: it polls the interrupt status
/// of the same operation, and no byte moves again. Waiting ends only by
/// acknowledging the operation, by failing, or by polling once more.
pub proof fn lemma_incomplete_operation_waits(s: TransferView, value: u16, next: u16)
    requires
        s.wf(),
        s.phase == Phase::ReadStatus || s.phase == Phase::MoveByte || s.phase
            == Phase::AwaitCompletion,
        s.step(value).phase == Phase::AwaitCompletion,
    ensures
        s.step(value).op == s.op,
        s.step(value).status & int_stat::MCOMP == 0,
        s.step(value).status & int_stat::MERR == 0,
        s.step(value).action() == (BusAction::Read16 { addr: INT_STAT }),
        s.step(value).step(next).phase == Phase::AwaitCompletion || s.step(value).step(
            next,
        ).phase == Phase::Acknowledge || s.step(value).step(next).phase is Failed,
        s.step(value).step(next).bufs == s.step(value).bufs,
        s.step(value).step(next).op == s.op,
{
}

/// The master is enabled before any data moves: reading the master control
/// register leads to writing the control word back with the master-enable
/// bit set, the fast-mode bit as read, no override bit, and the number of
/// bytes of the transfer (its low eight bits) in the data-count field; only
/// then is the status of the first operation read.
pub proof fn lemma_master_enabled(s: TransferView, value: u16)
    requires
        s.wf(),
        s.phase == Phase::ReadControl,
    ensures
        s.step(value).phase == Phase::EnableMaster,
        s.step(value).action() == (BusAction::Write(
            MmioOp::Write16 { addr: MASTER_CTL, value: master_control(value, total_bytes(s.bufs)) },
        )),
        master_control(value, total_bytes(s.bufs)) & master_ctl::MEN != 0,
        master_control(value, total_bytes(s.bufs)) & master_ctl::FAST == value & master_ctl::FAST,
        master_control(value, total_bytes(s.bufs)) & (master_ctl::SDAOVR | master_ctl::SCLOVR) == 0,
        (master_control(value, total_bytes(s.bufs)) & master_ctl::MSK_DCNT) >> master_ctl::BITP_DCNT
            == total_bytes(s.bufs) % 0x100,
        s.step(value).step(value).phase == Phase::ReadStatus,
        s.step(value).step(value).op == 0,
{
    let n = (total_bytes(s.bufs) % 0x10000) as u16;
    assert((((n << 6u16) & 0x3FC0u16) >> 6u16) == n % 0x100) by (bit_vector);
    assert(((value & 0x0008u16) | ((n << 6u16) & 0x3FC0u16) | 0x0001u16) & 0x3FC0u16 == (n << 6u16)
        & 0x3FC0u16) by (bit_vector);
    assert(((value & 0x0008u16) | ((n << 6u16) & 0x3FC0u16) | 0x0001u16) & 0x0001u16 != 0)
        by (bit_vector);
    assert(((value & 0x0008u16) | ((n << 6u16) & 0x3FC0u16) | 0x0001u16) & 0x0008u16 == value
        & 0x0008u16) by (bit_vector);
    assert(((value & 0x0008u16) | ((n << 6u16) & 0x3FC0u16) | 0x0001u16) & (0x4000u16
        | 0x8000u16) == 0) by (bit_vector);
}

/// A transfer completes only from its final stop, once every operation was
/// acknowledged.
pub proof fn lemma_completion_cause(s: TransferView, value: u16)
    requires
        s.wf(),
        s.phase != Phase::Done,
        s.step(value).phase == Phase::Done,
    ensures
        s.phase == Phase::Stop,
        s.op == s.count(),
        s.count() > 0,
{
}

/// The directions never change, the buffers of write operations never
/// change, and a step changes at most one byte of one read buffer: when the
/// current byte of a read operation moves, it becomes the value read.
pub proof fn lemma_buffers_step(s: TransferView, value: u16)
    requires
        s.wf(),
    ensures
        s.step(value).kinds == s.kinds,
        s.step(value).address == s.address,
        s.step(value).bufs.len() == s.bufs.len(),
        forall|i: int|
            0 <= i < s.count() && s.kinds[i] == OpKind::Write ==> #[trigger] s.step(value).bufs[i]
                == s.bufs[i],
        forall|i: int|
            0 <= i < s.count() && i != s.op ==> #[trigger] s.step(value).bufs[i] == s.bufs[i],
        s.phase == Phase::MoveByte && s.kinds[s.op] == OpKind::Read ==> s.step(value).bufs[s.op]
            == s.bufs[s.op].update(s.byte, value as u8),
        !(s.phase == Phase::MoveByte && s.kinds[s.op] == OpKind::Read) ==> s.step(value).bufs
            == s.bufs,
{
}

impl adi_twi_i2c {
    /// Starts a transfer of `operations` to
    /// the target at `address`. With no operations the transfer is complete
    /// at once and touches no register; otherwise it begins by setting the
    /// controller up.
    pub fn transaction(&mut self, address: u8, operations: Vec<Operation>) -> (r: Transfer)
        ensures
            r.wf(),
            r@.wf(),
            r@.address == address,
            r@.kinds == kinds_of(operations@),
            r@.bufs == buffers_of(operations@),
            r@.op == 0,
            r@.phase == if operations.len() == 0 {
                Phase::Done
            } else {
                Phase::Configure { step: 0 }
            },
    {
        let mut configure: Vec<MmioOp> = Vec::new();
        adi_twi_i2c::init(&mut configure);
        let mut prepare: Vec<MmioOp> = Vec::new();
        prepare.push(MmioOp::Write16 { addr: MASTER_ADDR, value: address as u16 });
        // clear the FIFOs
        prepare.push(MmioOp::Write16 { addr: FIFO_CTL, value: fifo_ctl::XMTFLUSH | fifo_ctl::RCVFLUSH });
        prepare.push(MmioOp::Write16 { addr: FIFO_CTL, value: 0 });
        // clear the status
        prepare.push(MmioOp::Write16 { addr: MASTER_STAT, value: 0xFFFF });
        prepare.push(MmioOp::Write16 { addr: INT_STAT, value: 0xFFFF });
        prepare.push(MmioOp::Write16 { addr: INT_MASK, value: 0 });
        let phase = if operations.len() == 0 {
            Phase::Done
        } else {
            Phase::Configure { step: 0 }
        };
        let r = Transfer {
            address,
            ops: operations,
            configure,
            prepare,
            phase,
            op: 0,
            byte: 0,
            status: 0,
            control: 0,
        };
        proof {
            assert(r.configure@ =~= init_writes());
            assert(r.prepare@ =~= prepare_writes(address));
        }
        r
    }
}

/// Every run keeps a transfer reachable and its operations' directions, and
/// a run from an ended transfer leaves it as it is.
pub proof fn lemma_run_wf(s: TransferView, values: Seq<u16>)
    requires
        s.wf(),
    ensures
        s.run(values).wf(),
        s.run(values).kinds == s.kinds,
        (s.phase == Phase::Done || s.phase is Failed) ==> s.run(values) == s,
    decreases values.len(),
{
    if values.len() > 0 {
        lemma_step_wf(s, values[0]);
        lemma_buffers_step(s, values[0]);
        lemma_run_wf(s.step(values[0]), values.drop_first());
    }
}

/// How a run can end in failure: with [`Error::MemErr`] only, and only when
/// an interrupt-status read during the run returned a master error, unless
/// the run started while the bytes of an operation were moving after such a
/// status had been read.
proof fn lemma_run_failure_cause(s: TransferView, values: Seq<u16>)
    requires
        s.wf(),
        !(s.phase is Failed),
        s.run(values).phase is Failed,
    ensures
        s.run(values).phase == (Phase::Failed { error: Error::MemErr }),
        (exists|k: int|
            0 <= k < values.len() && #[trigger] s.run(values.take(k)).action() == (BusAction::Read16 {
                addr: INT_STAT,
            }) && values[k] & int_stat::MERR != 0) || ((s.phase == Phase::AwaitByte || s.phase
            == Phase::MoveByte) && s.status & int_stat::MERR != 0),
    decreases values.len(),
{
    let v = values[0];
    let t = s.step(v);
    let rest = values.drop_first();
    lemma_step_wf(s, v);
    assert(values.take(0) =~= Seq::<u16>::empty());
    if t.phase is Failed {
        lemma_failure_cause(s, v);
        lemma_run_wf(t, rest);
        if s.phase != Phase::MoveByte {
            assert(s.run(values.take(0)).action() == (BusAction::Read16 { addr: INT_STAT }));
        }
    } else {
        lemma_run_failure_cause(t, rest);
        if exists|k: int|
            0 <= k < rest.len() && #[trigger] t.run(rest.take(k)).action() == (BusAction::Read16 {
                addr: INT_STAT,
            }) && rest[k] & int_stat::MERR != 0 {
            let k = choose|k: int|
                0 <= k < rest.len() && #[trigger] t.run(rest.take(k)).action() == (
                BusAction::Read16 { addr: INT_STAT }) && rest[k] & int_stat::MERR != 0;
            assert(values.take(k + 1).drop_first() =~= rest.take(k));
            assert(s.run(values.take(k + 1)) == t.run(rest.take(k)));
        } else {
            if s.phase == Phase::ReadStatus {
                assert(s.run(values.take(0)).action() == (BusAction::Read16 { addr: INT_STAT }));
            }
        }
    }
}

/// A transfer fails only with [`Error::MemErr`], and only when one of the
/// interrupt-status reads of the run returned a master error: from a fresh
/// transfer, `values` being what each access returned, in order.
pub proof fn lemma_run_fails_only_on_master_error(s: TransferView, values: Seq<u16>)
    requires
        s.wf(),
        s.phase == (Phase::Configure { step: 0 }) || s.phase == Phase::Done,
        s.run(values).phase is Failed,
    ensures
        s.run(values).phase == (Phase::Failed { error: Error::MemErr }),
        exists|k: int|
            0 <= k < values.len() && #[trigger] s.run(values.take(k)).action() == (BusAction::Read16 {
                addr: INT_STAT,
            }) && values[k] & int_stat::MERR != 0,
{
    lemma_run_failure_cause(s, values);
}

/// A run that completes a transfer acknowledged every operation: the
/// transfer is past its last one, and the last access turned the controller
/// off (unless there were no operations at all).
pub proof fn lemma_run_completion(s: TransferView, values: Seq<u16>)
    requires
        s.wf(),
        s.phase != Phase::Done,
        s.run(values).phase == Phase::Done,
    ensures
        s.run(values).op == s.count(),
        s.count() > 0,
        values.len() > 0,
        exists|k: int|
            0 <= k < values.len() && #[trigger] s.run(values.take(k)).phase == Phase::Stop,
    decreases values.len(),
{
    lemma_run_wf(s, values);
    if values.len() == 0 {
    } else {
        let t = s.step(values[0]);
        let rest = values.drop_first();
        lemma_step_wf(s, values[0]);
        assert(values.take(0) =~= Seq::<u16>::empty());
        if t.phase == Phase::Done {
            lemma_completion_cause(s, values[0]);
            assert(s.run(values.take(0)).phase == Phase::Stop);
        } else {
            lemma_run_completion(t, rest);
            let k = choose|k: int| 0 <= k < rest.len() && #[trigger] t.run(rest.take(k)).phase
                == Phase::Stop;
            assert(values.take(k + 1).drop_first() =~= rest.take(k));
            assert(s.run(values.take(k + 1)) == t.run(rest.take(k)));
        }
    }
}

/// Waiting for a free bus before each data byte: while the transfer waits,
/// a master status with the bus-busy bit (0x0100) set changes nothing, so
/// the next access is again a read of the master status register
/// (0x31001618); a status with that bit clear lets the byte move next.
pub proof fn lemma_byte_waits_for_free_bus(s: TransferView, value: u16)
    requires
        s.wf(),
        s.phase == Phase::AwaitByte,
    ensures
        s.action() == (BusAction::Read16 { addr: 0x31001618 }),
        value & 0x0100 != 0 ==> s.step(value) == s,
        value & 0x0100 != 0 ==> s.step(value).action() == (BusAction::Read16 { addr: 0x31001618 }),
        value & 0x0100 == 0 ==> s.step(value).phase == Phase::MoveByte && s.step(value).op == s.op
            && s.step(value).byte == s.byte && s.step(value).bufs == s.bufs,
{
}

/// A data byte moves only right after a read of the master status register
/// (0x31001618) that showed the bus free (bit 0x0100 clear): every step
/// into the byte-moving phase comes from the wait for a free bus, on such a
/// value. A byte written then is the current byte of the write operation,
/// stored to the transmit register (0x31001680).
pub proof fn lemma_byte_moves_only_on_free_bus(s: TransferView, value: u16)
    requires
        s.wf(),
        s.phase != Phase::MoveByte,
        s.step(value).phase == Phase::MoveByte,
    ensures
        s.phase == Phase::AwaitByte,
        s.action() == (BusAction::Read16 { addr: 0x31001618 }),
        value & 0x0100 == 0,
        s.kinds[s.op] == OpKind::Write ==> s.step(value).action() == (BusAction::Write(
            MmioOp::Write8 { addr: 0x31001680, value: s.bufs[s.op][s.byte] },
        )),
        s.kinds[s.op] == OpKind::Read ==> s.step(value).action() == (BusAction::Read8 {
            addr: 0x31001688,
        }),
{
}

/// The controller is addressed only once the bus is free: while the
/// transfer waits after its setup, a master status with the bus-busy bit
/// set changes nothing, and one with it clear leads to the first addressing
/// write.
pub proof fn lemma_addressing_waits_for_free_bus(s: TransferView, value: u16)
    requires
        s.wf(),
        s.phase == Phase::AwaitIdle,
    ensures
        s.action() == (BusAction::Read16 { addr: 0x31001618 }),
        value & 0x0100 != 0 ==> s.step(value) == s,
        value & 0x0100 == 0 ==> s.step(value).phase == (Phase::Prepare { step: 0 }),
{
}

/// The target is addressed as given: the first write after the bus is
/// free stores the 7-bit address, zero-extended and otherwise unchanged, to
/// the master address register (0x3100161C).
pub proof fn lemma_target_address(s: TransferView)
    requires
        s.wf(),
        s.phase == (Phase::Prepare { step: 0 }),
    ensures
        exists|v: u16|
            s.action() == (BusAction::Write(MmioOp::Write16 { addr: 0x3100161C, value: v }))
                && v as int == s.address as int,
{
    let v = s.address as u16;
    assert(s.action() == (BusAction::Write(MmioOp::Write16 { addr: 0x3100161C, value: v })));
}

/// A transfer addresses the target it was started for: its address is the
/// argument, kept by every step.
pub proof fn lemma_address_kept(s: TransferView, values: Seq<u16>)
    requires
        s.wf(),
    ensures
        s.run(values).address == s.address,
    decreases values.len(),
{
    if values.len() > 0 {
        lemma_step_wf(s, values[0]);
        lemma_buffers_step(s, values[0]);
        lemma_address_kept(s.step(values[0]), values.drop_first());
    }
}

/// Setting the bus speed writes, in order: the divider register
/// (0x31001600) twice with a word whose low and high bytes both hold the low
/// byte of 5 MHz divided by the speed; a zero to the interrupt status
/// (0x31001620); and to the master control register (0x31001614) the
/// fast-mode bit 0x0008 above 100 kHz, zero otherwise. The control register
/// (0x31001604) is not written.
pub proof fn lemma_bus_speed(speed: u32)
    requires
        speed != 0,
    ensures
        bus_speed_writes(speed).len() == 4,
        bus_speed_writes(speed)[0] == bus_speed_writes(speed)[1],
        bus_speed_writes(speed)[0] matches MmioOp::Write16 { addr, value } && addr == 0x31001600
            && value & 0xFF == (5_000_000int / speed as int) % 0x100 && value >> 8 == (5_000_000int
            / speed as int) % 0x100,
        bus_speed_writes(speed)[2] == (MmioOp::Write16 { addr: 0x31001620, value: 0 }),
        bus_speed_writes(speed)[3] == (MmioOp::Write16 {
            addr: 0x31001614,
            value: if speed > 100_000 { 0x0008 } else { 0 },
        }),
        forall|k: int|
            0 <= k < 4 ==> !(#[trigger] bus_speed_writes(speed)[k] matches MmioOp::Write16 {
                addr,
                ..
            } && addr == 0x31001604),
{
    let q: u32 = 5_000_000u32 / speed;
    let d = q as u16;
    assert(d == q % 0x10000) by (bit_vector)
        requires
            d == q as u16,
    ;
    assert(((d << 8u16) | (d & 0xFFu16)) & 0xFFu16 == d % 0x100 && ((d << 8u16) | (d & 0xFFu16))
        >> 8u16 == d % 0x100) by (bit_vector);
    assert((q % 0x10000) % 0x100 == q % 0x100) by (nonlinear_arith);
}

/// The register accesses of a transfer, by phase: the status of an
/// operation is read from the interrupt status (0x31001620); a received byte
/// from the one-byte receive register (0x31001688); an operation is
/// acknowledged by writing the completion bit 0x0010 to the interrupt
/// status; the transfer ends by writing zero to the control register
/// (0x31001604). The addressing writes are, in order: the address to
/// 0x3100161C, both FIFO flush bits (0x0003) then zero to the FIFO control
/// (0x31001628), all ones to the master status (0x31001618) and the
/// interrupt status, and zero to the interrupt mask (0x31001624).
pub proof fn lemma_transfer_accesses(s: TransferView)
    requires
        s.wf(),
    ensures
        (s.phase == Phase::ReadStatus || s.phase == Phase::AwaitCompletion) ==> s.action() == (
        BusAction::Read16 { addr: 0x31001620 }),
        s.phase == Phase::Acknowledge ==> s.action() == (BusAction::Write(
            MmioOp::Write16 { addr: 0x31001620, value: 0x0010 },
        )),
        s.phase == Phase::Stop ==> s.action() == (BusAction::Write(
            MmioOp::Write16 { addr: 0x31001604, value: 0 },
        )),
        s.phase == Phase::ReadControl ==> s.action() == (BusAction::Read16 { addr: 0x31001614 }),
        s.phase == Phase::Done ==> s.action() == BusAction::Done,
        prepare_writes(s.address) == seq![
            MmioOp::Write16 { addr: 0x3100161C, value: s.address as u16 },
            MmioOp::Write16 { addr: 0x31001628, value: 0x0003 },
            MmioOp::Write16 { addr: 0x31001628, value: 0 },
            MmioOp::Write16 { addr: 0x31001618, value: 0xFFFF },
            MmioOp::Write16 { addr: 0x31001620, value: 0xFFFF },
            MmioOp::Write16 { addr: 0x31001624, value: 0 },
        ],
{
    assert(0x0001u16 | 0x0002u16 == 0x0003u16) by (bit_vector);
}

} // verus!
