use mainboard::i2c::{adi_twi_i2c, msg_flags, BusAction, Error, Operation, Phase};
use mainboard::i2c_regs::{
    clk_hi, clk_low, clk_speed, int_stat, master_stat, speed_to_duty_cycle, CLKDIV, CONTROL,
    FIFO_CTL, INT_MASK, INT_STAT, MASTER_ADDR, MASTER_CTL, MASTER_STAT, RCV_DATA8, XMT_DATA8,
};
use mainboard::mmio::MmioOp;

fn w16(addr: usize, value: u16) -> MmioOp {
    MmioOp::Write16 { addr, value }
}

fn init_ops() -> Vec<MmioOp> {
    vec![
        w16(CONTROL, 3),
        w16(CLKDIV, 0x0C0C),
        w16(CLKDIV, 0x0C0C),
        w16(INT_STAT, 0),
        w16(MASTER_CTL, 0x0008),
        w16(CONTROL, 0x0083),
    ]
}

#[test]
fn clock_fields() {
    assert_eq!(clk_low(0x1234), 0x34);
    assert_eq!(clk_hi(0x1234), 0x3400);
    assert_eq!(clk_low(0x30) | clk_hi(0x30), 0x3030);
    let word = clk_hi(0xAB) | clk_low(0xCD);
    assert_eq!(clk_low(word), 0xCD);
    assert_eq!(word >> 8, 0xAB);
}

#[test]
fn duty_cycles() {
    assert_eq!(speed_to_duty_cycle(400_000), 12);
    assert_eq!(speed_to_duty_cycle(100_000), 50);
    assert_eq!(speed_to_duty_cycle(5_000_000), 1);
    assert_eq!(speed_to_duty_cycle(6_000_000), 0);
    // truncated to 16 bits
    assert_eq!(speed_to_duty_cycle(1), (5_000_000u32 % 65536) as u16);
    assert_eq!(speed_to_duty_cycle(clk_speed::SPEED_MAX) + 1, clk_speed::DUTY_MAX);
}

#[test]
fn bus_speed_fast_and_standard() {
    let mut out = Vec::new();
    adi_twi_i2c::set_bus_speed(400_000, &mut out);
    assert_eq!(
        out,
        vec![w16(CLKDIV, 0x0C0C), w16(CLKDIV, 0x0C0C), w16(INT_STAT, 0), w16(MASTER_CTL, 0x0008)]
    );
    let mut out = Vec::new();
    adi_twi_i2c::set_bus_speed(100_000, &mut out);
    assert_eq!(
        out,
        vec![w16(CLKDIV, 0x3232), w16(CLKDIV, 0x3232), w16(INT_STAT, 0), w16(MASTER_CTL, 0)]
    );
    let mut out = vec![MmioOp::Delay { cycles: 1 }];
    adi_twi_i2c::set_bus_speed(100_001, &mut out);
    assert_eq!(out.len(), 5);
    assert_eq!(out[4], w16(MASTER_CTL, 0x0008));
    // the speed setting leaves the control register alone
    assert!(!out.iter().any(|op| matches!(op, MmioOp::Write16 { addr, .. } if *addr == CONTROL)));
    assert_eq!(out[1], w16(CLKDIV, 0x3131));
}

#[test]
fn init_and_new() {
    let mut out = Vec::new();
    adi_twi_i2c::init(&mut out);
    assert_eq!(out, init_ops());
    let mut out = Vec::new();
    let _i2c = adi_twi_i2c::new(&mut out);
    assert_eq!(out, init_ops());
}

#[test]
fn bus_busy_flag() {
    assert!(adi_twi_i2c::check_bus_busy(master_stat::BUSBUSY));
    assert!(adi_twi_i2c::check_bus_busy(0xFFFF));
    assert!(!adi_twi_i2c::check_bus_busy(0xFEFF));
    assert!(!adi_twi_i2c::check_bus_busy(0));
}

#[test]
fn stop_turns_off() {
    let mut out = Vec::new();
    assert_eq!(adi_twi_i2c::stop(&mut out), Ok(()));
    assert_eq!(out, vec![w16(CONTROL, 0)]);
}

#[test]
fn error_and_flags() {
    let e = Error::MemErr;
    let f = e;
    assert_eq!(e, f);
    assert_ne!(Error::BusBusy, Error::Timeout);
    assert_ne!(msg_flags::COMBO, msg_flags::READ);
    assert_eq!(msg_flags::STOP, msg_flags::STOP);
}

/// A simulated controller: what each register read returns.
struct Device {
    idle_polls_busy: usize,
    statuses: Vec<u16>,
    received: Vec<u8>,
}

fn run(mut t: mainboard::i2c::Transfer, dev: &mut Device) -> (Vec<BusAction>, Result<(), Error>, mainboard::i2c::Transfer) {
    let mut log = Vec::new();
    for _ in 0..1000 {
        let a = t.action();
        log.push(a);
        let value: u16 = match a {
            BusAction::Done => return (log, Ok(()), t),
            BusAction::Failed(e) => return (log, Err(e), t),
            BusAction::Write(_) => 0,
            BusAction::Read16 { addr } => {
                if addr == MASTER_STAT {
                    if dev.idle_polls_busy > 0 {
                        dev.idle_polls_busy -= 1;
                        master_stat::BUSBUSY
                    } else {
                        0
                    }
                } else if addr == MASTER_CTL {
                    0x00FF
                } else if addr == INT_STAT {
                    dev.statuses.remove(0)
                } else {
                    panic!("unexpected read")
                }
            }
            BusAction::Read8 { addr } => {
                assert_eq!(addr, RCV_DATA8);
                dev.received.remove(0) as u16
            }
        };
        t.advance(value);
    }
    panic!("transfer did not end")
}

#[test]
fn empty_transaction_touches_nothing() {
    let mut i2c = adi_twi_i2c;
    let t = i2c.transaction(0x22, Vec::new());
    assert_eq!(t.action(), BusAction::Done);
    let mut dev = Device { idle_polls_busy: 0, statuses: vec![], received: vec![] };
    let (log, r, _) = run(t, &mut dev);
    assert_eq!(log, vec![BusAction::Done]);
    assert_eq!(r, Ok(()));
}

#[test]
fn write_then_read_transaction() {
    let mut i2c = adi_twi_i2c;
    let ops = vec![Operation::Write(vec![0xAA, 0x55]), Operation::Read(vec![0, 0])];
    let t = i2c.transaction(0x22, ops);
    let mut dev = Device {
        idle_polls_busy: 1,
        statuses: vec![int_stat::MCOMP, int_stat::MCOMP],
        received: vec![0x12, 0x34],
    };
    let (log, r, t) = run(t, &mut dev);
    assert_eq!(r, Ok(()));
    let mut expected: Vec<BusAction> = init_ops().into_iter().map(BusAction::Write).collect();
    expected.push(BusAction::Read16 { addr: MASTER_STAT });
    expected.push(BusAction::Read16 { addr: MASTER_STAT });
    for w in [
        w16(MASTER_ADDR, 0x22),
        w16(FIFO_CTL, 0x0003),
        w16(FIFO_CTL, 0),
        w16(MASTER_STAT, 0xFFFF),
        w16(INT_STAT, 0xFFFF),
        w16(INT_MASK, 0),
    ] {
        expected.push(BusAction::Write(w));
    }
    expected.push(BusAction::Read16 { addr: MASTER_CTL });
    // enable master: fast bit as read (0x00FF), four bytes in all, MEN
    expected.push(BusAction::Write(w16(MASTER_CTL, 0x0008 | (4 << 6) | 0x0001)));
    // first operation: status, then two bytes out
    expected.push(BusAction::Read16 { addr: INT_STAT });
    expected.push(BusAction::Read16 { addr: MASTER_STAT });
    expected.push(BusAction::Write(MmioOp::Write8 { addr: XMT_DATA8, value: 0xAA }));
    expected.push(BusAction::Read16 { addr: MASTER_STAT });
    expected.push(BusAction::Write(MmioOp::Write8 { addr: XMT_DATA8, value: 0x55 }));
    expected.push(BusAction::Write(w16(INT_STAT, int_stat::MCOMP)));
    // second operation: status, then two bytes in
    expected.push(BusAction::Read16 { addr: INT_STAT });
    expected.push(BusAction::Read16 { addr: MASTER_STAT });
    expected.push(BusAction::Read8 { addr: RCV_DATA8 });
    expected.push(BusAction::Read16 { addr: MASTER_STAT });
    expected.push(BusAction::Read8 { addr: RCV_DATA8 });
    expected.push(BusAction::Write(w16(INT_STAT, int_stat::MCOMP)));
    expected.push(BusAction::Write(w16(CONTROL, 0)));
    expected.push(BusAction::Done);
    assert_eq!(log, expected);
    let ops = t.into_operations();
    match &ops[0] {
        Operation::Write(d) => assert_eq!(d, &vec![0xAA, 0x55]),
        Operation::Read(_) => panic!("direction changed"),
    }
    match &ops[1] {
        Operation::Read(d) => assert_eq!(d, &vec![0x12, 0x34]),
        Operation::Write(_) => panic!("direction changed"),
    }
}

#[test]
fn master_error_fails_without_stop() {
    let mut i2c = adi_twi_i2c;
    let ops = vec![Operation::Write(vec![1]), Operation::Write(vec![2])];
    let t = i2c.transaction(0x10, ops);
    let mut dev = Device {
        idle_polls_busy: 0,
        statuses: vec![int_stat::MCOMP | int_stat::MERR],
        received: vec![],
    };
    let (log, r, t) = run(t, &mut dev);
    assert_eq!(r, Err(Error::MemErr));
    // the byte of the failed operation still went out, and the controller
    // was not stopped
    let n = log.len();
    assert_eq!(log[n - 2], BusAction::Write(MmioOp::Write8 { addr: XMT_DATA8, value: 1 }));
    assert!(!log.contains(&BusAction::Write(w16(CONTROL, 0))));
    assert_eq!(t.action(), BusAction::Failed(Error::MemErr));
}

#[test]
fn incomplete_operation_waits_without_resending() {
    let mut i2c = adi_twi_i2c;
    let ops = vec![Operation::Read(vec![0])];
    let t = i2c.transaction(0x10, ops);
    let mut dev = Device {
        idle_polls_busy: 0,
        statuses: vec![0, 0, int_stat::MCOMP],
        received: vec![0x77, 0x99],
    };
    let (log, r, t) = run(t, &mut dev);
    assert_eq!(r, Ok(()));
    let reads = log.iter().filter(|a| **a == BusAction::Read8 { addr: RCV_DATA8 }).count();
    assert_eq!(reads, 1);
    let status_reads = log.iter().filter(|a| **a == BusAction::Read16 { addr: INT_STAT }).count();
    assert_eq!(status_reads, 3);
    match &t.into_operations()[0] {
        Operation::Read(d) => assert_eq!(d, &vec![0x77]),
        Operation::Write(_) => panic!("direction changed"),
    }
}

#[test]
fn single_byte_write_sent_once() {
    let mut i2c = adi_twi_i2c;
    let t = i2c.transaction(0x22, vec![Operation::Write(vec![0xAB])]);
    let mut dev = Device { idle_polls_busy: 0, statuses: vec![0, int_stat::MCOMP], received: vec![] };
    let (log, r, _) = run(t, &mut dev);
    assert_eq!(r, Ok(()));
    let data: Vec<usize> = log
        .iter()
        .enumerate()
        .filter(|(_, a)| matches!(a, BusAction::Write(MmioOp::Write8 { addr, .. }) if *addr == XMT_DATA8))
        .map(|(k, _)| k)
        .collect();
    assert_eq!(data.len(), 1);
    assert_eq!(log[data[0]], BusAction::Write(MmioOp::Write8 { addr: XMT_DATA8, value: 0xAB }));
    // the master was enabled (fast bit as read: the simulated register reads
    // 0x00FF) before the byte moved
    let enable = log
        .iter()
        .position(|a| matches!(a, BusAction::Write(MmioOp::Write16 { addr, value }) if *addr == MASTER_CTL && value & 0x0001 != 0))
        .unwrap();
    assert!(enable < data[0]);
    assert_eq!(log[enable], BusAction::Write(w16(MASTER_CTL, 0x0008 | (1 << 6) | 0x0001)));
}

#[test]
fn empty_operation_settles_on_status() {
    let mut i2c = adi_twi_i2c;
    let t = i2c.transaction(0x10, vec![Operation::Write(vec![])]);
    let mut dev = Device { idle_polls_busy: 0, statuses: vec![int_stat::MERR], received: vec![] };
    let (log, r, _) = run(t, &mut dev);
    assert_eq!(r, Err(Error::MemErr));
    assert_eq!(log[log.len() - 2], BusAction::Read16 { addr: INT_STAT });
}

#[test]
fn phases_start_at_configuration() {
    let mut i2c = adi_twi_i2c;
    let mut t = i2c.transaction(0x10, vec![Operation::Read(vec![0; 3])]);
    assert_eq!(t.action(), BusAction::Write(w16(CONTROL, 3)));
    t.advance(0);
    assert_eq!(t.action(), BusAction::Write(w16(CLKDIV, 0x0C0C)));
    assert_eq!(t.operation(0).len(), 3);
    let _ = Phase::Done;
}

#[test]
fn data_count_holds_low_byte_of_total() {
    let mut i2c = adi_twi_i2c;
    let ops = vec![Operation::Write(vec![0; 200]), Operation::Read(vec![0; 100])];
    let mut t = i2c.transaction(0x10, ops);
    // walk to the master-control read, which returns 0 (standard timing)
    while t.action() != (BusAction::Read16 { addr: MASTER_CTL }) {
        t.advance(0);
    }
    t.advance(0);
    // 300 bytes: the field keeps 300 % 256 = 44
    assert_eq!(t.action(), BusAction::Write(w16(MASTER_CTL, (44 << 6) | 0x0001)));
}
