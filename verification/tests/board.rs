use mainboard::h616::{
    aarch64_entry, blink, bt0_main_setup, bt32_main_setup, get_el, print_hex, rv_bar,
    shift_and_hex, sleep, APB2_CFG_REG, GPIO_PORTH_CFG0, GPIO_PORTH_DATA, GPIO_PORTH_PULL,
    PH6_HIGH, PH6_OUT, RVBAR, UART_BGR_REG,
};
use mainboard::mmio::MmioOp;
use mainboard::sc5xx_init::{
    disable_board_leds, disable_spu, disable_spu_wp, enable_board_leds,
    init_sc59x_peripheral_access, set_smpus, LED_PORT1, LED_PORT2, SPU0, SPU0_WP,
};
use mainboard::uart::{adi_uart, CLOCK, CONTROL, STATUS};

fn w32(addr: usize, value: u32) -> MmioOp {
    MmioOp::Write32 { addr, value }
}

#[test]
fn uart_init_registers() {
    let u = adi_uart::new();
    let mut out = Vec::new();
    u.init(115200, &mut out);
    // (25 MHz / 57600) / 115200 rounds down to zero
    assert_eq!(out, vec![w32(CONTROL, 0x301), w32(STATUS, 0xFFFF_FFFF), w32(CLOCK, 0)]);
    let mut out = Vec::new();
    u.init(2, &mut out);
    assert_eq!(out[2], w32(CLOCK, 12_500_000 & 0xFFFF));
    let mut out = Vec::new();
    u.init(100, &mut out);
    assert_eq!(out[2], w32(CLOCK, (25_000_000 / 50) / 100));
}

#[test]
fn uart_ready_flags() {
    let u = adi_uart::new();
    assert!(u.ready(true, 0x20));
    assert!(!u.ready(true, 0x01));
    assert!(u.ready(false, 0x01));
    assert!(!u.ready(false, 0x20));
    assert!(u.ready(true, 0xFF) && u.ready(false, 0xFF));
}

#[test]
fn uart_line_encoding() {
    let u = adi_uart::new();
    assert_eq!(u.write_str("Hello, oreboot!\n"), b"Hello, oreboot!\r\n".to_vec());
    assert_eq!(u.write_str("a\nb"), b"a\r\nb".to_vec());
    assert_eq!(u.write_str(""), Vec::<u8>::new());
    assert_eq!(u.write_str("\n\n"), b"\r\n\r\n".to_vec());
    // a carriage return already in the text is kept
    assert_eq!(u.write_str("x\r\n"), b"x\r\r\n".to_vec());
}

#[test]
fn uart_line_encoding_round_trip() {
    let u = adi_uart::new();
    let text = "one\ntwo\r\nthree\n";
    let line = u.write_str(text);
    // drop each carriage return that stands right before a line feed,
    // working from the end
    let mut back: Vec<u8> = Vec::new();
    let mut i = line.len();
    while i > 0 {
        if i >= 2 && line[i - 1] == b'\n' && line[i - 2] == b'\r' {
            back.push(b'\n');
            i -= 2;
        } else {
            back.push(line[i - 1]);
            i -= 1;
        }
    }
    back.reverse();
    assert_eq!(back, text.as_bytes().to_vec());
    assert_eq!(line.len(), text.len() + 3);
}

#[test]
fn hex_lines() {
    let mut out = Vec::new();
    print_hex(&mut out, 0xDEADBEEF);
    assert_eq!(out, b"0xDEADBEEF\r\n".to_vec());
    let mut out = vec![b'>'];
    print_hex(&mut out, 0);
    assert_eq!(out, b">0x00000000\r\n".to_vec());
    let mut out = Vec::new();
    print_hex(&mut out, 0x0123_ABCD);
    assert_eq!(out, b"0x0123ABCD\r\n".to_vec());
}

#[test]
fn hex_line_reads_back() {
    for i in [0u32, 1, 9, 10, 0xF, 0x1234_5678, 0x8000_0000, 0xFFFF_FFFF] {
        let mut out = Vec::new();
        print_hex(&mut out, i);
        let digits = String::from_utf8(out[2..10].to_vec()).unwrap();
        assert_eq!(u32::from_str_radix(&digits, 16).unwrap(), i);
    }
}

#[test]
fn hex_digit_of_nibble() {
    assert_eq!(shift_and_hex(0xABCD, 4), b'C');
    assert_eq!(shift_and_hex(0xABCD, 0), b'D');
    assert_eq!(shift_and_hex(0x9000_0000, 28), b'9');
    assert_eq!(shift_and_hex(0xA000_0000, 28), b'A');
    assert_eq!(shift_and_hex(0x1234, 31), b'0');
}

#[test]
fn led_blink() {
    let mut out = Vec::new();
    blink(20, &mut out);
    assert_eq!(
        out,
        vec![
            w32(GPIO_PORTH_DATA, PH6_HIGH),
            MmioOp::Delay { cycles: 20 * 0x10000 },
            w32(GPIO_PORTH_DATA, 0),
            MmioOp::Delay { cycles: 20 * 0x10000 },
        ]
    );
}

#[test]
fn small_helpers() {
    assert_eq!(get_el(0x1D3), 0x13);
    assert_eq!(get_el(0xFFFF_FFFF), 0x1F);
    assert_eq!(rv_bar(), RVBAR);
    assert_eq!(rv_bar(), 0x0901_0040);
    assert_eq!(aarch64_entry(0x0002_0000), 0x0002_0004);
    sleep(0);
    sleep(1000);
}

#[test]
fn console_setup_sequences() {
    let mut out = Vec::new();
    bt0_main_setup(&mut out);
    let expected = vec![
        MmioOp::Update32 { addr: APB2_CFG_REG, clear: 0x0300_0000, set: 0 },
        MmioOp::Update32 { addr: GPIO_PORTH_CFG0, clear: 0xFF, set: 0x22 },
        MmioOp::Update32 { addr: GPIO_PORTH_PULL, clear: 0xF, set: 0x5 },
        MmioOp::Update32 { addr: UART_BGR_REG, clear: 1 << 16, set: 1 << 16 },
        MmioOp::Update32 { addr: UART_BGR_REG, clear: 1, set: 1 },
    ];
    assert_eq!(out, expected);
    assert_eq!(APB2_CFG_REG, 0x0300_1524);
    let mut out32 = Vec::new();
    bt32_main_setup(&mut out32);
    assert_eq!(out32.len(), 6);
    assert_eq!(out32[0], expected[0]);
    assert_eq!(out32[1], w32(GPIO_PORTH_CFG0, PH6_OUT));
    assert_eq!(out32[2..].to_vec(), expected[1..].to_vec());
}

#[test]
fn register_updates() {
    let apb = MmioOp::Update32 { addr: APB2_CFG_REG, clear: 0x0300_0000, set: 0 };
    assert_eq!(apb.apply(0xFFFF_FFFF), 0xFCFF_FFFF);
    let pins = MmioOp::Update32 { addr: GPIO_PORTH_CFG0, clear: 0xFF, set: 0x22 };
    assert_eq!(pins.apply(0x7777_7777), 0x7777_7722);
    // applying an update twice is applying it once
    assert_eq!(pins.apply(pins.apply(0x1234_5678)), pins.apply(0x1234_5678));
    assert_eq!(w32(0, 7).apply(99), 7);
    assert_eq!(MmioOp::Write16 { addr: 0, value: 0xBEEF }.apply(1), 0xBEEF);
    assert_eq!(MmioOp::Write8 { addr: 0, value: 0x12 }.apply(1), 0x12);
    assert_eq!(MmioOp::Delay { cycles: 5 }.apply(42), 42);
}

#[test]
fn leds() {
    let mut out = Vec::new();
    enable_board_leds(&mut out);
    assert_eq!(out, vec![w32(LED_PORT1, 0xE), w32(LED_PORT2, 0xE)]);
    let mut out = Vec::new();
    disable_board_leds(0xFFFF_FFFF, 0xE, &mut out);
    assert_eq!(out, vec![w32(LED_PORT1, 0xFFFF_FFF1), w32(LED_PORT2, 0)]);
    assert_eq!(LED_PORT1, 0x3100411C);
    assert_eq!(LED_PORT2, 0x3100410C);
}

#[test]
fn protection_units() {
    let mut out = Vec::new();
    disable_spu(&mut out);
    assert_eq!(out.len(), 214);
    assert_eq!(out[0], w32(SPU0, 0));
    assert_eq!(out[213], w32(SPU0 + 213 * 4, 0));
    let mut out = Vec::new();
    disable_spu_wp(&mut out);
    assert_eq!(out[1], w32(SPU0_WP + 4, 0));
    let mut out = Vec::new();
    set_smpus(&mut out);
    assert_eq!(out.len(), 9);
    assert_eq!(out[0], w32(0x31007800, 0x500));
    assert_eq!(out[8], w32(0x31012800, 0x500));
    let mut out = Vec::new();
    init_sc59x_peripheral_access(&mut out);
    assert_eq!(out.len(), 214 * 2 + 9);
    assert_eq!(out[214], w32(SPU0_WP, 0));
    assert_eq!(out[214 * 2], w32(0x31007800, 0x500));
    assert_eq!(out[214 * 2 + 6], w32(0x310A0800, 0x500));
}

#[test]
fn uart_byte_write() {
    let u = adi_uart::new();
    assert_eq!(u.write(b'A', 0x20), Some(MmioOp::Write8 { addr: mainboard::uart::THR, value: b'A' }));
    assert_eq!(u.write(b'A', 0x01), None);
    assert_eq!(u.write(b'\n', 0xFF), Some(MmioOp::Write8 { addr: mainboard::uart::THR, value: 10 }));
}
