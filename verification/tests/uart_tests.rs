use lzx::uart::{Uart, DLL, DLM, LCR, LSR, RBR, TBR};
use lzx::UartWrapper;

#[test]
fn register_addresses() {
    let u = Uart::new(0x1000_0000);
    assert_eq!(u.register_address(LSR), 0x1000_0005);
    assert_eq!(u.register_address(LCR), 0x1000_0003);
    assert_eq!(u.register_address(RBR), 0x1000_0000);
    assert_eq!(u.register_address(TBR), 0x1000_0000);
}

#[test]
fn init_sequence_values() {
    let u = Uart::new(0x1000_0000);
    let w = u.init_sequence(0x03);
    assert_eq!(
        w,
        vec![
            (0x1000_0000 + LCR, 0x83),
            (0x1000_0000 + DLL, 10),
            (0x1000_0000 + DLM, 0),
            (0x1000_0000 + LCR, 0x03),
        ]
    );
}

#[test]
fn init_sequence_sets_then_clears_dlab() {
    let u = Uart::new(0x2000);
    let w = u.init_sequence(0x00);
    assert_eq!(w[0].1 & 0x80, 0x80);
    assert_eq!(w[3].1 & 0x80, 0);
    let w = u.init_sequence(0xff);
    assert_eq!(w[0].1, 0xff);
}

#[test]
fn tx_ready_reads_bit_five() {
    assert!(Uart::tx_ready(0x20));
    assert!(Uart::tx_ready(0x60));
    assert!(!Uart::tx_ready(0x1f));
    assert!(!Uart::tx_ready(0x00));
}

#[test]
fn rx_ready_reads_bit_zero() {
    assert!(Uart::rx_ready(0x01));
    assert!(Uart::rx_ready(0x61));
    assert!(!Uart::rx_ready(0x20));
}

#[test]
fn wrapper_keeps_uart() {
    let u = Uart::new(0x1000_0000);
    let w = UartWrapper::new(&u);
    assert_eq!(w.uart().register_address(0), 0x1000_0000);
}
