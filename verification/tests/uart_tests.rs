use lm4f120_hal::gpio::{GpioPort, Pin, PinMode, PortName};
use lm4f120_hal::regmap::{GPIO_LOCK_KEY, UART0_BASE, UART7_BASE};
use lm4f120_hal::sysctl::SysCtl;
use lm4f120_hal::uart::{baud_divisor, uart_base, NewlineMode, ReadError, Uart, UartId};

#[test]
fn baud_divisor_115200() {
    // (66_000_000 * 8 / 115200 + 1) / 2 == 2292; 2292 / 64 == 35 rem 52
    let (ibrd, fbrd) = baud_divisor(115200);
    assert_eq!(ibrd, 35);
    assert_eq!(fbrd, 52);
}

#[test]
fn baud_divisor_9600() {
    // (66_000_000 * 8 / 9600 + 1) / 2 == 27500; 27500 / 64 == 429 rem 44
    let (ibrd, fbrd) = baud_divisor(9600);
    assert_eq!(ibrd, 429);
    assert_eq!(fbrd, 44);
}

#[test]
fn new_uart_is_fully_configured() {
    let mut sc = SysCtl::new();
    let mut port = GpioPort::new(PortName::PortA, &mut sc);
    let uart = Uart::new(UartId::Uart0, 115200, NewlineMode::SwapLFtoCRLF, &mut sc, &mut port);
    // clock gate for instance 0 open, others untouched
    assert_eq!(sc.rcgcuart, 0x01);
    // RX/TX pins PA0 and PA1 handed to the mux, digital on, code 1
    assert_eq!(port.afsel, 0x03);
    assert_eq!(port.den, 0x03);
    assert_eq!(port.pctl, 0x11);
    assert_eq!(port.get_mode(Pin::Pin0), PinMode::Peripheral);
    assert_eq!(port.get_mode(Pin::Pin1), PinMode::Peripheral);
    // divisor, line control, and the three enable bits together
    assert_eq!(uart.registers.ibrd, 35);
    assert_eq!(uart.registers.fbrd, 52);
    assert_eq!(uart.registers.lcrh, 0x60);
    assert_eq!(uart.registers.ctl, 0x301);
    assert!(uart.registers.tx.is_empty());
}

#[test]
fn uart2_unlocks_protected_pin() {
    let mut sc = SysCtl::new();
    let mut port = GpioPort::new(PortName::PortD, &mut sc);
    let _uart = Uart::new(UartId::Uart2, 115200, NewlineMode::Binary, &mut sc, &mut port);
    // PD7 is commit-protected: the key must be in the lock register and
    // the pin's commit bit set
    assert_eq!(port.lock, GPIO_LOCK_KEY);
    assert_eq!(port.cr, 0x80);
    // both pins muxed to function 1
    assert_eq!(port.pctl, 0x1100_0000);
}

#[test]
fn putc_appends_to_transcript() {
    let mut sc = SysCtl::new();
    let mut port = GpioPort::new(PortName::PortA, &mut sc);
    let mut uart = Uart::new(UartId::Uart0, 115200, NewlineMode::Binary, &mut sc, &mut port);
    uart.putc(0x55);
    uart.putc(0xAA);
    assert_eq!(uart.registers.tx, vec![0x55, 0xAA]);
}

#[test]
fn write_all_swaps_lf_to_crlf() {
    let mut sc = SysCtl::new();
    let mut port = GpioPort::new(PortName::PortA, &mut sc);
    let mut uart = Uart::new(UartId::Uart0, 115200, NewlineMode::SwapLFtoCRLF, &mut sc, &mut port);
    uart.write_all(b"A\nB");
    assert_eq!(uart.registers.tx, vec![b'A', b'\r', b'\n', b'B']);
}

#[test]
fn write_all_binary_passes_through() {
    let mut sc = SysCtl::new();
    let mut port = GpioPort::new(PortName::PortA, &mut sc);
    let mut uart = Uart::new(UartId::Uart0, 115200, NewlineMode::Binary, &mut sc, &mut port);
    uart.write_all(b"A\nB");
    assert_eq!(uart.registers.tx, vec![b'A', b'\n', b'B']);
}

#[test]
fn write_str_translates_like_write_all() {
    let mut sc = SysCtl::new();
    let mut port = GpioPort::new(PortName::PortA, &mut sc);
    let mut uart = Uart::new(UartId::Uart0, 115200, NewlineMode::SwapLFtoCRLF, &mut sc, &mut port);
    uart.write_str("hi\n");
    assert_eq!(uart.registers.tx, vec![b'h', b'i', b'\r', b'\n']);
}

#[test]
fn getc_try_would_block_on_empty_fifo() {
    let mut sc = SysCtl::new();
    let mut port = GpioPort::new(PortName::PortA, &mut sc);
    let mut uart = Uart::new(UartId::Uart0, 115200, NewlineMode::Binary, &mut sc, &mut port);
    assert_eq!(uart.getc_try(), Err(ReadError::WouldBlock));
    // a second poll still returns at once with the same answer
    assert_eq!(uart.getc_try(), Err(ReadError::WouldBlock));
}

#[test]
fn getc_try_returns_received_bytes_in_order() {
    let mut sc = SysCtl::new();
    let mut port = GpioPort::new(PortName::PortA, &mut sc);
    let mut uart = Uart::new(UartId::Uart0, 115200, NewlineMode::Binary, &mut sc, &mut port);
    uart.receive_byte(1);
    uart.receive_byte(2);
    uart.receive_byte(3);
    assert_eq!(uart.getc_try(), Ok(1));
    assert_eq!(uart.getc_try(), Ok(2));
    assert_eq!(uart.getc_try(), Ok(3));
    assert_eq!(uart.getc_try(), Err(ReadError::WouldBlock));
}

#[test]
fn uart_bases_match_the_memory_map() {
    assert_eq!(uart_base(UartId::Uart0), UART0_BASE);
    assert_eq!(uart_base(UartId::Uart3), 0x4000_F000);
    assert_eq!(uart_base(UartId::Uart7), UART7_BASE);
}
