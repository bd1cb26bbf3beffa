use lm4f120_hal::gpio::{GpioPort, Pin, PinMode, PortName};
use lm4f120_hal::regmap::GPIO_LOCK_KEY;
use lm4f120_hal::sysctl::SysCtl;

#[test]
fn set_direction_output_sets_only_that_pin() {
    let mut sc = SysCtl::new();
    let mut port = GpioPort::new(PortName::PortF, &mut sc);
    port.set_direction(Pin::Pin2, PinMode::Output);
    assert_eq!(port.dir, 0x04);
    assert_eq!(port.den, 0x04);
    assert_eq!(port.afsel, 0x00);
    assert_eq!(port.amsel, 0x00);
}

#[test]
fn set_direction_preserves_other_pins() {
    let mut sc = SysCtl::new();
    let mut port = GpioPort::new(PortName::PortB, &mut sc);
    port.set_direction(Pin::Pin3, PinMode::Input);
    port.set_direction(Pin::Pin5, PinMode::Analog);
    port.set_direction(Pin::Pin6, PinMode::Output);
    // reconfiguring one pin leaves every other pin's mode bit-for-bit
    port.set_direction(Pin::Pin2, PinMode::Peripheral);
    assert_eq!(port.get_mode(Pin::Pin2), PinMode::Peripheral);
    assert_eq!(port.get_mode(Pin::Pin3), PinMode::Input);
    assert_eq!(port.get_mode(Pin::Pin5), PinMode::Analog);
    assert_eq!(port.get_mode(Pin::Pin6), PinMode::Output);
    assert_eq!(port.get_mode(Pin::Pin0), PinMode::Input);
    // and again in the other direction
    port.set_direction(Pin::Pin6, PinMode::Analog);
    assert_eq!(port.get_mode(Pin::Pin2), PinMode::Peripheral);
    assert_eq!(port.get_mode(Pin::Pin3), PinMode::Input);
    assert_eq!(port.get_mode(Pin::Pin5), PinMode::Analog);
}

#[test]
fn gpio_clock_gates_accumulate() {
    let mut sc = SysCtl::new();
    let _a = GpioPort::new(PortName::PortA, &mut sc);
    let _f = GpioPort::new(PortName::PortF, &mut sc);
    assert_eq!(sc.rcgcgpio, 0x21);
}

#[test]
fn enable_ccp_muxes_the_pin() {
    let mut sc = SysCtl::new();
    let mut port = GpioPort::new(PortName::PortF, &mut sc);
    port.enable_ccp(Pin::Pin2);
    assert_eq!(port.get_mode(Pin::Pin2), PinMode::Peripheral);
    assert_eq!(port.den, 0x04);
    assert_eq!(port.pctl, 0x700);
    // PF2 is not protected: the lock register was never touched
    assert_eq!(port.lock, 0);
    assert_eq!(port.cr, 0);
}

#[test]
fn enable_ccp_unlocks_protected_pin() {
    let mut sc = SysCtl::new();
    let mut port = GpioPort::new(PortName::PortF, &mut sc);
    port.enable_ccp(Pin::Pin0);
    assert_eq!(port.lock, GPIO_LOCK_KEY);
    assert_eq!(port.cr, 0x01);
    assert_eq!(port.pctl, 0x007);
}
