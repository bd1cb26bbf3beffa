//! GPIO controller: pin direction and mode configuration, and muxing of
//! pins to peripheral functions. Every operation is a read-modify-write
//! that provably touches only the bits owned by the pin it is given.

use vstd::prelude::*;

use crate::bits::bit;
use crate::bits::lemma_clear_bit;
use crate::bits::lemma_set_bit;
use crate::bits::lemma_set_nibble;
use crate::bits::nibble;
use crate::regmap::GPIO_LOCK_KEY;
use crate::regmap::GPIO_PCTL_CCP;
use crate::regmap::GPIO_PCTL_UART;
use crate::sysctl::SysCtl;
use crate::uart::UartId;

verus! {

/// The six GPIO ports of the chip.
#[derive(PartialEq, Eq, Structural, Clone, Copy, Debug)]
pub enum PortName {
    PortA,
    PortB,
    PortC,
    PortD,
    PortE,
    PortF,
}

/// The clock-gate bit position and register-block index of a port.
pub open spec fn port_index(name: PortName) -> u32 {
    match name {
        PortName::PortA => 0,
        PortName::PortB => 1,
        PortName::PortC => 2,
        PortName::PortD => 3,
        PortName::PortE => 4,
        PortName::PortF => 5,
    }
}

impl PortName {
    /// The port number, as executable code.
    pub fn index(self) -> (r: u32)
        ensures
            r == port_index(self),
            r < 6,
    {
        match self {
            PortName::PortA => 0,
            PortName::PortB => 1,
            PortName::PortC => 2,
            PortName::PortD => 3,
            PortName::PortE => 4,
            PortName::PortF => 5,
        }
    }
}

/// One of the eight pins of a GPIO port.
#[derive(PartialEq, Eq, Structural, Clone, Copy, Debug)]
pub enum Pin {
    Pin0,
    Pin1,
    Pin2,
    Pin3,
    Pin4,
    Pin5,
    Pin6,
    Pin7,
}

/// The bit position a pin owns in each per-port register.
pub open spec fn pin_index(pin: Pin) -> u32 {
    match pin {
        Pin::Pin0 => 0,
        Pin::Pin1 => 1,
        Pin::Pin2 => 2,
        Pin::Pin3 => 3,
        Pin::Pin4 => 4,
        Pin::Pin5 => 5,
        Pin::Pin6 => 6,
        Pin::Pin7 => 7,
    }
}

impl Pin {
    /// The pin's bit position, as executable code.
    pub fn index(self) -> (r: u32)
        ensures
            r == pin_index(self),
            r < 8,
    {
        match self {
            Pin::Pin0 => 0,
            Pin::Pin1 => 1,
            Pin::Pin2 => 2,
            Pin::Pin3 => 3,
            Pin::Pin4 => 4,
            Pin::Pin5 => 5,
            Pin::Pin6 => 6,
            Pin::Pin7 => 7,
        }
    }
}

/// What a pin is configured to do.
#[derive(PartialEq, Eq, Structural, Clone, Copy, Debug)]
pub enum PinMode {
    /// Digital input.
    Input,
    /// Digital output.
    Output,
    /// Routed to a peripheral through the alternate-function mux.
    Peripheral,
    /// Analog function; the digital buffer is turned off.
    Analog,
}

/// Model of one GPIO port's register block. Several logical concerns
/// share each register — every pin owns one bit of `dir`, `afsel`,
/// `den` and `amsel` and one nibble of `pctl` — so all configuration is
/// done by read-modify-write, never a blind store.
pub struct GpioPort {
    /// Which of the six ports this block is.
    pub name: PortName,
    /// GPIODIR: 1 drives the pin as an output.
    pub dir: u32,
    /// GPIOAFSEL: 1 hands the pin to the alternate-function mux.
    pub afsel: u32,
    /// GPIODEN: 1 enables the pin's digital buffer.
    pub den: u32,
    /// GPIOAMSEL: 1 selects the pin's analog function.
    pub amsel: u32,
    /// GPIOPCTL: a 4-bit mux code per pin choosing the peripheral.
    pub pctl: u32,
    /// GPIOLOCK: holds the unlock key while protected pins may commit.
    pub lock: u32,
    /// GPIOCR: per-pin commit enable for protected pins.
    pub cr: u32,
}

/// The mode a port's registers configure for the pin at bit `i`.
pub open spec fn pin_mode(p: GpioPort, i: u32) -> PinMode {
    if bit(p.amsel, i) {
        PinMode::Analog
    } else if bit(p.afsel, i) {
        PinMode::Peripheral
    } else if bit(p.dir, i) {
        PinMode::Output
    } else {
        PinMode::Input
    }
}

/// Whether the pin at bit `i` of a port is protected by the commit
/// register, so that its function may only change after an unlock.
pub open spec fn is_protected(name: PortName, i: u32) -> bool {
    (name == PortName::PortD && i == 7) || (name == PortName::PortF && i == 0)
}

/// Whether a pin is commit-protected, as executable code.
pub fn protected_pin(name: PortName, pin: Pin) -> (r: bool)
    ensures
        r == is_protected(name, pin_index(pin)),
{
    match (name, pin) {
        (PortName::PortD, Pin::Pin7) => true,
        (PortName::PortF, Pin::Pin0) => true,
        _ => false,
    }
}

impl GpioPort {
    /// Claims one port: opens its clock gate in the system-control
    /// block and hands back the block in its reset state.
    pub fn new(name: PortName, sc: &mut SysCtl) -> (p: GpioPort)
        ensures
            p.name == name,
            p.dir == 0,
            p.afsel == 0,
            p.den == 0,
            p.amsel == 0,
            p.pctl == 0,
            p.lock == 0,
            p.cr == 0,
            final(sc).rcgcgpio == old(sc).rcgcgpio | (1u32 << port_index(name)),
            final(sc).rcgcuart == old(sc).rcgcuart,
            final(sc).rcgctimer == old(sc).rcgctimer,
    {
        sc.enable_gpio_clock(name);
        GpioPort { name, dir: 0, afsel: 0, den: 0, amsel: 0, pctl: 0, lock: 0, cr: 0 }
    }

    /// Configures what one pin does. Every register write clears or
    /// sets only the bit owned by that pin: each of the other seven
    /// pins provably keeps its mode and its digital-enable bit.
    pub fn set_direction(&mut self, pin: Pin, mode: PinMode)
        ensures
            pin_mode(*final(self), pin_index(pin)) == mode,
            mode != PinMode::Analog ==> bit(final(self).den, pin_index(pin)),
            mode == PinMode::Analog ==> !bit(final(self).den, pin_index(pin)),
            forall|j: u32|
                j < 8 && j != pin_index(pin) ==> pin_mode(*final(self), j) == pin_mode(
                    *old(self),
                    j,
                ) && bit(final(self).den, j) == bit(old(self).den, j),
            final(self).pctl == old(self).pctl,
            final(self).lock == old(self).lock,
            final(self).cr == old(self).cr,
            final(self).name == old(self).name,
    {
        let i = pin.index();
        let m: u32 = 1u32 << i;
        match mode {
            PinMode::Input => {
                self.amsel = self.amsel & !m;
                self.afsel = self.afsel & !m;
                self.dir = self.dir & !m;
                self.den = self.den | m;
            },
            PinMode::Output => {
                self.amsel = self.amsel & !m;
                self.afsel = self.afsel & !m;
                self.dir = self.dir | m;
                self.den = self.den | m;
            },
            PinMode::Peripheral => {
                self.amsel = self.amsel & !m;
                self.afsel = self.afsel | m;
                self.den = self.den | m;
            },
            PinMode::Analog => {
                self.afsel = self.afsel & !m;
                self.amsel = self.amsel | m;
                self.den = self.den & !m;
            },
        }
        proof {
            let gi = pin_index(pin);
            lemma_set_bit(old(self).amsel, gi, 0);
            lemma_clear_bit(old(self).amsel, gi, 0);
            lemma_set_bit(old(self).afsel, gi, 0);
            lemma_clear_bit(old(self).afsel, gi, 0);
            lemma_set_bit(old(self).dir, gi, 0);
            lemma_clear_bit(old(self).dir, gi, 0);
            lemma_set_bit(old(self).den, gi, 0);
            lemma_clear_bit(old(self).den, gi, 0);
            assert forall|j: u32| j < 8 && j != gi implies pin_mode(*self, j) == pin_mode(
                *old(self),
                j,
            ) && bit(self.den, j) == bit(old(self).den, j) by {
                lemma_set_bit(old(self).amsel, gi, j);
                lemma_clear_bit(old(self).amsel, gi, j);
                lemma_set_bit(old(self).afsel, gi, j);
                lemma_clear_bit(old(self).afsel, gi, j);
                lemma_set_bit(old(self).dir, gi, j);
                lemma_clear_bit(old(self).dir, gi, j);
                lemma_set_bit(old(self).den, gi, j);
                lemma_clear_bit(old(self).den, gi, j);
            }
        }
    }

    /// Routes one pin to a peripheral function: alternate-function
    /// select, digital enable, and the pin's 4-bit port-control mux
    /// code, each by read-modify-write. On a commit-protected pin the
    /// lock register is opened and the pin's commit bit set first.
    pub fn select_function(&mut self, pin: Pin, code: u32)
        requires
            code < 16,
        ensures
            pin_mode(*final(self), pin_index(pin)) == PinMode::Peripheral,
            bit(final(self).den, pin_index(pin)),
            nibble(final(self).pctl, pin_index(pin)) == code,
            forall|j: u32|
                j < 8 && j != pin_index(pin) ==> pin_mode(*final(self), j) == pin_mode(
                    *old(self),
                    j,
                ) && bit(final(self).den, j) == bit(old(self).den, j) && nibble(
                    final(self).pctl,
                    j,
                ) == nibble(old(self).pctl, j),
            final(self).dir == old(self).dir,
            final(self).name == old(self).name,
            is_protected(old(self).name, pin_index(pin)) ==> final(self).lock == GPIO_LOCK_KEY
                && bit(final(self).cr, pin_index(pin)) && (forall|j: u32|
                j < 32 && j != pin_index(pin) ==> bit(final(self).cr, j) == bit(old(self).cr, j)),
            !is_protected(old(self).name, pin_index(pin)) ==> final(self).lock == old(self).lock
                && final(self).cr == old(self).cr,
    {
        let i = pin.index();
        let m: u32 = 1u32 << i;
        if protected_pin(self.name, pin) {
            self.lock = GPIO_LOCK_KEY;
            self.cr = self.cr | m;
            proof {
                lemma_set_bit(old(self).cr, pin_index(pin), 0);
                assert forall|j: u32| j < 32 && j != pin_index(pin) implies bit(self.cr, j) == bit(
                    old(self).cr,
                    j,
                ) by {
                    lemma_set_bit(old(self).cr, pin_index(pin), j);
                }
            }
        }
        self.amsel = self.amsel & !m;
        self.afsel = self.afsel | m;
        self.den = self.den | m;
        self.pctl = (self.pctl & !(0xFu32 << (4 * i))) | (code << (4 * i));
        proof {
            let gi = pin_index(pin);
            lemma_clear_bit(old(self).amsel, gi, 0);
            lemma_set_bit(old(self).afsel, gi, 0);
            lemma_set_bit(old(self).den, gi, 0);
            lemma_set_nibble(old(self).pctl, gi, code, 0);
            assert forall|j: u32| j < 8 && j != gi implies pin_mode(*self, j) == pin_mode(
                *old(self),
                j,
            ) && bit(self.den, j) == bit(old(self).den, j) && nibble(self.pctl, j) == nibble(
                old(self).pctl,
                j,
            ) by {
                lemma_clear_bit(old(self).amsel, gi, j);
                lemma_set_bit(old(self).afsel, gi, j);
                lemma_set_bit(old(self).dir, gi, j);
                lemma_set_bit(old(self).den, gi, j);
                lemma_set_nibble(old(self).pctl, gi, code, j);
            }
        }
    }

    /// Muxes the two pins of a UART instance to their UART function,
    /// the pin-muxing step of UART construction. The port handed in
    /// must be the one those pins live on.
    pub fn enable_uart(&mut self, id: UartId)
        requires
            old(self).name == uart_port(id),
        ensures
            uart_pins_muxed(*old(self), *final(self), id),
    {
        proof {
            lemma_uart_pin_map(id);
        }
        let (rx, tx) = uart_pins(id);
        self.select_function(rx, GPIO_PCTL_UART);
        self.select_function(tx, GPIO_PCTL_UART);
    }

    /// Muxes one pin to its timer capture/compare/PWM function.
    pub fn enable_ccp(&mut self, pin: Pin)
        ensures
            pin_mode(*final(self), pin_index(pin)) == PinMode::Peripheral,
            bit(final(self).den, pin_index(pin)),
            nibble(final(self).pctl, pin_index(pin)) == GPIO_PCTL_CCP,
            forall|j: u32|
                j < 8 && j != pin_index(pin) ==> pin_mode(*final(self), j) == pin_mode(
                    *old(self),
                    j,
                ) && bit(final(self).den, j) == bit(old(self).den, j) && nibble(
                    final(self).pctl,
                    j,
                ) == nibble(old(self).pctl, j),
            final(self).name == old(self).name,
    {
        self.select_function(pin, GPIO_PCTL_CCP);
    }

    /// Reads back what one pin is configured to do.
    pub fn get_mode(&self, pin: Pin) -> (mode: PinMode)
        ensures
            mode == pin_mode(*self, pin_index(pin)),
    {
        let m: u32 = 1u32 << pin.index();
        if self.amsel & m != 0 {
            PinMode::Analog
        } else if self.afsel & m != 0 {
            PinMode::Peripheral
        } else if self.dir & m != 0 {
            PinMode::Output
        } else {
            PinMode::Input
        }
    }
}

/// What muxing a UART's pins leaves behind: both pins routed to the
/// UART function with their digital buffers on, and every other pin of
/// the port bit-for-bit as it was.
pub open spec fn uart_pins_muxed(pre: GpioPort, post: GpioPort, id: UartId) -> bool {
    let rx = uart_rx_pin(id);
    let tx = uart_tx_pin(id);
    &&& post.name == pre.name
    &&& pin_mode(post, rx) == PinMode::Peripheral
    &&& bit(post.den, rx)
    &&& nibble(post.pctl, rx) == GPIO_PCTL_UART
    &&& pin_mode(post, tx) == PinMode::Peripheral
    &&& bit(post.den, tx)
    &&& nibble(post.pctl, tx) == GPIO_PCTL_UART
    &&& forall|j: u32|
        j < 8 && j != rx && j != tx ==> pin_mode(post, j) == pin_mode(pre, j) && bit(post.den, j)
            == bit(pre.den, j) && nibble(post.pctl, j) == nibble(pre.pctl, j)
    &&& post.dir == pre.dir
    &&& (is_protected(pre.name, tx) ==> post.lock == GPIO_LOCK_KEY && bit(post.cr, tx) && (
    forall|j: u32| j < 32 && j != tx ==> bit(post.cr, j) == bit(pre.cr, j)))
    &&& (!is_protected(pre.name, tx) ==> post.lock == pre.lock && post.cr == pre.cr)
}

/// The port whose pins carry a UART instance's receive and transmit
/// lines.
pub open spec fn uart_port(id: UartId) -> PortName {
    match id {
        UartId::Uart0 => PortName::PortA,
        UartId::Uart1 => PortName::PortB,
        UartId::Uart2 => PortName::PortD,
        UartId::Uart3 => PortName::PortC,
        UartId::Uart4 => PortName::PortC,
        UartId::Uart5 => PortName::PortE,
        UartId::Uart6 => PortName::PortD,
        UartId::Uart7 => PortName::PortE,
    }
}

/// The bit position of a UART instance's receive pin on its port.
pub open spec fn uart_rx_pin(id: UartId) -> u32 {
    match id {
        UartId::Uart0 => 0,
        UartId::Uart1 => 0,
        UartId::Uart2 => 6,
        UartId::Uart3 => 6,
        UartId::Uart4 => 4,
        UartId::Uart5 => 4,
        UartId::Uart6 => 4,
        UartId::Uart7 => 0,
    }
}

/// The bit position of a UART instance's transmit pin on its port.
pub open spec fn uart_tx_pin(id: UartId) -> u32 {
    match id {
        UartId::Uart0 => 1,
        UartId::Uart1 => 1,
        UartId::Uart2 => 7,
        UartId::Uart3 => 7,
        UartId::Uart4 => 5,
        UartId::Uart5 => 5,
        UartId::Uart6 => 5,
        UartId::Uart7 => 1,
    }
}

/// A UART's two pins are distinct and in range, and its receive pin is
/// never one of the commit-protected pins.
pub proof fn lemma_uart_pin_map(id: UartId)
    ensures
        uart_rx_pin(id) < 8,
        uart_tx_pin(id) < 8,
        uart_rx_pin(id) != uart_tx_pin(id),
        !is_protected(uart_port(id), uart_rx_pin(id)),
{
    match id {
        UartId::Uart0 => assert(!is_protected(uart_port(id), uart_rx_pin(id))),
        UartId::Uart1 => assert(!is_protected(uart_port(id), uart_rx_pin(id))),
        UartId::Uart2 => assert(!is_protected(uart_port(id), uart_rx_pin(id))),
        UartId::Uart3 => assert(!is_protected(uart_port(id), uart_rx_pin(id))),
        UartId::Uart4 => assert(!is_protected(uart_port(id), uart_rx_pin(id))),
        UartId::Uart5 => assert(!is_protected(uart_port(id), uart_rx_pin(id))),
        UartId::Uart6 => assert(!is_protected(uart_port(id), uart_rx_pin(id))),
        UartId::Uart7 => assert(!is_protected(uart_port(id), uart_rx_pin(id))),
    }
}

/// The port a UART's pins live on, as executable code.
pub fn port_for_uart(id: UartId) -> (name: PortName)
    ensures
        name == uart_port(id),
{
    match id {
        UartId::Uart0 => PortName::PortA,
        UartId::Uart1 => PortName::PortB,
        UartId::Uart2 => PortName::PortD,
        UartId::Uart3 => PortName::PortC,
        UartId::Uart4 => PortName::PortC,
        UartId::Uart5 => PortName::PortE,
        UartId::Uart6 => PortName::PortD,
        UartId::Uart7 => PortName::PortE,
    }
}

/// The receive and transmit pins of a UART instance, as executable
/// code.
pub fn uart_pins(id: UartId) -> (r: (Pin, Pin))
    ensures
        pin_index(r.0) == uart_rx_pin(id),
        pin_index(r.1) == uart_tx_pin(id),
{
    match id {
        UartId::Uart0 => (Pin::Pin0, Pin::Pin1),
        UartId::Uart1 => (Pin::Pin0, Pin::Pin1),
        UartId::Uart2 => (Pin::Pin6, Pin::Pin7),
        UartId::Uart3 => (Pin::Pin6, Pin::Pin7),
        UartId::Uart4 => (Pin::Pin4, Pin::Pin5),
        UartId::Uart5 => (Pin::Pin4, Pin::Pin5),
        UartId::Uart6 => (Pin::Pin4, Pin::Pin5),
        UartId::Uart7 => (Pin::Pin0, Pin::Pin1),
    }
}

} // verus!
