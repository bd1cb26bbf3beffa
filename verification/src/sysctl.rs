//! The system-control block: run-mode clock gating for the peripherals.
//! A peripheral's registers only respond once its gate bit is set, so
//! every driver opens its gate first, with a read-modify-write that
//! provably leaves every other instance's gate as it was.

use vstd::prelude::*;

use crate::bits::bit;
use crate::bits::lemma_set_bit;
use crate::gpio::port_index;
use crate::gpio::PortName;
use crate::timer::timer_module;
use crate::timer::TimerId;
use crate::uart::uart_index;
use crate::uart::UartId;

verus! {

/// Model of the system-control register block: one clock-gating
/// register per peripheral class, one gate bit per instance.
pub struct SysCtl {
    /// RCGCUART: bit n gates the clock of UART instance n.
    pub rcgcuart: u32,
    /// RCGCGPIO: bit n gates the clock of GPIO port n.
    pub rcgcgpio: u32,
    /// RCGCTIMER: bit n gates the clock of timer module n.
    pub rcgctimer: u32,
}

impl SysCtl {
    /// The block as it stands after reset: every clock gate closed.
    pub fn new() -> (s: SysCtl)
        ensures
            s.rcgcuart == 0,
            s.rcgcgpio == 0,
            s.rcgctimer == 0,
    {
        SysCtl { rcgcuart: 0, rcgcgpio: 0, rcgctimer: 0 }
    }

    /// Opens the clock gate of one UART instance. The write is a
    /// read-modify-write: every other instance's gate bit is preserved.
    pub fn enable_uart_clock(&mut self, id: UartId)
        ensures
            final(self).rcgcuart == old(self).rcgcuart | (1u32 << uart_index(id)),
            bit(final(self).rcgcuart, uart_index(id)),
            forall|j: u32|
                j < 32 && j != uart_index(id) ==> bit(final(self).rcgcuart, j) == bit(
                    old(self).rcgcuart,
                    j,
                ),
            final(self).rcgcgpio == old(self).rcgcgpio,
            final(self).rcgctimer == old(self).rcgctimer,
    {
        let m: u32 = 1u32 << id.index();
        self.rcgcuart = self.rcgcuart | m;
        proof {
            lemma_set_bit(old(self).rcgcuart, uart_index(id), 0);
            assert forall|j: u32| j < 32 && j != uart_index(id) implies bit(
                self.rcgcuart,
                j,
            ) == bit(old(self).rcgcuart, j) by {
                lemma_set_bit(old(self).rcgcuart, uart_index(id), j);
            }
        }
    }

    /// Opens the clock gate of one GPIO port, preserving the other
    /// ports' gate bits.
    pub fn enable_gpio_clock(&mut self, name: PortName)
        ensures
            final(self).rcgcgpio == old(self).rcgcgpio | (1u32 << port_index(name)),
            bit(final(self).rcgcgpio, port_index(name)),
            forall|j: u32|
                j < 32 && j != port_index(name) ==> bit(final(self).rcgcgpio, j) == bit(
                    old(self).rcgcgpio,
                    j,
                ),
            final(self).rcgcuart == old(self).rcgcuart,
            final(self).rcgctimer == old(self).rcgctimer,
    {
        let m: u32 = 1u32 << name.index();
        self.rcgcgpio = self.rcgcgpio | m;
        proof {
            lemma_set_bit(old(self).rcgcgpio, port_index(name), 0);
            assert forall|j: u32| j < 32 && j != port_index(name) implies bit(
                self.rcgcgpio,
                j,
            ) == bit(old(self).rcgcgpio, j) by {
                lemma_set_bit(old(self).rcgcgpio, port_index(name), j);
            }
        }
    }

    /// Opens the clock gate of one timer module, preserving the other
    /// modules' gate bits.
    pub fn enable_timer_clock(&mut self, id: TimerId)
        ensures
            final(self).rcgctimer == old(self).rcgctimer | (1u32 << timer_module(id)),
            bit(final(self).rcgctimer, timer_module(id)),
            forall|j: u32|
                j < 32 && j != timer_module(id) ==> bit(final(self).rcgctimer, j) == bit(
                    old(self).rcgctimer,
                    j,
                ),
            final(self).rcgcuart == old(self).rcgcuart,
            final(self).rcgcgpio == old(self).rcgcgpio,
    {
        let m: u32 = 1u32 << id.module();
        self.rcgctimer = self.rcgctimer | m;
        proof {
            lemma_set_bit(old(self).rcgctimer, timer_module(id), 0);
            assert forall|j: u32| j < 32 && j != timer_module(id) implies bit(
                self.rcgctimer,
                j,
            ) == bit(old(self).rcgctimer, j) by {
                lemma_set_bit(old(self).rcgctimer, timer_module(id), j);
            }
        }
    }
}

} // verus!
