//! The register map: base addresses, field masks and bit positions of
//! the peripheral register blocks, exact to the datasheet. Pure layout
//! data; the drivers give it meaning.

use vstd::prelude::*;

verus! {

/// System clock frequency in hertz, fixed by the board's PLL setup.
pub const CLOCK_HZ: u32 = 66_000_000;

// ---------------------------------------------------------------------
// UART register block
// ---------------------------------------------------------------------

/// Base address of the UART0 register block.
pub const UART0_BASE: u32 = 0x4000_C000;

/// Base address of the UART1 register block.
pub const UART1_BASE: u32 = 0x4000_D000;

/// Base address of the UART2 register block.
pub const UART2_BASE: u32 = 0x4000_E000;

/// Base address of the UART3 register block.
pub const UART3_BASE: u32 = 0x4000_F000;

/// Base address of the UART4 register block.
pub const UART4_BASE: u32 = 0x4001_0000;

/// Base address of the UART5 register block.
pub const UART5_BASE: u32 = 0x4001_1000;

/// Base address of the UART6 register block.
pub const UART6_BASE: u32 = 0x4001_2000;

/// Base address of the UART7 register block.
pub const UART7_BASE: u32 = 0x4001_3000;

/// Flag register: transmit FIFO full.
pub const UART_FR_TXFF: u32 = 0x20;

/// Flag register: receive FIFO empty.
pub const UART_FR_RXFE: u32 = 0x10;

/// Flag register: transmit FIFO empty (set in the idle reset state).
pub const UART_FR_TXFE: u32 = 0x80;

/// Control register: module enable.
pub const UART_CTL_UARTEN: u32 = 0x1;

/// Control register: transmit section enable.
pub const UART_CTL_TXE: u32 = 0x100;

/// Control register: receive section enable.
pub const UART_CTL_RXE: u32 = 0x200;

/// Line control: 8 data bits (with no parity and one stop bit this is
/// the whole 8/N/1 line configuration).
pub const UART_LCRH_WLEN_8: u32 = 0x60;

// ---------------------------------------------------------------------
// GPIO register block
// ---------------------------------------------------------------------

/// Base address of the port A register block.
pub const GPIO_PORTA_BASE: u32 = 0x4000_4000;

/// Base address of the port B register block.
pub const GPIO_PORTB_BASE: u32 = 0x4000_5000;

/// Base address of the port C register block.
pub const GPIO_PORTC_BASE: u32 = 0x4000_6000;

/// Base address of the port D register block.
pub const GPIO_PORTD_BASE: u32 = 0x4000_7000;

/// Base address of the port E register block.
pub const GPIO_PORTE_BASE: u32 = 0x4002_4000;

/// Base address of the port F register block.
pub const GPIO_PORTF_BASE: u32 = 0x4002_5000;

/// Value that, written to the GPIOLOCK register, unlocks the commit
/// register of a protected pin.
pub const GPIO_LOCK_KEY: u32 = 0x4C4F_434B;

/// Port-control nibble value that routes a pin to its UART function.
pub const GPIO_PCTL_UART: u32 = 0x1;

/// Port-control nibble value that routes a pin to its timer
/// capture/compare/PWM function.
pub const GPIO_PCTL_CCP: u32 = 0x7;

// ---------------------------------------------------------------------
// Timer register block
// ---------------------------------------------------------------------

/// Base address of the Timer0 register block.
pub const TIMER0_BASE: u32 = 0x4003_0000;

/// Base address of the Timer1 register block.
pub const TIMER1_BASE: u32 = 0x4003_1000;

/// Base address of the Timer2 register block.
pub const TIMER2_BASE: u32 = 0x4003_2000;

/// Configuration register: the module is split into two 16-bit halves.
pub const TIMER_CFG_16_BIT: u32 = 0x4;

/// Half-timer mode register: alternate mode select, PWM rather than
/// capture.
pub const TIMER_TAMR_TAAMS: u32 = 0x8;

/// Half-timer mode register: periodic timer mode.
pub const TIMER_TAMR_TAMR_PERIODIC: u32 = 0x2;

/// Control register: half-timer A enable.
pub const TIMER_CTL_TAEN: u32 = 0x1;

// ---------------------------------------------------------------------
// System tick counter
// ---------------------------------------------------------------------

/// Base address of the system tick register block (a core peripheral).
pub const SYSTICK_BASE: u32 = 0xE000_E010;

/// The reload value and largest reading of the 24-bit system tick
/// down-counter.
pub const SYSTICK_MAX: u32 = 0x00FF_FFFF;

} // verus!
