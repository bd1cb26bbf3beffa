//! UART driver: clock-gate enabling, pin muxing, baud-rate programming,
//! 8/N/1 line configuration, blocking transmit with optional newline
//! translation, and a non-blocking receive poll.

use vstd::prelude::*;

use crate::gpio::uart_pins_muxed;
use crate::gpio::uart_port;
use crate::gpio::GpioPort;
use crate::regmap::CLOCK_HZ;
use crate::regmap::UART_CTL_RXE;
use crate::regmap::UART_CTL_TXE;
use crate::regmap::UART_CTL_UARTEN;
use crate::regmap::UART_FR_RXFE;
use crate::regmap::UART_FR_TXFE;
use crate::regmap::UART_FR_TXFF;
use crate::regmap::UART_LCRH_WLEN_8;
use crate::regmap::UART0_BASE;
use crate::regmap::UART1_BASE;
use crate::regmap::UART2_BASE;
use crate::regmap::UART3_BASE;
use crate::regmap::UART4_BASE;
use crate::regmap::UART5_BASE;
use crate::regmap::UART6_BASE;
use crate::regmap::UART7_BASE;
use crate::sysctl::SysCtl;
use vstd::string::StringSliceAdditionalSpecFns;

verus! {

/// This chip has 8 UART instances.
#[derive(PartialEq, Eq, Structural, Clone, Copy, Debug)]
pub enum UartId {
    Uart0,
    Uart1,
    Uart2,
    Uart3,
    Uart4,
    Uart5,
    Uart6,
    Uart7,
}

/// The instance number of a UART: its clock-gate bit position and the
/// index of its register block.
pub open spec fn uart_index(id: UartId) -> u32 {
    match id {
        UartId::Uart0 => 0,
        UartId::Uart1 => 1,
        UartId::Uart2 => 2,
        UartId::Uart3 => 3,
        UartId::Uart4 => 4,
        UartId::Uart5 => 5,
        UartId::Uart6 => 6,
        UartId::Uart7 => 7,
    }
}

impl UartId {
    /// The instance number, as executable code.
    pub fn index(self) -> (r: u32)
        ensures
            r == uart_index(self),
            r < 8,
    {
        match self {
            UartId::Uart0 => 0,
            UartId::Uart1 => 1,
            UartId::Uart2 => 2,
            UartId::Uart3 => 3,
            UartId::Uart4 => 4,
            UartId::Uart5 => 5,
            UartId::Uart6 => 6,
            UartId::Uart7 => 7,
        }
    }
}

/// The base address of a UART instance's register block.
pub fn uart_base(id: UartId) -> (a: u32)
    ensures
        a == UART0_BASE + uart_index(id) * 0x1000,
{
    match id {
        UartId::Uart0 => UART0_BASE,
        UartId::Uart1 => UART1_BASE,
        UartId::Uart2 => UART2_BASE,
        UartId::Uart3 => UART3_BASE,
        UartId::Uart4 => UART4_BASE,
        UartId::Uart5 => UART5_BASE,
        UartId::Uart6 => UART6_BASE,
        UartId::Uart7 => UART7_BASE,
    }
}

/// How line feeds are treated on transmit.
#[derive(PartialEq, Eq, Structural, Clone, Copy, Debug)]
pub enum NewlineMode {
    /// Bytes pass through untouched.
    Binary,
    /// Every line feed is preceded by an injected carriage return.
    SwapLFtoCRLF,
}

/// Why a non-blocking receive returned no byte.
#[derive(PartialEq, Eq, Structural, Clone, Copy, Debug)]
pub enum ReadError {
    /// No data is waiting; not a fault, try again later.
    WouldBlock,
}

/// What one byte becomes on the wire under a newline mode.
pub open spec fn translated_byte(mode: NewlineMode, b: u8) -> Seq<u8> {
    if mode == NewlineMode::SwapLFtoCRLF && b == 10 {
        seq![13u8, 10u8]
    } else {
        seq![b]
    }
}

/// What a byte sequence becomes on the wire under a newline mode.
pub open spec fn translated(mode: NewlineMode, s: Seq<u8>) -> Seq<u8>
    decreases s.len(),
{
    if s.len() == 0 {
        Seq::empty()
    } else {
        translated_byte(mode, s[0]) + translated(mode, s.drop_first())
    }
}

/// Translation works byte by byte: translating one more byte appends
/// that byte's image.
pub proof fn lemma_translated_push(mode: NewlineMode, s: Seq<u8>, b: u8)
    ensures
        translated(mode, s.push(b)) == translated(mode, s) + translated_byte(mode, b),
    decreases s.len(),
{
    if s.len() == 0 {
        assert(s.push(b).drop_first() =~= Seq::<u8>::empty());
        assert(s.push(b)[0] == b);
        assert(translated(mode, s.push(b)) == translated_byte(mode, b) + translated(
            mode,
            Seq::<u8>::empty(),
        ));
        assert(translated(mode, Seq::<u8>::empty()) =~= Seq::<u8>::empty());
        assert(translated_byte(mode, b) + Seq::<u8>::empty() =~= Seq::<u8>::empty()
            + translated_byte(mode, b));
    } else {
        assert(s.push(b).drop_first() =~= s.drop_first().push(b));
        lemma_translated_push(mode, s.drop_first(), b);
        assert(translated_byte(mode, s[0]) + (translated(mode, s.drop_first()) + translated_byte(
            mode,
            b,
        )) =~= (translated_byte(mode, s[0]) + translated(mode, s.drop_first()))
            + translated_byte(mode, b));
    }
}

/// Pass-through law: in binary mode translation changes nothing.
pub proof fn lemma_translated_binary(s: Seq<u8>)
    ensures
        translated(NewlineMode::Binary, s) == s,
    decreases s.len(),
{
    if s.len() == 0 {
        assert(translated(NewlineMode::Binary, s) =~= s);
    } else {
        lemma_translated_binary(s.drop_first());
        assert(seq![s[0]] + s.drop_first() =~= s);
    }
}

/// The baud divisor `clock / (16 * baud)` scaled by 64 — six fractional
/// bits — and rounded to the nearest integer, computed entirely in
/// integer arithmetic as the silicon datasheet prescribes.
pub open spec fn baud_scaled(baud: u32) -> int {
    ((CLOCK_HZ as int) * 8 / (baud as int) + 1) / 2
}

/// The integer part of the baud divisor.
pub open spec fn baud_ibrd(baud: u32) -> int {
    baud_scaled(baud) / 64
}

/// The 6-bit fractional part of the baud divisor.
pub open spec fn baud_fbrd(baud: u32) -> int {
    baud_scaled(baud) % 64
}

/// Computes the baud divisor for a requested rate at the fixed input
/// clock, split into its integer and 6-bit fractional parts.
pub fn baud_divisor(baud: u32) -> (r: (u32, u32))
    requires
        baud >= 1,
    ensures
        r.0 as int == baud_ibrd(baud),
        r.1 as int == baud_fbrd(baud),
        r.1 < 64,
{
    proof {
        assert((CLOCK_HZ as int) * 8 / (baud as int) <= 528_000_000) by (nonlinear_arith)
            requires
                baud >= 1,
        ;
    }
    let scaled: u32 = (CLOCK_HZ * 8 / baud + 1) / 2;
    (scaled / 64, scaled % 64)
}

/// Model of one UART instance's register block, together with the two
/// hardware FIFOs behind its data register: reading the data register
/// pops `rx`, writing it appends to `tx` (the transcript of every byte
/// handed to the transmitter).
pub struct UartRegisters {
    /// UARTCTL: receive, transmit and module enable bits.
    pub ctl: u32,
    /// UARTIBRD: integer part of the baud divisor.
    pub ibrd: u32,
    /// UARTFBRD: 6-bit fractional part of the baud divisor.
    pub fbrd: u32,
    /// UARTLCRH: line control.
    pub lcrh: u32,
    /// UARTFR: FIFO status flags, as last observed.
    pub fr: u32,
    /// Bytes the line has delivered and software has not yet read.
    pub rx: Vec<u8>,
    /// Every byte handed to the transmitter, in order.
    pub tx: Vec<u8>,
}

impl UartRegisters {
    /// The block in its reset state: everything disabled, FIFOs empty,
    /// the flag register showing both FIFOs idle.
    pub fn new() -> (r: UartRegisters)
        ensures
            r.ctl == 0,
            r.ibrd == 0,
            r.fbrd == 0,
            r.lcrh == 0,
            r.fr == UART_FR_RXFE | UART_FR_TXFE,
            r.rx@.len() == 0,
            r.tx@.len() == 0,
    {
        UartRegisters {
            ctl: 0,
            ibrd: 0,
            fbrd: 0,
            lcrh: 0,
            fr: UART_FR_RXFE | UART_FR_TXFE,
            rx: Vec::new(),
            tx: Vec::new(),
        }
    }
}

/// Controls a single UART, in 8/N/1 line configuration. The handle
/// owns its register block, so no second handle can alias the same
/// instance's hardware state.
pub struct Uart {
    /// Which instance this handle claims.
    pub id: UartId,
    /// The configured baud rate in hertz.
    pub baud: u32,
    /// How line feeds are treated on transmit.
    pub mode: NewlineMode,
    /// The instance's register block.
    pub registers: UartRegisters,
}

impl Uart {
    /// The receive-FIFO-empty flag tells the truth about the receive
    /// FIFO.
    pub open spec fn wf(self) -> bool {
        (self.registers.fr & UART_FR_RXFE != 0) <==> self.registers.rx@.len() == 0
    }

    /// The configuration state that transfers never touch.
    pub open spec fn config_eq(self, other: Uart) -> bool {
        &&& self.id == other.id
        &&& self.baud == other.baud
        &&& self.mode == other.mode
        &&& self.registers.ctl == other.registers.ctl
        &&& self.registers.ibrd == other.registers.ibrd
        &&& self.registers.fbrd == other.registers.fbrd
        &&& self.registers.lcrh == other.registers.lcrh
    }

    /// Claims and configures one UART instance: a fresh handle over the
    /// instance's reset-state registers, taken through `init`.
    pub fn new(id: UartId, baud: u32, mode: NewlineMode, sc: &mut SysCtl, port: &mut GpioPort) -> (u:
        Uart)
        requires
            baud >= 1,
            old(port).name == uart_port(id),
        ensures
            u.id == id,
            u.baud == baud,
            u.mode == mode,
            u.registers.ctl == UART_CTL_RXE | UART_CTL_TXE | UART_CTL_UARTEN,
            u.registers.ibrd as int == baud_ibrd(baud),
            u.registers.fbrd as int == baud_fbrd(baud),
            u.registers.lcrh == UART_LCRH_WLEN_8,
            u.registers.fr == UART_FR_RXFE | UART_FR_TXFE,
            u.registers.rx@.len() == 0,
            u.registers.tx@.len() == 0,
            u.wf(),
            final(sc).rcgcuart == old(sc).rcgcuart | (1u32 << uart_index(id)),
            final(sc).rcgcgpio == old(sc).rcgcgpio,
            final(sc).rcgctimer == old(sc).rcgctimer,
            uart_pins_muxed(*old(port), *final(port), id),
    {
        let mut uart = Uart { id, baud, mode, registers: UartRegisters::new() };
        uart.init(sc, port);
        uart
    }

    /// Configures the instance, in the order the hardware demands:
    /// clock gate first (no register responds before it), then pin
    /// muxing, then the module is disabled while the baud divisor and
    /// line control are written — the divisor latches only while the
    /// enable bit is clear — and finally receive, transmit and module
    /// enable are set together.
    pub fn init(&mut self, sc: &mut SysCtl, port: &mut GpioPort)
        requires
            old(self).baud >= 1,
            old(port).name == uart_port(old(self).id),
        ensures
            final(self).id == old(self).id,
            final(self).baud == old(self).baud,
            final(self).mode == old(self).mode,
            final(self).registers.ctl == UART_CTL_RXE | UART_CTL_TXE | UART_CTL_UARTEN,
            final(self).registers.ibrd as int == baud_ibrd(old(self).baud),
            final(self).registers.fbrd as int == baud_fbrd(old(self).baud),
            final(self).registers.lcrh == UART_LCRH_WLEN_8,
            final(self).registers.fr == UART_FR_RXFE | UART_FR_TXFE,
            final(self).registers.rx@.len() == 0,
            final(self).registers.tx == old(self).registers.tx,
            final(self).wf(),
            final(sc).rcgcuart == old(sc).rcgcuart | (1u32 << uart_index(old(self).id)),
            final(sc).rcgcgpio == old(sc).rcgcgpio,
            final(sc).rcgctimer == old(sc).rcgctimer,
            uart_pins_muxed(*old(port), *final(port), old(self).id),
    {
        // (1) open the instance's clock gate, read-modify-write
        sc.enable_uart_clock(self.id);
        // (2) mux the instance's pins to their UART function
        port.enable_uart(self.id);
        // (3) disable the module and clear all features before touching
        // the divisor: it is latched only while the module is off
        self.registers.ctl = 0;
        // (4) program the baud divisor
        let (ibrd, fbrd) = baud_divisor(self.baud);
        self.registers.ibrd = ibrd;
        self.registers.fbrd = fbrd;
        // (5) 8 data bits, no parity, one stop bit
        self.registers.lcrh = UART_LCRH_WLEN_8;
        // (6) clear pending flags: both FIFOs idle
        self.registers.fr = UART_FR_RXFE | UART_FR_TXFE;
        self.registers.rx.clear();
        // (7) re-enable receive, transmit and the module together
        self.registers.ctl = UART_CTL_RXE | UART_CTL_TXE | UART_CTL_UARTEN;
        proof {
            assert((UART_FR_RXFE | UART_FR_TXFE) & UART_FR_RXFE != 0) by (bit_vector);
        }
    }

    /// Busy-waits while the transmit FIFO is full, then hands the byte
    /// to the transmitter. The wait ends when the hardware has drained
    /// a slot; the model takes that completed wait in one step, so the
    /// flag register shows TX-not-full on return. On silicon this call
    /// blocks for as long as the peer refuses to drain — deliberately,
    /// with no timeout: escalation belongs to the caller.
    pub fn putc(&mut self, value: u8)
        ensures
            final(self).registers.tx@ == old(self).registers.tx@.push(value),
            final(self).registers.fr == old(self).registers.fr & !UART_FR_TXFF,
            final(self).registers.rx == old(self).registers.rx,
            final(self).config_eq(*old(self)),
            old(self).wf() ==> final(self).wf(),
    {
        proof {
            let f = old(self).registers.fr;
            assert((f & !UART_FR_TXFF) & UART_FR_RXFE == f & UART_FR_RXFE) by (bit_vector);
        }
        if self.registers.fr & UART_FR_TXFF != 0 {
            // a full FIFO drains at line rate; the completed wait shows
            // as the full flag falling
            self.registers.fr = self.registers.fr & !UART_FR_TXFF;
        } else {
            proof {
                let f = old(self).registers.fr;
                assert(f & UART_FR_TXFF == 0 ==> f & !UART_FR_TXFF == f) by (bit_vector);
            }
        }
        self.registers.tx.push(value);
    }

    /// Writes every byte of `data`, translating newlines per the
    /// configured mode: the transcript grows by exactly the translated
    /// image of `data`.
    pub fn write_all(&mut self, data: &[u8])
        ensures
            final(self).registers.tx@ == old(self).registers.tx@ + translated(
                old(self).mode,
                data@,
            ),
            data@.len() == 0 ==> *final(self) == *old(self),
            data@.len() > 0 ==> final(self).registers.fr == old(self).registers.fr
                & !UART_FR_TXFF,
            final(self).registers.rx == old(self).registers.rx,
            final(self).config_eq(*old(self)),
            old(self).wf() ==> final(self).wf(),
    {
        let ghost pre = *self;
        let mut i: usize = 0;
        while i < data.len()
            invariant
                i <= data@.len(),
                self.registers.tx@ == pre.registers.tx@ + translated(
                    pre.mode,
                    data@.take(i as int),
                ),
                i == 0 ==> *self == pre,
                i > 0 ==> self.registers.fr == pre.registers.fr & !UART_FR_TXFF,
                self.registers.rx == pre.registers.rx,
                self.config_eq(pre),
                pre.wf() ==> self.wf(),
            decreases data@.len() - i,
        {
            let b = data[i];
            match self.mode {
                NewlineMode::SwapLFtoCRLF => {
                    if b == 10 {
                        self.putc(13);
                    }
                    self.putc(b);
                },
                NewlineMode::Binary => {
                    self.putc(b);
                },
            }
            proof {
                let f = pre.registers.fr;
                assert((f & !UART_FR_TXFF) & !UART_FR_TXFF == f & !UART_FR_TXFF) by (bit_vector);
                lemma_translated_push(pre.mode, data@.take(i as int), b);
                assert(data@.take(i + 1) =~= data@.take(i as int).push(b));
                assert(self.registers.tx@ =~= pre.registers.tx@ + translated(
                    pre.mode,
                    data@.take(i + 1),
                ));
            }
            i = i + 1;
        }
        proof {
            assert(data@.take(data@.len() as int) =~= data@);
            if data@.len() == 0 {
                assert(translated(pre.mode, data@) =~= Seq::<u8>::empty());
                assert(pre.registers.tx@ + translated(pre.mode, data@) =~= pre.registers.tx@);
            }
        }
    }

    /// Writes a string's bytes, translating newlines per the configured
    /// mode.
    pub fn write_str(&mut self, s: &str)
        ensures
            final(self).registers.tx@ == old(self).registers.tx@ + translated(
                old(self).mode,
                s.spec_bytes(),
            ),
            final(self).registers.rx == old(self).registers.rx,
            final(self).config_eq(*old(self)),
            old(self).wf() ==> final(self).wf(),
    {
        self.write_all(s.as_bytes());
    }

    /// Non-blocking receive: a single poll of the receive-FIFO-empty
    /// flag, then at most one read of the data register — it never
    /// waits. Returns the oldest received byte, or `WouldBlock` with
    /// the state untouched when nothing is waiting.
    pub fn getc_try(&mut self) -> (r: Result<u8, ReadError>)
        requires
            old(self).wf(),
        ensures
            final(self).wf(),
            old(self).registers.rx@.len() == 0 ==> r == Err::<u8, ReadError>(ReadError::WouldBlock)
                && *final(self) == *old(self),
            old(self).registers.rx@.len() > 0 ==> r == Ok::<u8, ReadError>(
                old(self).registers.rx@[0],
            ) && final(self).registers.rx@ == old(self).registers.rx@.drop_first()
                && final(self).registers.tx == old(self).registers.tx && final(self).config_eq(
                *old(self),
            ) && final(self).registers.fr == (if old(self).registers.rx@.len() == 1 {
                old(self).registers.fr | UART_FR_RXFE
            } else {
                old(self).registers.fr
            }),
    {
        if self.registers.fr & UART_FR_RXFE != 0 {
            return Err(ReadError::WouldBlock);
        }
        let b = self.registers.rx.remove(0);
        proof {
            assert(old(self).registers.rx@.remove(0) =~= old(self).registers.rx@.drop_first());
        }
        if self.registers.rx.len() == 0 {
            self.registers.fr = self.registers.fr | UART_FR_RXFE;
            proof {
                let f = old(self).registers.fr;
                assert((f | UART_FR_RXFE) & UART_FR_RXFE != 0) by (bit_vector);
            }
        }
        Ok(b)
    }

    /// Models the line delivering one byte: the hardware pushes it into
    /// the receive FIFO and the empty flag falls.
    pub fn receive_byte(&mut self, value: u8)
        ensures
            final(self).wf(),
            final(self).registers.rx@ == old(self).registers.rx@.push(value),
            final(self).registers.fr == old(self).registers.fr & !UART_FR_RXFE,
            final(self).registers.tx == old(self).registers.tx,
            final(self).config_eq(*old(self)),
    {
        self.registers.rx.push(value);
        self.registers.fr = self.registers.fr & !UART_FR_RXFE;
        proof {
            let f = old(self).registers.fr;
            assert((f & !UART_FR_RXFE) & UART_FR_RXFE == 0) by (bit_vector);
        }
    }
}

} // verus!
