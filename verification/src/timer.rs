//! Timer driver: a general-purpose timer half configured for periodic
//! PWM output, with duty-cycle programming.

use vstd::prelude::*;

use crate::bits::bit;
use crate::regmap::TIMER_CFG_16_BIT;
use crate::regmap::TIMER_CTL_TAEN;
use crate::regmap::TIMER_TAMR_TAAMS;
use crate::regmap::TIMER_TAMR_TAMR_PERIODIC;
use crate::sysctl::SysCtl;

verus! {

/// The timer halves this driver can claim: each module splits into an
/// A and a B half with its own register set.
#[derive(PartialEq, Eq, Structural, Clone, Copy, Debug)]
pub enum TimerId {
    Timer0A,
    Timer0B,
    Timer1A,
    Timer1B,
    Timer2A,
    Timer2B,
}

/// The module number of a timer half: its clock-gate bit position and
/// the index of its register block.
pub open spec fn timer_module(id: TimerId) -> u32 {
    match id {
        TimerId::Timer0A => 0,
        TimerId::Timer0B => 0,
        TimerId::Timer1A => 1,
        TimerId::Timer1B => 1,
        TimerId::Timer2A => 2,
        TimerId::Timer2B => 2,
    }
}

impl TimerId {
    /// The module number, as executable code.
    pub fn module(self) -> (r: u32)
        ensures
            r == timer_module(self),
            r < 3,
    {
        match self {
            TimerId::Timer0A => 0,
            TimerId::Timer0B => 0,
            TimerId::Timer1A => 1,
            TimerId::Timer1B => 1,
            TimerId::Timer2A => 2,
            TimerId::Timer2B => 2,
        }
    }
}

/// Model of the registers of one timer half.
pub struct TimerRegisters {
    /// GPTMCFG: module configuration (split into 16-bit halves).
    pub cfg: u32,
    /// GPTMTAMR: the half's mode register.
    pub tamr: u32,
    /// GPTMCTL: the half's enable bit, among others.
    pub ctl: u32,
    /// GPTMTAILR: interval load — the PWM period.
    pub ilr: u32,
    /// GPTMTAMATCHR: match value — the PWM compare register; the
    /// output is active for `matchr` out of `ilr` ticks per cycle.
    pub matchr: u32,
}

/// Controls one timer half, configured for periodic PWM output. The
/// handle owns its register block, so no second handle can alias the
/// same half's hardware state.
pub struct Timer {
    /// Which timer half this handle claims.
    pub id: TimerId,
    /// The half's register block.
    pub registers: TimerRegisters,
}

impl Timer {
    /// The duty bound: the compare value never exceeds the period.
    pub open spec fn wf(self) -> bool {
        self.registers.matchr <= self.registers.ilr
    }

    /// Claims one timer half: opens the module's clock gate in the
    /// system-control block and hands back the registers in their reset
    /// state.
    pub fn new(id: TimerId, sc: &mut SysCtl) -> (t: Timer)
        ensures
            t.id == id,
            t.registers.cfg == 0,
            t.registers.tamr == 0,
            t.registers.ctl == 0,
            t.registers.ilr == 0,
            t.registers.matchr == 0,
            t.wf(),
            final(sc).rcgctimer == old(sc).rcgctimer | (1u32 << timer_module(id)),
            final(sc).rcgcuart == old(sc).rcgcuart,
            final(sc).rcgcgpio == old(sc).rcgcgpio,
    {
        sc.enable_timer_clock(id);
        Timer { id, registers: TimerRegisters { cfg: 0, tamr: 0, ctl: 0, ilr: 0, matchr: 0 } }
    }

    /// Configures the half for periodic PWM with the given period and
    /// enables it. The half is disabled first — mode and period may
    /// only change while it is off — and the compare register starts at
    /// the full period.
    pub fn enable_pwm(&mut self, period: u32)
        ensures
            final(self).id == old(self).id,
            final(self).registers.cfg == TIMER_CFG_16_BIT,
            final(self).registers.tamr == TIMER_TAMR_TAAMS | TIMER_TAMR_TAMR_PERIODIC,
            final(self).registers.ilr == period,
            final(self).registers.matchr == period,
            final(self).registers.ctl == old(self).registers.ctl | TIMER_CTL_TAEN,
            bit(final(self).registers.ctl, 0),
            final(self).wf(),
    {
        self.registers.ctl = self.registers.ctl & !TIMER_CTL_TAEN;
        self.registers.cfg = TIMER_CFG_16_BIT;
        self.registers.tamr = TIMER_TAMR_TAAMS | TIMER_TAMR_TAMR_PERIODIC;
        self.registers.ilr = period;
        self.registers.matchr = period;
        self.registers.ctl = self.registers.ctl | TIMER_CTL_TAEN;
        proof {
            let c = old(self).registers.ctl;
            assert((c & !TIMER_CTL_TAEN) | TIMER_CTL_TAEN == c | TIMER_CTL_TAEN) by (bit_vector);
            assert(bit(c | TIMER_CTL_TAEN, 0)) by (bit_vector);
        }
    }

    /// Programs the PWM duty cycle: the compare register takes exactly
    /// `level` out of the configured period, and no other register
    /// moves. The caller keeps the level within the period; hardware
    /// behaviour beyond it is undefined, so such levels are excluded
    /// here rather than checked at run time.
    pub fn set_pwm(&mut self, level: u32)
        requires
            level <= old(self).registers.ilr,
        ensures
            final(self).id == old(self).id,
            final(self).registers.matchr == level,
            final(self).registers.cfg == old(self).registers.cfg,
            final(self).registers.tamr == old(self).registers.tamr,
            final(self).registers.ctl == old(self).registers.ctl,
            final(self).registers.ilr == old(self).registers.ilr,
            final(self).wf(),
    {
        self.registers.matchr = level;
    }
}

} // verus!
