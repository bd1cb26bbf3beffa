//! System tick driver: a free-running 24-bit down-counter that reloads
//! from its maximum and decrements once per clock tick. Elapsed time
//! between two readings is recovered with modular arithmetic, correct
//! as long as no more than one full wrap lies between them; cumulative
//! run time accumulates a wrap counter kept beside the raw register.

use vstd::prelude::*;

use crate::regmap::CLOCK_HZ;
use vstd::arithmetic::div_mod::lemma_div_denominator;
use vstd::arithmetic::div_mod::lemma_div_multiples_vanish;
use vstd::arithmetic::div_mod::lemma_small_mod;

pub use crate::regmap::SYSTICK_MAX;

verus! {

/// One more than the largest counter reading: the counter's modulus.
pub const SYSTICK_WRAP: u32 = 0x0100_0000;

/// Elapsed ticks from the older reading `previous` down to the newer
/// reading `current` of the wrapping down-counter, on the documented
/// assumption that at most one wrap lies between the two readings.
pub open spec fn elapsed_ticks(previous: u32, current: u32) -> int {
    if current <= previous {
        previous - current
    } else {
        previous - current + SYSTICK_WRAP
    }
}

/// Every tick the hardware counted since reset: full wraps plus the
/// distance the counter has come down from its reload value.
pub open spec fn total_ticks(s: SysTick) -> int {
    s.wraps * SYSTICK_WRAP + (SYSTICK_MAX - s.current)
}

/// Model of the system tick hardware: the live counter register and the
/// process-wide wrap counter that software increments once per observed
/// wrap (the hardware register alone cannot express run time).
pub struct SysTick {
    /// The down-counter register, always at most `SYSTICK_MAX`.
    pub current: u32,
    /// Completed wraps observed since reset.
    pub wraps: u64,
}

impl SysTick {
    /// A reading never exceeds the reload value.
    pub open spec fn wf(self) -> bool {
        self.current <= SYSTICK_MAX
    }

    /// The counter as it stands at reset: freshly reloaded, no wraps.
    pub fn new() -> (s: SysTick)
        ensures
            s.wf(),
            s.current == SYSTICK_MAX,
            s.wraps == 0,
    {
        SysTick { current: SYSTICK_MAX, wraps: 0 }
    }

    /// Reads the current counter value.
    pub fn get_ticks(&self) -> (r: u32)
        ensures
            r == self.current,
    {
        self.current
    }

    /// Elapsed ticks since the earlier reading `previous`, computed as
    /// `(previous - current) mod 2^24` so that a single wrap of the
    /// down-counter between the two readings is accounted for. A caller
    /// that lets more than one wrap pass gets a too-small value; that is
    /// the documented precision limit, not a detectable error.
    pub fn get_since(&self, previous: u32) -> (r: u32)
        requires
            self.wf(),
            previous <= SYSTICK_MAX,
        ensures
            r == elapsed_ticks(previous, self.current),
            r as int == (previous - self.current + SYSTICK_WRAP) % (SYSTICK_WRAP as int),
            r <= SYSTICK_MAX,
    {
        proof {
            if self.current <= previous {
                lemma_small_mod((previous - self.current) as nat, SYSTICK_WRAP as nat);
                assert((previous - self.current + SYSTICK_WRAP) % (SYSTICK_WRAP as int) == (
                previous - self.current) % (SYSTICK_WRAP as int)) by {
                    lemma_mod_wrap_vanish(previous - self.current);
                }
            } else {
                lemma_small_mod((previous - self.current + SYSTICK_WRAP) as nat,
                    SYSTICK_WRAP as nat);
            }
        }
        if previous >= self.current {
            previous - self.current
        } else {
            previous + (SYSTICK_MAX - self.current) + 1
        }
    }

    /// Models the hardware clock: `n` ticks pass and the down-counter
    /// decrements `n` times, reloading from the top when it passes
    /// zero; the wrap counter records the reload. Ticks counted since
    /// reset grow by exactly `n`.
    pub fn elapse(&mut self, n: u32)
        requires
            old(self).wf(),
            n <= SYSTICK_MAX,
            old(self).wraps < u64::MAX,
        ensures
            final(self).wf(),
            n <= old(self).current ==> final(self).current == old(self).current - n
                && final(self).wraps == old(self).wraps,
            n > old(self).current ==> final(self).current as int == old(self).current
                + SYSTICK_WRAP - n && final(self).wraps == old(self).wraps + 1,
            total_ticks(*final(self)) == total_ticks(*old(self)) + n,
    {
        if n <= self.current {
            self.current = self.current - n;
        } else {
            self.current = self.current + (SYSTICK_MAX - n) + 1;
            self.wraps = self.wraps + 1;
        }
    }

    /// Cumulative microseconds since reset, accumulated across every
    /// observed wrap of the counter.
    pub fn run_time_us(&self) -> (us: u64)
        requires
            self.wf(),
            self.wraps < 0x100_0000_0000,
        ensures
            us as int == total_ticks(*self) * 1_000_000 / (CLOCK_HZ as int),
    {
        let total: u64 = self.wraps * 0x0100_0000 + ((SYSTICK_MAX - self.current) as u64);
        proof {
            lemma_usecs_formula(total as int);
        }
        total / 66
    }
}

/// Elapsed-time law: when the newer reading `current` arose from the
/// older reading `previous` by `n` ticks of the wrapping down-counter —
/// at most one wrap — the wraparound-safe subtraction recovers `n`
/// exactly.
pub proof fn lemma_elapsed_recovers_ticks(previous: u32, current: u32, n: u32)
    requires
        previous <= SYSTICK_MAX,
        n <= SYSTICK_MAX,
        current as int == (if n <= previous {
            previous - n
        } else {
            previous + SYSTICK_WRAP - n
        }),
    ensures
        elapsed_ticks(previous, current) == n,
{
}

/// Linear conversion from ticks to microseconds at the fixed clock
/// frequency, with an intermediate wide enough that no tick count up to
/// `u32::MAX` can overflow it.
pub fn ticks_to_usecs(ticks: u32) -> (us: u32)
    ensures
        us as int == (ticks as int) * 1_000_000 / (CLOCK_HZ as int),
{
    (((ticks as u64) * 1_000_000) / 66_000_000) as u32
}

/// At a 66 MHz clock, `t * 1_000_000 / 66_000_000` microseconds is
/// exactly `t / 66`: the shared factor cancels under integer division.
pub proof fn lemma_usecs_formula(t: int)
    requires
        t >= 0,
    ensures
        t * 1_000_000 / 66_000_000 == t / 66,
{
    lemma_div_denominator(t * 1_000_000, 1_000_000, 66);
    lemma_div_multiples_vanish(t, 1_000_000);
    assert(t * 1_000_000 == 1_000_000 * t);
    assert(1_000_000 * 66 == 66_000_000);
}

/// Adding one full modulus changes nothing modulo that modulus.
proof fn lemma_mod_wrap_vanish(x: int)
    requires
        x >= 0,
    ensures
        (x + SYSTICK_WRAP) % (SYSTICK_WRAP as int) == x % (SYSTICK_WRAP as int),
{
    vstd::arithmetic::div_mod::lemma_mod_add_multiples_vanish(x, SYSTICK_WRAP as int);
}

} // verus!
