//! Delays
use vstd::prelude::*;

use cortex_m::peripheral::SYST;

use crate::rcc::Clocks;
use crate::time::MicroSeconds;

verus! {

/// The largest reload value of the system timer (24 bits).
pub const MAX_RVR: u32 = 0x00FF_FFFF;

/// System timer (SysTick) as a delay provider
pub struct Delay {
    ticks_per_us: u32,
    syst: SYST,
}

impl Delay {
    /// Core clock ticks per microsecond.
    pub closed spec fn spec_ticks_per_us(&self) -> u32 {
        self.ticks_per_us
    }

    /// Configures the system timer (SysTick), clocked by the core, as a delay
    /// provider. The system clock must run faster than 1 MHz.
    pub fn new(syst: SYST, clocks: Clocks) -> (r: Self)
        requires
            clocks.spec_sys_clk() > 1_000_000,
        ensures
            r.spec_ticks_per_us() == clocks.spec_sys_clk() / 1_000_000,
            r.spec_ticks_per_us() >= 1,
            r.spec_syst() == syst,
    {
        let freq = clocks.sys_clk().0;
        let ticks_per_us = freq / 1_000_000u32;
        Delay { ticks_per_us, syst }
    }

    /// Core clock ticks per microsecond.
    pub fn ticks_per_us(&self) -> (r: u32)
        ensures
            r == self.spec_ticks_per_us(),
    {
        self.ticks_per_us
    }

    /// The number of system timer ticks that a wait of `us` microseconds
    /// takes.
    pub fn delay_us(&self, us: u32) -> (r: u64)
        ensures
            r == self.spec_ticks_per_us() * us,
    {
        proof {
            vstd::arithmetic::mul::lemma_mul_upper_bound(
                self.ticks_per_us as int,
                u32::MAX as int,
                us as int,
                u32::MAX as int,
            );
        }
        self.ticks_per_us as u64 * us as u64
    }

    /// The number of system timer ticks that a wait of `ms` milliseconds
    /// takes. The wait in microseconds must fit 32 bits.
    pub fn delay_ms(&self, ms: u32) -> (r: u64)
        requires
            ms * 1_000 <= u32::MAX,
        ensures
            r == self.spec_ticks_per_us() * (ms * 1_000),
    {
        self.delay_us(ms * 1_000)
    }

    /// The number of system timer ticks that a wait for the given time
    /// takes. `None` stands for a duration that has no `u32` number of
    /// microseconds: such a wait is clamped at `u32::MAX` microseconds.
    pub fn delay(&self, delay: Option<MicroSeconds>) -> (r: u64)
        ensures
            r == self.spec_ticks_per_us() * match delay {
                Some(d) => d.0,
                None => u32::MAX,
            },
    {
        let us = match delay {
            Some(d) => d.0,
            None => u32::MAX,
        };
        self.delay_us(us)
    }

    /// The system timer.
    pub closed spec fn spec_syst(&self) -> SYST {
        self.syst
    }

    /// The system timer, to be driven through the periods of a wait (see
    /// [`next_reload`]).
    pub fn syst_mut(&mut self) -> (r: &mut SYST)
        ensures
            *r == old(self).spec_syst(),
            final(self).spec_syst() == *final(r),
            final(self).spec_ticks_per_us() == old(self).spec_ticks_per_us(),
    {
        &mut self.syst
    }

    /// Releases the system timer (SysTick) resource
    pub fn free(self) -> (r: SYST)
        ensures
            r == self.spec_syst(),
    {
        self.syst
    }
}

/// The reload values of the system timer periods that a wait of `total`
/// ticks is made of: periods of the whole timer range, then one for what
/// remains. No period for a wait of no ticks.
pub open spec fn reloads(total: nat) -> Seq<u32>
    decreases total,
{
    if total == 0 {
        seq![]
    } else if total <= MAX_RVR {
        seq![total as u32]
    } else {
        seq![MAX_RVR] + reloads((total - MAX_RVR) as nat)
    }
}

/// The sum of a sequence of reload values.
pub open spec fn sum_reloads(s: Seq<u32>) -> int
    decreases s.len(),
{
    if s.len() == 0 {
        0
    } else {
        s[0] + sum_reloads(s.drop_first())
    }
}

/// The next step of a wait with `total` ticks still to go: `None` when
/// nothing remains (the timer is not touched), else the reload value of the
/// next period and the ticks that remain after it. Taking step after step
/// until `None` gives the periods of [`reloads`].
pub fn next_reload(total: u64) -> (r: Option<(u32, u64)>)
    ensures
        r is None <==> total == 0,
        r matches Some((current, rest)) ==> {
            &&& current == (if total <= MAX_RVR {
                total
            } else {
                MAX_RVR as u64
            })
            &&& 0 < current <= MAX_RVR
            &&& current + rest == total
            &&& reloads(total as nat) == seq![current] + reloads(rest as nat)
        },
{
    if total == 0 {
        None
    } else if total <= MAX_RVR as u64 {
        proof {
            assert(reloads(0) == Seq::<u32>::empty());
            assert(reloads(total as nat) =~= seq![total as u32] + reloads(0));
        }
        Some((total as u32, 0))
    } else {
        Some((MAX_RVR, total - MAX_RVR as u64))
    }
}

/// The periods of a wait add up to the wait: every reload value lies in
/// `1..=MAX_RVR`, all but the last are `MAX_RVR`, there are
/// `ceil(total / MAX_RVR)` of them and their sum is `total`.
pub proof fn lemma_reloads(total: nat)
    ensures
        sum_reloads(reloads(total)) == total,
        reloads(total).len() == (total + MAX_RVR - 1) / (MAX_RVR as int),
        forall|i: int|
            0 <= i < reloads(total).len() ==> 1 <= #[trigger] reloads(total)[i] <= MAX_RVR,
        forall|i: int|
            0 <= i < reloads(total).len() - 1 ==> #[trigger] reloads(total)[i] == MAX_RVR,
    decreases total,
{
    if total == 0 {
    } else if total <= MAX_RVR {
        let s = reloads(total);
        assert(s.drop_first() =~= Seq::<u32>::empty());
        assert(s[0] == total);
        assert(sum_reloads(s.drop_first()) == 0);
        assert((total + MAX_RVR - 1) / (MAX_RVR as int) == 1) by (nonlinear_arith)
            requires
                1 <= total <= MAX_RVR,
        ;
    } else {
        let rest = (total - MAX_RVR) as nat;
        lemma_reloads(rest);
        assert((total + MAX_RVR - 1) / (MAX_RVR as int) == (rest + MAX_RVR - 1) / (
        MAX_RVR as int) + 1) by (nonlinear_arith)
            requires
                rest == total - MAX_RVR,
        ;
        let s = reloads(total);
        assert(s.drop_first() =~= reloads(rest));
        assert(sum_reloads(s) == MAX_RVR + sum_reloads(reloads(rest)));
        assert forall|i: int| 0 <= i < s.len() implies 1 <= #[trigger] s[i] <= MAX_RVR by {
            if i > 0 {
                assert(s[i] == reloads(rest)[i - 1]);
            }
        }
        assert forall|i: int| 0 <= i < s.len() - 1 implies #[trigger] s[i] == MAX_RVR by {
            if i > 0 {
                assert(s[i] == reloads(rest)[i - 1]);
            }
        }
    }
}

} // verus!
