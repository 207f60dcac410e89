//! Independent and window watchdogs
use vstd::prelude::*;

use crate::bits::{disjoint, field, lemma_low_masks, with_field, write_field};
use crate::rcc::Clocks;
use crate::time::Hertz;
use stm32l0::stm32l0x2::IWDG;

verus! {

/// The frequency of the low-speed internal oscillator that clocks the
/// independent watchdog.
pub const LSI_CLOCK: u32 = 38_000;

/// Key register (`IWDG_KR`) value that reloads the counter.
pub const KR_RELOAD: u32 = 0xAAAA;

/// Key register value that unlocks the prescaler and reload registers.
pub const KR_UNLOCK: u32 = 0x5555;

/// Key register value that starts the watchdog.
pub const KR_START: u32 = 0xCCCC;

/// Reset value of the window watchdog configuration register (`CFR`).
pub const WWDG_CFR_RESET: u32 = 0x7f;

/// Bit of `EWI` (early wakeup interrupt) in `CFR`.
pub const WWDG_CFR_EWI: u32 = 9;

/// First bit of `WDGTB` (timer base) in `CFR`.
pub const WWDG_CFR_WDGTB: u32 = 7;

/// Reset value of the window watchdog control register (`CR`).
pub const WWDG_CR_RESET: u32 = 0x7f;

/// Bit of `WDGA` (activation) in `CR`.
pub const WWDG_CR_WDGA: u32 = 7;

/// Two to the power of `k`, for the prescaler exponents in use.
pub open spec fn pow2(k: int) -> int
    decreases k,
{
    if k <= 0 {
        1
    } else {
        2 * pow2(k - 1)
    }
}

/// One access to the independent watchdog's registers, in the order a
/// driver makes them.
#[derive(Debug, Clone, Copy, PartialEq, Eq, Structural)]
pub enum IwdgOp {
    /// Write this key to the key register `KR`.
    Kr(u32),
    /// Wait until the prescaler may be updated (`SR.PVU` reads 0).
    WaitPvuClear,
    /// Write this value to the prescaler register `PR`.
    Pr(u32),
    /// Wait until the reload value may be updated (`SR.RVU` reads 0).
    WaitRvuClear,
    /// Write this value to the reload register `RLR`.
    Rlr(u32),
}

/// The accesses that configure the independent watchdog with prescaler
/// `pr` and reload value `rlr` and start it: the counter reloaded and the
/// registers unlocked, the prescaler and reload value written once they may
/// be, then the watchdog started and reloaded.
pub open spec fn config_ops(pr: u8, rlr: u16) -> Seq<IwdgOp> {
    seq![
        IwdgOp::Kr(KR_RELOAD),
        IwdgOp::Kr(KR_UNLOCK),
        IwdgOp::WaitPvuClear,
        IwdgOp::Pr(pr as u32),
        IwdgOp::WaitRvuClear,
        IwdgOp::Rlr(rlr as u32),
        IwdgOp::Kr(KR_START),
        IwdgOp::Kr(KR_RELOAD),
    ]
}

/// The accesses of [`config_ops`].
fn config_writes(pr: u8, rlr: u16) -> (r: Vec<IwdgOp>)
    ensures
        r@ == config_ops(pr, rlr),
{
    let mut r: Vec<IwdgOp> = Vec::new();
    r.push(IwdgOp::Kr(KR_RELOAD));
    r.push(IwdgOp::Kr(KR_UNLOCK));
    r.push(IwdgOp::WaitPvuClear);
    r.push(IwdgOp::Pr(pr as u32));
    r.push(IwdgOp::WaitRvuClear);
    r.push(IwdgOp::Rlr(rlr as u32));
    r.push(IwdgOp::Kr(KR_START));
    r.push(IwdgOp::Kr(KR_RELOAD));
    assert(r@ =~= config_ops(pr, rlr));
    r
}

/// Independent watchdog: its prescaler (`PR`) and reload (`RLR`)
/// registers, as plain values.
pub struct IndependedWatchdog {
    pr: u8,
    rlr: u16,
}

impl IndependedWatchdog {
    /// The prescaler register.
    pub closed spec fn spec_pr(&self) -> u8 {
        self.pr
    }

    /// The reload register.
    pub closed spec fn spec_rlr(&self) -> u16 {
        self.rlr
    }

    /// An independent watchdog with both registers at zero.
    pub fn new() -> (r: Self)
        ensures
            r.spec_pr() == 0,
            r.spec_rlr() == 0,
    {
        IndependedWatchdog { pr: 0, rlr: 0 }
    }

    /// The prescaler register value to write.
    pub fn pr(&self) -> (r: u8)
        ensures
            r == self.spec_pr(),
    {
        self.pr
    }

    /// The reload register value to write.
    pub fn rlr(&self) -> (r: u16)
        ensures
            r == self.spec_rlr(),
    {
        self.rlr
    }

    /// Sets prescaler and reload value: the three-bit `PR` field and the
    /// twelve-bit `RL` field take the low bits of `pre` and `reload`.
    ///
    /// Returns the register accesses that configure and start the watchdog,
    /// in order (see [`config_ops`]).
    pub fn set_config(&mut self, pre: u8, reload: u16) -> (r: Vec<IwdgOp>)
        ensures
            final(self).spec_pr() == pre & 0x07,
            final(self).spec_rlr() == reload & 0x0fff,
            r@ == config_ops(final(self).spec_pr(), final(self).spec_rlr()),
    {
        self.pr = pre & 0x07;
        self.rlr = reload & 0x0fff;
        config_writes(self.pr, self.rlr)
    }

    /// The key that reloads the counter (feeds the watchdog).
    pub fn feed(&self) -> (r: u32)
        ensures
            r == KR_RELOAD,
    {
        KR_RELOAD
    }

    /// Configures the watchdog to time out after a period of `period` (as a
    /// frequency): the LSI ticks per period, divided by four, are halved
    /// until they fit the 12-bit reload value, each halving raising the
    /// prescaler by one.
    ///
    /// Returns the register accesses that configure and start the watchdog,
    /// in order (see [`config_ops`]).
    pub fn start(&mut self, period: Hertz) -> (r: Vec<IwdgOp>)
        requires
            period.0 > 0,
        ensures
            r@ == config_ops(final(self).spec_pr(), final(self).spec_rlr()),
            ({
                let t = LSI_CLOCK / period.0 / 4;
                let pre = final(self).spec_pr() as int;
                &&& pre <= 2
                &&& final(self).spec_rlr() == t as int / pow2(pre)
                &&& final(self).spec_rlr() <= 0xfff
                &&& forall|k: int| 0 <= k < pre ==> t as int / #[trigger] pow2(k) > 0xfff
            }),
    {
        let freq = period.0;
        let t = LSI_CLOCK / freq / 4;
        let mut timeout = t;
        let mut pre: u8 = 0;
        let mut reload: u32 = 0;
        assert(t <= 9500);
        while pre < 7
            invariant_except_break
                pre <= 2,
                timeout == t as int / pow2(pre as int),
                t <= 9500,
                forall|k: int| 0 <= k < pre ==> t as int / #[trigger] pow2(k) > 0xfff,
            ensures
                pre <= 2,
                reload == t as int / pow2(pre as int),
                reload <= 0xfff,
                forall|k: int| 0 <= k < pre ==> t as int / #[trigger] pow2(k) > 0xfff,
            decreases 7 - pre,
        {
            reload = timeout;
            if reload <= 0xFFF {
                break;
            }
            assert(pow2(1) == 2 && pow2(2) == 4 && pow2(3) == 8) by {
                reveal_with_fuel(pow2, 4);
            }
            assert(t / 2 / 2 == t / 4);
            assert(pre < 2) by {
                if pre == 2 {
                    assert(t / 4 <= 2375);
                }
            }
            pre += 1;
            timeout /= 2;
        }
        let ops = self.set_config(pre, reload as u16);
        assert(pre & 0x07 == pre) by (bit_vector)
            requires
                pre <= 2,
        ;
        assert((reload as u16) & 0x0fff == reload as u16) by (bit_vector)
            requires
                reload <= 0xfff,
        ;
        ops
    }
}

/// The `W` (window) field written for a threshold of `threshold` ticks: the
/// counter value below which refreshing is allowed, `0xFF - threshold` cut
/// to the field's seven bits, or zero for thresholds of `0xFF` and more.
pub open spec fn window_bits(threshold: u32) -> u32 {
    if threshold >= 0xff {
        0
    } else {
        ((0xff - threshold) as u32) & 0x7f
    }
}

/// Window watchdog: the watchdog clock and the configuration and control
/// registers, as plain values.
pub struct WindowWatchdog {
    clk: u32,
    cfr: u32,
    cr: u32,
}

impl WindowWatchdog {
    /// The watchdog counter clock: the APB1 clock divided by 4096.
    pub closed spec fn spec_clk(&self) -> u32 {
        self.clk
    }

    /// The configuration register.
    pub closed spec fn spec_cfr(&self) -> u32 {
        self.cfr
    }

    /// The control register.
    pub closed spec fn spec_cr(&self) -> u32 {
        self.cr
    }

    /// A window watchdog clocked from APB1, registers at their reset values.
    pub fn new(clocks: &Clocks) -> (r: Self)
        ensures
            r.spec_clk() == clocks.spec_apb1_clk() / 4096,
            r.spec_cfr() == WWDG_CFR_RESET,
            r.spec_cr() == WWDG_CR_RESET,
    {
        WindowWatchdog { clk: clocks.apb1_clk().0 / 4096, cfr: WWDG_CFR_RESET, cr: WWDG_CR_RESET }
    }

    /// The configuration register value to write.
    pub fn cfr(&self) -> (r: u32)
        ensures
            r == self.spec_cfr(),
    {
        self.cfr
    }

    /// The control register value to write.
    pub fn cr(&self) -> (r: u32)
        ensures
            r == self.spec_cr(),
    {
        self.cr
    }

    /// Refreshes the counter: the control register is written with the
    /// counter `T` at its maximum.
    pub fn feed(&mut self)
        ensures
            final(self).spec_cr() == WWDG_CR_RESET,
            final(self).spec_cfr() == old(self).spec_cfr(),
            final(self).spec_clk() == old(self).spec_clk(),
    {
        self.cr = WWDG_CR_RESET;
    }

    /// Sets the refresh window to `window` (as a frequency): the watchdog
    /// ticks per window are halved until they fit the 7-bit counter range,
    /// at most three times, each halving raising the timer base by one. The
    /// configuration register is written anew, from its reset value.
    pub fn set_window(&mut self, window: Hertz)
        requires
            window.0 > 0,
        ensures
            ({
                let t = old(self).spec_clk() / window.0;
                let pre = field(final(self).spec_cfr(), WWDG_CFR_WDGTB, 2) as int;
                let threshold = t as int / pow2(if pre < 3 { pre } else { 2 });
                &&& pre <= 3
                &&& pre < 3 ==> threshold <= 0x7f
                &&& forall|k: int| 0 <= k < pre ==> t as int / #[trigger] pow2(k) > 0x7f
                &&& final(self).spec_cfr() == with_field(
                    with_field(WWDG_CFR_RESET, WWDG_CFR_WDGTB, 2, pre as u32),
                    0,
                    7,
                    window_bits(threshold as u32),
                )
            }),
            final(self).spec_clk() == old(self).spec_clk(),
            final(self).spec_cr() == old(self).spec_cr(),
    {
        proof {
            lemma_low_masks();
        }
        let freq = window.0;
        let t = self.clk / freq;
        let mut ticks = t;
        let mut pre: u32 = 0;
        let mut threshold: u32 = 0;
        while pre < 3
            invariant_except_break
                pre <= 3,
                ticks == t as int / pow2(pre as int),
                pre >= 1 ==> threshold == t as int / pow2(pre - 1),
                forall|k: int| 0 <= k < pre ==> t as int / #[trigger] pow2(k) > 0x7f,
            ensures
                pre <= 3,
                threshold == t as int / pow2(if pre < 3 { pre as int } else { 2 }),
                pre < 3 ==> threshold <= 0x7f,
                forall|k: int| 0 <= k < pre ==> t as int / #[trigger] pow2(k) > 0x7f,
            decreases 3 - pre,
        {
            threshold = ticks;
            if threshold <= 0x7F {
                break;
            }
            assert(pow2(1) == 2 && pow2(2) == 4 && pow2(3) == 8) by {
                reveal_with_fuel(pow2, 4);
            }
            assert(t / 2 / 2 == t / 4);
            pre += 1;
            ticks /= 2;
        }
        let window_bits: u32 = if threshold >= 0xFF {
            0
        } else {
            let diff: u32 = 0xFF - threshold;
            assert(diff & 0x7f <= 0x7f) by (bit_vector);
            diff & 0x7f
        };
        let cfr = write_field(WWDG_CFR_RESET, WWDG_CFR_WDGTB, 2, pre);
        self.cfr = write_field(cfr, 0, 7, window_bits);
        proof {
            crate::bits::lemma_field_frame(cfr, 0, 7, window_bits, WWDG_CFR_WDGTB, 2);
            assert(disjoint(0, 7, WWDG_CFR_WDGTB, 2));
        }
    }

    /// Enables the early wakeup interrupt: the configuration register is
    /// written anew, from its reset value, with only `EWI` added.
    pub fn listen(&mut self)
        ensures
            final(self).spec_cfr() == with_field(WWDG_CFR_RESET, WWDG_CFR_EWI, 1, 1),
            final(self).spec_clk() == old(self).spec_clk(),
            final(self).spec_cr() == old(self).spec_cr(),
    {
        proof {
            lemma_low_masks();
        }
        self.cfr = write_field(WWDG_CFR_RESET, WWDG_CFR_EWI, 1, 1);
    }

    /// Starts the watchdog: sets the window, then activates the watchdog
    /// with the counter at its maximum.
    pub fn start(&mut self, period: Hertz)
        requires
            period.0 > 0,
        ensures
            final(self).spec_cr() == with_field(WWDG_CR_RESET, WWDG_CR_WDGA, 1, 1),
            final(self).spec_clk() == old(self).spec_clk(),
    {
        proof {
            lemma_low_masks();
        }
        self.set_window(period);
        self.cr = write_field(WWDG_CR_RESET, WWDG_CR_WDGA, 1, 1);
    }
}

/// Extension trait that turns the independent watchdog peripheral into an
/// `IndependedWatchdog`.
pub trait IndependedWatchdogExt {
    fn watchdog(self) -> IndependedWatchdog;
}

impl IndependedWatchdogExt for IWDG {
    /// An independent watchdog with both registers at zero.
    fn watchdog(self) -> (r: IndependedWatchdog)
        ensures
            r.spec_pr() == 0,
            r.spec_rlr() == 0,
    {
        IndependedWatchdog::new()
    }
}

} // verus!
