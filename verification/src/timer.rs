//! Timers
use vstd::prelude::*;

use crate::bits::{lemma_low_masks, with_field, write_field};
use crate::convert::{cast_u16, expect_u16};
use crate::rcc::Clocks;
use crate::time::Hertz;
use stm32l0::stm32l0x2::{TIM2, TIM21, TIM22, TIM3, TIM6};

verus! {

/// The number of timer input clock ticks per period of `freq`.
pub open spec fn ticks(freq: u32, clk: u32) -> int
    recommends
        freq > 0,
{
    clk as int / freq as int
}

/// The prescaler (`PSC`) for a period of `t` ticks: the smallest prescaler
/// with which the period fits the 16-bit counter.
pub open spec fn prescaler(t: int) -> int {
    (t - 1) / 0x1_0000
}

/// A period of `freq` can be set up on a 16-bit timer running at `clk`:
/// at least one tick per period, and prescaler and auto-reload value within
/// 16 bits.
pub open spec fn clock_config_ok(freq: u32, clk: u32) -> bool {
    &&& freq > 0
    &&& ticks(freq, clk) >= 1
    &&& prescaler(ticks(freq, clk)) < u16::MAX
    &&& ticks(freq, clk) / (prescaler(ticks(freq, clk)) + 1) <= u16::MAX
}

/// Whether a period of `freq` can be set up on a 16-bit timer running at
/// `clk` (see [`clock_config_ok`]).
pub fn clock_config_valid(freq: u32, clk: u32) -> (r: bool)
    ensures
        r == clock_config_ok(freq, clk),
{
    if freq == 0 {
        return false;
    }
    let t = clk / freq;
    if t < 1 {
        return false;
    }
    let psc = (t - 1) / 0x1_0000;
    psc < 0xffff && t / (psc + 1) <= 0xffff
}

/// Computes the prescaler and auto-reload values (`PSC`, `ARR`) that make a
/// 16-bit timer running at `clk` count periods of `freq`.
pub fn get_clock_config(freq: u32, clk: u32) -> (r: (u16, u16))
    requires
        clock_config_ok(freq, clk),
    ensures
        r.0 == prescaler(ticks(freq, clk)),
        r.1 == ticks(freq, clk) / (r.0 + 1),
{
    let ticks = clk / freq;
    let psc = expect_u16(cast_u16((ticks - 1) / 0x1_0000));
    let arr = expect_u16(cast_u16(ticks / (psc as u32 + 1)));
    (psc, arr)
}

/// The prescaled period covers the requested number of ticks, short by less
/// than one prescaled tick: `(PSC + 1) * ARR <= ticks < (PSC + 1) * (ARR + 1)`.
pub proof fn lemma_clock_config_period(freq: u32, clk: u32, psc: u16, arr: u16)
    requires
        clock_config_ok(freq, clk),
        psc == prescaler(ticks(freq, clk)),
        arr == ticks(freq, clk) / (psc + 1),
    ensures
        (psc + 1) * arr <= ticks(freq, clk) < (psc + 1) * (arr + 1),
{
    let t = ticks(freq, clk);
    let p = psc + 1;
    assert(p * arr <= t < p * (arr + 1)) by (nonlinear_arith)
        requires
            p >= 1,
            arr == t / p,
    ;
}

/// The SysTick reload value (`RVR`) for periods of `freq` at system clock
/// `sys_clk` fits the 24-bit counter.
pub open spec fn syst_reload_ok(freq: u32, sys_clk: u32) -> bool {
    &&& freq > 0
    &&& sys_clk / freq >= 1
    &&& sys_clk / freq - 1 < 0x100_0000
}

/// Whether the SysTick reload value for periods of `freq` at system clock
/// `sys_clk` fits the 24-bit counter (see [`syst_reload_ok`]).
pub fn syst_reload_valid(freq: u32, sys_clk: u32) -> (r: bool)
    ensures
        r == syst_reload_ok(freq, sys_clk),
{
    freq > 0 && sys_clk / freq >= 1 && sys_clk / freq - 1 < 0x100_0000
}

/// Hardware timers: a timer peripheral together with the clock
/// frequencies it was set up with.
pub struct Timer<TIM> {
    clocks: Clocks,
    tim: TIM,
}

impl<TIM> Timer<TIM> {
    /// The clock frequencies.
    pub closed spec fn spec_clocks(&self) -> Clocks {
        self.clocks
    }

    /// The timer peripheral.
    pub closed spec fn spec_tim(&self) -> TIM {
        self.tim
    }

    /// A timer on `tim`, driven by the frozen `clocks`.
    pub fn new(tim: TIM, clocks: Clocks) -> (r: Self)
        ensures
            r.spec_clocks() == clocks,
            r.spec_tim() == tim,
    {
        Timer { clocks, tim }
    }

    /// The frozen clock frequencies.
    pub fn clocks(&self) -> (r: Clocks)
        ensures
            r == self.spec_clocks(),
    {
        self.clocks
    }

    /// The timer peripheral.
    pub fn tim(&self) -> (r: &TIM)
        ensures
            *r == self.spec_tim(),
    {
        &self.tim
    }

    /// Releases the timer peripheral.
    pub fn release(self) -> (r: TIM)
        ensures
            r == self.spec_tim(),
    {
        self.tim
    }

    /// The SysTick reload value that makes the system timer count down
    /// periods of `timeout`.
    pub fn syst_reload(&self, timeout: Hertz) -> (r: u32)
        requires
            syst_reload_ok(timeout.0, self.spec_clocks().spec_sys_clk()),
        ensures
            r == self.spec_clocks().spec_sys_clk() / timeout.0 - 1,
    {
        self.clocks.sys_clk().0 / timeout.0 - 1
    }

    /// Prescaler and auto-reload values for periods of `timeout` on a timer
    /// of the APB1 bus (TIM2, TIM3, TIM6).
    pub fn apb1_config(&self, timeout: Hertz) -> (r: (u16, u16))
        requires
            clock_config_ok(timeout.0, self.spec_clocks().spec_apb1_tim_clk()),
        ensures
            r == (prescaler(ticks(timeout.0, self.spec_clocks().spec_apb1_tim_clk())) as u16,
            (ticks(timeout.0, self.spec_clocks().spec_apb1_tim_clk()) / (prescaler(
                ticks(timeout.0, self.spec_clocks().spec_apb1_tim_clk()),
            ) + 1)) as u16),
    {
        get_clock_config(timeout.0, self.clocks.apb1_tim_clk().0)
    }

    /// Prescaler and auto-reload values for periods of `timeout` on a timer
    /// of the APB2 bus (TIM21, TIM22).
    pub fn apb2_config(&self, timeout: Hertz) -> (r: (u16, u16))
        requires
            clock_config_ok(timeout.0, self.spec_clocks().spec_apb2_tim_clk()),
        ensures
            r == (prescaler(ticks(timeout.0, self.spec_clocks().spec_apb2_tim_clk())) as u16,
            (ticks(timeout.0, self.spec_clocks().spec_apb2_tim_clk()) / (prescaler(
                ticks(timeout.0, self.spec_clocks().spec_apb2_tim_clk()),
            ) + 1)) as u16),
    {
        get_clock_config(timeout.0, self.clocks.apb2_tim_clk().0)
    }

    /// One look at the status register `sr` of a general purpose timer
    /// while waiting for the end of a period: `None` while no update is
    /// pending; otherwise the period is over and the value given, `sr` with
    /// the update flag cleared, is written back.
    pub fn wait(&mut self, sr: u32) -> (r: Option<u32>)
        ensures
            r == (if crate::bits::bit_set(sr, 0) {
                Some(crate::bits::with_field(sr, 0, 1, 0))
            } else {
                None::<u32>
            }),
            final(self).spec_clocks() == old(self).spec_clocks(),
            final(self).spec_tim() == old(self).spec_tim(),
    {
        proof {
            crate::bits::lemma_low_masks();
        }
        if crate::bits::read_field(sr, 0, 1) == 0 {
            None
        } else {
            Some(crate::bits::write_field(sr, 0, 1, 0))
        }
    }
}

/// Bit of `CEN` (counter enable) in `TIMx_CR1`.
pub const CR1_CEN: u32 = 0;

/// Bit of `URS` (update request source) in `TIMx_CR1`.
pub const CR1_URS: u32 = 2;

/// First bit of the three-bit `MMS` field (master mode) in `TIMx_CR2`.
pub const CR2_MMS: u32 = 4;

/// First bit of the three-bit `SMS` field (slave mode) in `TIMx_SMCR`.
pub const SMCR_SMS: u32 = 0;

/// First bit of the three-bit `TS` field (trigger selection) in
/// `TIMx_SMCR`.
pub const SMCR_TS: u32 = 4;

/// The `TS` value of internal trigger 0 (`ITR0`), which carries the
/// trigger output of the partner timer (TIM2 for TIM3, TIM21 for TIM22).
pub const TS_ITR0: u32 = 0b000;

/// The `SMS` value of external clock mode 1: the rising edges of the
/// trigger clock the counter.
pub const SMS_EXT_CLOCK_MODE: u32 = 0b111;

/// The `MMS` value that puts the update event on the trigger output.
pub const MMS_UPDATE: u32 = 0b010;

/// The `CR1` values written when a count-down starts, in order, from its
/// value `cr1`: the counter stopped (before the counter is reset and the
/// prescaler and auto-reload values are written); the update request
/// source restricted to overflows, so that the update forced next raises no
/// interrupt; the counter running again.
pub open spec fn start_cr1_steps(cr1: u32) -> (u32, u32, u32) {
    let stopped = with_field(cr1, CR1_CEN, 1, 0);
    let urs = with_field(stopped, CR1_URS, 1, 1);
    (stopped, urs, with_field(urs, CR1_CEN, 1, 1))
}

/// Bit of `UG` (update generation) in `TIMx_EGR`.
pub const EGR_UG: u32 = 0;

/// One register access of a count-down start, in the order a driver makes
/// them.
#[derive(Debug, Clone, Copy, PartialEq, Eq, Structural)]
pub enum StartStep {
    /// Write this value to the control register `CR1`.
    Cr1(u32),
    /// Reset the counter `CNT`.
    ResetCounter,
    /// Write this value to the prescaler `PSC`.
    Psc(u16),
    /// Write this value to the auto-reload register `ARR`.
    Arr(u16),
    /// Write this value to the event generation register `EGR`.
    Egr(u32),
}

/// The steps of a count-down start from the control register value `cr1`
/// read before: pause the counter and reset it, write the prescaler and
/// auto-reload values, set `URS` so that loading them raises no interrupt,
/// load them with an update event, and run the counter again.
pub open spec fn start_steps_spec(cr1: u32, psc: u16, arr: u16) -> Seq<StartStep> {
    let (stopped, urs, running) = start_cr1_steps(cr1);
    seq![
        StartStep::Cr1(stopped),
        StartStep::ResetCounter,
        StartStep::Psc(psc),
        StartStep::Arr(arr),
        StartStep::Cr1(urs),
        StartStep::Egr(1u32 << EGR_UG),
        StartStep::Cr1(running),
    ]
}

impl<TIM> Timer<TIM> {
    /// The register accesses of a count-down start (see
    /// [`start_steps_spec`]), from the control register value `cr1` read
    /// before and the prescaler and auto-reload values of the period.
    pub fn start_steps(&self, cr1: u32, psc: u16, arr: u16) -> (r: Vec<StartStep>)
        ensures
            r@ == start_steps_spec(cr1, psc, arr),
    {
        let (stopped, urs, running) = self.start_cr1(cr1);
        let mut r: Vec<StartStep> = Vec::new();
        r.push(StartStep::Cr1(stopped));
        r.push(StartStep::ResetCounter);
        r.push(StartStep::Psc(psc));
        r.push(StartStep::Arr(arr));
        r.push(StartStep::Cr1(urs));
        r.push(StartStep::Egr(1u32 << EGR_UG));
        r.push(StartStep::Cr1(running));
        r
    }

    /// The control register values of a count-down start (see
    /// [`start_cr1_steps`]), from the value `cr1` read before.
    pub fn start_cr1(&self, cr1: u32) -> (r: (u32, u32, u32))
        ensures
            r == start_cr1_steps(cr1),
    {
        proof {
            lemma_low_masks();
        }
        let stopped = write_field(cr1, CR1_CEN, 1, 0);
        let urs = write_field(stopped, CR1_URS, 1, 1);
        (stopped, urs, write_field(urs, CR1_CEN, 1, 1))
    }

    /// The interrupt enable register value that listens for the update
    /// interrupt.
    pub fn listen(&mut self) -> (r: u32)
        ensures
            r == 1,
            *final(self) == *old(self),
    {
        1
    }

    /// The interrupt enable register value that stops listening.
    pub fn unlisten(&mut self) -> (r: u32)
        ensures
            r == 0,
            *final(self) == *old(self),
    {
        0
    }

    /// The status register value that clears the update interrupt flag
    /// (and leaves the other flags at their reset value).
    pub fn clear_irq(&mut self) -> (r: u32)
        ensures
            r == 0,
            *final(self) == *old(self),
    {
        0
    }

    /// The control register values that reset the counter, from the value
    /// `cr1` read before: the counter paused, then (after the counter is
    /// cleared) running again.
    pub fn reset_cr1(&mut self, cr1: u32) -> (r: (u32, u32))
        ensures
            r.0 == with_field(cr1, CR1_CEN, 1, 0),
            r.1 == with_field(r.0, CR1_CEN, 1, 1),
            *final(self) == *old(self),
    {
        proof {
            lemma_low_masks();
        }
        let paused = write_field(cr1, CR1_CEN, 1, 0);
        (paused, write_field(paused, CR1_CEN, 1, 1))
    }

    /// The control register value that stops the counter before the timer
    /// is released, from the value `cr1` read before.
    pub fn stop_cr1(&self, cr1: u32) -> (r: u32)
        ensures
            r == with_field(cr1, CR1_CEN, 1, 0),
    {
        proof {
            lemma_low_masks();
        }
        write_field(cr1, CR1_CEN, 1, 0)
    }
}

/// Trait for general purpose timer peripherals
pub trait GeneralPurposeTimer {
    type MasterMode;

    /// The `MMS` field value of a master mode.
    spec fn spec_mms(variant: Self::MasterMode) -> u32;

    /// Selects the master mode for this timer: the control register 2
    /// value, from its value `cr2`.
    fn select_master_mode(&mut self, cr2: u32, variant: Self::MasterMode) -> (r: u32)
        ensures
            r == with_field(cr2, CR2_MMS, 3, Self::spec_mms(variant)),
    ;
}

/// What the trigger output (`TRGO`) of TIM2 and TIM3 carries.
#[derive(Debug, Clone, Copy, PartialEq, Eq, Structural)]
pub enum MasterMode {
    /// The `UG` bit of the event generation register
    Reset,
    /// The counter enable signal
    Enable,
    /// The update event
    Update,
    /// A pulse when a capture or a compare match sets `CC1IF`
    ComparePulse,
    /// `OC1REF`
    CompareOc1,
    /// `OC2REF`
    CompareOc2,
    /// `OC3REF`
    CompareOc3,
    /// `OC4REF`
    CompareOc4,
}

impl MasterMode {
    /// The `MMS` field value.
    pub open spec fn spec_bits(self) -> u32 {
        match self {
            MasterMode::Reset => 0,
            MasterMode::Enable => 1,
            MasterMode::Update => 2,
            MasterMode::ComparePulse => 3,
            MasterMode::CompareOc1 => 4,
            MasterMode::CompareOc2 => 5,
            MasterMode::CompareOc3 => 6,
            MasterMode::CompareOc4 => 7,
        }
    }

    fn bits(&self) -> (r: u32)
        ensures
            r == self.spec_bits(),
    {
        match self {
            MasterMode::Reset => 0,
            MasterMode::Enable => 1,
            MasterMode::Update => 2,
            MasterMode::ComparePulse => 3,
            MasterMode::CompareOc1 => 4,
            MasterMode::CompareOc2 => 5,
            MasterMode::CompareOc3 => 6,
            MasterMode::CompareOc4 => 7,
        }
    }
}

/// What the trigger output (`TRGO`) of TIM21 and TIM22 carries.
#[derive(Debug, Clone, Copy, PartialEq, Eq, Structural)]
pub enum MasterModeTim21 {
    /// The `UG` bit of the event generation register
    Reset,
    /// The counter enable signal
    Enable,
    /// The update event
    Update,
    /// A pulse when a capture or a compare match sets `CC1IF`
    ComparePulse,
    /// `OC1REF`
    Oc1Ref,
    /// `OC2REF`
    Oc2Ref,
}

impl MasterModeTim21 {
    /// The `MMS` field value.
    pub open spec fn spec_bits(self) -> u32 {
        match self {
            MasterModeTim21::Reset => 0,
            MasterModeTim21::Enable => 1,
            MasterModeTim21::Update => 2,
            MasterModeTim21::ComparePulse => 3,
            MasterModeTim21::Oc1Ref => 4,
            MasterModeTim21::Oc2Ref => 5,
        }
    }

    fn bits(&self) -> (r: u32)
        ensures
            r == self.spec_bits(),
    {
        match self {
            MasterModeTim21::Reset => 0,
            MasterModeTim21::Enable => 1,
            MasterModeTim21::Update => 2,
            MasterModeTim21::ComparePulse => 3,
            MasterModeTim21::Oc1Ref => 4,
            MasterModeTim21::Oc2Ref => 5,
        }
    }
}

/// What the trigger output (`TRGO`) of the basic timer TIM6 carries.
#[derive(Debug, Clone, Copy, PartialEq, Eq, Structural)]
pub enum MasterModeTim6 {
    /// The `UG` bit of the event generation register
    Reset,
    /// The counter enable signal
    Enable,
    /// The update event
    Update,
}

impl MasterModeTim6 {
    /// The `MMS` field value.
    pub open spec fn spec_bits(self) -> u32 {
        match self {
            MasterModeTim6::Reset => 0,
            MasterModeTim6::Enable => 1,
            MasterModeTim6::Update => 2,
        }
    }

    fn bits(&self) -> (r: u32)
        ensures
            r == self.spec_bits(),
    {
        match self {
            MasterModeTim6::Reset => 0,
            MasterModeTim6::Enable => 1,
            MasterModeTim6::Update => 2,
        }
    }
}

impl GeneralPurposeTimer for TIM2 {
    type MasterMode = MasterMode;

    open spec fn spec_mms(variant: MasterMode) -> u32 {
        variant.spec_bits()
    }

    fn select_master_mode(&mut self, cr2: u32, variant: MasterMode) -> (r: u32) {
        proof {
            lemma_low_masks();
        }
        write_field(cr2, CR2_MMS, 3, variant.bits())
    }
}

impl GeneralPurposeTimer for TIM3 {
    type MasterMode = MasterMode;

    open spec fn spec_mms(variant: MasterMode) -> u32 {
        variant.spec_bits()
    }

    fn select_master_mode(&mut self, cr2: u32, variant: MasterMode) -> (r: u32) {
        proof {
            lemma_low_masks();
        }
        write_field(cr2, CR2_MMS, 3, variant.bits())
    }
}

impl GeneralPurposeTimer for TIM6 {
    type MasterMode = MasterModeTim6;

    open spec fn spec_mms(variant: MasterModeTim6) -> u32 {
        variant.spec_bits()
    }

    fn select_master_mode(&mut self, cr2: u32, variant: MasterModeTim6) -> (r: u32) {
        proof {
            lemma_low_masks();
        }
        write_field(cr2, CR2_MMS, 3, variant.bits())
    }
}

impl GeneralPurposeTimer for TIM21 {
    type MasterMode = MasterModeTim21;

    open spec fn spec_mms(variant: MasterModeTim21) -> u32 {
        variant.spec_bits()
    }

    fn select_master_mode(&mut self, cr2: u32, variant: MasterModeTim21) -> (r: u32) {
        proof {
            lemma_low_masks();
        }
        write_field(cr2, CR2_MMS, 3, variant.bits())
    }
}

impl GeneralPurposeTimer for TIM22 {
    type MasterMode = MasterModeTim21;

    open spec fn spec_mms(variant: MasterModeTim21) -> u32 {
        variant.spec_bits()
    }

    fn select_master_mode(&mut self, cr2: u32, variant: MasterModeTim21) -> (r: u32) {
        proof {
            lemma_low_masks();
        }
        write_field(cr2, CR2_MMS, 3, variant.bits())
    }
}

impl<TIM: GeneralPurposeTimer> Timer<TIM> {
    /// Selects the master mode of the timer: the control register 2 value,
    /// from its value `cr2`.
    pub fn select_master_mode(&mut self, cr2: u32, variant: TIM::MasterMode) -> (r: u32)
        ensures
            r == with_field(cr2, CR2_MMS, 3, TIM::spec_mms(variant)),
            final(self).spec_clocks() == old(self).spec_clocks(),
    {
        self.tim.select_master_mode(cr2, variant)
    }
}

/// A pair of timers that can be linked.
///
/// The two timers are configured so that an overflow of the primary timer
/// triggers an update on the secondary timer. This way, two 16 bit timers can
/// be combined to a single 32 bit timer.
pub struct LinkedTimerPair<PRIMARY, SECONDARY> {
    /// Timer in primary mode
    tim_primary: PRIMARY,
    /// Timer in secondary mode
    tim_secondary: SECONDARY,
}

/// The register values that link two timers (see [`LinkedTimerPair::link`]),
/// in the order written.
#[derive(Debug, Clone, Copy, PartialEq, Eq, Structural)]
pub struct LinkSetup {
    /// `CR1` of the primary timer: counter enabled.
    pub primary_cr1: u32,
    /// `CR1` of the secondary timer: counter enabled.
    pub secondary_cr1: u32,
    /// `CR2` of the primary timer: the update event on the trigger output.
    pub primary_cr2: u32,
    /// `SMCR` of the secondary timer with internal trigger 0 selected.
    pub secondary_smcr_ts: u32,
    /// `SMCR` of the secondary timer, in external clock mode 1 as well.
    pub secondary_smcr: u32,
}

/// The 32 bit counter value of a linked pair: the secondary counter in the
/// upper half, the primary counter in the lower half.
pub open spec fn counter_value(msb: u16, lsb: u16) -> u32 {
    ((msb as u32) << 16u32) | (lsb as u32)
}

impl<PRIMARY, SECONDARY> LinkedTimerPair<PRIMARY, SECONDARY> {
    /// The timer in primary mode.
    pub closed spec fn spec_primary(&self) -> PRIMARY {
        self.tim_primary
    }

    /// The timer in secondary mode.
    pub closed spec fn spec_secondary(&self) -> SECONDARY {
        self.tim_secondary
    }

    /// A pair of timers to be linked.
    pub fn new(tim_primary: PRIMARY, tim_secondary: SECONDARY) -> (r: Self)
        ensures
            r.spec_primary() == tim_primary,
            r.spec_secondary() == tim_secondary,
    {
        Self { tim_primary, tim_secondary }
    }

    /// The primary timer.
    pub fn primary(&self) -> (r: &PRIMARY)
        ensures
            *r == self.spec_primary(),
    {
        &self.tim_primary
    }

    /// The secondary timer.
    pub fn secondary(&self) -> (r: &SECONDARY)
        ensures
            *r == self.spec_secondary(),
    {
        &self.tim_secondary
    }

    /// The register values that link the pair, from the values read before:
    /// both counters enabled (`CR1` of the primary, then of the secondary),
    /// the primary's trigger output carrying its update event (`CR2`), and
    /// the secondary counting the rising edges of its internal trigger 0,
    /// which carries that output (`SMCR` with the trigger selected, then
    /// with external clock mode 1).
    pub fn link(&self, primary_cr1: u32, secondary_cr1: u32, primary_cr2: u32, secondary_smcr: u32) -> (r:
        LinkSetup)
        ensures
            r.primary_cr1 == with_field(primary_cr1, CR1_CEN, 1, 1),
            r.secondary_cr1 == with_field(secondary_cr1, CR1_CEN, 1, 1),
            r.primary_cr2 == with_field(primary_cr2, CR2_MMS, 3, MMS_UPDATE),
            r.secondary_smcr_ts == with_field(secondary_smcr, SMCR_TS, 3, TS_ITR0),
            r.secondary_smcr == with_field(r.secondary_smcr_ts, SMCR_SMS, 3, SMS_EXT_CLOCK_MODE),
    {
        proof {
            lemma_low_masks();
        }
        let secondary_smcr_ts = write_field(secondary_smcr, SMCR_TS, 3, TS_ITR0);
        LinkSetup {
            primary_cr1: write_field(primary_cr1, CR1_CEN, 1, 1),
            secondary_cr1: write_field(secondary_cr1, CR1_CEN, 1, 1),
            primary_cr2: write_field(primary_cr2, CR2_MMS, 3, MMS_UPDATE),
            secondary_smcr_ts,
            secondary_smcr: write_field(secondary_smcr_ts, SMCR_SMS, 3, SMS_EXT_CLOCK_MODE),
        }
    }

    /// The control register values that reset the 32 bit counter, from the
    /// values read before: the primary paused, then the secondary; after
    /// both counters are cleared, the secondary running again, then the
    /// primary.
    pub fn reset_cr1(&mut self, primary_cr1: u32, secondary_cr1: u32) -> (r: (u32, u32, u32, u32))
        ensures
            r.0 == with_field(primary_cr1, CR1_CEN, 1, 0),
            r.1 == with_field(secondary_cr1, CR1_CEN, 1, 0),
            r.2 == with_field(r.1, CR1_CEN, 1, 1),
            r.3 == with_field(r.0, CR1_CEN, 1, 1),
            *final(self) == *old(self),
    {
        proof {
            lemma_low_masks();
        }
        let p = write_field(primary_cr1, CR1_CEN, 1, 0);
        let q = write_field(secondary_cr1, CR1_CEN, 1, 0);
        (p, q, write_field(q, CR1_CEN, 1, 1), write_field(p, CR1_CEN, 1, 1))
    }

    /// The current 32 bit counter value from the counters read in the order
    /// secondary (`msb`), primary (`lsb`), secondary again (`msb_again`).
    ///
    /// The primary counter may overflow between the reads; that is the case
    /// unless the two reads of the secondary counter agree, and then the
    /// counters are to be read again (`None`).
    pub fn counter_from(&self, msb: u16, lsb: u16, msb_again: u16) -> (r: Option<u32>)
        ensures
            msb == msb_again ==> r == Some(counter_value(msb, lsb)),
            msb != msb_again ==> r is None,
    {
        if msb == msb_again {
            Some(((msb as u32) << 16u32) | (lsb as u32))
        } else {
            None
        }
    }
}

/// The 32 bit counter value of a linked pair holds both 16 bit counters:
/// the upper half is the secondary counter, the lower half the primary.
pub proof fn lemma_counter_halves(msb: u16, lsb: u16)
    ensures
        counter_value(msb, lsb) >> 16u32 == msb as u32,
        counter_value(msb, lsb) & 0xffffu32 == lsb as u32,
{
    let m = msb as u32;
    let l = lsb as u32;
    assert((((m << 16u32) | l) >> 16u32 == m) && (((m << 16u32) | l) & 0xffffu32 == l))
        by (bit_vector)
        requires
            m <= 0xffff,
            l <= 0xffff,
    ;
}

} // verus!
