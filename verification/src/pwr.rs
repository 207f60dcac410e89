//! Interface to the Power control (PWR) peripheral
//!
//! See STM32L0x2 reference manual, chapter 6.
use vstd::prelude::*;

use crate::bits::{bit_set, disjoint, field, lemma_low_masks, with_field, write_field};
use crate::rcc::{ClockSrc, Clocks, PLLSource};

verus! {

/// Bit of `LPSDSR` (low-power deep sleep / sleep / low-power run) in `PWR_CR`.
pub const CR_LPSDSR: u32 = 0;

/// Bit of `PDDS` (power down deep sleep) in `PWR_CR`.
pub const CR_PDDS: u32 = 1;

/// Bit of `CWUF` (clear wakeup flag) in `PWR_CR`.
pub const CR_CWUF: u32 = 2;

/// Bit of `DBP` (disable backup domain write protection) in `PWR_CR`.
pub const CR_DBP: u32 = 8;

/// Bit of `ULP` (ultra-low-power mode) in `PWR_CR`.
pub const CR_ULP: u32 = 9;

/// First bit of the two-bit `VOS` field (voltage scaling range) in `PWR_CR`.
pub const CR_VOS: u32 = 11;

/// Bit of `LPRUN` (low-power run mode) in `PWR_CR`.
pub const CR_LPRUN: u32 = 14;

/// The highest system clock frequency that low-power modes allow: the MSI
/// frequency of range 1.
pub const LOW_POWER_MAX_SYS_CLK: u32 = 131_072;

/// Voltage range selection for internal voltage regulator
///
/// Used as an argument for [`PWR::switch_vcore_range`].
#[derive(Debug, Clone, Copy, PartialEq, Eq, Structural)]
pub enum VcoreRange {
    /// Range 1 (1.8 V)
    Range1,
    /// Range 2 (1.5 V)
    Range2,
    /// Range 3 (1.2 V)
    Range3,
}

impl VcoreRange {
    /// The value of the `VOS` field for this range.
    pub open spec fn spec_bits(self) -> u32 {
        match self {
            VcoreRange::Range1 => 0b01,
            VcoreRange::Range2 => 0b10,
            VcoreRange::Range3 => 0b11,
        }
    }

    /// The value of the `VOS` field for this range.
    pub fn bits(&self) -> (r: u32)
        ensures
            r == self.spec_bits(),
    {
        match self {
            VcoreRange::Range1 => 0b01,
            VcoreRange::Range2 => 0b10,
            VcoreRange::Range3 => 0b11,
        }
    }

    /// Creates a `VcoreRange` instance from a bit pattern
    ///
    /// The value must be a valid one. See STM32L0x2 reference manual, section
    /// 6.4.1 (documentation of VOS field) for valid values.
    pub fn from_bits(bits: u8) -> (r: Self)
        requires
            1 <= bits <= 3,
        ensures
            r.spec_bits() == bits,
    {
        match bits {
            0b01 => VcoreRange::Range1,
            0b10 => VcoreRange::Range2,
            _ => VcoreRange::Range3,
        }
    }
}

/// Entry point to the PWR API: the control register, as a plain value.
pub struct PWR {
    cr: u32,
}

/// Configuration for entering Stop mode
///
/// Used by `StopMode`'s `PowerMode` implementation.
#[derive(Debug, Clone, Copy, PartialEq, Eq, Structural)]
pub struct StopModeConfig {
    /// Disable additional hardware when entering Stop mode
    ///
    /// When set to `true`, the following hardware will be disabled:
    ///
    /// - Internal voltage reference (Vrefint)
    /// - Brown out reset (BOR)
    /// - Programmable voltage detector (PVD)
    /// - Internal temperature sensor
    pub ultra_low_power: bool,
}

/// One step of a PWR operation, in the order a driver makes them.
#[derive(Debug, Clone, Copy, PartialEq, Eq, Structural)]
pub enum PwrOp {
    /// Wait until the voltage scaling flag `VOSF` of `PWR_CSR` reads 0.
    WaitVosfClear,
    /// Write this value to the control register `PWR_CR`.
    Cr(u32),
    /// Wait until the wakeup flag `WUF` of `PWR_CSR` reads 0.
    WaitWufClear,
    /// Set (`true`) or clear (`false`) `SLEEPDEEP` in the system control
    /// register of the core.
    SleepDeep(bool),
    /// Set `STOPWUCK` of `RCC_CFGR` to this value (read-modify-write).
    StopWakeupClock(bool),
    /// Wait for an interrupt (after a data synchronization barrier).
    WaitForInterrupt,
}

/// The steps of switching the voltage range: wait until the regulator is
/// ready, write `cr`, wait until the new range is reached.
pub open spec fn vcore_switch_ops(cr: u32) -> Seq<PwrOp> {
    seq![PwrOp::WaitVosfClear, PwrOp::Cr(cr), PwrOp::WaitVosfClear]
}

/// Implemented for all low-power modes
pub trait PowerMode {
    /// Enters the low-power mode
    fn enter(&mut self);
}

/// Bit `n` of `reg` set to `value`, as a field write.
fn write_bit(reg: u32, n: u32, value: bool) -> (r: u32)
    requires
        n < 32,
    ensures
        r == with_field(reg, n, 1, if value { 1u32 } else { 0u32 }),
        bit_set(r, n) == value,
        forall|o: u32, w: u32|
            1 <= w && o + w <= 32 && disjoint(n, 1, o, w) ==> #[trigger] field(r, o, w) == field(
                reg,
                o,
                w,
            ),
{
    proof {
        lemma_low_masks();
    }
    let v: u32 = if value { 1 } else { 0 };
    write_field(reg, n, 1, v)
}

impl PWR {
    /// The control register contents.
    pub closed spec fn spec_cr(&self) -> u32 {
        self.cr
    }

    /// The configured voltage range field.
    pub open spec fn spec_vos(&self) -> u32 {
        field(self.spec_cr(), CR_VOS, 2)
    }

    /// The configured voltage range field.
    pub fn vos(&self) -> (r: u32)
        ensures
            r == self.spec_vos(),
    {
        proof {
            lemma_low_masks();
        }
        crate::bits::read_field(self.cr, CR_VOS, 2)
    }

    /// Create an instance of the PWR API from the control register contents
    /// `cr`, disabling backup write protection (required to access various
    /// registers of other peripherals).
    pub fn new(cr: u32) -> (r: Self)
        ensures
            r.spec_cr() == with_field(cr, CR_DBP, 1, 1),
            bit_set(r.spec_cr(), CR_DBP),
            forall|o: u32, w: u32|
                1 <= w && o + w <= 32 && disjoint(CR_DBP, 1, o, w) ==> #[trigger] field(
                    r.spec_cr(),
                    o,
                    w,
                ) == field(cr, o, w),
    {
        Self { cr: write_bit(cr, CR_DBP, true) }
    }

    /// The control register contents to write to the hardware.
    pub fn cr(&self) -> (r: u32)
        ensures
            r == self.spec_cr(),
    {
        self.cr
    }

    /// Switch voltage range of internal regulator
    ///
    /// Please note that switching Vcore has consequences, so please make sure
    /// you know what you're doing. See STM32L0x2 reference manual, sections
    /// 6.1.3 and following.
    pub fn switch_vcore_range(&mut self, range: VcoreRange) -> (ops: Vec<PwrOp>)
        ensures
            final(self).spec_cr() == with_field(old(self).spec_cr(), CR_VOS, 2, range.spec_bits()),
            final(self).spec_vos() == range.spec_bits(),
            forall|o: u32, w: u32|
                1 <= w && o + w <= 32 && disjoint(CR_VOS, 2, o, w) ==> #[trigger] field(
                    final(self).spec_cr(),
                    o,
                    w,
                ) == field(old(self).spec_cr(), o, w),
            ops@ == vcore_switch_ops(final(self).spec_cr()),
    {
        proof {
            lemma_low_masks();
        }
        let bits = range.bits();
        self.cr = write_field(self.cr, CR_VOS, 2, bits);
        let mut ops: Vec<PwrOp> = Vec::new();
        ops.push(PwrOp::WaitVosfClear);
        ops.push(PwrOp::Cr(self.cr));
        ops.push(PwrOp::WaitVosfClear);
        ops
    }

    /// Returns currently configured internal regulator voltage range
    pub fn get_vcore_range(&mut self) -> (r: VcoreRange)
        requires
            old(self).spec_vos() != 0,
        ensures
            r.spec_bits() == old(self).spec_vos(),
            final(self).spec_cr() == old(self).spec_cr(),
    {
        proof {
            lemma_low_masks();
        }
        let vos = crate::bits::read_field(self.cr, CR_VOS, 2);
        VcoreRange::from_bits(vos as u8)
    }

    /// Enters low-power run mode
    ///
    /// Please note that there are some restrictions placed on low-power run
    /// mode. Please refer to the STM32L0x2 reference manual, section 6.3.4 for
    /// more information.
    ///
    /// To enter low-power run mode, the system clock frequency must not
    /// exceed the MSI frequency range 1 (131.072 kHz).
    pub fn enter_low_power_run_mode(&mut self, clocks: Clocks) -> (ops: Vec<PwrOp>)
        requires
            clocks.spec_sys_clk() <= LOW_POWER_MAX_SYS_CLK,
        ensures
            final(self).spec_cr() == with_field(
                with_field(with_field(old(self).spec_cr(), CR_VOS, 2, 0b10), CR_LPSDSR, 1, 1),
                CR_LPRUN,
                1,
                1,
            ),
            final(self).spec_vos() == VcoreRange::Range2.spec_bits(),
            bit_set(final(self).spec_cr(), CR_LPSDSR),
            bit_set(final(self).spec_cr(), CR_LPRUN),
            ops@ == vcore_switch_ops(with_field(old(self).spec_cr(), CR_VOS, 2, 0b10)) + seq![
                PwrOp::Cr(
                    with_field(
                        with_field(old(self).spec_cr(), CR_VOS, 2, 0b10),
                        CR_LPSDSR,
                        1,
                        1,
                    ),
                ),
                PwrOp::Cr(final(self).spec_cr()),
            ],
    {
        let mut ops = self.switch_vcore_range(VcoreRange::Range2);
        // First set LPSDSR, then LPRUN, to go into low-power run mode.
        self.set_lpsdsr();
        ops.push(PwrOp::Cr(self.cr));
        assert(disjoint(CR_LPSDSR, 1, CR_VOS, 2));
        self.cr = write_bit(self.cr, CR_LPRUN, true);
        ops.push(PwrOp::Cr(self.cr));
        assert(disjoint(CR_LPRUN, 1, CR_VOS, 2));
        assert(disjoint(CR_LPRUN, 1, CR_LPSDSR, 1));
        ops
    }

    /// Exit low-power run mode
    ///
    /// Please note that entering low-power run mode sets Vcore to range 2. This
    /// method will not switch Vcore again.
    pub fn exit_low_power_run_mode(&mut self) -> (ops: Vec<PwrOp>)
        ensures
            final(self).spec_cr() == with_field(
                with_field(old(self).spec_cr(), CR_LPRUN, 1, 0),
                CR_LPSDSR,
                1,
                0,
            ),
            !bit_set(final(self).spec_cr(), CR_LPSDSR),
            !bit_set(final(self).spec_cr(), CR_LPRUN),
            final(self).spec_vos() == old(self).spec_vos(),
            ops@ == seq![
                PwrOp::Cr(with_field(old(self).spec_cr(), CR_LPRUN, 1, 0)),
                PwrOp::Cr(final(self).spec_cr()),
            ],
    {
        // First reset LPRUN, then LPSDSR.
        self.cr = write_bit(self.cr, CR_LPRUN, false);
        let mut ops: Vec<PwrOp> = Vec::new();
        ops.push(PwrOp::Cr(self.cr));
        self.clear_lpsdsr();
        ops.push(PwrOp::Cr(self.cr));
        assert(disjoint(CR_LPRUN, 1, CR_VOS, 2));
        assert(disjoint(CR_LPSDSR, 1, CR_VOS, 2));
        assert(disjoint(CR_LPSDSR, 1, CR_LPRUN, 1));
        ops
    }

    /// Low-power sleep mode may be entered: the system clock must not exceed
    /// the MSI frequency range 1.
    pub fn low_power_sleep_allowed(&self, clocks: &Clocks) -> (r: bool)
        ensures
            r == (clocks.spec_sys_clk() <= LOW_POWER_MAX_SYS_CLK),
    {
        clocks.sys_clk().0 <= LOW_POWER_MAX_SYS_CLK
    }

    /// Sets up the control register for Stop mode: ultra-low-power mode as
    /// configured, the wakeup flag cleared, Stop rather than Standby, and the
    /// internal voltage regulator off.
    pub fn configure_stop_mode(&mut self, config: StopModeConfig)
        ensures
            final(self).spec_cr() == with_field(
                with_field(
                    with_field(
                        with_field(
                            old(self).spec_cr(),
                            CR_ULP,
                            1,
                            if config.ultra_low_power { 1u32 } else { 0u32 },
                        ),
                        CR_CWUF,
                        1,
                        1,
                    ),
                    CR_PDDS,
                    1,
                    0,
                ),
                CR_LPSDSR,
                1,
                1,
            ),
            bit_set(final(self).spec_cr(), CR_ULP) == config.ultra_low_power,
            bit_set(final(self).spec_cr(), CR_CWUF),
            !bit_set(final(self).spec_cr(), CR_PDDS),
            bit_set(final(self).spec_cr(), CR_LPSDSR),
            final(self).spec_vos() == old(self).spec_vos(),
    {
        self.cr = write_bit(self.cr, CR_ULP, config.ultra_low_power);
        self.cr = write_bit(self.cr, CR_CWUF, true);
        self.cr = write_bit(self.cr, CR_PDDS, false);
        self.cr = write_bit(self.cr, CR_LPSDSR, true);
        assert(disjoint(CR_ULP, 1, CR_CWUF, 1));
        assert(disjoint(CR_ULP, 1, CR_PDDS, 1));
        assert(disjoint(CR_ULP, 1, CR_LPSDSR, 1));
        assert(disjoint(CR_CWUF, 1, CR_PDDS, 1));
        assert(disjoint(CR_CWUF, 1, CR_LPSDSR, 1));
        assert(disjoint(CR_PDDS, 1, CR_LPSDSR, 1));
        assert(disjoint(CR_ULP, 1, CR_VOS, 2));
        assert(disjoint(CR_CWUF, 1, CR_VOS, 2));
        assert(disjoint(CR_PDDS, 1, CR_VOS, 2));
        assert(disjoint(CR_LPSDSR, 1, CR_VOS, 2));
    }

    /// Sets up the control register for Standby mode: the wakeup flag
    /// cleared and Standby rather than Stop.
    pub fn configure_standby_mode(&mut self)
        ensures
            final(self).spec_cr() == with_field(
                with_field(old(self).spec_cr(), CR_CWUF, 1, 1),
                CR_PDDS,
                1,
                1,
            ),
            bit_set(final(self).spec_cr(), CR_CWUF),
            bit_set(final(self).spec_cr(), CR_PDDS),
            final(self).spec_vos() == old(self).spec_vos(),
    {
        self.cr = write_bit(self.cr, CR_CWUF, true);
        self.cr = write_bit(self.cr, CR_PDDS, true);
        assert(disjoint(CR_CWUF, 1, CR_PDDS, 1));
        assert(disjoint(CR_CWUF, 1, CR_VOS, 2));
        assert(disjoint(CR_PDDS, 1, CR_VOS, 2));
    }

    /// The steps of entering Sleep mode: the regulator stays in main mode
    /// (`LPSDSR` cleared), the core sleeps rather than deep-sleeps, then it
    /// waits for an interrupt.
    pub fn enter_sleep_mode(&mut self) -> (ops: Vec<PwrOp>)
        ensures
            final(self).spec_cr() == with_field(old(self).spec_cr(), CR_LPSDSR, 1, 0),
            ops@ == seq![
                PwrOp::Cr(final(self).spec_cr()),
                PwrOp::SleepDeep(false),
                PwrOp::WaitForInterrupt,
            ],
    {
        self.clear_lpsdsr();
        let mut ops: Vec<PwrOp> = Vec::new();
        ops.push(PwrOp::Cr(self.cr));
        ops.push(PwrOp::SleepDeep(false));
        ops.push(PwrOp::WaitForInterrupt);
        ops
    }

    /// The steps of entering low-power sleep mode: switch to voltage range
    /// 2, put the regulator in low-power mode (`LPSDSR` set), sleep rather
    /// than deep-sleep, wait for an interrupt, then switch back to the
    /// voltage range that was configured before.
    ///
    /// The system clock must not exceed the MSI frequency range 1, and the
    /// voltage range field must hold a valid range.
    pub fn enter_low_power_sleep_mode(&mut self, clocks: &Clocks) -> (ops: Vec<PwrOp>)
        requires
            clocks.spec_sys_clk() <= LOW_POWER_MAX_SYS_CLK,
            old(self).spec_vos() != 0,
        ensures
            final(self).spec_cr() == with_field(
                with_field(with_field(old(self).spec_cr(), CR_VOS, 2, 0b10), CR_LPSDSR, 1, 1),
                CR_VOS,
                2,
                old(self).spec_vos(),
            ),
            final(self).spec_vos() == old(self).spec_vos(),
            ops@ == vcore_switch_ops(with_field(old(self).spec_cr(), CR_VOS, 2, 0b10)) + seq![
                PwrOp::Cr(
                    with_field(
                        with_field(old(self).spec_cr(), CR_VOS, 2, 0b10),
                        CR_LPSDSR,
                        1,
                        1,
                    ),
                ),
                PwrOp::SleepDeep(false),
                PwrOp::WaitForInterrupt,
            ] + vcore_switch_ops(final(self).spec_cr()),
    {
        let old_vcore = self.get_vcore_range();
        let mut ops = self.switch_vcore_range(VcoreRange::Range2);
        self.set_lpsdsr();
        ops.push(PwrOp::Cr(self.cr));
        ops.push(PwrOp::SleepDeep(false));
        ops.push(PwrOp::WaitForInterrupt);
        let back = self.switch_vcore_range(old_vcore);
        ops.push(back[0]);
        ops.push(back[1]);
        ops.push(back[2]);
        ops
    }

    /// The steps of entering Stop mode: deep sleep, the clock that the
    /// system restarts with after waking up (`STOPWUCK`, see
    /// [`stop_mode_wakeup_clock`]), the control register as
    /// [`PWR::configure_stop_mode`] sets it up, a wait until the wakeup flag
    /// is cleared, then a wait for an interrupt.
    ///
    /// Stop mode is not supported with the external clock.
    pub fn enter_stop_mode(&mut self, config: StopModeConfig, source: &ClockSrc) -> (ops: Vec<
        PwrOp,
    >)
        requires
            !(source is HSE),
            !(source matches ClockSrc::PLL(PLLSource::HSE(_), _, _)),
        ensures
            final(self).spec_cr() == with_field(
                with_field(
                    with_field(
                        with_field(
                            old(self).spec_cr(),
                            CR_ULP,
                            1,
                            if config.ultra_low_power { 1u32 } else { 0u32 },
                        ),
                        CR_CWUF,
                        1,
                        1,
                    ),
                    CR_PDDS,
                    1,
                    0,
                ),
                CR_LPSDSR,
                1,
                1,
            ),
            ops@ == seq![
                PwrOp::SleepDeep(true),
                PwrOp::StopWakeupClock(!(source is MSI)),
                PwrOp::Cr(final(self).spec_cr()),
                PwrOp::WaitWufClear,
                PwrOp::WaitForInterrupt,
            ],
    {
        let mut ops: Vec<PwrOp> = Vec::new();
        ops.push(PwrOp::SleepDeep(true));
        ops.push(PwrOp::StopWakeupClock(stop_mode_wakeup_clock(source)));
        self.configure_stop_mode(config);
        ops.push(PwrOp::Cr(self.cr));
        ops.push(PwrOp::WaitWufClear);
        ops.push(PwrOp::WaitForInterrupt);
        ops
    }

    /// The steps of entering Standby mode: deep sleep, the control register
    /// as [`PWR::configure_standby_mode`] sets it up, a wait until the wakeup
    /// flag is cleared, then a wait for an interrupt.
    pub fn enter_standby_mode(&mut self) -> (ops: Vec<PwrOp>)
        ensures
            final(self).spec_cr() == with_field(
                with_field(old(self).spec_cr(), CR_CWUF, 1, 1),
                CR_PDDS,
                1,
                1,
            ),
            ops@ == seq![
                PwrOp::SleepDeep(true),
                PwrOp::Cr(final(self).spec_cr()),
                PwrOp::WaitWufClear,
                PwrOp::WaitForInterrupt,
            ],
    {
        let mut ops: Vec<PwrOp> = Vec::new();
        ops.push(PwrOp::SleepDeep(true));
        self.configure_standby_mode();
        ops.push(PwrOp::Cr(self.cr));
        ops.push(PwrOp::WaitWufClear);
        ops.push(PwrOp::WaitForInterrupt);
        ops
    }

    /// Set LPSDSR
    pub fn set_lpsdsr(&mut self)
        ensures
            final(self).spec_cr() == with_field(old(self).spec_cr(), CR_LPSDSR, 1, 1),
            bit_set(final(self).spec_cr(), CR_LPSDSR),
            forall|o: u32, w: u32|
                1 <= w && o + w <= 32 && disjoint(CR_LPSDSR, 1, o, w) ==> #[trigger] field(
                    final(self).spec_cr(),
                    o,
                    w,
                ) == field(old(self).spec_cr(), o, w),
    {
        self.cr = write_bit(self.cr, CR_LPSDSR, true);
    }

    /// Clear LPSDSR
    pub fn clear_lpsdsr(&mut self)
        ensures
            final(self).spec_cr() == with_field(old(self).spec_cr(), CR_LPSDSR, 1, 0),
            !bit_set(final(self).spec_cr(), CR_LPSDSR),
            forall|o: u32, w: u32|
                1 <= w && o + w <= 32 && disjoint(CR_LPSDSR, 1, o, w) ==> #[trigger] field(
                    final(self).spec_cr(),
                    o,
                    w,
                ) == field(old(self).spec_cr(), o, w),
    {
        self.cr = write_bit(self.cr, CR_LPSDSR, false);
    }
}

/// The clock that the system restarts with after Stop mode (`STOPWUCK`):
/// `false` selects the MSI, `true` HSI16. Stop mode is not supported with
/// the external clock.
pub fn stop_mode_wakeup_clock(source: &ClockSrc) -> (r: bool)
    requires
        !(source is HSE),
        !(source matches ClockSrc::PLL(PLLSource::HSE(_), _, _)),
    ensures
        r == !(source is MSI),
{
    match source {
        ClockSrc::MSI(_) => false,
        _ => true,
    }
}

/// Switching the regulator to a voltage range and reading the range back
/// gives that range: after `switch_vcore_range(range)` the range field is
/// non-zero, so `get_vcore_range` may be called, and the range it returns,
/// whose bits are those of the field, is `range`.
pub proof fn lemma_vcore_read_back(range: VcoreRange, read: VcoreRange)
    requires
        read.spec_bits() == range.spec_bits(),
    ensures
        range.spec_bits() != 0,
        read == range,
{
}

} // verus!
