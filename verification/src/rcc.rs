//! Reset and clock control: clock configuration and the frequencies it yields.
use vstd::prelude::*;

use crate::bits::lemma_pow2_shifts;
use crate::time::Hertz;

verus! {

/// HSI speed
pub const HSI_FREQ: u32 = 16_000_000;

/// MSI Clock Range
///
/// These ranges control the frequency of the MSI. Internally, these ranges map
/// to the `MSIRANGE` bits in the `RCC_ICSCR` register.
#[derive(Debug, Clone, Copy, PartialEq, Eq, Structural)]
pub enum MSIRange {
    /// Around 65.536 kHz
    Range0,
    /// Around 131.072 kHz
    Range1,
    /// Around 262.144 kHz
    Range2,
    /// Around 524.288 kHz
    Range3,
    /// Around 1.048 MHz
    Range4,
    /// Around 2.097 MHz (reset value)
    Range5,
    /// Around 4.194 MHz
    Range6,
}

impl MSIRange {
    /// The value of the `MSIRANGE` field for this range.
    pub open spec fn spec_bits(self) -> u8 {
        match self {
            MSIRange::Range0 => 0,
            MSIRange::Range1 => 1,
            MSIRange::Range2 => 2,
            MSIRange::Range3 => 3,
            MSIRange::Range4 => 4,
            MSIRange::Range5 => 5,
            MSIRange::Range6 => 6,
        }
    }

    /// The MSI frequency in this range: 32768 Hz times two to the power of
    /// the range number plus one.
    pub open spec fn spec_freq(self) -> u32 {
        match self {
            MSIRange::Range0 => 65_536,
            MSIRange::Range1 => 131_072,
            MSIRange::Range2 => 262_144,
            MSIRange::Range3 => 524_288,
            MSIRange::Range4 => 1_048_576,
            MSIRange::Range5 => 2_097_152,
            MSIRange::Range6 => 4_194_304,
        }
    }

    /// The value of the `MSIRANGE` field for this range.
    pub fn bits(&self) -> (r: u8)
        ensures
            r == self.spec_bits(),
    {
        match self {
            MSIRange::Range0 => 0,
            MSIRange::Range1 => 1,
            MSIRange::Range2 => 2,
            MSIRange::Range3 => 3,
            MSIRange::Range4 => 4,
            MSIRange::Range5 => 5,
            MSIRange::Range6 => 6,
        }
    }
}

impl Default for MSIRange {
    fn default() -> (r: MSIRange)
        ensures
            r == MSIRange::Range5,
    {
        MSIRange::Range5
    }
}

/// HSI16 divider
#[derive(Debug, Clone, Copy, PartialEq, Eq, Structural)]
pub enum HSI16Div {
    Div1,
    Div4,
}

impl HSI16Div {
    /// The HSI16 frequency after this divider.
    pub open spec fn spec_freq(self) -> u32 {
        match self {
            HSI16Div::Div1 => HSI_FREQ,
            HSI16Div::Div4 => HSI_FREQ / 4,
        }
    }
}

/// PLL divider
#[derive(Debug, Clone, Copy, PartialEq, Eq, Structural)]
pub enum PLLDiv {
    Div2,
    Div3,
    Div4,
}

impl PLLDiv {
    /// The value of the `PLLDIV` field.
    pub open spec fn spec_bits(self) -> u8 {
        match self {
            PLLDiv::Div2 => 1,
            PLLDiv::Div3 => 2,
            PLLDiv::Div4 => 3,
        }
    }

    /// The division factor.
    pub open spec fn spec_factor(self) -> u32 {
        match self {
            PLLDiv::Div2 => 2,
            PLLDiv::Div3 => 3,
            PLLDiv::Div4 => 4,
        }
    }
}

/// PLL multiplier
#[derive(Debug, Clone, Copy, PartialEq, Eq, Structural)]
pub enum PLLMul {
    Mul3,
    Mul4,
    Mul6,
    Mul8,
    Mul12,
    Mul16,
    Mul24,
    Mul32,
    Mul48,
}

impl PLLMul {
    /// The value of the `PLLMUL` field.
    pub open spec fn spec_bits(self) -> u8 {
        match self {
            PLLMul::Mul3 => 0,
            PLLMul::Mul4 => 1,
            PLLMul::Mul6 => 2,
            PLLMul::Mul8 => 3,
            PLLMul::Mul12 => 4,
            PLLMul::Mul16 => 5,
            PLLMul::Mul24 => 6,
            PLLMul::Mul32 => 7,
            PLLMul::Mul48 => 8,
        }
    }

    /// The multiplication factor.
    pub open spec fn spec_factor(self) -> u32 {
        match self {
            PLLMul::Mul3 => 3,
            PLLMul::Mul4 => 4,
            PLLMul::Mul6 => 6,
            PLLMul::Mul8 => 8,
            PLLMul::Mul12 => 12,
            PLLMul::Mul16 => 16,
            PLLMul::Mul24 => 24,
            PLLMul::Mul32 => 32,
            PLLMul::Mul48 => 48,
        }
    }
}

/// AHB prescaler
#[derive(Debug, Clone, Copy, PartialEq, Eq, Structural)]
pub enum AHBPrescaler {
    NotDivided,
    Div2,
    Div4,
    Div8,
    Div16,
    Div64,
    Div128,
    Div256,
    Div512,
}

impl AHBPrescaler {
    /// The value of the `HPRE` field.
    pub open spec fn spec_bits(self) -> u8 {
        match self {
            AHBPrescaler::NotDivided => 0,
            AHBPrescaler::Div2 => 0b1000,
            AHBPrescaler::Div4 => 0b1001,
            AHBPrescaler::Div8 => 0b1010,
            AHBPrescaler::Div16 => 0b1011,
            AHBPrescaler::Div64 => 0b1100,
            AHBPrescaler::Div128 => 0b1101,
            AHBPrescaler::Div256 => 0b1110,
            AHBPrescaler::Div512 => 0b1111,
        }
    }

    /// The division factor named by the variant.
    pub open spec fn spec_divisor(self) -> u32 {
        match self {
            AHBPrescaler::NotDivided => 1,
            AHBPrescaler::Div2 => 2,
            AHBPrescaler::Div4 => 4,
            AHBPrescaler::Div8 => 8,
            AHBPrescaler::Div16 => 16,
            AHBPrescaler::Div64 => 64,
            AHBPrescaler::Div128 => 128,
            AHBPrescaler::Div256 => 256,
            AHBPrescaler::Div512 => 512,
        }
    }
}

/// APB prescaler
#[derive(Debug, Clone, Copy, PartialEq, Eq, Structural)]
pub enum APBPrescaler {
    NotDivided,
    Div2,
    Div4,
    Div8,
    Div16,
}

impl APBPrescaler {
    /// The value of the `PPREx` field.
    pub open spec fn spec_bits(self) -> u8 {
        match self {
            APBPrescaler::NotDivided => 0,
            APBPrescaler::Div2 => 0b100,
            APBPrescaler::Div4 => 0b101,
            APBPrescaler::Div8 => 0b110,
            APBPrescaler::Div16 => 0b111,
        }
    }

    /// The division factor named by the variant.
    pub open spec fn spec_divisor(self) -> u32 {
        match self {
            APBPrescaler::NotDivided => 1,
            APBPrescaler::Div2 => 2,
            APBPrescaler::Div4 => 4,
            APBPrescaler::Div8 => 8,
            APBPrescaler::Div16 => 16,
        }
    }
}

/// PLL clock input source
#[derive(Debug, Clone, Copy, PartialEq, Eq, Structural)]
pub enum PLLSource {
    HSI16(HSI16Div),
    HSE(Hertz),
}

impl PLLSource {
    /// The frequency fed into the PLL.
    pub open spec fn spec_freq(self) -> u32 {
        match self {
            PLLSource::HSI16(div) => div.spec_freq(),
            PLLSource::HSE(f) => f.0,
        }
    }
}

/// System clock mux source
#[derive(Debug, Clone, Copy, PartialEq, Eq, Structural)]
pub enum ClockSrc {
    MSI(MSIRange),
    PLL(PLLSource, PLLMul, PLLDiv),
    HSE(Hertz),
    HSI16(HSI16Div),
}

/// The PLL output never exceeds 32 MHz, and the multiplication that yields
/// it stays within `u32`.
pub open spec fn pll_ok(src: PLLSource, mul: PLLMul, div: PLLDiv) -> bool {
    &&& src.spec_freq() * mul.spec_factor() <= u32::MAX
    &&& (src.spec_freq() * mul.spec_factor()) / (div.spec_factor() as int) <= 32_000_000
}

impl ClockSrc {
    /// The source can be used: a PLL setting must satisfy `pll_ok`.
    pub open spec fn spec_valid(self) -> bool {
        match self {
            ClockSrc::PLL(src, mul, div) => pll_ok(src, mul, div),
            _ => true,
        }
    }

    /// The system clock frequency this source yields.
    pub open spec fn spec_sys_clk(self) -> u32 {
        match self {
            ClockSrc::MSI(range) => range.spec_freq(),
            ClockSrc::HSI16(div) => div.spec_freq(),
            ClockSrc::HSE(f) => f.0,
            ClockSrc::PLL(src, mul, div) => ((src.spec_freq() * mul.spec_factor())
                / (div.spec_factor() as int)) as u32,
        }
    }

    /// The value of the `SW` field that selects this source.
    pub open spec fn spec_sw_bits(self) -> u8 {
        match self {
            ClockSrc::MSI(_) => 0,
            ClockSrc::HSI16(_) => 1,
            ClockSrc::HSE(_) => 2,
            ClockSrc::PLL(..) => 3,
        }
    }
}

/// Clocks configutation
#[derive(Debug, Clone, Copy, PartialEq, Eq, Structural)]
pub struct Config {
    mux: ClockSrc,
    ahb_pre: AHBPrescaler,
    apb1_pre: APBPrescaler,
    apb2_pre: APBPrescaler,
}

impl Default for Config {
    fn default() -> (r: Config)
        ensures
            r.spec_mux() == ClockSrc::MSI(MSIRange::Range5),
            r.spec_ahb_pre() == AHBPrescaler::NotDivided,
            r.spec_apb1_pre() == APBPrescaler::NotDivided,
            r.spec_apb2_pre() == APBPrescaler::NotDivided,
    {
        Config {
            mux: ClockSrc::MSI(MSIRange::default()),
            ahb_pre: AHBPrescaler::NotDivided,
            apb1_pre: APBPrescaler::NotDivided,
            apb2_pre: APBPrescaler::NotDivided,
        }
    }
}

impl Config {
    /// The selected system clock source.
    pub closed spec fn spec_mux(self) -> ClockSrc {
        self.mux
    }

    /// The selected AHB prescaler.
    pub closed spec fn spec_ahb_pre(self) -> AHBPrescaler {
        self.ahb_pre
    }

    /// The selected APB1 prescaler.
    pub closed spec fn spec_apb1_pre(self) -> APBPrescaler {
        self.apb1_pre
    }

    /// The selected APB2 prescaler.
    pub closed spec fn spec_apb2_pre(self) -> APBPrescaler {
        self.apb2_pre
    }

    /// Whether the configuration can be frozen: its clock source is valid.
    pub fn is_valid(&self) -> (r: bool)
        ensures
            r == self.spec_mux().spec_valid(),
    {
        is_valid(&self.mux)
    }

    /// Selects the system clock source; the prescalers stay as they are.
    pub fn clock_src(self, mux: ClockSrc) -> (r: Self)
        ensures
            r.spec_mux() == mux,
            r.spec_ahb_pre() == self.spec_ahb_pre(),
            r.spec_apb1_pre() == self.spec_apb1_pre(),
            r.spec_apb2_pre() == self.spec_apb2_pre(),
    {
        Config { mux, ..self }
    }

    /// Selects the AHB prescaler; everything else stays as it is.
    pub fn ahb_pre(self, pre: AHBPrescaler) -> (r: Self)
        ensures
            r.spec_mux() == self.spec_mux(),
            r.spec_ahb_pre() == pre,
            r.spec_apb1_pre() == self.spec_apb1_pre(),
            r.spec_apb2_pre() == self.spec_apb2_pre(),
    {
        Config { ahb_pre: pre, ..self }
    }

    /// Selects the APB1 prescaler; everything else stays as it is.
    pub fn apb1_pre(self, pre: APBPrescaler) -> (r: Self)
        ensures
            r.spec_mux() == self.spec_mux(),
            r.spec_ahb_pre() == self.spec_ahb_pre(),
            r.spec_apb1_pre() == pre,
            r.spec_apb2_pre() == self.spec_apb2_pre(),
    {
        Config { apb1_pre: pre, ..self }
    }

    /// Selects the APB2 prescaler; everything else stays as it is.
    pub fn apb2_pre(self, pre: APBPrescaler) -> (r: Self)
        ensures
            r.spec_mux() == self.spec_mux(),
            r.spec_ahb_pre() == self.spec_ahb_pre(),
            r.spec_apb1_pre() == self.spec_apb1_pre(),
            r.spec_apb2_pre() == pre,
    {
        Config { apb2_pre: pre, ..self }
    }

    /// HSI16 as system clock, no prescaling.
    pub fn hsi16() -> (r: Config)
        ensures
            r.spec_mux() == ClockSrc::HSI16(HSI16Div::Div1),
            r.spec_ahb_pre() == AHBPrescaler::NotDivided,
            r.spec_apb1_pre() == APBPrescaler::NotDivided,
            r.spec_apb2_pre() == APBPrescaler::NotDivided,
    {
        Config {
            mux: ClockSrc::HSI16(HSI16Div::Div1),
            ahb_pre: AHBPrescaler::NotDivided,
            apb1_pre: APBPrescaler::NotDivided,
            apb2_pre: APBPrescaler::NotDivided,
        }
    }

    /// MSI in the given range as system clock, no prescaling.
    pub fn msi(range: MSIRange) -> (r: Config)
        ensures
            r.spec_mux() == ClockSrc::MSI(range),
            r.spec_ahb_pre() == AHBPrescaler::NotDivided,
            r.spec_apb1_pre() == APBPrescaler::NotDivided,
            r.spec_apb2_pre() == APBPrescaler::NotDivided,
    {
        Config {
            mux: ClockSrc::MSI(range),
            ahb_pre: AHBPrescaler::NotDivided,
            apb1_pre: APBPrescaler::NotDivided,
            apb2_pre: APBPrescaler::NotDivided,
        }
    }

    /// The PLL as system clock, no prescaling.
    pub fn pll(pll_src: PLLSource, pll_mul: PLLMul, pll_div: PLLDiv) -> (r: Config)
        ensures
            r.spec_mux() == ClockSrc::PLL(pll_src, pll_mul, pll_div),
            r.spec_ahb_pre() == AHBPrescaler::NotDivided,
            r.spec_apb1_pre() == APBPrescaler::NotDivided,
            r.spec_apb2_pre() == APBPrescaler::NotDivided,
    {
        Config {
            mux: ClockSrc::PLL(pll_src, pll_mul, pll_div),
            ahb_pre: AHBPrescaler::NotDivided,
            apb1_pre: APBPrescaler::NotDivided,
            apb2_pre: APBPrescaler::NotDivided,
        }
    }

    /// An external clock of the given frequency as system clock, no
    /// prescaling.
    pub fn hse(freq: Hertz) -> (r: Config)
        ensures
            r.spec_mux() == ClockSrc::HSE(freq),
            r.spec_ahb_pre() == AHBPrescaler::NotDivided,
            r.spec_apb1_pre() == APBPrescaler::NotDivided,
            r.spec_apb2_pre() == APBPrescaler::NotDivided,
    {
        Config {
            mux: ClockSrc::HSE(freq),
            ahb_pre: AHBPrescaler::NotDivided,
            apb1_pre: APBPrescaler::NotDivided,
            apb2_pre: APBPrescaler::NotDivided,
        }
    }

    /// The AHB frequency this configuration yields.
    pub open spec fn spec_ahb_clk(self) -> u32 {
        self.spec_mux().spec_sys_clk() / self.spec_ahb_pre().spec_divisor()
    }

    /// The frequency of an APB behind the given prescaler.
    pub open spec fn spec_apb_clk(self, pre: APBPrescaler) -> u32 {
        self.spec_ahb_clk() / pre.spec_divisor()
    }

    /// The timer clock of an APB behind the given prescaler: the APB clock,
    /// doubled when the APB clock is divided.
    pub open spec fn spec_apb_tim_clk(self, pre: APBPrescaler) -> u32 {
        if pre == APBPrescaler::NotDivided {
            self.spec_apb_clk(pre)
        } else {
            (2 * self.spec_apb_clk(pre)) as u32
        }
    }
}

/// Frozen clock frequencies
///
/// The existence of this value indicates that the clock configuration can no longer be changed
#[derive(Debug, Clone, Copy, PartialEq, Eq, Structural)]
pub struct Clocks {
    source: ClockSrc,
    sys_clk: Hertz,
    ahb_clk: Hertz,
    apb1_clk: Hertz,
    apb1_tim_clk: Hertz,
    apb2_clk: Hertz,
    apb2_tim_clk: Hertz,
}

impl Clocks {
    /// The clock source.
    pub closed spec fn spec_source(self) -> ClockSrc {
        self.source
    }

    /// The system (core) frequency.
    pub closed spec fn spec_sys_clk(self) -> u32 {
        self.sys_clk.0
    }

    /// The AHB frequency.
    pub closed spec fn spec_ahb_clk(self) -> u32 {
        self.ahb_clk.0
    }

    /// The APB1 frequency.
    pub closed spec fn spec_apb1_clk(self) -> u32 {
        self.apb1_clk.0
    }

    /// The APB1 timer frequency.
    pub closed spec fn spec_apb1_tim_clk(self) -> u32 {
        self.apb1_tim_clk.0
    }

    /// The APB2 frequency.
    pub closed spec fn spec_apb2_clk(self) -> u32 {
        self.apb2_clk.0
    }

    /// The APB2 timer frequency.
    pub closed spec fn spec_apb2_tim_clk(self) -> u32 {
        self.apb2_tim_clk.0
    }

    /// These are the frequencies that `config` yields.
    pub open spec fn spec_of(self, config: Config) -> bool {
        &&& self.spec_source() == config.spec_mux()
        &&& self.spec_sys_clk() == config.spec_mux().spec_sys_clk()
        &&& self.spec_ahb_clk() == config.spec_ahb_clk()
        &&& self.spec_apb1_clk() == config.spec_apb_clk(config.spec_apb1_pre())
        &&& self.spec_apb1_tim_clk() == config.spec_apb_tim_clk(config.spec_apb1_pre())
        &&& self.spec_apb2_clk() == config.spec_apb_clk(config.spec_apb2_pre())
        &&& self.spec_apb2_tim_clk() == config.spec_apb_tim_clk(config.spec_apb2_pre())
    }

    /// Returns the clock source
    pub fn source(&self) -> (r: &ClockSrc)
        ensures
            *r == self.spec_source(),
    {
        &self.source
    }

    /// Returns the system (core) frequency
    pub fn sys_clk(&self) -> (r: Hertz)
        ensures
            r.0 == self.spec_sys_clk(),
    {
        self.sys_clk
    }

    /// Returns the frequency of the AHB
    pub fn ahb_clk(&self) -> (r: Hertz)
        ensures
            r.0 == self.spec_ahb_clk(),
    {
        self.ahb_clk
    }

    /// Returns the frequency of the APB1
    pub fn apb1_clk(&self) -> (r: Hertz)
        ensures
            r.0 == self.spec_apb1_clk(),
    {
        self.apb1_clk
    }

    /// Returns the frequency of the APB1 timers
    pub fn apb1_tim_clk(&self) -> (r: Hertz)
        ensures
            r.0 == self.spec_apb1_tim_clk(),
    {
        self.apb1_tim_clk
    }

    /// Returns the frequency of the APB2
    pub fn apb2_clk(&self) -> (r: Hertz)
        ensures
            r.0 == self.spec_apb2_clk(),
    {
        self.apb2_clk
    }

    /// Returns the frequency of the APB2 timers
    pub fn apb2_tim_clk(&self) -> (r: Hertz)
        ensures
            r.0 == self.spec_apb2_tim_clk(),
    {
        self.apb2_tim_clk
    }
}

/// The PLL fields of the clock configuration register.
#[derive(Debug, Clone, Copy, PartialEq, Eq, Structural)]
pub struct PllSetup {
    /// `PLLMUL`
    pub mul: u8,
    /// `PLLDIV`
    pub div: u8,
    /// `PLLSRC`: set when the PLL is fed by the external oscillator.
    pub src_hse: bool,
}

/// The register field values that put a clock configuration into effect.
#[derive(Debug, Clone, Copy, PartialEq, Eq, Structural)]
pub struct ClockSetup {
    /// `MSIRANGE` to write before the MSI is enabled, if the MSI is used.
    pub msi_range: Option<u8>,
    /// Whether HSI16 is enabled, and if so whether its divider by four is on.
    pub hsi16_div4: Option<bool>,
    /// Whether the external oscillator is enabled.
    pub hse_on: bool,
    /// `PLLMUL`, `PLLDIV` and `PLLSRC` (set for HSE), if the PLL is used.
    pub pll: Option<PllSetup>,
    /// `SW`: the system clock switch.
    pub sw: u8,
    /// `HPRE`: the AHB prescaler.
    pub hpre: u8,
    /// `PPRE1`: the APB1 prescaler.
    pub ppre1: u8,
    /// `PPRE2`: the APB2 prescaler.
    pub ppre2: u8,
}

/// One step of putting a clock configuration into effect, in the order a
/// driver makes them.
#[derive(Debug, Clone, Copy, PartialEq, Eq, Structural)]
pub enum RccOp {
    /// Write this `MSIRANGE` to `RCC_ICSCR`.
    MsiRange(u8),
    /// Write `RCC_CR` with `MSION` set.
    EnableMsi,
    /// Wait until `MSIRDY` of `RCC_CR` reads 1.
    WaitMsiReady,
    /// Write `RCC_CR` with `HSI16ON` set, and `HSI16DIVEN` set when the
    /// value is `true`.
    EnableHsi16(bool),
    /// Wait until `HSI16RDYF` of `RCC_CR` reads 1.
    WaitHsi16Ready,
    /// Write `RCC_CR` with `HSEON` set.
    EnableHse,
    /// Wait until `HSERDY` of `RCC_CR` reads 1.
    WaitHseReady,
    /// Clear `PLLON` of `RCC_CR` (read-modify-write).
    DisablePll,
    /// Wait until `PLLRDY` of `RCC_CR` reads 0.
    WaitPllStopped,
    /// Write `PLLMUL`, `PLLDIV` and `PLLSRC` to `RCC_CFGR`.
    ConfigurePll(PllSetup),
    /// Set `PLLON` of `RCC_CR` (read-modify-write).
    EnablePll,
    /// Wait until `PLLRDY` of `RCC_CR` reads 1.
    WaitPllReady,
    /// Set `SW`, `HPRE`, `PPRE1` and `PPRE2` of `RCC_CFGR`
    /// (read-modify-write).
    Switch { sw: u8, hpre: u8, ppre1: u8, ppre2: u8 },
}

/// The steps that put `setup` into effect: start the oscillator that the
/// configuration uses and wait until it runs, then, for the PLL, stop it,
/// configure it and start it again, and last switch the system clock and
/// set the bus prescalers.
pub open spec fn setup_ops(setup: ClockSetup) -> Seq<RccOp> {
    (match setup.msi_range {
        Some(range) => seq![RccOp::MsiRange(range), RccOp::EnableMsi, RccOp::WaitMsiReady],
        None => seq![],
    }) + (match setup.hsi16_div4 {
        Some(div4) => seq![RccOp::EnableHsi16(div4), RccOp::WaitHsi16Ready],
        None => seq![],
    }) + (if setup.hse_on {
        seq![RccOp::EnableHse, RccOp::WaitHseReady]
    } else {
        seq![]
    }) + (match setup.pll {
        Some(pll) => seq![
            RccOp::DisablePll,
            RccOp::WaitPllStopped,
            RccOp::ConfigurePll(pll),
            RccOp::EnablePll,
            RccOp::WaitPllReady,
        ],
        None => seq![],
    }) + seq![
        RccOp::Switch {
            sw: setup.sw,
            hpre: setup.hpre,
            ppre1: setup.ppre1,
            ppre2: setup.ppre2,
        },
    ]
}

impl ClockSetup {
    /// The steps that put this setup into effect (see [`setup_ops`]).
    pub fn ops(&self) -> (r: Vec<RccOp>)
        ensures
            r@ == setup_ops(*self),
    {
        let mut r: Vec<RccOp> = Vec::new();
        let ghost s0 = r@;
        match self.msi_range {
            Some(range) => {
                r.push(RccOp::MsiRange(range));
                r.push(RccOp::EnableMsi);
                r.push(RccOp::WaitMsiReady);
            },
            None => {},
        }
        let ghost s1 = r@;
        match self.hsi16_div4 {
            Some(div4) => {
                r.push(RccOp::EnableHsi16(div4));
                r.push(RccOp::WaitHsi16Ready);
            },
            None => {},
        }
        let ghost s2 = r@;
        if self.hse_on {
            r.push(RccOp::EnableHse);
            r.push(RccOp::WaitHseReady);
        }
        let ghost s3 = r@;
        match self.pll {
            Some(pll) => {
                r.push(RccOp::DisablePll);
                r.push(RccOp::WaitPllStopped);
                r.push(RccOp::ConfigurePll(pll));
                r.push(RccOp::EnablePll);
                r.push(RccOp::WaitPllReady);
            },
            None => {},
        }
        let ghost s4 = r@;
        r.push(
            RccOp::Switch { sw: self.sw, hpre: self.hpre, ppre1: self.ppre1, ppre2: self.ppre2 },
        );
        proof {
            let t = *self;
            let a: Seq<RccOp> = match t.msi_range {
                Some(range) => seq![RccOp::MsiRange(range), RccOp::EnableMsi, RccOp::WaitMsiReady],
                None => seq![],
            };
            let b: Seq<RccOp> = match t.hsi16_div4 {
                Some(div4) => seq![RccOp::EnableHsi16(div4), RccOp::WaitHsi16Ready],
                None => seq![],
            };
            let c: Seq<RccOp> = if t.hse_on {
                seq![RccOp::EnableHse, RccOp::WaitHseReady]
            } else {
                seq![]
            };
            let d: Seq<RccOp> = match t.pll {
                Some(pll) => seq![
                    RccOp::DisablePll,
                    RccOp::WaitPllStopped,
                    RccOp::ConfigurePll(pll),
                    RccOp::EnablePll,
                    RccOp::WaitPllReady,
                ],
                None => seq![],
            };
            assert(s1 =~= a);
            assert(s2 =~= a + b);
            assert(s3 =~= a + b + c);
            assert(s4 =~= a + b + c + d);
        }
        r
    }
}

/// RCC peripheral: the frozen clock frequencies.
pub struct Rcc {
    pub clocks: Clocks,
}

/// Token that exists only, if the HSI48 clock has been enabled
#[derive(Clone, Copy)]
pub struct HSI48(());

/// Token that exists only if MCO (Microcontroller Clock Out) has been enabled.
#[derive(Clone, Copy)]
pub struct MCOEnabled(());

/// Token that exists only, if the LSE clock has been enabled
#[derive(Clone, Copy)]
pub struct LSE(());

/// Bit of `LSEON` (LSE oscillator enable) in `RCC_CSR`.
pub const CSR_LSEON: u32 = 8;

/// Bit of `LSERDY` (LSE oscillator ready) in `RCC_CSR`.
pub const CSR_LSERDY: u32 = 9;

/// Bit of `HSI48ON` (HSI48 oscillator enable) in `RCC_CRRCR`.
pub const CRRCR_HSI48ON: u32 = 0;

/// Bit of `HSI48RDY` (HSI48 oscillator ready) in `RCC_CRRCR`.
pub const CRRCR_HSI48RDY: u32 = 1;

/// Bit of `HSI48MSEL` (HSI48 as the 48 MHz clock) in `RCC_CCIPR`.
pub const CCIPR_HSI48MSEL: u32 = 26;

/// First bit of the four-bit `MCOSEL` field in `RCC_CFGR`.
pub const CFGR_MCOSEL: u32 = 24;

/// First bit of the three-bit `MCOPRE` field in `RCC_CFGR`.
pub const CFGR_MCOPRE: u32 = 28;

/// The reset value of `CRS_CFGR`.
pub const CRS_CFGR_RESET: u32 = 0x2022_BB7F;

/// First bit of the two-bit `SYNCSRC` field (synchronisation source) in
/// `CRS_CFGR`.
pub const CRS_CFGR_SYNCSRC: u32 = 28;

/// The `SYNCSRC` value that synchronises on the LSE.
pub const SYNCSRC_LSE: u32 = 0b01;

/// Bit of `CEN` (frequency error counter enable) in `CRS_CR`.
pub const CRS_CR_CEN: u32 = 5;

/// Bit of `AUTOTRIMEN` (automatic trimming enable) in `CRS_CR`.
pub const CRS_CR_AUTOTRIMEN: u32 = 6;

/// Bit of `EN_VREFINT` (internal voltage reference enable) in
/// `SYSCFG_CFGR3`.
pub const CFGR3_EN_VREFINT: u32 = 0;

/// Bit of `ENREF_HSI48` (reference voltage for the HSI48 enable) in
/// `SYSCFG_CFGR3`.
pub const CFGR3_ENREF_HSI48: u32 = 13;

/// The clock that the microcontroller clock output carries.
#[derive(Debug, Clone, Copy, PartialEq, Eq, Structural)]
pub enum MCOSEL {
    NOCLOCK,
    SYSCLK,
    HSI16,
    MSI,
    HSE,
    PLL,
    LSI,
    LSE,
}

impl MCOSEL {
    /// The value of the `MCOSEL` field.
    pub open spec fn spec_bits(self) -> u32 {
        match self {
            MCOSEL::NOCLOCK => 0,
            MCOSEL::SYSCLK => 1,
            MCOSEL::HSI16 => 2,
            MCOSEL::MSI => 3,
            MCOSEL::HSE => 4,
            MCOSEL::PLL => 5,
            MCOSEL::LSI => 6,
            MCOSEL::LSE => 7,
        }
    }

    fn bits(&self) -> (r: u32)
        ensures
            r == self.spec_bits(),
    {
        match self {
            MCOSEL::NOCLOCK => 0,
            MCOSEL::SYSCLK => 1,
            MCOSEL::HSI16 => 2,
            MCOSEL::MSI => 3,
            MCOSEL::HSE => 4,
            MCOSEL::PLL => 5,
            MCOSEL::LSI => 6,
            MCOSEL::LSE => 7,
        }
    }
}

/// The division of the clock output.
#[derive(Debug, Clone, Copy, PartialEq, Eq, Structural)]
pub enum MCOPRE {
    DIV1,
    DIV2,
    DIV4,
    DIV8,
    DIV16,
}

impl MCOPRE {
    /// The value of the `MCOPRE` field.
    pub open spec fn spec_bits(self) -> u32 {
        match self {
            MCOPRE::DIV1 => 0,
            MCOPRE::DIV2 => 1,
            MCOPRE::DIV4 => 2,
            MCOPRE::DIV8 => 3,
            MCOPRE::DIV16 => 4,
        }
    }

    fn bits(&self) -> (r: u32)
        ensures
            r == self.spec_bits(),
    {
        match self {
            MCOPRE::DIV1 => 0,
            MCOPRE::DIV2 => 1,
            MCOPRE::DIV4 => 2,
            MCOPRE::DIV8 => 3,
            MCOPRE::DIV16 => 4,
        }
    }
}

/// The register values that start the HSI48 clock, in the order written.
#[derive(Debug, Clone, Copy, PartialEq, Eq, Structural)]
pub struct Hsi48Setup {
    /// `CRS_CFGR`: synchronisation on the LSE, the rest at reset values.
    pub crs_cfgr: u32,
    /// `CRS_CR`: automatic trimming and the error counter enabled.
    pub crs_cr: u32,
    /// `SYSCFG_CFGR3`: the reference voltages for the HSI48 enabled.
    pub cfgr3: u32,
    /// `RCC_CCIPR`: HSI48 selected as the 48 MHz (USB) clock.
    pub ccipr: u32,
    /// `RCC_CRRCR`: HSI48 switched on; the ready flag is awaited after it.
    pub crrcr: u32,
}

impl Rcc {
    /// Enables the LSE clock: the `RCC_CSR` value to write, from its value
    /// `csr`, and the clock's token. The token is for use once `LSERDY` is
    /// set (see [`lse_ready`]).
    pub fn enable_lse(&mut self, csr: u32, _pwr: &crate::pwr::PWR) -> (r: (u32, LSE))
        ensures
            r.0 == crate::bits::with_field(csr, CSR_LSEON, 1, 1),
            final(self).clocks == old(self).clocks,
    {
        proof {
            crate::bits::lemma_low_masks();
        }
        (crate::bits::write_field(csr, CSR_LSEON, 1, 1), LSE(()))
    }

    /// Enables the HSI48 clock, synchronised on the LSE by the clock
    /// recovery system: the register values to write, from the values
    /// `crs_cr`, `cfgr3`, `ccipr` and `crrcr` read before, and the clock's
    /// token, for use once `HSI48RDY` is set (see [`hsi48_ready`]).
    pub fn enable_hsi48(
        &mut self,
        _syscfg: &mut crate::syscfg::SYSCFG,
        crs_cr: u32,
        cfgr3: u32,
        ccipr: u32,
        crrcr: u32,
    ) -> (r: (Hsi48Setup, HSI48))
        ensures
            r.0 == (Hsi48Setup {
                crs_cfgr: crate::bits::with_field(CRS_CFGR_RESET, CRS_CFGR_SYNCSRC, 2, SYNCSRC_LSE),
                crs_cr: crate::bits::with_field(
                    crate::bits::with_field(crs_cr, CRS_CR_AUTOTRIMEN, 1, 1),
                    CRS_CR_CEN,
                    1,
                    1,
                ),
                cfgr3: crate::bits::with_field(
                    crate::bits::with_field(cfgr3, CFGR3_ENREF_HSI48, 1, 1),
                    CFGR3_EN_VREFINT,
                    1,
                    1,
                ),
                ccipr: crate::bits::with_field(ccipr, CCIPR_HSI48MSEL, 1, 1),
                crrcr: crate::bits::with_field(crrcr, CRRCR_HSI48ON, 1, 1),
            }),
            final(self).clocks == old(self).clocks,
    {
        proof {
            crate::bits::lemma_low_masks();
        }
        let crs_cfgr = crate::bits::write_field(CRS_CFGR_RESET, CRS_CFGR_SYNCSRC, 2, SYNCSRC_LSE);
        let crs_cr = crate::bits::write_field(crs_cr, CRS_CR_AUTOTRIMEN, 1, 1);
        let crs_cr = crate::bits::write_field(crs_cr, CRS_CR_CEN, 1, 1);
        let cfgr3 = crate::bits::write_field(cfgr3, CFGR3_ENREF_HSI48, 1, 1);
        let cfgr3 = crate::bits::write_field(cfgr3, CFGR3_EN_VREFINT, 1, 1);
        let ccipr = crate::bits::write_field(ccipr, CCIPR_HSI48MSEL, 1, 1);
        let crrcr = crate::bits::write_field(crrcr, CRRCR_HSI48ON, 1, 1);
        (Hsi48Setup { crs_cfgr, crs_cr, cfgr3, ccipr, crrcr }, HSI48(()))
    }

    /// Configures the microcontroller clock output, whose pin is already in
    /// its alternate function: the `RCC_CFGR` value to write, from its value
    /// `cfgr`, and the output's token.
    pub fn configure_mco(&mut self, cfgr: u32, source: MCOSEL, prescaler: MCOPRE) -> (r: (u32, MCOEnabled))
        ensures
            r.0 == crate::bits::with_field(
                crate::bits::with_field(cfgr, CFGR_MCOSEL, 4, source.spec_bits()),
                CFGR_MCOPRE,
                3,
                prescaler.spec_bits(),
            ),
            final(self).clocks == old(self).clocks,
    {
        proof {
            crate::bits::lemma_low_masks();
        }
        let cfgr = crate::bits::write_field(cfgr, CFGR_MCOSEL, 4, source.bits());
        let cfgr = crate::bits::write_field(cfgr, CFGR_MCOPRE, 3, prescaler.bits());
        (cfgr, MCOEnabled(()))
    }
}

/// Whether the LSE runs, per `RCC_CSR`.
pub fn lse_ready(csr: u32) -> (r: bool)
    ensures
        r == crate::bits::bit_set(csr, CSR_LSERDY),
{
    crate::bits::read_field(csr, CSR_LSERDY, 1) == 1
}

/// Whether the HSI48 runs, per `RCC_CRRCR`.
pub fn hsi48_ready(crrcr: u32) -> (r: bool)
    ensures
        r == crate::bits::bit_set(crrcr, CRRCR_HSI48RDY),
{
    crate::bits::read_field(crrcr, CRRCR_HSI48RDY, 1) == 1
}

fn hsi16_freq(div: HSI16Div) -> (r: u32)
    ensures
        r == div.spec_freq(),
{
    match div {
        HSI16Div::Div4 => HSI_FREQ / 4,
        HSI16Div::Div1 => HSI_FREQ,
    }
}

fn pll_mul_bits(mul: PLLMul) -> (r: (u8, u32))
    ensures
        r.0 == mul.spec_bits(),
        r.1 == mul.spec_factor(),
{
    match mul {
        PLLMul::Mul3 => (0, 3),
        PLLMul::Mul4 => (1, 4),
        PLLMul::Mul6 => (2, 6),
        PLLMul::Mul8 => (3, 8),
        PLLMul::Mul12 => (4, 12),
        PLLMul::Mul16 => (5, 16),
        PLLMul::Mul24 => (6, 24),
        PLLMul::Mul32 => (7, 32),
        PLLMul::Mul48 => (8, 48),
    }
}

fn pll_div_bits(div: PLLDiv) -> (r: (u8, u32))
    ensures
        r.0 == div.spec_bits(),
        r.1 == div.spec_factor(),
{
    match div {
        PLLDiv::Div2 => (1, 2),
        PLLDiv::Div3 => (2, 3),
        PLLDiv::Div4 => (3, 4),
    }
}

/// The AHB prescaler: the `HPRE` field value and the division as a shift.
fn ahb_bits(pre: AHBPrescaler) -> (r: (u8, u32))
    ensures
        r.0 == pre.spec_bits(),
        r.1 < 10,
        (1u32 << r.1) == pre.spec_divisor(),
{
    proof {
        lemma_pow2_shifts();
    }
    match pre {
        AHBPrescaler::NotDivided => (0, 0),
        AHBPrescaler::Div2 => (0b1000, 1),
        AHBPrescaler::Div4 => (0b1001, 2),
        AHBPrescaler::Div8 => (0b1010, 3),
        AHBPrescaler::Div16 => (0b1011, 4),
        AHBPrescaler::Div64 => (0b1100, 6),
        AHBPrescaler::Div128 => (0b1101, 7),
        AHBPrescaler::Div256 => (0b1110, 8),
        AHBPrescaler::Div512 => (0b1111, 9),
    }
}

/// The APB prescaler: the `PPREx` field value and the division as a shift.
fn apb_bits(pre: APBPrescaler) -> (r: (u8, u32))
    ensures
        r.0 == pre.spec_bits(),
        r.1 < 5,
        (1u32 << r.1) == pre.spec_divisor(),
        r.1 == 0 <==> pre == APBPrescaler::NotDivided,
{
    proof {
        lemma_pow2_shifts();
    }
    match pre {
        APBPrescaler::NotDivided => (0, 0),
        APBPrescaler::Div2 => (0b100, 1),
        APBPrescaler::Div4 => (0b101, 2),
        APBPrescaler::Div8 => (0b110, 3),
        APBPrescaler::Div16 => (0b111, 4),
    }
}

/// Whether a clock source can be used: a PLL must not run faster than
/// 32 MHz (nor overflow 32 bits before its division).
pub fn is_valid(mux: &ClockSrc) -> (r: bool)
    ensures
        r == mux.spec_valid(),
{
    match mux {
        ClockSrc::PLL(src, mul, div) => {
            let freq = match src {
                PLLSource::HSE(freq) => freq.0,
                PLLSource::HSI16(d) => hsi16_freq(*d),
            };
            let (_, m) = pll_mul_bits(*mul);
            let (_, d) = pll_div_bits(*div);
            match freq.checked_mul(m) {
                Some(f) => f / d <= 32_000_000,
                None => false,
            }
        },
        _ => true,
    }
}

/// The frequency of the system clock `mux` yields.
pub fn sys_clk_of(mux: &ClockSrc) -> (r: u32)
    requires
        mux.spec_valid(),
    ensures
        r == mux.spec_sys_clk(),
{
    match mux {
        ClockSrc::MSI(range) => {
            let range = range.bits();
            proof {
                lemma_pow2_shifts();
            }
            let shift: u32 = (range + 1) as u32;
            assert(shift <= 7);
            32_768 * (1u32 << shift)
        },
        ClockSrc::HSI16(div) => hsi16_freq(*div),
        ClockSrc::HSE(freq) => freq.0,
        ClockSrc::PLL(src, mul, div) => {
            let freq = match src {
                PLLSource::HSE(freq) => freq.0,
                PLLSource::HSI16(div) => hsi16_freq(*div),
            };
            let (_, m) = pll_mul_bits(*mul);
            let (_, d) = pll_div_bits(*div);
            let freq = freq * m;
            freq / d
        },
    }
}

/// Computes the frequencies that a clock configuration yields: this is what
/// `freeze` records.
///
/// The PLL output must not exceed 32 MHz.
pub fn freeze_clocks(config: &Config) -> (r: Clocks)
    requires
        config.spec_mux().spec_valid(),
    ensures
        r.spec_of(*config),
{
    let sys_clk = sys_clk_of(&config.mux);
    let (_, ahb_shift) = ahb_bits(config.ahb_pre);
    let ahb_freq = sys_clk / (1u32 << ahb_shift);
    let (_, apb1_shift) = apb_bits(config.apb1_pre);
    let apb1_freq = ahb_freq / (1u32 << apb1_shift);
    assert(apb1_shift > 0 ==> 2 * apb1_freq <= ahb_freq) by (nonlinear_arith)
        requires
            apb1_shift > 0 ==> (1u32 << apb1_shift) >= 2,
            apb1_freq == ahb_freq / (1u32 << apb1_shift),
    {
    }
    let apb1_tim_freq = if apb1_shift == 0 { apb1_freq } else { apb1_freq * 2 };
    let (_, apb2_shift) = apb_bits(config.apb2_pre);
    let apb2_freq = ahb_freq / (1u32 << apb2_shift);
    assert(apb2_shift > 0 ==> 2 * apb2_freq <= ahb_freq) by (nonlinear_arith)
        requires
            apb2_shift > 0 ==> (1u32 << apb2_shift) >= 2,
            apb2_freq == ahb_freq / (1u32 << apb2_shift),
    {
    }
    let apb2_tim_freq = if apb2_shift == 0 { apb2_freq } else { apb2_freq * 2 };
    Clocks {
        source: config.mux,
        sys_clk: Hertz(sys_clk),
        ahb_clk: Hertz(ahb_freq),
        apb1_clk: Hertz(apb1_freq),
        apb1_tim_clk: Hertz(apb1_tim_freq),
        apb2_clk: Hertz(apb2_freq),
        apb2_tim_clk: Hertz(apb2_tim_freq),
    }
}

/// Computes the register field values that put a clock configuration into
/// effect.
pub fn clock_setup(config: &Config) -> (r: ClockSetup)
    ensures
        r.sw == config.spec_mux().spec_sw_bits(),
        r.hpre == config.spec_ahb_pre().spec_bits(),
        r.ppre1 == config.spec_apb1_pre().spec_bits(),
        r.ppre2 == config.spec_apb2_pre().spec_bits(),
        r.msi_range == (match config.spec_mux() {
            ClockSrc::MSI(range) => Some(range.spec_bits()),
            _ => None,
        }),
        r.hsi16_div4 == (match config.spec_mux() {
            ClockSrc::HSI16(div) => Some(div == HSI16Div::Div4),
            ClockSrc::PLL(PLLSource::HSI16(div), _, _) => Some(div == HSI16Div::Div4),
            _ => None,
        }),
        r.hse_on == (match config.spec_mux() {
            ClockSrc::HSE(_) => true,
            ClockSrc::PLL(PLLSource::HSE(_), _, _) => true,
            _ => false,
        }),
        r.pll == (match config.spec_mux() {
            ClockSrc::PLL(src, mul, div) => Some(
                PllSetup { mul: mul.spec_bits(), div: div.spec_bits(), src_hse: src is HSE },
            ),
            _ => None,
        }),
{
    let (hpre, _) = ahb_bits(config.ahb_pre);
    let (ppre1, _) = apb_bits(config.apb1_pre);
    let (ppre2, _) = apb_bits(config.apb2_pre);
    match config.mux {
        ClockSrc::MSI(range) => ClockSetup {
            msi_range: Some(range.bits()),
            hsi16_div4: None,
            hse_on: false,
            pll: None,
            sw: 0,
            hpre,
            ppre1,
            ppre2,
        },
        ClockSrc::HSI16(div) => ClockSetup {
            msi_range: None,
            hsi16_div4: Some(matches!(div, HSI16Div::Div4)),
            hse_on: false,
            pll: None,
            sw: 1,
            hpre,
            ppre1,
            ppre2,
        },
        ClockSrc::HSE(_) => ClockSetup {
            msi_range: None,
            hsi16_div4: None,
            hse_on: true,
            pll: None,
            sw: 2,
            hpre,
            ppre1,
            ppre2,
        },
        ClockSrc::PLL(src, mul, div) => {
            let (mul_bits, _) = pll_mul_bits(mul);
            let (div_bits, _) = pll_div_bits(div);
            let (hsi16_div4, hse_on, src_hse) = match src {
                PLLSource::HSI16(d) => (Some(matches!(d, HSI16Div::Div4)), false, false),
                PLLSource::HSE(_) => (None, true, true),
            };
            ClockSetup {
                msi_range: None,
                hsi16_div4,
                hse_on,
                pll: Some(PllSetup { mul: mul_bits, div: div_bits, src_hse }),
                sw: 3,
                hpre,
                ppre1,
                ppre2,
            }
        },
    }
}

/// Freezes a clock configuration: the frequencies it yields become the
/// `Rcc`'s clocks, together with the register values that put it into effect.
pub fn freeze(config: Config) -> (r: (Rcc, ClockSetup))
    requires
        config.spec_mux().spec_valid(),
    ensures
        r.0.clocks.spec_of(config),
        r.1 == clock_setup_spec(config),
{
    let clocks = freeze_clocks(&config);
    let setup = clock_setup(&config);
    (Rcc { clocks }, setup)
}

/// The register values `clock_setup` computes for `config`.
pub open spec fn clock_setup_spec(config: Config) -> ClockSetup {
    ClockSetup {
        msi_range: match config.spec_mux() {
            ClockSrc::MSI(range) => Some(range.spec_bits()),
            _ => None,
        },
        hsi16_div4: match config.spec_mux() {
            ClockSrc::HSI16(div) => Some(div == HSI16Div::Div4),
            ClockSrc::PLL(PLLSource::HSI16(div), _, _) => Some(div == HSI16Div::Div4),
            _ => None,
        },
        hse_on: match config.spec_mux() {
            ClockSrc::HSE(_) => true,
            ClockSrc::PLL(PLLSource::HSE(_), _, _) => true,
            _ => false,
        },
        pll: match config.spec_mux() {
            ClockSrc::PLL(src, mul, div) => Some(
                PllSetup { mul: mul.spec_bits(), div: div.spec_bits(), src_hse: src is HSE },
            ),
            _ => None,
        },
        sw: config.spec_mux().spec_sw_bits(),
        hpre: config.spec_ahb_pre().spec_bits(),
        ppre1: config.spec_apb1_pre().spec_bits(),
        ppre2: config.spec_apb2_pre().spec_bits(),
    }
}

/// The clock tree only divides: every bus runs at most as fast as the bus
/// it hangs off, and a timer clock is its bus clock, doubled only when the
/// bus is divided.
pub proof fn lemma_clock_tree(config: Config, clocks: Clocks)
    requires
        clocks.spec_of(config),
    ensures
        clocks.spec_ahb_clk() <= clocks.spec_sys_clk(),
        clocks.spec_apb1_clk() <= clocks.spec_ahb_clk(),
        clocks.spec_apb2_clk() <= clocks.spec_ahb_clk(),
        clocks.spec_apb1_tim_clk() <= clocks.spec_ahb_clk(),
        clocks.spec_apb2_tim_clk() <= clocks.spec_ahb_clk(),
        clocks.spec_apb1_tim_clk() == clocks.spec_apb1_clk() || clocks.spec_apb1_tim_clk() == 2
            * clocks.spec_apb1_clk(),
        clocks.spec_apb2_tim_clk() == clocks.spec_apb2_clk() || clocks.spec_apb2_tim_clk() == 2
            * clocks.spec_apb2_clk(),
{
    let sys = config.spec_mux().spec_sys_clk();
    let ahb = config.spec_ahb_clk();
    let d = config.spec_ahb_pre().spec_divisor();
    assert(ahb <= sys) by (nonlinear_arith)
        requires
            ahb == sys / d,
            d >= 1,
    ;
    let d1 = config.spec_apb1_pre().spec_divisor();
    let a1 = config.spec_apb_clk(config.spec_apb1_pre());
    assert(a1 <= ahb && (d1 >= 2 ==> 2 * a1 <= ahb)) by (nonlinear_arith)
        requires
            a1 == ahb / d1,
            d1 >= 1,
    ;
    let d2 = config.spec_apb2_pre().spec_divisor();
    let a2 = config.spec_apb_clk(config.spec_apb2_pre());
    assert(a2 <= ahb && (d2 >= 2 ==> 2 * a2 <= ahb)) by (nonlinear_arith)
        requires
            a2 == ahb / d2,
            d2 >= 1,
    ;
}

} // verus!
