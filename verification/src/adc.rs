//! # Analog to Digital converter
use vstd::prelude::*;

use crate::bits::{field, lemma_low_masks, with_field, write_field};
use crate::dma;

verus! {

/// ADC Result Alignment
#[derive(Debug, Clone, Copy, PartialEq, Eq, Structural)]
pub enum Align {
    /// Right aligned results (least significant bits)
    ///
    /// Results in all precisions returning values from 0-(2^bits-1) in
    /// steps of 1.
    Right,
    /// Left aligned results (most significant bits)
    ///
    /// Results in all precisions returning a value in the range 0-65535.
    /// Depending on the precision the result will step by larger or smaller
    /// amounts.
    Left,
}

/// ADC Sampling Precision
#[derive(Debug, Clone, Copy, PartialEq, Eq, Structural)]
pub enum Precision {
    /// 12 bit precision
    B_12,
    /// 10 bit precision
    B_10,
    /// 8 bit precision
    B_8,
    /// 6 bit precision
    B_6,
}

impl Precision {
    /// The value of the `RES` field.
    pub open spec fn spec_bits(self) -> u8 {
        match self {
            Precision::B_12 => 0b00,
            Precision::B_10 => 0b01,
            Precision::B_8 => 0b10,
            Precision::B_6 => 0b11,
        }
    }

    /// The value of the `RES` field.
    pub fn bits(&self) -> (r: u8)
        ensures
            r == self.spec_bits(),
    {
        match self {
            Precision::B_12 => 0b00,
            Precision::B_10 => 0b01,
            Precision::B_8 => 0b10,
            Precision::B_6 => 0b11,
        }
    }
}

/// ADC Sampling time
#[derive(Debug, Clone, Copy, PartialEq, Eq, Structural)]
pub enum SampleTime {
    /// 1.5 ADC clock cycles
    T_1_5,
    /// 3.5 ADC clock cycles
    T_3_5,
    /// 7.5 ADC clock cycles
    T_7_5,
    /// 12.5 ADC clock cycles
    T_12_5,
    /// 19.5 ADC clock cycles
    T_19_5,
    /// 39.5 ADC clock cycles
    T_39_5,
    /// 79.5 ADC clock cycles
    T_79_5,
    /// 160.5 ADC clock cycles
    T_160_5,
}

impl SampleTime {
    /// The value of the `SMP` field.
    pub open spec fn spec_bits(self) -> u8 {
        match self {
            SampleTime::T_1_5 => 0b000,
            SampleTime::T_3_5 => 0b001,
            SampleTime::T_7_5 => 0b010,
            SampleTime::T_12_5 => 0b011,
            SampleTime::T_19_5 => 0b100,
            SampleTime::T_39_5 => 0b101,
            SampleTime::T_79_5 => 0b110,
            SampleTime::T_160_5 => 0b111,
        }
    }

    /// The value of the `SMP` field.
    pub fn bits(&self) -> (r: u8)
        ensures
            r == self.spec_bits(),
    {
        match self {
            SampleTime::T_1_5 => 0b000,
            SampleTime::T_3_5 => 0b001,
            SampleTime::T_7_5 => 0b010,
            SampleTime::T_12_5 => 0b011,
            SampleTime::T_19_5 => 0b100,
            SampleTime::T_39_5 => 0b101,
            SampleTime::T_79_5 => 0b110,
            SampleTime::T_160_5 => 0b111,
        }
    }
}

/// Hardware triggers that can start an ADC conversion
#[derive(Debug, Clone, Copy, PartialEq, Eq, Structural)]
pub enum Trigger {
    /// TRG0
    TIM6_TRGO,
    /// TRG1
    TIM21_CH2,
    /// TRG2
    TIM2_TRGO,
    /// TRG3
    TIM2_CH4,
    /// TRG4
    TIM22_TRGO,
    /// TRG5
    ///
    /// Only available on Category 5 devices.
    TIM2_CH3,
    /// TRG6
    TIM3_TRGO,
    /// TRG7
    EXTI11,
}

impl Trigger {
    /// The value of the `EXTSEL` field.
    pub open spec fn spec_bits(self) -> u8 {
        match self {
            Trigger::TIM6_TRGO => 0b000,
            Trigger::TIM21_CH2 => 0b001,
            Trigger::TIM2_TRGO => 0b010,
            Trigger::TIM2_CH4 => 0b011,
            Trigger::TIM22_TRGO => 0b100,
            Trigger::TIM2_CH3 => 0b101,
            Trigger::TIM3_TRGO => 0b110,
            Trigger::EXTI11 => 0b111,
        }
    }

    /// The value of the `EXTSEL` field.
    pub fn bits(&self) -> (r: u8)
        ensures
            r == self.spec_bits(),
    {
        match self {
            Trigger::TIM6_TRGO => 0b000,
            Trigger::TIM21_CH2 => 0b001,
            Trigger::TIM2_TRGO => 0b010,
            Trigger::TIM2_CH4 => 0b011,
            Trigger::TIM22_TRGO => 0b100,
            Trigger::TIM2_CH3 => 0b101,
            Trigger::TIM3_TRGO => 0b110,
            Trigger::EXTI11 => 0b111,
        }
    }
}

/// Represents an ADC error
#[derive(Debug, Clone, Copy, PartialEq, Eq, Structural)]
pub enum Error {
    /// Indicates that converted data was not read in time
    ///
    /// This happens if either the user or the DMA (depending on mode) did not
    /// read the converted value before another one was ready.
    AdcOverrun,
    /// Indicates that values in the internal buffer have been overwritten
    ///
    /// This is not a critical error, as a circular buffer is used, and the DMA
    /// just keeps writing more values. It does mean that some values in the
    /// buffer were overwritten though.
    BufferOverrun,
}

/// A collection of channels
///
/// Used to set up multi-channel conversions.
#[derive(Debug, Clone, Copy, PartialEq, Eq, Structural)]
pub struct Channels {
    flags: u32,
}

impl Channels {
    /// The channel selection bits: bit `n` is set for channel `n`.
    pub closed spec fn spec_flags(self) -> u32 {
        self.flags
    }

    /// An empty collection.
    pub fn new() -> (r: Channels)
        ensures
            r.spec_flags() == 0,
    {
        Channels { flags: 0 }
    }

    /// Adds the channel with the given number to the collection
    pub fn add(&mut self, channel: u8)
        requires
            channel < 32,
        ensures
            final(self).spec_flags() == old(self).spec_flags() | (1u32 << channel),
    {
        self.flags = self.flags | (1u32 << channel);
    }

    /// The collection holding only the given channel.
    pub fn from_channel(channel: u8) -> (r: Channels)
        requires
            channel < 32,
        ensures
            r.spec_flags() == 0u32 | (1u32 << channel),
    {
        let mut c = Channels { flags: 0 };
        c.add(channel);
        c
    }

    /// The channel selection bits: bit `n` is set for channel `n`.
    pub fn flags(&self) -> (r: u32)
        ensures
            r == self.spec_flags(),
    {
        self.flags
    }
}

/// The register values with which the ADC starts converting.
#[derive(Debug, Clone, Copy, PartialEq, Eq, Structural)]
pub struct AdcConfig {
    /// `CFGR1.RES`
    pub res: u8,
    /// `CFGR1.CONT`: continuous conversion.
    pub cont: bool,
    /// `CFGR1.ALIGN`: left alignment.
    pub align_left: bool,
    /// `CFGR1.EXTSEL`, with `EXTEN` on rising edges, when a hardware trigger
    /// is used.
    pub extsel: Option<u8>,
    /// `SMPR.SMP`
    pub smp: u8,
    /// `CHSELR`
    pub chselr: u32,
}

/// Bits of `ADC_CR`: `ADEN` (enable), `ADDIS` (disable), `ADSTART` (start
/// conversion), `ADVREGEN` (voltage regulator enable).
pub const CR_ADEN: u32 = 0;

pub const CR_ADDIS: u32 = 1;

pub const CR_ADSTART: u32 = 2;

pub const CR_ADVREGEN: u32 = 28;

/// Bits of `ADC_ISR`: `ADRDY` (ready), `EOS` (end of sequence), `OVR`
/// (overrun).
pub const ISR_ADRDY: u32 = 0;

pub const ISR_EOS: u32 = 3;

pub const ISR_OVR: u32 = 4;

/// Fields of `ADC_CFGR1`: `DMAEN`, `DMACFG` (circular DMA), `RES` (two bits),
/// `ALIGN`, `EXTSEL` (three bits), `EXTEN` (two bits), `CONT`.
pub const CFGR1_DMAEN: u32 = 0;

pub const CFGR1_DMACFG: u32 = 1;

pub const CFGR1_RES: u32 = 3;

pub const CFGR1_ALIGN: u32 = 5;

pub const CFGR1_EXTSEL: u32 = 6;

pub const CFGR1_EXTEN: u32 = 10;

pub const CFGR1_CONT: u32 = 13;

/// The `EXTEN` value that starts conversions on rising trigger edges.
pub const EXTEN_RISING: u32 = 0b01;

/// One access to the ADC registers, in the order a driver makes them.
#[derive(Debug, Clone, Copy, PartialEq, Eq, Structural)]
pub enum AdcOp {
    /// Set these bits of `CR`, keeping the others (read-modify-write).
    CrSet(u32),
    /// Set these bits of `ISR` in a read-modify-write (which also clears the
    /// flags read as set, as writing 1 clears them).
    IsrSet(u32),
    /// Write this value to `ISR`: its flags set here are cleared.
    IsrWrite(u32),
    /// Wait until this bit of `ISR` reads 1.
    WaitIsrSet(u32),
    /// Wait until this bit of `CR` reads 0.
    WaitCrClear(u32),
    /// Write this value to `CFGR1`.
    Cfgr1(u32),
    /// Set the `SMP` field of `SMPR` to this value, keeping the other bits.
    SmprSmp(u32),
    /// Write this value to `CHSELR`.
    Chselr(u32),
}

/// The `CFGR1` value of a configuration: resolution, continuous mode and
/// alignment as configured, DMA requests in circular mode, and, with a
/// hardware trigger, its selection on rising edges; every other bit at its
/// reset value (0).
pub open spec fn cfgr1_value(config: AdcConfig) -> u32 {
    let v = with_field(
        with_field(
            with_field(
                with_field(
                    with_field(0, CFGR1_RES, 2, config.res as u32),
                    CFGR1_CONT,
                    1,
                    if config.cont { 1u32 } else { 0u32 },
                ),
                CFGR1_ALIGN,
                1,
                if config.align_left { 1u32 } else { 0u32 },
            ),
            CFGR1_DMACFG,
            1,
            1,
        ),
        CFGR1_DMAEN,
        1,
        1,
    );
    match config.extsel {
        Some(e) => with_field(with_field(v, CFGR1_EXTSEL, 3, e as u32), CFGR1_EXTEN, 2, EXTEN_RISING),
        None => v,
    }
}

/// The accesses that power the converter up: the ready flag cleared, the
/// converter enabled, then its readiness awaited.
pub open spec fn power_up_ops() -> Seq<AdcOp> {
    seq![AdcOp::IsrSet(1u32 << ISR_ADRDY), AdcOp::CrSet(1u32 << CR_ADEN), AdcOp::WaitIsrSet(ISR_ADRDY)]
}

/// The accesses that power the converter down: disabled, the ready flag
/// cleared, then the end of the disabling awaited.
pub open spec fn power_down_ops() -> Seq<AdcOp> {
    seq![AdcOp::CrSet(1u32 << CR_ADDIS), AdcOp::IsrSet(1u32 << ISR_ADRDY), AdcOp::WaitCrClear(CR_ADEN)]
}

/// The accesses that configure a conversion and start it: `CFGR1`, the
/// sampling time, the channels, the end of sequence flag cleared, then the
/// conversion started.
pub open spec fn configure_ops(config: AdcConfig) -> Seq<AdcOp> {
    seq![
        AdcOp::Cfgr1(cfgr1_value(config)),
        AdcOp::SmprSmp(config.smp as u32),
        AdcOp::Chselr(config.chselr),
        AdcOp::IsrSet(1u32 << ISR_EOS),
        AdcOp::CrSet(1u32 << CR_ADSTART),
    ]
}

/// Appends `ops` to `v`.
fn extend(v: &mut Vec<AdcOp>, ops: &Vec<AdcOp>)
    ensures
        final(v)@ == old(v)@ + ops@,
{
    let mut i: usize = 0;
    while i < ops.len()
        invariant
            i <= ops@.len(),
            v@ == old(v)@ + ops@.subrange(0, i as int),
        decreases ops@.len() - i,
    {
        v.push(ops[i]);
        i = i + 1;
        assert(ops@.subrange(0, i as int) =~= ops@.subrange(0, (i - 1) as int).push(ops@[i - 1]));
    }
    assert(ops@.subrange(0, ops@.len() as int) =~= ops@);
}

/// The accesses of [`power_up_ops`].
fn power_up_steps() -> (r: Vec<AdcOp>)
    ensures
        r@ == power_up_ops(),
{
    let mut r: Vec<AdcOp> = Vec::new();
    r.push(AdcOp::IsrSet(1u32 << ISR_ADRDY));
    r.push(AdcOp::CrSet(1u32 << CR_ADEN));
    r.push(AdcOp::WaitIsrSet(ISR_ADRDY));
    assert(r@ =~= power_up_ops());
    r
}

/// The `CFGR1` value of [`cfgr1_value`].
fn cfgr1_of(config: &AdcConfig) -> (r: u32)
    requires
        config.res < 4,
        config.extsel matches Some(e) ==> e < 8,
    ensures
        r == cfgr1_value(*config),
{
    proof {
        lemma_low_masks();
    }
    let v = write_field(0, CFGR1_RES, 2, config.res as u32);
    let v = write_field(v, CFGR1_CONT, 1, if config.cont { 1u32 } else { 0u32 });
    let v = write_field(v, CFGR1_ALIGN, 1, if config.align_left { 1u32 } else { 0u32 });
    let v = write_field(v, CFGR1_DMACFG, 1, 1);
    let v = write_field(v, CFGR1_DMAEN, 1, 1);
    match config.extsel {
        Some(e) => write_field(write_field(v, CFGR1_EXTSEL, 3, e as u32), CFGR1_EXTEN, 2, EXTEN_RISING),
        None => v,
    }
}

/// The accesses of [`configure_ops`].
fn configure_steps(config: &AdcConfig) -> (r: Vec<AdcOp>)
    requires
        config.res < 4,
        config.extsel matches Some(e) ==> e < 8,
    ensures
        r@ == configure_ops(*config),
{
    let mut r: Vec<AdcOp> = Vec::new();
    r.push(AdcOp::Cfgr1(cfgr1_of(config)));
    r.push(AdcOp::SmprSmp(config.smp as u32));
    r.push(AdcOp::Chselr(config.chselr));
    r.push(AdcOp::IsrSet(1u32 << ISR_EOS));
    r.push(AdcOp::CrSet(1u32 << CR_ADSTART));
    assert(r@ =~= configure_ops(*config));
    r
}

/// Indicates that the ADC peripheral is ready
pub struct Ready;

/// Indicates that the ADC peripheral is performing conversions into a
/// circular buffer
pub struct Active<C, B> {
    transfer: dma::Transfer<DmaToken, C, B, dma::Started>,
    buffer: Buffer,
}

/// Analog to Digital converter interface: the peripheral `P` and its
/// settings.
pub struct Adc<State, P> {
    rb: P,
    sample_time: SampleTime,
    align: Align,
    precision: Precision,
    _state: State,
}

/// Used for DMA transfers
///
/// This is an internal implementation detail. It is only public because it
/// leaks out of a public API in the form of a `where` clause.
pub struct DmaToken(());


impl<State, P> Adc<State, P> {
    /// The configured sampling time.
    pub closed spec fn spec_sample_time(&self) -> SampleTime {
        self.sample_time
    }

    /// The configured alignment.
    pub closed spec fn spec_align(&self) -> Align {
        self.align
    }

    /// The configured precision.
    pub closed spec fn spec_precision(&self) -> Precision {
        self.precision
    }

    /// The state the ADC is in.
    pub closed spec fn spec_state(&self) -> &State {
        &self._state
    }

    /// The peripheral.
    pub closed spec fn spec_rb(&self) -> P {
        self.rb
    }

    /// The register values that start a conversion of the channels
    /// `chselr` (see [`Adc::configuration`]).
    pub open spec fn spec_config(&self, chselr: u32, cont: bool, trigger: Option<Trigger>) -> AdcConfig {
        AdcConfig {
            res: self.spec_precision().spec_bits(),
            cont,
            align_left: self.spec_align() == Align::Left,
            extsel: match trigger {
                Some(t) => Some(t.spec_bits()),
                None => None,
            },
            smp: self.spec_sample_time().spec_bits(),
            chselr,
        }
    }

    /// Releases the ADC peripheral.
    pub fn release(self) -> (r: P)
        ensures
            r == self.spec_rb(),
    {
        self.rb
    }

    /// The register accesses that power the converter down after a
    /// conversion: disabled, the ready flag cleared, then the end of the
    /// disabling awaited.
    pub fn power_down(&self) -> (r: Vec<AdcOp>)
        ensures
            r@ == power_down_ops(),
    {
        let mut r: Vec<AdcOp> = Vec::new();
        r.push(AdcOp::CrSet(1u32 << CR_ADDIS));
        r.push(AdcOp::IsrSet(1u32 << ISR_ADRDY));
        r.push(AdcOp::WaitCrClear(CR_ADEN));
        assert(r@ =~= power_down_ops());
        r
    }

    /// The register values that start a conversion of `channels`:
    /// continuous when `cont`, started by `trigger` when there is one.
    pub fn configuration(&self, channels: &Channels, cont: bool, trigger: Option<Trigger>) -> (r:
        AdcConfig)
        ensures
            r == self.spec_config(channels.spec_flags(), cont, trigger),
            r.res == self.spec_precision().spec_bits(),
            r.cont == cont,
            r.align_left == (self.spec_align() == Align::Left),
            r.extsel == (match trigger {
                Some(t) => Some(t.spec_bits()),
                None => None,
            }),
            r.smp == self.spec_sample_time().spec_bits(),
            r.chselr == channels.spec_flags(),
    {
        let extsel = match trigger {
            Some(t) => Some(t.bits()),
            None => None,
        };
        AdcConfig {
            res: self.precision.bits(),
            cont,
            align_left: matches!(self.align, Align::Left),
            extsel,
            smp: self.sample_time.bits(),
            chselr: channels.flags(),
        }
    }

    /// The value a one-shot conversion returns for the data register
    /// contents `raw`: a left-aligned 6-bit result is moved to the upper
    /// byte.
    pub fn one_shot_value(&self, raw: u16) -> (r: u16)
        ensures
            r == (if self.spec_align() == Align::Left && self.spec_precision() == Precision::B_6 {
                raw << 8u16
            } else {
                raw
            }),
    {
        if matches!(self.align, Align::Left) && matches!(self.precision, Precision::B_6) {
            raw << 8u16
        } else {
            raw
        }
    }
}

impl<P> Adc<Ready, P> {
    /// A ready ADC on the peripheral `rb`: 1.5 cycles sampling time, right
    /// alignment, 12 bits; and the register access that enables its voltage
    /// regulator (once its clock is enabled).
    pub fn new(rb: P) -> (r: (Adc<Ready, P>, AdcOp))
        ensures
            r.0.spec_rb() == rb,
            r.0.spec_sample_time() == SampleTime::T_1_5,
            r.0.spec_align() == Align::Right,
            r.0.spec_precision() == Precision::B_12,
            r.1 == AdcOp::CrSet(1u32 << CR_ADVREGEN),
    {
        (
            Adc {
                rb,
                sample_time: SampleTime::T_1_5,
                align: Align::Right,
                precision: Precision::B_12,
                _state: Ready,
            },
            AdcOp::CrSet(1u32 << CR_ADVREGEN),
        )
    }

    /// The register accesses that convert `channel` once, up to the end of
    /// the conversion: the converter powered up, configured for a single
    /// conversion of the channel and started, then the end of the sequence
    /// awaited. The data register is then read (see
    /// [`Adc::one_shot_value`]) and the converter powered down (see
    /// [`Adc::power_down`]).
    pub fn one_shot(&self, channel: u8) -> (r: Vec<AdcOp>)
        requires
            channel < 32,
        ensures
            r@ == power_up_ops() + configure_ops(self.spec_config(0u32 | (1u32 << channel), false, None))
                + seq![AdcOp::WaitIsrSet(ISR_EOS)],
    {
        let config = self.configuration(&Channels::from_channel(channel), false, None);
        let mut r = power_up_steps();
        let ghost up = r@;
        let conf = configure_steps(&config);
        extend(&mut r, &conf);
        r.push(AdcOp::WaitIsrSet(ISR_EOS));
        assert(r@ =~= up + conf@ + seq![AdcOp::WaitIsrSet(ISR_EOS)]);
        r
    }

    /// Set the Adc sampling time
    pub fn set_sample_time(&mut self, t_samp: SampleTime)
        ensures
            final(self).spec_sample_time() == t_samp,
            final(self).spec_rb() == old(self).spec_rb(),
            final(self).spec_align() == old(self).spec_align(),
            final(self).spec_precision() == old(self).spec_precision(),
    {
        self.sample_time = t_samp;
    }

    /// Set the Adc result alignment
    pub fn set_align(&mut self, align: Align)
        ensures
            final(self).spec_sample_time() == old(self).spec_sample_time(),
            final(self).spec_align() == align,
            final(self).spec_rb() == old(self).spec_rb(),
            final(self).spec_precision() == old(self).spec_precision(),
    {
        self.align = align;
    }

    /// Set the Adc precision
    pub fn set_precision(&mut self, precision: Precision)
        ensures
            final(self).spec_sample_time() == old(self).spec_sample_time(),
            final(self).spec_align() == old(self).spec_align(),
            final(self).spec_precision() == precision,
            final(self).spec_rb() == old(self).spec_rb(),
    {
        self.precision = precision;
    }

    /// Starts a continuous conversion process into a circular buffer of
    /// `buffer_len` values at `buffer_addr`, converting `channels`, each
    /// conversion sequence started by `trigger`, or continuously when there
    /// is none. The values go from the data register at `dr_address` to the
    /// buffer by a circular DMA transfer on `dma_chan`, which is started.
    ///
    /// Returns the active ADC, with an empty buffer, the register values to
    /// write to the ADC, the channel's register values and the channel
    /// configuration register value that starts the transfer.
    pub fn start<C: dma::Channel, B>(
        self,
        channels: Channels,
        trigger: Option<Trigger>,
        handle: &mut dma::Handle,
        dma_chan: C,
        buffer: B,
        buffer_len: usize,
        buffer_addr: u32,
        dr_address: u32,
    ) -> (r: (Adc<Active<C, B>, P>, AdcConfig, dma::ChannelSetup, u32, Vec<AdcOp>))
        where
            DmaToken: dma::Target<C>,
        requires
            buffer_len <= u16::MAX,
            buffer_addr % 2 == 0,
        ensures
            r.0.spec_rb() == self.spec_rb(),
            r.4@ == power_up_ops() + configure_ops(r.1),
            r.0.spec_sample_time() == self.spec_sample_time(),
            r.0.spec_align() == self.spec_align(),
            r.0.spec_precision() == self.spec_precision(),
            r.0.spec_buffer().len == buffer_len,
            r.0.spec_buffer().pos == 0,
            r.0.spec_buffer().dma_pos == 0,
            !r.0.spec_buffer().r_gt_w,
            r.1.cont == (trigger is None),
            r.1.chselr == channels.spec_flags(),
            r.1.res == self.spec_precision().spec_bits(),
            r.1.smp == self.spec_sample_time().spec_bits(),
            r.1.align_left == (self.spec_align() == Align::Left),
            r.1.extsel == (match trigger {
                Some(t) => Some(t.spec_bits()),
                None => None,
            }),
            r.2 == (dma::ChannelSetup {
                par: dr_address,
                mar: buffer_addr,
                ndtr: buffer_len as u16,
                ccr: dma::ccr_value(1, 2, 0, true),
            }),
            r.3 == with_field(r.2.ccr, dma::CCR_EN, 1, 1),
            field(final(handle).spec_cselr(), (4 * (C::spec_number() - 1)) as u32, 4)
                == <DmaToken as dma::Target<C>>::spec_request(),
    {
        let dma_token = DmaToken(());
        let (transfer, setup) = dma::Transfer::new::<u16>(
            handle,
            dma_token,
            dma_chan,
            buffer,
            buffer_len,
            buffer_addr,
            buffer_len,
            dr_address,
            dma::Priority::high(),
            dma::Direction::peripheral_to_memory(),
            true,
        );
        let (transfer, ccr) = transfer.start();
        let continous = trigger.is_none();
        let config = self.configuration(&channels, continous, trigger);
        let buffer = Buffer { len: buffer_len as u16, pos: 0, dma_pos: 0, r_gt_w: false };
        let mut ops = power_up_steps();
        let conf = configure_steps(&config);
        extend(&mut ops, &conf);
        (
            Adc {
                rb: self.rb,
                sample_time: self.sample_time,
                align: self.align,
                precision: self.precision,
                _state: Active { transfer, buffer },
            },
            config,
            setup,
            ccr,
            ops,
        )
    }
}

/// Permission to read the values buffered by an active ADC, granted when
/// no conversion overrun is flagged.
pub struct ReadAvailable(());

/// What a read from the circular buffer does next.
#[derive(Debug, Clone, Copy)]
pub enum ReadStep {
    /// The read ends with this result (`None` when the buffer is empty).
    Done(Option<Result<u16, Error>>),
    /// The value at this position of the buffer is to be read, then passed
    /// to `Adc::finish_read` with a fresh transfer state.
    ReadAt(u16),
}

impl<C: dma::Channel, B, P> Adc<Active<C, B>, P> {
    /// The state of the DMA transfer: the words it has still to move
    /// (`ndtr`, read from the channel), and its half transfer and transfer
    /// complete flags in the DMA interrupt status register `isr`.
    pub fn dma_state(&self, ndtr: u16, isr: u32) -> (r: (u16, bool, bool))
        ensures
            r == (ndtr, crate::bits::bit_set(isr, dma::isr_bit(C::spec_number(), 2)), crate::bits::bit_set(
                isr,
                dma::isr_bit(C::spec_number(), 1),
            )),
    {
        self._state.transfer.state(ndtr, isr)
    }

    /// The DMA interrupt flag clear register value that clears the half
    /// transfer and transfer complete flags of the transfer.
    pub fn dma_clear_flags(&self) -> (r: u32)
        ensures
            r == (1u32 << dma::isr_bit(C::spec_number(), 2)) | (1u32 << dma::isr_bit(C::spec_number(), 1)),
    {
        self._state.transfer.clear_flags()
    }

    /// The circular buffer state.
    pub closed spec fn spec_buffer(&self) -> BufferState {
        self._state.buffer.spec_state()
    }

    /// Returns the values that are currently available, unless the ADC
    /// flagged an overrun (`adc_overrun`, the `OVR` flag, which the caller
    /// then clears).
    ///
    /// Also returns the register accesses to make: on an overrun, the `OVR`
    /// flag cleared; none otherwise.
    pub fn read_available(&mut self, adc_overrun: bool) -> (r: (Result<ReadAvailable, Error>, Vec<AdcOp>))
        ensures
            adc_overrun <==> r.0 is Err,
            adc_overrun ==> r.0 == Err::<ReadAvailable, Error>(Error::AdcOverrun),
            r.1@ == (if adc_overrun {
                seq![AdcOp::IsrWrite(1u32 << ISR_OVR)]
            } else {
                Seq::<AdcOp>::empty()
            }),
            final(self).spec_buffer() == old(self).spec_buffer(),
    {
        let mut ops: Vec<AdcOp> = Vec::new();
        if adc_overrun {
            ops.push(AdcOp::IsrWrite(1u32 << ISR_OVR));
            assert(ops@ =~= seq![AdcOp::IsrWrite(1u32 << ISR_OVR)]);
            return (Err(Error::AdcOverrun), ops);
        }
        assert(ops@ =~= Seq::<AdcOp>::empty());
        (Ok(ReadAvailable(())), ops)
    }

    /// Begins reading the next value, given the DMA transfer state (the
    /// number of values the transfer has still to write, and its
    /// half-transfer and transfer-complete flags, which the caller then
    /// clears).
    pub fn begin_read(&mut self, _permit: &ReadAvailable, remaining: u16, half: bool, complete: bool) -> (r:
        ReadStep)
        requires
            old(self).spec_buffer().wf(),
            remaining <= old(self).spec_buffer().len,
        ensures
            final(self).spec_buffer().wf(),
            ({
                let ts = TransferState { pos: (old(self).spec_buffer().len - remaining) as u16, half, complete };
                let (ov, b) = old(self).spec_buffer().after_check(ts);
                &&& final(self).spec_buffer() == b
                &&& ov ==> r == ReadStep::Done(Some(Err(Error::BufferOverrun)))
                &&& !ov && b.pos == ts.pos ==> r == ReadStep::Done(None)
                &&& !ov && b.pos != ts.pos ==> r == ReadStep::ReadAt(b.pos)
            }),
    {
        let ts = self._state.buffer.transfer_state(remaining, half, complete);
        if self._state.buffer.check_overrun(ts) {
            return ReadStep::Done(Some(Err(Error::BufferOverrun)));
        }
        if self._state.buffer.pos == ts.pos {
            return ReadStep::Done(None);
        }
        ReadStep::ReadAt(self._state.buffer.pos)
    }

    /// Finishes reading `value`, read at the position `begin_read` gave,
    /// given the transfer state after the read. The value is returned unless
    /// the DMA may have overwritten it meanwhile; then the read position
    /// advances by one, wrapping at the end of the buffer.
    pub fn finish_read(&mut self, value: u16, remaining: u16, half: bool, complete: bool) -> (r:
        Result<u16, Error>)
        requires
            old(self).spec_buffer().wf(),
            remaining <= old(self).spec_buffer().len,
        ensures
            final(self).spec_buffer().wf(),
            ({
                let ts = TransferState { pos: (old(self).spec_buffer().len - remaining) as u16, half, complete };
                let (ov, b) = old(self).spec_buffer().after_check(ts);
                &&& ov ==> r == Err::<u16, Error>(Error::BufferOverrun) && final(self).spec_buffer()
                    == b
                &&& !ov ==> r == Ok::<u16, Error>(value) && final(self).spec_buffer() == b.advanced()
            }),
    {
        let ts = self._state.buffer.transfer_state(remaining, half, complete);
        if self._state.buffer.check_overrun(ts) {
            return Err(Error::BufferOverrun);
        }
        self._state.buffer.advance();
        Ok(value)
    }
}

/// The state of the DMA transfer, as the buffer sees it
#[derive(Debug, Clone, Copy, PartialEq, Eq, Structural)]
pub struct TransferState {
    /// The write position of the DMA
    pub pos: u16,
    /// The half-transfer flag
    pub half: bool,
    /// The transfer-complete flag
    pub complete: bool,
}

/// The circular buffer that the DMA writes ADC values into, as plain values.
#[derive(Debug, Clone, Copy, PartialEq, Eq, Structural)]
pub struct BufferState {
    /// Number of values the buffer holds
    pub len: u16,
    /// Read position
    pub pos: u16,
    /// Write position of the DMA when last checked
    pub dma_pos: u16,
    /// Whether the read position is ahead of the write position: set when
    /// the write position wraps around, cleared when the read position does.
    pub r_gt_w: bool,
}

impl BufferState {
    /// The positions lie within the buffer.
    pub open spec fn wf(self) -> bool {
        &&& self.pos <= self.len
        &&& self.dma_pos <= self.len
    }

    /// Whether the DMA may have overwritten values not yet read, judged by
    /// the flags and positions; and the order of read and write positions
    /// afterwards.
    pub open spec fn overrun(self, ts: TransferState) -> (bool, bool) {
        if ts.half && ts.complete {
            // Both flags: anything may have happened since the last check.
            (true, self.r_gt_w)
        } else if ts.complete && self.dma_pos < ts.pos {
            // The DMA wrapped and ran past its previous position.
            (true, self.r_gt_w)
        } else if ts.pos < self.dma_pos && self.r_gt_w {
            // The write position wrapped while the read position was ahead.
            (true, self.r_gt_w)
        } else {
            let r_gt_w = self.r_gt_w || ts.pos < self.dma_pos;
            (if r_gt_w { self.pos <= ts.pos } else { self.pos > ts.pos }, r_gt_w)
        }
    }

    /// The state after an overrun check against `ts`: whether there was an
    /// overrun, and the new state. An overrun empties the buffer (the read
    /// position jumps to the write position); the write position is always
    /// recorded.
    pub open spec fn after_check(self, ts: TransferState) -> (bool, BufferState) {
        let (ov, r_gt_w) = self.overrun(ts);
        if ov {
            (true, BufferState { pos: ts.pos, dma_pos: ts.pos, r_gt_w: false, ..self })
        } else {
            (false, BufferState { dma_pos: ts.pos, r_gt_w, ..self })
        }
    }

    /// The state after one value was read: the read position advances by
    /// one, and wraps to the start (clearing `r_gt_w`) at the end.
    pub open spec fn advanced(self) -> BufferState {
        if self.pos + 1 >= self.len {
            BufferState { pos: 0, r_gt_w: false, ..self }
        } else {
            BufferState { pos: (self.pos + 1) as u16, ..self }
        }
    }
}

/// Provides access to the buffer that the DMA writes ADC values into
struct Buffer {
    len: u16,
    pos: u16,
    dma_pos: u16,
    /// Indicates order of read and write indices
    ///
    /// This is initially `false`, indicating that the read position (the `pos`
    /// field) is smaller than or equal to the write position (internally
    /// managed by the DMA peripheral).
    ///
    /// Once the write position wraps around the buffer boundary, this becomes
    /// `true` until the read position also wraps around.
    r_gt_w: bool,
}

impl Buffer {
    closed spec fn spec_state(&self) -> BufferState {
        BufferState { len: self.len, pos: self.pos, dma_pos: self.dma_pos, r_gt_w: self.r_gt_w }
    }

    /// Translates what the DMA reports (values remaining) into a write
    /// position comparable with the read position.
    fn transfer_state(&self, remaining: u16, half: bool, complete: bool) -> (r: TransferState)
        requires
            remaining <= self.len,
        ensures
            r == (TransferState { pos: (self.len - remaining) as u16, half, complete }),
    {
        TransferState { pos: self.len - remaining, half, complete }
    }

    fn check_overrun(&mut self, transfer_state: TransferState) -> (r: bool)
        requires
            old(self).spec_state().wf(),
            transfer_state.pos <= old(self).len,
        ensures
            (r, final(self).spec_state()) == old(self).spec_state().after_check(transfer_state),
            final(self).spec_state().wf(),
    {
        let overrun = self.check_overrun_inner(transfer_state);
        self.dma_pos = transfer_state.pos;  // Update our state of the DMA
        if overrun {
            // Throw away all values in the buffer and start again with an
            // empty buffer, which minimizes the likelihood of getting
            // another overrun right away.
            self.pos = transfer_state.pos;
            self.r_gt_w = false;
        }
        overrun
    }

    fn check_overrun_inner(&mut self, transfer_state: TransferState) -> (r: bool)
        ensures
            (r, final(self).r_gt_w) == old(self).spec_state().overrun(transfer_state),
            final(self).len == old(self).len,
            final(self).pos == old(self).pos,
            final(self).dma_pos == old(self).dma_pos,
    {
        if transfer_state.half && transfer_state.complete {
            return true;
        }
        if transfer_state.complete && self.dma_pos < transfer_state.pos {
            return true;
        }
        if transfer_state.pos < self.dma_pos {
            if self.r_gt_w {
                return true;
            }
            self.r_gt_w = true;
        }
        if self.r_gt_w {
            self.pos <= transfer_state.pos
        } else {
            self.pos > transfer_state.pos
        }
    }

    /// Advances the read position past the value just read.
    fn advance(&mut self)
        requires
            old(self).spec_state().wf(),
        ensures
            final(self).spec_state() == old(self).spec_state().advanced(),
            final(self).spec_state().wf(),
    {
        self.pos = self.pos.wrapping_add(1);
        if self.pos == 0 || self.pos >= self.len {
            self.pos = 0;
            self.r_gt_w = false;
        }
    }
}

/// An overrun check always records the write position, and an overrun
/// leaves an empty buffer: the read position equals the write position.
pub proof fn lemma_overrun_resets(b: BufferState, ts: TransferState)
    ensures
        b.after_check(ts).1.dma_pos == ts.pos,
        b.after_check(ts).1.len == b.len,
        b.after_check(ts).0 ==> b.after_check(ts).1.pos == ts.pos && !b.after_check(ts).1.r_gt_w,
        !b.after_check(ts).0 ==> b.after_check(ts).1.pos == b.pos,
{
}

/// With neither flag set and the write position unchanged, a buffer whose
/// read position caught up with the write position is empty, not overrun.
pub proof fn lemma_caught_up_is_empty(b: BufferState)
    requires
        !b.r_gt_w,
        b.pos == b.dma_pos,
    ensures
        !b.after_check(TransferState { pos: b.dma_pos, half: false, complete: false }).0,
{
}

} // verus!
