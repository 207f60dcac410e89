//! Serial Peripheral Interface
use core::marker::PhantomData;
use vstd::prelude::*;

use crate::bits::{bit_set, field, lemma_low_masks, lemma_with_field, read_field, with_field, write_field};
use crate::dma;
use crate::gpio::{AltMode, Port};
use crate::time::Hertz;
use stm32l0::stm32l0x2::{SPI1, SPI2};

verus! {

/// SPI error
#[derive(Debug, Clone, Copy, PartialEq, Eq, Structural)]
#[non_exhaustive]
pub enum Error {
    Busy,
    FrameError,
    /// Overrun occurred
    Overrun,
    /// Mode fault occurred
    ModeFault,
    /// CRC error
    Crc,
}

/// Clock polarity
#[derive(Debug, Clone, Copy, PartialEq, Eq, Structural)]
pub enum Polarity {
    /// Clock signal low when idle
    IdleLow,
    /// Clock signal high when idle
    IdleHigh,
}

/// Clock phase
#[derive(Debug, Clone, Copy, PartialEq, Eq, Structural)]
pub enum Phase {
    /// Data in "captured" on the first clock transition
    CaptureOnFirstTransition,
    /// Data in "captured" on the second clock transition
    CaptureOnSecondTransition,
}

/// SPI mode
#[derive(Debug, Clone, Copy, PartialEq, Eq, Structural)]
pub struct Mode {
    /// Clock polarity
    pub polarity: Polarity,
    /// Clock phase
    pub phase: Phase,
}

/// Helper for CPOL = 0, CPHA = 0
pub fn mode_0() -> (r: Mode)
    ensures
        r == (Mode { polarity: Polarity::IdleLow, phase: Phase::CaptureOnFirstTransition }),
{
    Mode { polarity: Polarity::IdleLow, phase: Phase::CaptureOnFirstTransition }
}

/// Helper for CPOL = 0, CPHA = 1
pub fn mode_1() -> (r: Mode)
    ensures
        r == (Mode { polarity: Polarity::IdleLow, phase: Phase::CaptureOnSecondTransition }),
{
    Mode { polarity: Polarity::IdleLow, phase: Phase::CaptureOnSecondTransition }
}

/// Helper for CPOL = 1, CPHA = 0
pub fn mode_2() -> (r: Mode)
    ensures
        r == (Mode { polarity: Polarity::IdleHigh, phase: Phase::CaptureOnFirstTransition }),
{
    Mode { polarity: Polarity::IdleHigh, phase: Phase::CaptureOnFirstTransition }
}

/// Helper for CPOL = 1, CPHA = 1
pub fn mode_3() -> (r: Mode)
    ensures
        r == (Mode { polarity: Polarity::IdleHigh, phase: Phase::CaptureOnSecondTransition }),
{
    Mode { polarity: Polarity::IdleHigh, phase: Phase::CaptureOnSecondTransition }
}

/// The pins of an SPI bus
pub trait Pins<SPI> {
    fn setup(&self);
}

/// An SCK pin
pub trait PinSck<SPI> {
    fn setup(&self);
}

/// A MISO pin
pub trait PinMiso<SPI> {
    fn setup(&self);
}

/// A MOSI pin
pub trait PinMosi<SPI> {
    fn setup(&self);
}

impl<SPI, SCK, MISO, MOSI> Pins<SPI> for (SCK, MISO, MOSI) where
    SCK: PinSck<SPI>,
    MISO: PinMiso<SPI>,
    MOSI: PinMosi<SPI>,
 {
    fn setup(&self) {
        self.0.setup();
        self.1.setup();
        self.2.setup();
    }
}

/// A filler type for when the SCK pin is unnecessary
pub struct NoSck;

/// A filler type for when the Miso pin is unnecessary
pub struct NoMiso;

/// A filler type for when the Mosi pin is unnecessary
pub struct NoMosi;

impl NoSck {
    /// There is no pin to set up.
    pub fn set_alt_mode(&self, _some: Option<u32>) {
    }
}

impl NoMiso {
    /// There is no pin to set up.
    pub fn set_alt_mode(&self, _some: Option<u32>) {
    }
}

impl NoMosi {
    /// There is no pin to set up.
    pub fn set_alt_mode(&self, _some: Option<u32>) {
    }
}

impl PinSck<SPI1> for NoSck {
    fn setup(&self) {
        self.set_alt_mode(None);
    }
}

impl PinMiso<SPI1> for NoMiso {
    fn setup(&self) {
        self.set_alt_mode(None);
    }
}

impl PinMosi<SPI1> for NoMosi {
    fn setup(&self) {
        self.set_alt_mode(None);
    }
}

impl PinSck<SPI2> for NoSck {
    fn setup(&self) {
        self.set_alt_mode(None);
    }
}

impl PinMiso<SPI2> for NoMiso {
    fn setup(&self) {
        self.set_alt_mode(None);
    }
}

impl PinMosi<SPI2> for NoMosi {
    fn setup(&self) {
        self.set_alt_mode(None);
    }
}

/// The SPI buses of the `stm32l0x2` parts.
#[derive(Debug, Clone, Copy, PartialEq, Eq, Structural)]
pub enum Bus {
    SPI1,
    SPI2,
}

/// The alternate function that makes pin `pin` of `port` the clock (SCK)
/// line of `bus`, if it can be; the pin is taken in analog mode.
pub open spec fn sck_alt_mode_spec(bus: Bus, port: Port, pin: u8) -> Option<AltMode> {
    match bus {
        Bus::SPI1 => {
            if port == Port::PB && pin == 3 {
                Some(AltMode::AF0)
            } else if port == Port::PA && pin == 5 {
                Some(AltMode::AF0)
            } else {
                None
            }
        },
        Bus::SPI2 => {
            if port == Port::PB && pin == 13 {
                Some(AltMode::AF0)
            } else {
                None
            }
        },
    }
}

/// The alternate function that makes pin `pin` of `port` the clock
/// line of `bus` (see [`sck_alt_mode_spec`]); `None` for a pin that cannot
/// carry it.
pub fn sck_alt_mode(bus: Bus, port: Port, pin: u8) -> (r: Option<AltMode>)
    ensures
        r == sck_alt_mode_spec(bus, port, pin),
{
    match bus {
        Bus::SPI1 => {
            if port == Port::PB && pin == 3 {
                Some(AltMode::AF0)
            } else if port == Port::PA && pin == 5 {
                Some(AltMode::AF0)
            } else {
                None
            }
        },
        Bus::SPI2 => {
            if port == Port::PB && pin == 13 {
                Some(AltMode::AF0)
            } else {
                None
            }
        },
    }
}

/// The alternate function that makes pin `pin` of `port` the master input (MISO)
/// line of `bus`, if it can be; the pin is taken in analog mode.
pub open spec fn miso_alt_mode_spec(bus: Bus, port: Port, pin: u8) -> Option<AltMode> {
    match bus {
        Bus::SPI1 => {
            if port == Port::PA && pin == 6 {
                Some(AltMode::AF0)
            } else if port == Port::PA && pin == 11 {
                Some(AltMode::AF0)
            } else if port == Port::PB && pin == 4 {
                Some(AltMode::AF0)
            } else {
                None
            }
        },
        Bus::SPI2 => {
            if port == Port::PB && pin == 14 {
                Some(AltMode::AF0)
            } else {
                None
            }
        },
    }
}

/// The alternate function that makes pin `pin` of `port` the master input
/// line of `bus` (see [`miso_alt_mode_spec`]); `None` for a pin that cannot
/// carry it.
pub fn miso_alt_mode(bus: Bus, port: Port, pin: u8) -> (r: Option<AltMode>)
    ensures
        r == miso_alt_mode_spec(bus, port, pin),
{
    match bus {
        Bus::SPI1 => {
            if port == Port::PA && pin == 6 {
                Some(AltMode::AF0)
            } else if port == Port::PA && pin == 11 {
                Some(AltMode::AF0)
            } else if port == Port::PB && pin == 4 {
                Some(AltMode::AF0)
            } else {
                None
            }
        },
        Bus::SPI2 => {
            if port == Port::PB && pin == 14 {
                Some(AltMode::AF0)
            } else {
                None
            }
        },
    }
}

/// The alternate function that makes pin `pin` of `port` the master output (MOSI)
/// line of `bus`, if it can be; the pin is taken in analog mode.
pub open spec fn mosi_alt_mode_spec(bus: Bus, port: Port, pin: u8) -> Option<AltMode> {
    match bus {
        Bus::SPI1 => {
            if port == Port::PA && pin == 7 {
                Some(AltMode::AF0)
            } else if port == Port::PA && pin == 12 {
                Some(AltMode::AF0)
            } else if port == Port::PB && pin == 5 {
                Some(AltMode::AF0)
            } else {
                None
            }
        },
        Bus::SPI2 => {
            if port == Port::PB && pin == 15 {
                Some(AltMode::AF0)
            } else {
                None
            }
        },
    }
}

/// The alternate function that makes pin `pin` of `port` the master output
/// line of `bus` (see [`mosi_alt_mode_spec`]); `None` for a pin that cannot
/// carry it.
pub fn mosi_alt_mode(bus: Bus, port: Port, pin: u8) -> (r: Option<AltMode>)
    ensures
        r == mosi_alt_mode_spec(bus, port, pin),
{
    match bus {
        Bus::SPI1 => {
            if port == Port::PA && pin == 7 {
                Some(AltMode::AF0)
            } else if port == Port::PA && pin == 12 {
                Some(AltMode::AF0)
            } else if port == Port::PB && pin == 5 {
                Some(AltMode::AF0)
            } else {
                None
            }
        },
        Bus::SPI2 => {
            if port == Port::PB && pin == 15 {
                Some(AltMode::AF0)
            } else {
                None
            }
        },
    }
}

/// `CR1` bits
pub const CR1_CPHA: u32 = 0;

pub const CR1_CPOL: u32 = 1;

pub const CR1_MSTR: u32 = 2;

/// First bit of the three-bit baud rate field `BR`
pub const CR1_BR: u32 = 3;

pub const CR1_SPE: u32 = 6;

pub const CR1_LSBFIRST: u32 = 7;

pub const CR1_SSI: u32 = 8;

pub const CR1_SSM: u32 = 9;

pub const CR1_RXONLY: u32 = 10;

pub const CR1_DFF: u32 = 11;

pub const CR1_BIDIMODE: u32 = 15;

/// `CR2` bits
pub const CR2_RXDMAEN: u32 = 0;

pub const CR2_TXDMAEN: u32 = 1;

pub const CR2_SSOE: u32 = 2;

/// `SR` flags
pub const SR_RXNE: u32 = 0;

pub const SR_TXE: u32 = 1;

pub const SR_CRCERR: u32 = 4;

pub const SR_MODF: u32 = 5;

pub const SR_OVR: u32 = 6;

/// The baud rate prescaler field `BR` for a bus frequency `ratio` times
/// slower than the peripheral clock: the prescaler `2^(BR+1)` is the
/// smallest power of two from 2 to 256 that the ratio rounded up to the
/// next power-of-two bracket reaches.
pub open spec fn br_value(ratio: u32) -> u32 {
    if ratio <= 2 {
        0b000
    } else if ratio <= 5 {
        0b001
    } else if ratio <= 11 {
        0b010
    } else if ratio <= 23 {
        0b011
    } else if ratio <= 47 {
        0b100
    } else if ratio <= 95 {
        0b101
    } else if ratio <= 191 {
        0b110
    } else {
        0b111
    }
}

/// The control register 1 value of a master with the given `mode` and
/// baud rate field `br`: software slave management with the internal slave
/// select high, most significant bit first, 8-bit frames, full duplex,
/// enabled.
pub open spec fn cr1_value(mode: Mode, br: u32) -> u32 {
    with_field(
        with_field(
            with_field(
                with_field(
                    with_field(
                        with_field(
                            with_field(
                                with_field(
                                    with_field(
                                        with_field(
                                            with_field(
                                                0,
                                                CR1_CPHA,
                                                1,
                                                if mode.phase == Phase::CaptureOnSecondTransition {
                                                    1
                                                } else {
                                                    0
                                                },
                                            ),
                                            CR1_CPOL,
                                            1,
                                            if mode.polarity == Polarity::IdleHigh { 1 } else { 0 },
                                        ),
                                        CR1_MSTR,
                                        1,
                                        1,
                                    ),
                                    CR1_BR,
                                    3,
                                    br,
                                ),
                                CR1_LSBFIRST,
                                1,
                                0,
                            ),
                            CR1_SSM,
                            1,
                            1,
                        ),
                        CR1_SSI,
                        1,
                        1,
                    ),
                    CR1_RXONLY,
                    1,
                    0,
                ),
                CR1_DFF,
                1,
                0,
            ),
            CR1_BIDIMODE,
            1,
            0,
        ),
        CR1_SPE,
        1,
        1,
    )
}

/// What `CR1` sets up: the clock phase bit `CPHA` set exactly when data is
/// captured on the second clock transition, the clock polarity bit `CPOL`
/// set exactly when the clock idles high, the baud rate field `BR` as given,
/// master mode, software slave management with the internal slave select
/// high, the most significant bit first, 8-bit full duplex frames, and the
/// peripheral enabled.
pub proof fn lemma_cr1_mode(mode: Mode, br: u32)
    requires
        br <= 7,
    ensures
        field(cr1_value(mode, br), CR1_CPHA, 1) == 1 <==> mode.phase
            == Phase::CaptureOnSecondTransition,
        field(cr1_value(mode, br), CR1_CPOL, 1) == 1 <==> mode.polarity == Polarity::IdleHigh,
        field(cr1_value(mode, br), CR1_BR, 3) == br,
        field(cr1_value(mode, br), CR1_MSTR, 1) == 1,
        field(cr1_value(mode, br), CR1_SSM, 1) == 1,
        field(cr1_value(mode, br), CR1_SSI, 1) == 1,
        field(cr1_value(mode, br), CR1_LSBFIRST, 1) == 0,
        field(cr1_value(mode, br), CR1_RXONLY, 1) == 0,
        field(cr1_value(mode, br), CR1_DFF, 1) == 0,
        field(cr1_value(mode, br), CR1_BIDIMODE, 1) == 0,
        field(cr1_value(mode, br), CR1_SPE, 1) == 1,
{
    lemma_low_masks();
    let cpha: u32 = if mode.phase == Phase::CaptureOnSecondTransition { 1 } else { 0 };
    let cpol: u32 = if mode.polarity == Polarity::IdleHigh { 1 } else { 0 };
    let l1 = with_field(0, CR1_CPHA, 1, cpha);
    let l2 = with_field(l1, CR1_CPOL, 1, cpol);
    let l3 = with_field(l2, CR1_MSTR, 1, 1);
    let l4 = with_field(l3, CR1_BR, 3, br);
    let l5 = with_field(l4, CR1_LSBFIRST, 1, 0);
    let l6 = with_field(l5, CR1_SSM, 1, 1);
    let l7 = with_field(l6, CR1_SSI, 1, 1);
    let l8 = with_field(l7, CR1_RXONLY, 1, 0);
    let l9 = with_field(l8, CR1_DFF, 1, 0);
    let l10 = with_field(l9, CR1_BIDIMODE, 1, 0);
    let l11 = with_field(l10, CR1_SPE, 1, 1);
    lemma_with_field(0, CR1_CPHA, 1, cpha);
    lemma_with_field(l1, CR1_CPOL, 1, cpol);
    lemma_with_field(l2, CR1_MSTR, 1, 1);
    lemma_with_field(l3, CR1_BR, 3, br);
    lemma_with_field(l4, CR1_LSBFIRST, 1, 0);
    lemma_with_field(l5, CR1_SSM, 1, 1);
    lemma_with_field(l6, CR1_SSI, 1, 1);
    lemma_with_field(l7, CR1_RXONLY, 1, 0);
    lemma_with_field(l8, CR1_DFF, 1, 0);
    lemma_with_field(l9, CR1_BIDIMODE, 1, 0);
    lemma_with_field(l10, CR1_SPE, 1, 1);
    assert(cr1_value(mode, br) == l11);
    assert(field(l11, CR1_CPHA, 1) == cpha);
    assert(field(l11, CR1_CPOL, 1) == cpol);
    assert(field(l11, CR1_MSTR, 1) == 1);
    assert(field(l11, CR1_BR, 3) == br);
    assert(field(l11, CR1_LSBFIRST, 1) == 0);
    assert(field(l11, CR1_SSM, 1) == 1);
    assert(field(l11, CR1_SSI, 1) == 1);
    assert(field(l11, CR1_RXONLY, 1) == 0);
    assert(field(l11, CR1_DFF, 1) == 0);
    assert(field(l11, CR1_BIDIMODE, 1) == 0);
}

/// The control register 2 value: slave select output off, DMA for
/// reception and transmission on.
pub open spec fn cr2_value() -> u32 {
    with_field(with_field(with_field(0, CR2_SSOE, 1, 0), CR2_RXDMAEN, 1, 1), CR2_TXDMAEN, 1, 1)
}

/// The register values that configure an SPI bus.
#[derive(Debug, Clone, Copy, PartialEq, Eq, Structural)]
pub struct SpiSetup {
    pub cr1: u32,
    pub cr2: u32,
}

/// SPI bus: the peripheral and its pins.
pub struct Spi<SPI, PINS> {
    spi: SPI,
    pins: PINS,
}

impl<SPI, PINS> Spi<SPI, PINS> {
    /// Sets up the pins and computes the register values for a master bus
    /// in `mode` at `freq` from the peripheral clock `apb_freq`.
    ///
    /// The bus cannot be faster than the peripheral clock.
    pub fn new(spi: SPI, pins: PINS, mode: Mode, freq: Hertz, apb_freq: u32) -> (r: (
        Self,
        SpiSetup,
    ))
        where
            PINS: Pins<SPI>,
        requires
            freq.0 > 0,
            apb_freq / freq.0 >= 1,
        ensures
            r.1.cr1 == cr1_value(mode, br_value(apb_freq / freq.0)),
            field(r.1.cr1, CR1_CPHA, 1) == 1 <==> mode.phase == Phase::CaptureOnSecondTransition,
            field(r.1.cr1, CR1_CPOL, 1) == 1 <==> mode.polarity == Polarity::IdleHigh,
            field(r.1.cr1, CR1_BR, 3) == br_value(apb_freq / freq.0),
            r.1.cr2 == cr2_value(),
            r.0.spec_spi() == spi,
            r.0.spec_pins() == pins,
    {
        proof {
            lemma_low_masks();
            lemma_cr1_mode(mode, br_value(apb_freq / freq.0));
        }
        pins.setup();
        let cr2 = write_field(0, CR2_SSOE, 1, 0);
        let cr2 = write_field(cr2, CR2_RXDMAEN, 1, 1);
        let cr2 = write_field(cr2, CR2_TXDMAEN, 1, 1);
        let ratio = apb_freq / freq.0;
        let br: u32 = if ratio <= 2 {
            0b000
        } else if ratio <= 5 {
            0b001
        } else if ratio <= 11 {
            0b010
        } else if ratio <= 23 {
            0b011
        } else if ratio <= 47 {
            0b100
        } else if ratio <= 95 {
            0b101
        } else if ratio <= 191 {
            0b110
        } else {
            0b111
        };
        let cpha: u32 = if matches!(mode.phase, Phase::CaptureOnSecondTransition) { 1 } else { 0 };
        let cpol: u32 = if matches!(mode.polarity, Polarity::IdleHigh) { 1 } else { 0 };
        let cr1 = write_field(0, CR1_CPHA, 1, cpha);
        let cr1 = write_field(cr1, CR1_CPOL, 1, cpol);
        let cr1 = write_field(cr1, CR1_MSTR, 1, 1);
        let cr1 = write_field(cr1, CR1_BR, 3, br);
        let cr1 = write_field(cr1, CR1_LSBFIRST, 1, 0);
        let cr1 = write_field(cr1, CR1_SSM, 1, 1);
        let cr1 = write_field(cr1, CR1_SSI, 1, 1);
        let cr1 = write_field(cr1, CR1_RXONLY, 1, 0);
        let cr1 = write_field(cr1, CR1_DFF, 1, 0);
        let cr1 = write_field(cr1, CR1_BIDIMODE, 1, 0);
        let cr1 = write_field(cr1, CR1_SPE, 1, 1);
        (Spi { spi, pins }, SpiSetup { cr1, cr2 })
    }

    /// The peripheral.
    pub closed spec fn spec_spi(&self) -> SPI {
        self.spi
    }

    /// The pins.
    pub closed spec fn spec_pins(&self) -> PINS {
        self.pins
    }

    /// Returns the peripheral and the pins.
    pub fn free(self) -> (r: (SPI, PINS))
        ensures
            r == (self.spec_spi(), self.spec_pins()),
    {
        (self.spi, self.pins)
    }

    /// Reads a byte, given the status register `sr` and the data register
    /// `dr`: an overrun, mode fault or CRC error first, then the byte when one
    /// has been received, `None` when it has not (the read would block).
    pub fn read(&mut self, sr: u32, dr: u8) -> (r: Result<Option<u8>, Error>)
        ensures
            r == (match bus_error(sr) {
                Some(e) => Err(e),
                None => Ok(if bit_set(sr, SR_RXNE) {
                    Some(dr)
                } else {
                    None
                }),
            }),
    {
        if flag(sr, SR_OVR) {
            Err(Error::Overrun)
        } else if flag(sr, SR_MODF) {
            Err(Error::ModeFault)
        } else if flag(sr, SR_CRCERR) {
            Err(Error::Crc)
        } else if flag(sr, SR_RXNE) {
            Ok(Some(dr))
        } else {
            Ok(None)
        }
    }

    /// Whether a received byte waits in the data register, given the status
    /// register `sr`: the data register is read only then.
    pub fn rx_not_empty(&self, sr: u32) -> (r: bool)
        ensures
            r == bit_set(sr, SR_RXNE),
    {
        flag(sr, SR_RXNE)
    }

    /// Whether a byte can be sent, given the status register `sr`: an
    /// overrun, mode fault or CRC error first, then `true` when the transmit
    /// buffer is empty, `false` when it is not (the send would block).
    pub fn send(&mut self, sr: u32) -> (r: Result<bool, Error>)
        ensures
            r == (match bus_error(sr) {
                Some(e) => Err(e),
                None => Ok(bit_set(sr, SR_TXE)),
            }),
    {
        if flag(sr, SR_OVR) {
            Err(Error::Overrun)
        } else if flag(sr, SR_MODF) {
            Err(Error::ModeFault)
        } else if flag(sr, SR_CRCERR) {
            Err(Error::Crc)
        } else {
            Ok(flag(sr, SR_TXE))
        }
    }
}

/// The bus error that the status register `sr` reports, in the order
/// overrun, mode fault, CRC error.
pub open spec fn bus_error(sr: u32) -> Option<Error> {
    if bit_set(sr, SR_OVR) {
        Some(Error::Overrun)
    } else if bit_set(sr, SR_MODF) {
        Some(Error::ModeFault)
    } else if bit_set(sr, SR_CRCERR) {
        Some(Error::Crc)
    } else {
        None
    }
}

fn flag(sr: u32, n: u32) -> (r: bool)
    requires
        n < 32,
    ensures
        r == bit_set(sr, n),
{
    read_field(sr, n, 1) == 1
}

/// The prescaler `2^(BR+1)` is the power of two nearest the clock ratio:
/// the ratio lies from three quarters of the prescaler up to, not
/// including, one and a half times the prescaler, except below the
/// smallest prescaler (2) and above the largest (256).
pub proof fn lemma_br_nearest(ratio: u32)
    requires
        ratio >= 1,
    ensures
        br_value(ratio) <= 7,
        br_value(ratio) < 7 ==> 2 * ratio < 3 * crate::watchdog::pow2(br_value(ratio) + 1),
        br_value(ratio) > 0 ==> 4 * ratio >= 3 * crate::watchdog::pow2(br_value(ratio) + 1),
{
    reveal_with_fuel(crate::watchdog::pow2, 9);
}

impl<SPI, PINS> Spi<SPI, PINS> {
    /// Prepares reading `num_words` bytes from the data register at
    /// `dr_address` into a buffer (of `buffer_len` bytes at `buffer_addr`)
    /// using DMA: the transfer, ready to be started, and the channel's
    /// register values.
    pub fn read_some<C: dma::Channel, B>(
        self,
        handle: &mut dma::Handle,
        channel: C,
        buffer: B,
        buffer_len: usize,
        buffer_addr: u32,
        num_words: usize,
        dr_address: u32,
    ) -> (r: (Transfer<Self, Rx<SPI>, C, B, dma::Ready>, dma::ChannelSetup))
        where
            Rx<SPI>: dma::Target<C>,
        requires
            buffer_len >= num_words,
            num_words <= u16::MAX,
        ensures
            r.1 == (dma::ChannelSetup {
                par: dr_address,
                mar: buffer_addr,
                ndtr: num_words as u16,
                ccr: dma::ccr_value(0, 2, 0, false),
            }),
            crate::bits::field(final(handle).spec_cselr(), (4 * (C::spec_number() - 1)) as u32, 4)
                == <Rx<SPI> as dma::Target<C>>::spec_request(),
    {
        let token: Rx<SPI> = Rx(PhantomData);
        let (inner, setup) = dma::Transfer::new::<u8>(
            handle,
            token,
            channel,
            buffer,
            buffer_len,
            buffer_addr,
            num_words,
            dr_address,
            dma::Priority::high(),
            dma::Direction::peripheral_to_memory(),
            false,
        );
        (Transfer { target: self, inner }, setup)
    }

    /// Prepares reading into a whole buffer of `buffer_len` bytes using DMA,
    /// as [`Spi::read_some`] does.
    pub fn read_all<C: dma::Channel, B>(
        self,
        handle: &mut dma::Handle,
        channel: C,
        buffer: B,
        buffer_len: usize,
        buffer_addr: u32,
        dr_address: u32,
    ) -> (r: (Transfer<Self, Rx<SPI>, C, B, dma::Ready>, dma::ChannelSetup))
        where
            Rx<SPI>: dma::Target<C>,
        requires
            buffer_len <= u16::MAX,
        ensures
            r.1 == (dma::ChannelSetup {
                par: dr_address,
                mar: buffer_addr,
                ndtr: buffer_len as u16,
                ccr: dma::ccr_value(0, 2, 0, false),
            }),
            crate::bits::field(final(handle).spec_cselr(), (4 * (C::spec_number() - 1)) as u32, 4)
                == <Rx<SPI> as dma::Target<C>>::spec_request(),
    {
        self.read_some(handle, channel, buffer, buffer_len, buffer_addr, buffer_len, dr_address)
    }

    /// Prepares writing `num_words` bytes of a buffer (of `buffer_len` bytes
    /// at `buffer_addr`) to the data register at `dr_address` using DMA: the
    /// transfer, ready to be started, and the channel's register values.
    pub fn write_some<C: dma::Channel, B>(
        self,
        handle: &mut dma::Handle,
        channel: C,
        buffer: B,
        buffer_len: usize,
        buffer_addr: u32,
        num_words: usize,
        dr_address: u32,
    ) -> (r: (Transfer<Self, Tx<SPI>, C, B, dma::Ready>, dma::ChannelSetup))
        where
            Tx<SPI>: dma::Target<C>,
        requires
            buffer_len >= num_words,
            num_words <= u16::MAX,
        ensures
            r.1 == (dma::ChannelSetup {
                par: dr_address,
                mar: buffer_addr,
                ndtr: num_words as u16,
                ccr: dma::ccr_value(0, 2, 1, false),
            }),
            crate::bits::field(final(handle).spec_cselr(), (4 * (C::spec_number() - 1)) as u32, 4)
                == <Tx<SPI> as dma::Target<C>>::spec_request(),
    {
        let token: Tx<SPI> = Tx(PhantomData);
        let (inner, setup) = dma::Transfer::new::<u8>(
            handle,
            token,
            channel,
            buffer,
            buffer_len,
            buffer_addr,
            num_words,
            dr_address,
            dma::Priority::high(),
            dma::Direction::memory_to_peripheral(),
            false,
        );
        (Transfer { target: self, inner }, setup)
    }

    /// Prepares writing a whole buffer of `buffer_len` bytes using DMA, as
    /// [`Spi::write_some`] does.
    pub fn write_all<C: dma::Channel, B>(
        self,
        handle: &mut dma::Handle,
        channel: C,
        buffer: B,
        buffer_len: usize,
        buffer_addr: u32,
        dr_address: u32,
    ) -> (r: (Transfer<Self, Tx<SPI>, C, B, dma::Ready>, dma::ChannelSetup))
        where
            Tx<SPI>: dma::Target<C>,
        requires
            buffer_len <= u16::MAX,
        ensures
            r.1 == (dma::ChannelSetup {
                par: dr_address,
                mar: buffer_addr,
                ndtr: buffer_len as u16,
                ccr: dma::ccr_value(0, 2, 1, false),
            }),
            crate::bits::field(final(handle).spec_cselr(), (4 * (C::spec_number() - 1)) as u32, 4)
                == <Tx<SPI> as dma::Target<C>>::spec_request(),
    {
        self.write_some(handle, channel, buffer, buffer_len, buffer_addr, buffer_len, dr_address)
    }
}

/// An SPI DMA transfer: the SPI peripheral is given back when it ends.
pub struct Transfer<Target, Token, C, B, State> {
    target: Target,
    inner: dma::Transfer<Token, C, B, State>,
}

impl<Target, Token, C, B, State> Transfer<Target, Token, C, B, State> {
    /// The channel configuration register.
    pub closed spec fn spec_ccr(&self) -> u32 {
        self.inner.spec_ccr()
    }

    /// The channel configuration register value to write.
    pub fn ccr(&self) -> (r: u32)
        ensures
            r == self.spec_ccr(),
    {
        self.inner.ccr()
    }
}

impl<Target, Token, C: dma::Channel, B> Transfer<Target, Token, C, B, dma::Ready> {
    /// Enables the provided interrupts
    ///
    /// This setting only affects this transfer. It doesn't affect transfer on
    /// other channels, or subsequent transfers on the same channel.
    pub fn enable_interrupts(&mut self, interrupts: dma::Interrupts)
        ensures
            bit_set(final(self).spec_ccr(), dma::CCR_TEIE) == interrupts.transfer_error,
            bit_set(final(self).spec_ccr(), dma::CCR_HTIE) == interrupts.half_transfer,
            bit_set(final(self).spec_ccr(), dma::CCR_TCIE) == interrupts.transfer_complete,
    {
        self.inner.enable_interrupts(interrupts)
    }

    /// Start the DMA transfer: the channel configuration register value with
    /// the channel enabled.
    pub fn start(self) -> (r: (Transfer<Target, Token, C, B, dma::Started>, u32))
        ensures
            r.1 == with_field(self.spec_ccr(), dma::CCR_EN, 1, 1),
            r.0.spec_ccr() == r.1,
    {
        let (inner, ccr) = self.inner.start();
        (Transfer { target: self.target, inner }, ccr)
    }
}

impl<Target, Token, C: dma::Channel, B> Transfer<Target, Token, C, B, dma::Started> {
    /// Indicates whether the transfer is still ongoing, per the DMA interrupt
    /// status register `isr`.
    pub fn is_active(&self, isr: u32) -> (r: bool)
        ensures
            r == !bit_set(isr, dma::isr_bit(C::spec_number(), 1)),
    {
        self.inner.is_active(isr)
    }

    /// Ends the transfer and returns the owned resources, the SPI peripheral
    /// in place of the token, with an error when the error flag is set in
    /// the DMA interrupt status register `isr`.
    pub fn wait(self, isr: u32) -> (r: Result<dma::TransferResources<Target, C, B>, (dma::TransferResources<Target, C, B>, dma::Error)>)
        ensures
            bit_set(isr, dma::isr_bit(C::spec_number(), 3)) <==> r is Err,
    {
        let target = self.target;
        match self.inner.finish(isr) {
            Ok(res) => Ok(dma::TransferResources { target, channel: res.channel, buffer: res.buffer }),
            Err((res, err)) => Err((dma::TransferResources { target, channel: res.channel, buffer: res.buffer }, err)),
        }
    }
}


/// Token used for DMA transfers
///
/// This is an implementation detail. The user doesn't have to deal with this
/// directly.
pub struct Tx<I>(PhantomData<I>);

/// Token used for DMA transfers
///
/// This is an implementation detail. The user doesn't have to deal with this
/// directly.
pub struct Rx<I>(PhantomData<I>);

} // verus!
