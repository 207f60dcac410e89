//! I2C
use core::marker::PhantomData;
use vstd::prelude::*;

use crate::bits::{bit_set, field, lemma_low_masks, low_mask, with_field, write_field, write_field_masked, read_field};
use crate::convert::{cast_u8, expect_u8};
use crate::dma;
use crate::gpio::{AltMode, Port};
use crate::time::Hertz;

verus! {

/// I2C error
#[derive(Debug, Clone, Copy, PartialEq, Eq, Structural)]
pub enum Error {
    Overrun,
    Nack,
    PECError,
    BusError,
    ArbitrationLost,
}

/// The bus timing register (`TIMINGR`) fields.
#[derive(Debug, Clone, Copy, PartialEq, Eq, Structural)]
pub struct Timing {
    pub presc: u8,
    pub scll: u8,
    pub sclh: u8,
    pub sdadel: u8,
    pub scldel: u8,
}

impl Timing {
    /// The four-bit fields fit their places in `TIMINGR`.
    pub open spec fn spec_fits(&self) -> bool {
        self.presc < 16 && self.sdadel < 16 && self.scldel < 16
    }

    /// The `TIMINGR` register value: `PRESC` at bits 28-31, `SCLDEL` at
    /// 20-23, `SDADEL` at 16-19, `SCLH` at 8-15 and `SCLL` at 0-7.
    pub fn timingr(&self) -> (r: u32)
        requires
            self.spec_fits(),
        ensures
            field(r, 28, 4) == self.presc,
            field(r, 20, 4) == self.scldel,
            field(r, 16, 4) == self.sdadel,
            field(r, 8, 8) == self.sclh,
            field(r, 0, 8) == self.scll,
            field(r, 24, 4) == 0,
    {
        proof {
            lemma_low_masks();
        }
        let (p, c, d, h, l) = (self.presc as u32, self.scldel as u32, self.sdadel as u32, self.sclh as u32, self.scll as u32);
        let r = (p << 28u32) | (c << 20u32) | (d << 16u32) | (h << 8u32) | l;
        assert({
            &&& (r >> 28u32) & 0xfu32 == p
            &&& (r >> 20u32) & 0xfu32 == c
            &&& (r >> 16u32) & 0xfu32 == d
            &&& (r >> 8u32) & 0xffu32 == h
            &&& (r >> 0u32) & 0xffu32 == l
            &&& (r >> 24u32) & 0xfu32 == 0
        }) by (bit_vector)
            requires
                p < 16,
                c < 16,
                d < 16,
                h < 256,
                l < 256,
                r == (p << 28u32) | (c << 20u32) | (d << 16u32) | (h << 8u32) | l,
        ;
        r
    }
}

/// The timing fields for bus frequency `freq` from the I2C kernel clock
/// `i2cclk`, in integers, before any conversion: `(PRESC, SCLL, SCLH, SDADEL,
/// SCLDEL)`.
///
/// In standard mode (below 100 kHz) the low and high periods are equal; in
/// fast mode and fast mode plus the low period is twice the high period.
pub open spec fn timing_values(i2cclk: u32, freq: u32) -> (int, int, int, int, int) {
    let ratio = i2cclk as int / freq as int - 4;
    if freq >= 100_000 {
        let presc = ratio / 387;
        let sclh = (ratio / (presc + 1) - 3) / 3;
        let scll = 2 * (sclh + 1) - 1;
        if freq > 400_000 {
            (presc, scll, sclh, 0, i2cclk as int / 4_000_000 / (presc + 1) - 1)
        } else {
            (
                presc,
                scll,
                sclh,
                i2cclk as int / 8_000_000 / (presc + 1),
                i2cclk as int / 2_000_000 / (presc + 1) - 1,
            )
        }
    } else {
        let presc = ratio / 514;
        let sclh = (ratio / (presc + 1) - 2) / 2;
        (
            presc,
            sclh,
            sclh,
            i2cclk as int / 2_000_000 / (presc + 1),
            i2cclk as int / 800_000 / (presc + 1) - 1,
        )
    }
}

/// The bus frequency can be set up from the kernel clock: at most 1 MHz,
/// at least four kernel clock cycles per bus cycle, every intermediate
/// difference non-negative, prescaler and delays below 16, and the periods
/// within a byte.
pub open spec fn timing_ok(i2cclk: u32, freq: u32) -> bool {
    let ratio = i2cclk as int / freq as int - 4;
    let (presc, scll, sclh, sdadel, scldel) = timing_values(i2cclk, freq);
    &&& 0 < freq <= 1_000_000
    &&& ratio >= 0
    &&& freq >= 100_000 ==> ratio / (presc + 1) >= 3
    &&& freq < 100_000 ==> ratio / (presc + 1) >= 2
    &&& 0 <= presc < 16
    &&& 0 <= scll <= 255
    &&& 0 <= sclh <= 255
    &&& 0 <= sdadel < 16
    &&& 0 <= scldel < 16
}

/// I2C abstraction: the peripheral and its pins.
pub struct I2c<I2C, SDA, SCL> {
    i2c: I2C,
    sda: SDA,
    scl: SCL,
}

/// I2C SDA pin
pub trait SDAPin<I2C> {
    /// Puts the pin into the SDA alternate function.
    fn setup(&self);
}

/// I2C SCL pin
pub trait SCLPin<I2C> {
    /// Puts the pin into the SCL alternate function.
    fn setup(&self);
}

/// The I2C buses of the STM32L072/L073 (`stm32l0x2` parts with the category
/// 5 pinout).
#[derive(Debug, Clone, Copy, PartialEq, Eq, Structural)]
pub enum Bus {
    I2C1,
    I2C2,
    I2C3,
}

/// The alternate function that makes pin `pin` of `port` the data line
/// (SDA) of `bus`, if it can be; the pin is used as an open-drain output.
pub open spec fn sda_alt_mode_spec(bus: Bus, port: Port, pin: u8) -> Option<AltMode> {
    match bus {
        Bus::I2C1 => {
            if port == Port::PA && pin == 10 {
                Some(AltMode::AF6)
            } else if port == Port::PB && pin == 7 {
                Some(AltMode::AF1)
            } else if port == Port::PB && pin == 9 {
                Some(AltMode::AF4)
            } else {
                None
            }
        },
        Bus::I2C2 => {
            if port == Port::PB && pin == 11 {
                Some(AltMode::AF6)
            } else if port == Port::PB && pin == 14 {
                Some(AltMode::AF5)
            } else {
                None
            }
        },
        Bus::I2C3 => {
            if port == Port::PB && pin == 4 {
                Some(AltMode::AF7)
            } else if port == Port::PC && pin == 1 {
                Some(AltMode::AF7)
            } else if port == Port::PC && pin == 9 {
                Some(AltMode::AF7)
            } else {
                None
            }
        },
    }
}

/// The alternate function that makes pin `pin` of `port` the data line of
/// `bus` (see [`sda_alt_mode_spec`]); `None` for a pin that cannot carry it.
pub fn sda_alt_mode(bus: Bus, port: Port, pin: u8) -> (r: Option<AltMode>)
    ensures
        r == sda_alt_mode_spec(bus, port, pin),
{
    match bus {
        Bus::I2C1 => {
            if port == Port::PA && pin == 10 {
                Some(AltMode::AF6)
            } else if port == Port::PB && pin == 7 {
                Some(AltMode::AF1)
            } else if port == Port::PB && pin == 9 {
                Some(AltMode::AF4)
            } else {
                None
            }
        },
        Bus::I2C2 => {
            if port == Port::PB && pin == 11 {
                Some(AltMode::AF6)
            } else if port == Port::PB && pin == 14 {
                Some(AltMode::AF5)
            } else {
                None
            }
        },
        Bus::I2C3 => {
            if port == Port::PB && pin == 4 {
                Some(AltMode::AF7)
            } else if port == Port::PC && pin == 1 {
                Some(AltMode::AF7)
            } else if port == Port::PC && pin == 9 {
                Some(AltMode::AF7)
            } else {
                None
            }
        },
    }
}

/// The alternate function that makes pin `pin` of `port` the clock line
/// (SCL) of `bus`, if it can be; the pin is used as an open-drain output.
pub open spec fn scl_alt_mode_spec(bus: Bus, port: Port, pin: u8) -> Option<AltMode> {
    match bus {
        Bus::I2C1 => {
            if port == Port::PA && pin == 9 {
                Some(AltMode::AF6)
            } else if port == Port::PB && pin == 6 {
                Some(AltMode::AF1)
            } else if port == Port::PB && pin == 8 {
                Some(AltMode::AF4)
            } else {
                None
            }
        },
        Bus::I2C2 => {
            if port == Port::PB && pin == 10 {
                Some(AltMode::AF6)
            } else if port == Port::PB && pin == 13 {
                Some(AltMode::AF5)
            } else {
                None
            }
        },
        Bus::I2C3 => {
            if port == Port::PA && pin == 8 {
                Some(AltMode::AF7)
            } else if port == Port::PC && pin == 0 {
                Some(AltMode::AF7)
            } else {
                None
            }
        },
    }
}

/// The alternate function that makes pin `pin` of `port` the clock line of
/// `bus` (see [`scl_alt_mode_spec`]); `None` for a pin that cannot carry it.
pub fn scl_alt_mode(bus: Bus, port: Port, pin: u8) -> (r: Option<AltMode>)
    ensures
        r == scl_alt_mode_spec(bus, port, pin),
{
    match bus {
        Bus::I2C1 => {
            if port == Port::PA && pin == 9 {
                Some(AltMode::AF6)
            } else if port == Port::PB && pin == 6 {
                Some(AltMode::AF1)
            } else if port == Port::PB && pin == 8 {
                Some(AltMode::AF4)
            } else {
                None
            }
        },
        Bus::I2C2 => {
            if port == Port::PB && pin == 10 {
                Some(AltMode::AF6)
            } else if port == Port::PB && pin == 13 {
                Some(AltMode::AF5)
            } else {
                None
            }
        },
        Bus::I2C3 => {
            if port == Port::PA && pin == 8 {
                Some(AltMode::AF7)
            } else if port == Port::PC && pin == 0 {
                Some(AltMode::AF7)
            } else {
                None
            }
        },
    }
}

/// Computes the bus timing fields for bus frequency `freq` from the I2C
/// kernel clock `i2cclk`.
pub fn timing(i2cclk: u32, freq: u32) -> (r: Timing)
    requires
        timing_ok(i2cclk, freq),
    ensures
        ({
            let (presc, scll, sclh, sdadel, scldel) = timing_values(i2cclk, freq);
            r == Timing {
                presc: presc as u8,
                scll: scll as u8,
                sclh: sclh as u8,
                sdadel: sdadel as u8,
                scldel: scldel as u8,
            }
        }),
        freq >= 100_000 ==> r.presc == (i2cclk as int / freq as int - 4) / 387,
        freq < 100_000 ==> r.presc == (i2cclk as int / freq as int - 4) / 514,
        freq >= 100_000 ==> r.scll + 1 == 2 * (r.sclh + 1),
        freq < 100_000 ==> r.scll == r.sclh,
        100_000 <= freq <= 400_000 ==> r.sdadel == i2cclk as int / 8_000_000 / (r.presc + 1),
        100_000 <= freq <= 400_000 ==> r.scldel == i2cclk as int / 2_000_000 / (r.presc + 1) - 1,
        freq > 400_000 ==> r.sdadel == 0,
        freq > 400_000 ==> r.scldel == i2cclk as int / 4_000_000 / (r.presc + 1) - 1,
        freq < 100_000 ==> r.sdadel == i2cclk as int / 2_000_000 / (r.presc + 1),
        freq < 100_000 ==> r.scldel == i2cclk as int / 800_000 / (r.presc + 1) - 1,
{
    proof {
        lemma_timing_modes(i2cclk, freq);
    }
    let ratio: u32 = i2cclk / freq - 4;
    let presc: u32;
    let scll: u32;
    let sclh: u32;
    let sdadel: u32;
    let scldel: u32;
    if freq >= 100_000 {
        // fast-mode or fast-mode plus
        // here we pick SCLL + 1 = 2 * (SCLH + 1)
        presc = ratio / 387;
        sclh = ((ratio / (presc + 1)) - 3) / 3;
        scll = 2 * (sclh + 1) - 1;
        if freq > 400_000 {
            // fast-mode plus
            sdadel = 0;
            scldel = i2cclk / 4_000_000 / (presc + 1) - 1;
        } else {
            // fast-mode
            sdadel = i2cclk / 8_000_000 / (presc + 1);
            scldel = i2cclk / 2_000_000 / (presc + 1) - 1;
        }
    } else {
        // standard-mode
        // here we pick SCLL = SCLH
        presc = ratio / 514;
        sclh = ((ratio / (presc + 1)) - 2) / 2;
        scll = sclh;
        sdadel = i2cclk / 2_000_000 / (presc + 1);
        scldel = i2cclk / 800_000 / (presc + 1) - 1;
    }
    let presc = expect_u8(cast_u8(presc));
    let scldel = expect_u8(cast_u8(scldel));
    let sdadel = expect_u8(cast_u8(sdadel));
    let sclh = expect_u8(cast_u8(sclh));
    let scll = expect_u8(cast_u8(scll));
    Timing { presc, scll, sclh, sdadel, scldel }
}

/// Whether the bus timing for `freq` can be computed from the kernel clock
/// `i2cclk` (see [`timing_ok`]).
pub fn timing_valid(i2cclk: u32, freq: u32) -> (r: bool)
    ensures
        r == timing_ok(i2cclk, freq),
{
    if freq == 0 || freq > 1_000_000 || i2cclk / freq < 4 {
        return false;
    }
    let ratio: u32 = i2cclk / freq - 4;
    if freq >= 100_000 {
        let presc: u32 = ratio / 387;
        if ratio / (presc + 1) < 3 || presc >= 16 {
            return false;
        }
        let sclh: u32 = ((ratio / (presc + 1)) - 3) / 3;
        if sclh > 127 {
            return false;
        }
        if freq > 400_000 {
            let d: u32 = i2cclk / 4_000_000 / (presc + 1);
            d >= 1 && d - 1 < 16
        } else {
            let sdadel: u32 = i2cclk / 8_000_000 / (presc + 1);
            let d: u32 = i2cclk / 2_000_000 / (presc + 1);
            sdadel < 16 && d >= 1 && d - 1 < 16
        }
    } else {
        let presc: u32 = ratio / 514;
        if ratio / (presc + 1) < 2 || presc >= 16 {
            return false;
        }
        let sclh: u32 = ((ratio / (presc + 1)) - 2) / 2;
        let sdadel: u32 = i2cclk / 2_000_000 / (presc + 1);
        let d: u32 = i2cclk / 800_000 / (presc + 1);
        sclh <= 255 && sdadel < 16 && d >= 1 && d - 1 < 16
    }
}

/// Bits of `CR1`: `PE` (peripheral enable), `TXDMAEN` and `RXDMAEN` (DMA
/// requests for transmission and reception).
pub const CR1_PE: u32 = 0;

pub const CR1_TXDMAEN: u32 = 14;

pub const CR1_RXDMAEN: u32 = 15;

/// The `CR1` value that enables the peripheral with DMA requests for
/// transmission and reception, every other bit at its reset value (0).
pub open spec fn cr1_enabled() -> u32 {
    with_field(with_field(with_field(0, CR1_RXDMAEN, 1, 1), CR1_TXDMAEN, 1, 1), CR1_PE, 1, 1)
}

impl<I, SDA, SCL> I2c<I, SDA, SCL> {
    /// Sets up the pins and computes the bus timing for `freq` from the
    /// I2C kernel clock (the APB1 clock) `i2cclk`: the `TIMINGR` fields, and
    /// the `CR1` value written after them (see [`cr1_enabled`]).
    ///
    /// In fast mode and fast mode plus (from 100 kHz) the low period is twice
    /// the high period (`SCLL + 1 == 2 * (SCLH + 1)`); in standard mode they
    /// are equal.
    pub fn new(i2c: I, sda: SDA, scl: SCL, freq: Hertz, i2cclk: u32) -> (r: (Self, Timing, u32))
        where
            SDA: SDAPin<I>,
            SCL: SCLPin<I>,
        requires
            timing_ok(i2cclk, freq.0),
        ensures
            ({
                let (presc, scll, sclh, sdadel, scldel) = timing_values(i2cclk, freq.0);
                r.1 == Timing {
                    presc: presc as u8,
                    scll: scll as u8,
                    sclh: sclh as u8,
                    sdadel: sdadel as u8,
                    scldel: scldel as u8,
                }
            }),
            freq.0 >= 100_000 ==> r.1.scll + 1 == 2 * (r.1.sclh + 1),
            freq.0 < 100_000 ==> r.1.scll == r.1.sclh,
            r.2 == cr1_enabled(),
            r.0.spec_i2c() == i2c,
            r.0.spec_pins() == (sda, scl),
    {
        sda.setup();
        scl.setup();
        let t = timing(i2cclk, freq.0);
        proof {
            lemma_low_masks();
        }
        let cr1 = write_field(write_field(write_field(0, CR1_RXDMAEN, 1, 1), CR1_TXDMAEN, 1, 1), CR1_PE, 1, 1);
        (I2c { i2c, sda, scl }, t, cr1)
    }

    /// The peripheral.
    pub closed spec fn spec_i2c(&self) -> I {
        self.i2c
    }

    /// The data and clock pins.
    pub closed spec fn spec_pins(&self) -> (SDA, SCL) {
        (self.sda, self.scl)
    }

    /// Returns the peripheral and the pins.
    pub fn release(self) -> (r: (I, SDA, SCL))
        ensures
            r == (self.spec_i2c(), self.spec_pins().0, self.spec_pins().1),
    {
        (self.i2c, self.sda, self.scl)
    }
}

/// `CR2` fields
pub const CR2_RD_WRN: u32 = 10;

pub const CR2_ADD10: u32 = 11;

pub const CR2_START: u32 = 13;

pub const CR2_NBYTES: u32 = 16;

pub const CR2_AUTOEND: u32 = 25;

/// `ISR` flags
pub const ISR_TXE: u32 = 0;

pub const ISR_TXIS: u32 = 1;

pub const ISR_RXNE: u32 = 2;

pub const ISR_NACKF: u32 = 4;

pub const ISR_TC: u32 = 6;

pub const ISR_BERR: u32 = 8;

pub const ISR_ARLO: u32 = 9;

/// `ICR` flag clears
pub const ICR_NACKCF: u32 = 4;

pub const ICR_STOPCF: u32 = 5;

pub const ICR_BERRCF: u32 = 8;

pub const ICR_ARLOCF: u32 = 9;

/// The 7-bit address `addr` in the slave address field: shifted left by
/// one, within a byte.
pub open spec fn sadd(addr: u8) -> u32 {
    ((addr * 2) % 256) as u32
}

/// The control register 2 value that starts a transfer of `len` bytes
/// (cut to a byte) with the slave at `addr`: reading when `read`, ending
/// automatically when `autoend`, 7-bit addressing.
pub open spec fn cr2_word(addr: u8, len: u32, read: bool, autoend: bool) -> u32 {
    with_field(
        with_field(
            with_field(
                with_field(
                    with_field(with_field(0, CR2_START, 1, 1), CR2_NBYTES, 8, len & low_mask(8)),
                    0,
                    10,
                    sadd(addr),
                ),
                CR2_ADD10,
                1,
                0,
            ),
            CR2_RD_WRN,
            1,
            if read { 1 } else { 0 },
        ),
        CR2_AUTOEND,
        1,
        if autoend { 1 } else { 0 },
    )
}

/// Computes a control register 2 value for a transfer start.
fn cr2(addr: u8, len: u32, read: bool, autoend: bool) -> (r: u32)
    ensures
        r == cr2_word(addr, len, read, autoend),
{
    proof {
        lemma_low_masks();
    }
    let sadd: u32 = (addr as u32 * 2) % 256;
    let w = write_field_masked(0, CR2_START, 1, 1);
    let w = write_field_masked(w, CR2_NBYTES, 8, len);
    let w = write_field_masked(w, 0, 10, sadd);
    let w = write_field_masked(w, CR2_ADD10, 1, 0);
    let w = write_field_masked(w, CR2_RD_WRN, 1, if read { 1 } else { 0 });
    let w = write_field_masked(w, CR2_AUTOEND, 1, if autoend { 1 } else { 0 });
    proof {
        crate::bits::lemma_mask_fits(1, 1);
        crate::bits::lemma_mask_fits(0, 1);
        crate::bits::lemma_mask_fits(sadd, 10);
    }
    w
}

impl<I, SDA, SCL> I2c<I, SDA, SCL> {
    /// The control register 2 value that starts a transfer of `len` bytes
    /// with the slave at `addr`, in `direction` (reading when `read`), ending
    /// automatically.
    pub fn start_transfer(&mut self, addr: u8, len: usize, read: bool) -> (r: u32)
        ensures
            r == cr2_word(addr, (len as u8) as u32, read, true),
    {
        cr2(addr, (len as u8) as u32, read, true)
    }

    /// What the status register `isr` says after a byte was pushed out:
    /// success, or an error with the interrupt clear register value that
    /// clears its flag.
    pub fn send_byte(&self, isr: u32) -> (r: Result<(), (Error, u32)>)
        ensures
            r == (if bit_set(isr, ISR_BERR) {
                Err((Error::BusError, 1u32 << ICR_BERRCF))
            } else if bit_set(isr, ISR_ARLO) {
                Err((Error::ArbitrationLost, 1u32 << ICR_ARLOCF))
            } else if bit_set(isr, ISR_NACKF) {
                Err((Error::Nack, 1u32 << ICR_NACKCF))
            } else {
                Ok(())
            }),
    {
        if flag(isr, ISR_BERR) {
            Err((Error::BusError, 1u32 << ICR_BERRCF))
        } else if flag(isr, ISR_ARLO) {
            Err((Error::ArbitrationLost, 1u32 << ICR_ARLOCF))
        } else if flag(isr, ISR_NACKF) {
            Err((Error::Nack, 1u32 << ICR_NACKCF))
        } else {
            Ok(())
        }
    }

    /// Prepares writing `num_words` bytes of a buffer (of `buffer_len` bytes
    /// at `buffer_addr`) to the slave at `address` using DMA: the control
    /// register 2 value that starts the transfer (for the whole buffer's
    /// length), the DMA transfer to the transmit data register at
    /// `txdr_address`, ready to be started, and the channel's register
    /// values.
    pub fn write_some<C: dma::Channel, B>(
        self,
        handle: &mut dma::Handle,
        channel: C,
        address: u8,
        buffer: B,
        buffer_len: usize,
        buffer_addr: u32,
        num_words: usize,
        txdr_address: u32,
    ) -> (r: (Transfer<Self, Tx<I>, C, B, dma::Ready>, u32, dma::ChannelSetup))
        where
            Tx<I>: dma::Target<C>,
        requires
            buffer_len >= num_words,
            num_words <= u16::MAX,
        ensures
            r.1 == cr2_word(address, (buffer_len as u8) as u32, false, true),
            r.2 == (dma::ChannelSetup {
                par: txdr_address,
                mar: buffer_addr,
                ndtr: num_words as u16,
                ccr: dma::ccr_value(0, 2, 1, false),
            }),
            crate::bits::field(final(handle).spec_cselr(), (4 * (C::spec_number() - 1)) as u32, 4)
                == <Tx<I> as dma::Target<C>>::spec_request(),
    {
        let mut i2c = self;
        let cr2 = i2c.start_transfer(address, buffer_len, false);
        let token: Tx<I> = Tx(PhantomData);
        let (inner, setup) = dma::Transfer::new::<u8>(
            handle,
            token,
            channel,
            buffer,
            buffer_len,
            buffer_addr,
            num_words,
            txdr_address,
            dma::Priority::high(),
            dma::Direction::memory_to_peripheral(),
            false,
        );
        (Transfer { target: i2c, inner }, cr2, setup)
    }

    /// Prepares writing a whole buffer of `buffer_len` bytes to the slave at
    /// `address` using DMA, as [`I2c::write_some`] does.
    pub fn write_all<C: dma::Channel, B>(
        self,
        handle: &mut dma::Handle,
        channel: C,
        address: u8,
        buffer: B,
        buffer_len: usize,
        buffer_addr: u32,
        txdr_address: u32,
    ) -> (r: (Transfer<Self, Tx<I>, C, B, dma::Ready>, u32, dma::ChannelSetup))
        where
            Tx<I>: dma::Target<C>,
        requires
            buffer_len <= u16::MAX,
        ensures
            r.1 == cr2_word(address, (buffer_len as u8) as u32, false, true),
            r.2 == (dma::ChannelSetup {
                par: txdr_address,
                mar: buffer_addr,
                ndtr: buffer_len as u16,
                ccr: dma::ccr_value(0, 2, 1, false),
            }),
            crate::bits::field(final(handle).spec_cselr(), (4 * (C::spec_number() - 1)) as u32, 4)
                == <Tx<I> as dma::Target<C>>::spec_request(),
    {
        self.write_some(handle, channel, address, buffer, buffer_len, buffer_addr, buffer_len, txdr_address)
    }

    /// Prepares reading from the slave at `address` into a buffer (of
    /// `buffer_len` bytes at `buffer_addr`, at least `num_words` of them)
    /// using DMA: the control register 2 value that starts the transfer and
    /// the DMA transfer from the receive data register at `rxdr_address`,
    /// both for the whole buffer's length, and the channel's register values.
    pub fn read_some<C: dma::Channel, B>(
        self,
        handle: &mut dma::Handle,
        channel: C,
        address: u8,
        buffer: B,
        buffer_len: usize,
        buffer_addr: u32,
        num_words: usize,
        rxdr_address: u32,
    ) -> (r: (Transfer<Self, Rx<I>, C, B, dma::Ready>, u32, dma::ChannelSetup))
        where
            Rx<I>: dma::Target<C>,
        requires
            buffer_len >= num_words,
            buffer_len <= u16::MAX,
        ensures
            r.1 == cr2_word(address, (buffer_len as u8) as u32, true, true),
            r.2 == (dma::ChannelSetup {
                par: rxdr_address,
                mar: buffer_addr,
                ndtr: buffer_len as u16,
                ccr: dma::ccr_value(0, 2, 0, false),
            }),
            crate::bits::field(final(handle).spec_cselr(), (4 * (C::spec_number() - 1)) as u32, 4)
                == <Rx<I> as dma::Target<C>>::spec_request(),
    {
        let mut i2c = self;
        let cr2 = i2c.start_transfer(address, buffer_len, true);
        let token: Rx<I> = Rx(PhantomData);
        let (inner, setup) = dma::Transfer::new::<u8>(
            handle,
            token,
            channel,
            buffer,
            buffer_len,
            buffer_addr,
            buffer_len,
            rxdr_address,
            dma::Priority::high(),
            dma::Direction::peripheral_to_memory(),
            false,
        );
        (Transfer { target: i2c, inner }, cr2, setup)
    }

    /// Prepares reading from the slave at `address` into a whole buffer of
    /// `buffer_len` bytes using DMA, as [`I2c::read_some`] does.
    pub fn read_all<C: dma::Channel, B>(
        self,
        handle: &mut dma::Handle,
        channel: C,
        address: u8,
        buffer: B,
        buffer_len: usize,
        buffer_addr: u32,
        rxdr_address: u32,
    ) -> (r: (Transfer<Self, Rx<I>, C, B, dma::Ready>, u32, dma::ChannelSetup))
        where
            Rx<I>: dma::Target<C>,
        requires
            buffer_len <= u16::MAX,
        ensures
            r.1 == cr2_word(address, (buffer_len as u8) as u32, true, true),
            r.2 == (dma::ChannelSetup {
                par: rxdr_address,
                mar: buffer_addr,
                ndtr: buffer_len as u16,
                ccr: dma::ccr_value(0, 2, 0, false),
            }),
            crate::bits::field(final(handle).spec_cselr(), (4 * (C::spec_number() - 1)) as u32, 4)
                == <Rx<I> as dma::Target<C>>::spec_request(),
    {
        self.read_some(handle, channel, address, buffer, buffer_len, buffer_addr, buffer_len, rxdr_address)
    }
}

/// An I2C DMA transfer: the I2C peripheral is given back when it ends.
pub struct Transfer<Target, Token, C, B, State> {
    target: Target,
    inner: dma::Transfer<Token, C, B, State>,
}

impl<Target, Token, C, B, State> Transfer<Target, Token, C, B, State> {
    /// The channel configuration register.
    pub closed spec fn spec_ccr(&self) -> u32 {
        self.inner.spec_ccr()
    }

    /// The channel configuration register value to write.
    pub fn ccr(&self) -> (r: u32)
        ensures
            r == self.spec_ccr(),
    {
        self.inner.ccr()
    }
}

impl<Target, Token, C: dma::Channel, B> Transfer<Target, Token, C, B, dma::Ready> {
    /// Enables the provided interrupts
    ///
    /// This setting only affects this transfer. It doesn't affect transfer on
    /// other channels, or subsequent transfers on the same channel.
    pub fn enable_interrupts(&mut self, interrupts: dma::Interrupts)
        ensures
            bit_set(final(self).spec_ccr(), dma::CCR_TEIE) == interrupts.transfer_error,
            bit_set(final(self).spec_ccr(), dma::CCR_HTIE) == interrupts.half_transfer,
            bit_set(final(self).spec_ccr(), dma::CCR_TCIE) == interrupts.transfer_complete,
    {
        self.inner.enable_interrupts(interrupts)
    }

    /// Start the DMA transfer: the channel configuration register value with
    /// the channel enabled.
    pub fn start(self) -> (r: (Transfer<Target, Token, C, B, dma::Started>, u32))
        ensures
            r.1 == with_field(self.spec_ccr(), dma::CCR_EN, 1, 1),
            r.0.spec_ccr() == r.1,
    {
        let (inner, ccr) = self.inner.start();
        (Transfer { target: self.target, inner }, ccr)
    }
}

impl<Target, Token, C: dma::Channel, B> Transfer<Target, Token, C, B, dma::Started> {
    /// Indicates whether the transfer is still ongoing, per the DMA interrupt
    /// status register `isr`.
    pub fn is_active(&self, isr: u32) -> (r: bool)
        ensures
            r == !bit_set(isr, dma::isr_bit(C::spec_number(), 1)),
    {
        self.inner.is_active(isr)
    }

    /// Ends the transfer and returns the owned resources, the I2C peripheral
    /// in place of the token, with an error when the error flag is set in
    /// the DMA interrupt status register `isr`.
    pub fn wait(self, isr: u32) -> (r: Result<dma::TransferResources<Target, C, B>, (dma::TransferResources<Target, C, B>, dma::Error)>)
        ensures
            bit_set(isr, dma::isr_bit(C::spec_number(), 3)) <==> r is Err,
    {
        let target = self.target;
        match self.inner.finish(isr) {
            Ok(res) => Ok(dma::TransferResources { target, channel: res.channel, buffer: res.buffer }),
            Err((res, err)) => Err((dma::TransferResources { target, channel: res.channel, buffer: res.buffer }, err)),
        }
    }
}

fn flag(isr: u32, n: u32) -> (r: bool)
    requires
        n < 32,
    ensures
        r == bit_set(isr, n),
{
    read_field(isr, n, 1) == 1
}

/// What a wait for a status flag finds.
#[derive(Debug, Clone, Copy, PartialEq, Eq, Structural)]
pub enum Wait {
    /// The flag is set.
    Ready,
    /// Nothing yet; the status is to be read again.
    Retry,
    /// A bus error: the given interrupt clear register value clears it,
    /// and, for a NACK, the transmit data register is to be flushed.
    Fail(Error, u32, bool),
}

/// The outcome of waiting for flag `n` when the status register reads
/// `isr`: the flag wins over errors, which are checked in the order bus
/// error, arbitration lost, NACK.
pub open spec fn wait_outcome(isr: u32, n: u32) -> Wait {
    if bit_set(isr, n) {
        Wait::Ready
    } else if bit_set(isr, ISR_BERR) {
        Wait::Fail(Error::BusError, 1u32 << ICR_BERRCF, false)
    } else if bit_set(isr, ISR_ARLO) {
        Wait::Fail(Error::ArbitrationLost, 1u32 << ICR_ARLOCF, false)
    } else if bit_set(isr, ISR_NACKF) {
        Wait::Fail(Error::Nack, (1u32 << ICR_STOPCF) | (1u32 << ICR_NACKCF), true)
    } else {
        Wait::Retry
    }
}

/// Flushing the transmit data register after a NACK, first step: the value
/// to write to `TXDR` (0) when `TXIS` is set in the status register `isr`,
/// `None` when nothing is written.
pub fn flush_txdr_data(isr: u32) -> (r: Option<u32>)
    ensures
        r == (if bit_set(isr, ISR_TXIS) {
            Some(0u32)
        } else {
            None
        }),
{
    if flag(isr, ISR_TXIS) {
        Some(0)
    } else {
        None
    }
}

/// Flushing the transmit data register after a NACK, second step: the
/// value to write to `ISR` that empties the data register (`TXE` set) when
/// `TXE` is set in the status register `isr` read again, `None` when nothing
/// is written.
pub fn flush_txdr_empty(isr: u32) -> (r: Option<u32>)
    ensures
        r == (if bit_set(isr, ISR_TXE) {
            Some(1u32 << ISR_TXE)
        } else {
            None
        }),
{
    if flag(isr, ISR_TXE) {
        Some(1u32 << ISR_TXE)
    } else {
        None
    }
}

/// Waits for flag `n`: one look at the status register `isr`.
pub fn busy_wait(isr: u32, n: u32) -> (r: Wait)
    requires
        n < 32,
    ensures
        r == wait_outcome(isr, n),
{
    if flag(isr, n) {
        Wait::Ready
    } else if flag(isr, ISR_BERR) {
        Wait::Fail(Error::BusError, 1u32 << ICR_BERRCF, false)
    } else if flag(isr, ISR_ARLO) {
        Wait::Fail(Error::ArbitrationLost, 1u32 << ICR_ARLOCF, false)
    } else if flag(isr, ISR_NACKF) {
        Wait::Fail(Error::Nack, (1u32 << ICR_STOPCF) | (1u32 << ICR_NACKCF), true)
    } else {
        Wait::Retry
    }
}

/// What the driver of a write-then-read transaction does next.
#[derive(Debug, Clone, Copy, PartialEq, Eq, Structural)]
pub enum Action {
    /// Read the status register again.
    Wait,
    /// Put byte number `i` of the bytes to write on the wire.
    Send(usize),
    /// Write this value to control register 2: restart for reading.
    Restart(u32),
    /// Read the received byte into position `i` of the buffer.
    Receive(usize),
    /// The transaction is over.
    Done,
    /// The transaction failed: clear the flags with this interrupt clear
    /// register value, flush the transmit data register when told to.
    Fail(Error, u32, bool),
}

/// Phases of a write-then-read transaction.
#[derive(Debug, Clone, Copy, PartialEq, Eq, Structural)]
pub enum Phase {
    /// Sending the bytes to write; waiting for `TXIS`.
    Sending,
    /// All bytes written; waiting for transfer complete (`TC`).
    Written,
    /// Receiving into the buffer; waiting for `RXNE`.
    Receiving,
    /// Over, successfully or not.
    Finished,
}

/// A write-then-read transaction with one slave (the `WriteRead` of a
/// blocking I2C bus): `n_write` bytes are written, then, after a restart,
/// `n_read` bytes are read.
pub struct WriteRead {
    addr: u8,
    n_write: usize,
    n_read: usize,
    sent: usize,
    received: usize,
    phase: Phase,
}

impl WriteRead {
    pub closed spec fn spec_addr(&self) -> u8 {
        self.addr
    }

    pub closed spec fn spec_n_write(&self) -> usize {
        self.n_write
    }

    pub closed spec fn spec_n_read(&self) -> usize {
        self.n_read
    }

    /// Bytes put on the wire so far.
    pub closed spec fn spec_sent(&self) -> usize {
        self.sent
    }

    /// Bytes received so far.
    pub closed spec fn spec_received(&self) -> usize {
        self.received
    }

    pub closed spec fn spec_phase(&self) -> Phase {
        self.phase
    }

    /// The counts agree with the phase: bytes are sent only while sending,
    /// all of them before the restart; bytes are received only after it.
    pub open spec fn wf(&self) -> bool {
        &&& 0 < self.spec_n_write() < 256
        &&& 0 < self.spec_n_read() < 256
        &&& self.spec_sent() <= self.spec_n_write()
        &&& self.spec_received() <= self.spec_n_read()
        &&& self.spec_received() > 0 ==> self.spec_sent() == self.spec_n_write()
        &&& self.spec_phase() == Phase::Sending ==> self.spec_sent() < self.spec_n_write()
            && self.spec_received() == 0
        &&& self.spec_phase() == Phase::Written ==> self.spec_sent() == self.spec_n_write()
            && self.spec_received() == 0
        &&& self.spec_phase() == Phase::Receiving ==> self.spec_sent() == self.spec_n_write()
            && self.spec_received() < self.spec_n_read()
    }

    /// Starts writing `n_write` bytes to the slave at `addr`, to read
    /// `n_read` bytes after: the transaction, and the control register 2
    /// value that starts it (software end, so that a restart can follow).
    ///
    /// Transfers of more than 255 bytes are not supported.
    pub fn new(addr: u8, n_write: usize, n_read: usize) -> (r: (Self, u32))
        requires
            0 < n_write < 256,
            0 < n_read < 256,
        ensures
            r.0.wf(),
            r.0.spec_phase() == Phase::Sending,
            r.0.spec_sent() == 0,
            r.0.spec_received() == 0,
            r.0.spec_addr() == addr,
            r.0.spec_n_write() == n_write,
            r.0.spec_n_read() == n_read,
            r.1 == cr2_word(addr, n_write as u32, false, false),
    {
        let cr2 = cr2(addr, n_write as u32, false, false);
        (WriteRead { addr, n_write, n_read, sent: 0, received: 0, phase: Phase::Sending }, cr2)
    }

    /// One step, given the status register `isr`.
    pub fn step(&mut self, isr: u32) -> (r: Action)
        requires
            old(self).wf(),
        ensures
            final(self).wf(),
            final(self).spec_addr() == old(self).spec_addr(),
            final(self).spec_n_write() == old(self).spec_n_write(),
            final(self).spec_n_read() == old(self).spec_n_read(),
            ({
                let s = *old(self);
                let wait = match s.spec_phase() {
                    Phase::Sending => wait_outcome(isr, ISR_TXIS),
                    Phase::Written => wait_outcome(isr, ISR_TC),
                    _ => wait_outcome(isr, ISR_RXNE),
                };
                &&& s.spec_phase() == Phase::Finished ==> r == Action::Done && *final(self) == s
                &&& s.spec_phase() != Phase::Finished && wait == Wait::Retry ==> r == Action::Wait
                    && *final(self) == s
                &&& wait matches Wait::Fail(e, icr, flush) ==> (s.spec_phase() != Phase::Finished
                    ==> r == Action::Fail(e, icr, flush) && final(self).spec_phase()
                    == Phase::Finished && final(self).spec_sent() == s.spec_sent()
                    && final(self).spec_received() == s.spec_received())
                &&& s.spec_phase() == Phase::Sending && wait == Wait::Ready ==> r == Action::Send(
                    s.spec_sent(),
                ) && final(self).spec_sent() == s.spec_sent() + 1 && final(self).spec_received()
                    == s.spec_received() && final(self).spec_phase() == (if s.spec_sent() + 1
                    == s.spec_n_write() {
                    Phase::Written
                } else {
                    Phase::Sending
                })
                &&& s.spec_phase() == Phase::Written && wait == Wait::Ready ==> r == Action::Restart(
                    cr2_word(s.spec_addr(), s.spec_n_read() as u32, true, true),
                ) && final(self).spec_phase() == Phase::Receiving && final(self).spec_sent()
                    == s.spec_sent() && final(self).spec_received() == s.spec_received()
                &&& s.spec_phase() == Phase::Receiving && wait == Wait::Ready ==> r
                    == Action::Receive(s.spec_received()) && final(self).spec_received()
                    == s.spec_received() + 1 && final(self).spec_sent() == s.spec_sent()
                    && final(self).spec_phase() == (if s.spec_received() + 1 == s.spec_n_read() {
                    Phase::Finished
                } else {
                    Phase::Receiving
                })
            }),
    {
        let n = match self.phase {
            Phase::Sending => ISR_TXIS,
            Phase::Written => ISR_TC,
            Phase::Receiving => ISR_RXNE,
            Phase::Finished => return Action::Done,
        };
        match busy_wait(isr, n) {
            Wait::Retry => Action::Wait,
            Wait::Fail(e, icr, flush) => {
                self.phase = Phase::Finished;
                Action::Fail(e, icr, flush)
            },
            Wait::Ready => match self.phase {
                Phase::Sending => {
                    let i = self.sent;
                    self.sent = self.sent + 1;
                    if self.sent == self.n_write {
                        self.phase = Phase::Written;
                    }
                    Action::Send(i)
                },
                Phase::Written => {
                    self.phase = Phase::Receiving;
                    Action::Restart(cr2(self.addr, self.n_read as u32, true, true))
                },
                _ => {
                    let i = self.received;
                    self.received = self.received + 1;
                    if self.received == self.n_read {
                        self.phase = Phase::Finished;
                    }
                    Action::Receive(i)
                },
            },
        }
    }
}

/// Token used for DMA transfers
///
/// This is an implementation detail. The user doesn't have to deal with this
/// directly.
pub struct Tx<I>(PhantomData<I>);

/// Token used for DMA transfers
///
/// This is an implementation detail. The user doesn't have to deal with this
/// directly.
pub struct Rx<I>(PhantomData<I>);

/// The timing of each bus mode, from the kernel clock `i2cclk` and the bus
/// frequency `freq`, with `r` the ratio of the two less four:
///
/// - standard mode (below 100 kHz): prescaler `r / 514`, equal low and high
///   periods, data hold `i2cclk / 2 MHz` and setup `i2cclk / 800 kHz - 1`
///   prescaled clock cycles;
/// - fast mode (100 kHz up to 400 kHz): prescaler `r / 387`, the low period
///   twice the high period, data hold `i2cclk / 8 MHz` and setup
///   `i2cclk / 2 MHz - 1` prescaled cycles;
/// - fast mode plus (above 400 kHz): as fast mode, but no data hold and a
///   setup of `i2cclk / 4 MHz - 1` prescaled cycles.
pub proof fn lemma_timing_modes(i2cclk: u32, freq: u32)
    requires
        timing_ok(i2cclk, freq),
    ensures
        ({
            let (presc, scll, sclh, sdadel, scldel) = timing_values(i2cclk, freq);
            let r = i2cclk as int / freq as int - 4;
            &&& freq < 100_000 ==> {
                &&& presc == r / 514
                &&& scll == sclh
                &&& sdadel == i2cclk as int / 2_000_000 / (presc + 1)
                &&& scldel == i2cclk as int / 800_000 / (presc + 1) - 1
            }
            &&& freq >= 100_000 ==> {
                &&& presc == r / 387
                &&& scll + 1 == 2 * (sclh + 1)
            }
            &&& 100_000 <= freq <= 400_000 ==> {
                &&& sdadel == i2cclk as int / 8_000_000 / (presc + 1)
                &&& scldel == i2cclk as int / 2_000_000 / (presc + 1) - 1
            }
            &&& freq > 400_000 ==> {
                &&& sdadel == 0
                &&& scldel == i2cclk as int / 4_000_000 / (presc + 1) - 1
            }
        }),
{
}

/// In a write-then-read transaction every byte to write is sent before the
/// restart, and the bytes are received after it: once bytes were received,
/// all bytes were sent.
pub proof fn lemma_write_before_read(t: WriteRead)
    requires
        t.wf(),
        t.spec_received() > 0,
    ensures
        t.spec_sent() == t.spec_n_write(),
{
}

} // verus!
