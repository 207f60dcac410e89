//! Serial communication (USART and LPUART)
use core::marker::PhantomData;
use vstd::prelude::*;

use crate::bits::{bit_set, disjoint, field, lemma_low_masks, lemma_with_field, read_field, with_field, write_field};
use crate::dma;
use crate::gpio::{AltMode, Port};
use crate::time::Bps;

verus! {

/// Serial error
#[derive(Debug, Clone, Copy, PartialEq, Eq, Structural)]
#[non_exhaustive]
pub enum Error {
    /// Framing error
    Framing,
    /// Noise error
    Noise,
    /// RX buffer overrun
    Overrun,
    /// Parity check error
    Parity,
}

/// Interrupt event
#[derive(Debug, Clone, Copy, PartialEq, Eq, Structural)]
pub enum Event {
    /// New data has been received.
    ///
    /// This event is cleared by reading a character from the UART.
    Rxne,
    /// New data can be sent.
    ///
    /// This event is cleared by writing a character to the UART.
    ///
    /// Note that this event does not mean that the character in the TX buffer
    /// is fully transmitted. It only means that the TX buffer is ready to take
    /// another character to be transmitted.
    Txe,
    /// Idle line state detected.
    Idle,
}

impl Event {
    /// The bit of the event: its interrupt enable bit in `CR1` and its flag
    /// in `ISR`.
    pub open spec fn spec_bit(self) -> u32 {
        match self {
            Event::Rxne => CR1_RXNEIE,
            Event::Txe => CR1_TXEIE,
            Event::Idle => CR1_IDLEIE,
        }
    }

    fn bit(&self) -> (r: u32)
        ensures
            r == self.spec_bit(),
    {
        match self {
            Event::Rxne => CR1_RXNEIE,
            Event::Txe => CR1_TXEIE,
            Event::Idle => CR1_IDLEIE,
        }
    }
}

#[derive(Debug, Clone, Copy, PartialEq, Eq, Structural)]
pub enum WordLength {
    DataBits8,
    DataBits9,
}

#[derive(Debug, Clone, Copy, PartialEq, Eq, Structural)]
pub enum Parity {
    ParityNone,
    ParityEven,
    ParityOdd,
}

#[derive(Debug, Clone, Copy, PartialEq, Eq, Structural)]
pub enum StopBits {
    /// 1 stop bit
    STOP1,
    /// 0.5 stop bits
    STOP0P5,
    /// 2 stop bits
    STOP2,
    /// 1.5 stop bits
    STOP1P5,
}

impl StopBits {
    /// The value of the `STOP` field.
    pub open spec fn spec_bits(self) -> u32 {
        match self {
            StopBits::STOP1 => 0b00,
            StopBits::STOP0P5 => 0b01,
            StopBits::STOP2 => 0b10,
            StopBits::STOP1P5 => 0b11,
        }
    }
}

/// Serial configuration
#[derive(Debug, Clone, Copy, PartialEq, Eq, Structural)]
pub struct Config {
    pub baudrate: Bps,
    pub wordlength: WordLength,
    pub parity: Parity,
    pub stopbits: StopBits,
}

impl Default for Config {
    fn default() -> (r: Config)
        ensures
            r == (Config {
                baudrate: Bps(9_600),
                wordlength: WordLength::DataBits8,
                parity: Parity::ParityNone,
                stopbits: StopBits::STOP1,
            }),
    {
        Config {
            baudrate: Bps(9_600),
            wordlength: WordLength::DataBits8,
            parity: Parity::ParityNone,
            stopbits: StopBits::STOP1,
        }
    }
}

impl Config {
    pub fn baudrate(self, baudrate: Bps) -> (r: Self)
        ensures
            r == (Config { baudrate, ..self }),
    {
        Config { baudrate, ..self }
    }

    pub fn parity_none(self) -> (r: Self)
        ensures
            r == (Config { parity: Parity::ParityNone, ..self }),
    {
        Config { parity: Parity::ParityNone, ..self }
    }

    pub fn parity_even(self) -> (r: Self)
        ensures
            r == (Config { parity: Parity::ParityEven, ..self }),
    {
        Config { parity: Parity::ParityEven, ..self }
    }

    pub fn parity_odd(self) -> (r: Self)
        ensures
            r == (Config { parity: Parity::ParityOdd, ..self }),
    {
        Config { parity: Parity::ParityOdd, ..self }
    }

    pub fn wordlength_8(self) -> (r: Self)
        ensures
            r == (Config { wordlength: WordLength::DataBits8, ..self }),
    {
        Config { wordlength: WordLength::DataBits8, ..self }
    }

    pub fn wordlength_9(self) -> (r: Self)
        ensures
            r == (Config { wordlength: WordLength::DataBits9, ..self }),
    {
        Config { wordlength: WordLength::DataBits9, ..self }
    }

    pub fn stopbits(self, stopbits: StopBits) -> (r: Self)
        ensures
            r == (Config { stopbits, ..self }),
    {
        Config { stopbits, ..self }
    }
}

#[derive(Debug, Clone, Copy, PartialEq, Eq, Structural)]
pub struct InvalidConfig;

/// Trait to mark serial pins with transmit capability.
pub trait TxPin<USART> {
    fn setup(&self);
}

/// Trait to mark serial pins with receive capability.
pub trait RxPin<USART> {
    fn setup(&self);
}

/// The serial ports of the STM32L072/L073 (`stm32l0x2` parts with the
/// category 5 pinout).
#[derive(Debug, Clone, Copy, PartialEq, Eq, Structural)]
pub enum Usart {
    Usart1,
    Usart2,
    Usart4,
    Usart5,
    Lpuart1,
}

/// The alternate function that makes pin `pin` of `port` the transmit
/// pin of `usart`, if it can be one.
pub open spec fn tx_alt_mode_spec(usart: Usart, port: Port, pin: u8) -> Option<AltMode> {
    match usart {
        Usart::Usart1 => {
            if port == Port::PA && pin == 9 {
                Some(AltMode::AF4)
            } else if port == Port::PB && pin == 6 {
                Some(AltMode::AF0)
            } else {
                None
            }
        },
        Usart::Usart2 => {
            if port == Port::PA && pin == 2 {
                Some(AltMode::AF4)
            } else if port == Port::PA && pin == 14 {
                Some(AltMode::AF4)
            } else if port == Port::PD && pin == 5 {
                Some(AltMode::AF0)
            } else {
                None
            }
        },
        Usart::Usart4 => {
            if port == Port::PA && pin == 0 {
                Some(AltMode::AF6)
            } else if port == Port::PC && pin == 10 {
                Some(AltMode::AF6)
            } else if port == Port::PE && pin == 8 {
                Some(AltMode::AF6)
            } else {
                None
            }
        },
        Usart::Usart5 => {
            if port == Port::PB && pin == 3 {
                Some(AltMode::AF6)
            } else if port == Port::PC && pin == 12 {
                Some(AltMode::AF2)
            } else if port == Port::PE && pin == 10 {
                Some(AltMode::AF6)
            } else {
                None
            }
        },
        Usart::Lpuart1 => {
            if port == Port::PA && pin == 2 {
                Some(AltMode::AF6)
            } else if port == Port::PA && pin == 14 {
                Some(AltMode::AF6)
            } else if port == Port::PB && pin == 10 {
                Some(AltMode::AF4)
            } else if port == Port::PB && pin == 11 {
                Some(AltMode::AF7)
            } else if port == Port::PC && pin == 1 {
                Some(AltMode::AF6)
            } else if port == Port::PC && pin == 4 {
                Some(AltMode::AF2)
            } else if port == Port::PC && pin == 10 {
                Some(AltMode::AF0)
            } else if port == Port::PD && pin == 8 {
                Some(AltMode::AF0)
            } else {
                None
            }
        },
    }
}

/// The alternate function that makes pin `pin` of `port` the transmit
/// pin of `usart` (see [`tx_alt_mode_spec`]); `None` for a pin that cannot
/// transmit for it.
pub fn tx_alt_mode(usart: Usart, port: Port, pin: u8) -> (r: Option<AltMode>)
    ensures
        r == tx_alt_mode_spec(usart, port, pin),
{
    match usart {
        Usart::Usart1 => {
            if port == Port::PA && pin == 9 {
                Some(AltMode::AF4)
            } else if port == Port::PB && pin == 6 {
                Some(AltMode::AF0)
            } else {
                None
            }
        },
        Usart::Usart2 => {
            if port == Port::PA && pin == 2 {
                Some(AltMode::AF4)
            } else if port == Port::PA && pin == 14 {
                Some(AltMode::AF4)
            } else if port == Port::PD && pin == 5 {
                Some(AltMode::AF0)
            } else {
                None
            }
        },
        Usart::Usart4 => {
            if port == Port::PA && pin == 0 {
                Some(AltMode::AF6)
            } else if port == Port::PC && pin == 10 {
                Some(AltMode::AF6)
            } else if port == Port::PE && pin == 8 {
                Some(AltMode::AF6)
            } else {
                None
            }
        },
        Usart::Usart5 => {
            if port == Port::PB && pin == 3 {
                Some(AltMode::AF6)
            } else if port == Port::PC && pin == 12 {
                Some(AltMode::AF2)
            } else if port == Port::PE && pin == 10 {
                Some(AltMode::AF6)
            } else {
                None
            }
        },
        Usart::Lpuart1 => {
            if port == Port::PA && pin == 2 {
                Some(AltMode::AF6)
            } else if port == Port::PA && pin == 14 {
                Some(AltMode::AF6)
            } else if port == Port::PB && pin == 10 {
                Some(AltMode::AF4)
            } else if port == Port::PB && pin == 11 {
                Some(AltMode::AF7)
            } else if port == Port::PC && pin == 1 {
                Some(AltMode::AF6)
            } else if port == Port::PC && pin == 4 {
                Some(AltMode::AF2)
            } else if port == Port::PC && pin == 10 {
                Some(AltMode::AF0)
            } else if port == Port::PD && pin == 8 {
                Some(AltMode::AF0)
            } else {
                None
            }
        },
    }
}

/// The alternate function that makes pin `pin` of `port` the receive pin
/// of `usart`, if it can be one.
pub open spec fn rx_alt_mode_spec(usart: Usart, port: Port, pin: u8) -> Option<AltMode> {
    match usart {
        Usart::Usart1 => {
            if port == Port::PA && pin == 10 {
                Some(AltMode::AF4)
            } else if port == Port::PB && pin == 7 {
                Some(AltMode::AF0)
            } else {
                None
            }
        },
        Usart::Usart2 => {
            if port == Port::PA && pin == 3 {
                Some(AltMode::AF4)
            } else if port == Port::PA && pin == 15 {
                Some(AltMode::AF4)
            } else if port == Port::PD && pin == 6 {
                Some(AltMode::AF0)
            } else {
                None
            }
        },
        Usart::Usart4 => {
            if port == Port::PA && pin == 1 {
                Some(AltMode::AF6)
            } else if port == Port::PC && pin == 11 {
                Some(AltMode::AF6)
            } else if port == Port::PE && pin == 9 {
                Some(AltMode::AF6)
            } else {
                None
            }
        },
        Usart::Usart5 => {
            if port == Port::PB && pin == 4 {
                Some(AltMode::AF6)
            } else if port == Port::PD && pin == 2 {
                Some(AltMode::AF6)
            } else if port == Port::PE && pin == 11 {
                Some(AltMode::AF6)
            } else {
                None
            }
        },
        Usart::Lpuart1 => {
            if port == Port::PA && pin == 3 {
                Some(AltMode::AF6)
            } else if port == Port::PA && pin == 13 {
                Some(AltMode::AF6)
            } else if port == Port::PB && pin == 10 {
                Some(AltMode::AF7)
            } else if port == Port::PB && pin == 11 {
                Some(AltMode::AF4)
            } else if port == Port::PC && pin == 0 {
                Some(AltMode::AF6)
            } else if port == Port::PC && pin == 5 {
                Some(AltMode::AF2)
            } else if port == Port::PC && pin == 11 {
                Some(AltMode::AF0)
            } else if port == Port::PD && pin == 9 {
                Some(AltMode::AF0)
            } else {
                None
            }
        },
    }
}

/// The alternate function that makes pin `pin` of `port` the receive pin
/// of `usart` (see [`rx_alt_mode_spec`]); `None` for a pin that cannot
/// receive for it.
pub fn rx_alt_mode(usart: Usart, port: Port, pin: u8) -> (r: Option<AltMode>)
    ensures
        r == rx_alt_mode_spec(usart, port, pin),
{
    match usart {
        Usart::Usart1 => {
            if port == Port::PA && pin == 10 {
                Some(AltMode::AF4)
            } else if port == Port::PB && pin == 7 {
                Some(AltMode::AF0)
            } else {
                None
            }
        },
        Usart::Usart2 => {
            if port == Port::PA && pin == 3 {
                Some(AltMode::AF4)
            } else if port == Port::PA && pin == 15 {
                Some(AltMode::AF4)
            } else if port == Port::PD && pin == 6 {
                Some(AltMode::AF0)
            } else {
                None
            }
        },
        Usart::Usart4 => {
            if port == Port::PA && pin == 1 {
                Some(AltMode::AF6)
            } else if port == Port::PC && pin == 11 {
                Some(AltMode::AF6)
            } else if port == Port::PE && pin == 9 {
                Some(AltMode::AF6)
            } else {
                None
            }
        },
        Usart::Usart5 => {
            if port == Port::PB && pin == 4 {
                Some(AltMode::AF6)
            } else if port == Port::PD && pin == 2 {
                Some(AltMode::AF6)
            } else if port == Port::PE && pin == 11 {
                Some(AltMode::AF6)
            } else {
                None
            }
        },
        Usart::Lpuart1 => {
            if port == Port::PA && pin == 3 {
                Some(AltMode::AF6)
            } else if port == Port::PA && pin == 13 {
                Some(AltMode::AF6)
            } else if port == Port::PB && pin == 10 {
                Some(AltMode::AF7)
            } else if port == Port::PB && pin == 11 {
                Some(AltMode::AF4)
            } else if port == Port::PC && pin == 0 {
                Some(AltMode::AF6)
            } else if port == Port::PC && pin == 5 {
                Some(AltMode::AF2)
            } else if port == Port::PC && pin == 11 {
                Some(AltMode::AF0)
            } else if port == Port::PD && pin == 9 {
                Some(AltMode::AF0)
            } else {
                None
            }
        },
    }
}

/// `CR1` bits
pub const CR1_UE: u32 = 0;

pub const CR1_RE: u32 = 2;

pub const CR1_TE: u32 = 3;

pub const CR1_IDLEIE: u32 = 4;

pub const CR1_RXNEIE: u32 = 5;

pub const CR1_TXEIE: u32 = 7;

pub const CR1_PS: u32 = 9;

pub const CR1_PCE: u32 = 10;

pub const CR1_M0: u32 = 12;

/// First bit of the two-bit `STOP` field of `CR2`
pub const CR2_STOP: u32 = 12;

/// Bit of `DMAR` (DMA enable receiver) in `CR3`.
pub const CR3_DMAR: u32 = 6;

/// Bit of `DMAT` (DMA enable transmitter) in `CR3`.
pub const CR3_DMAT: u32 = 7;

/// Bit of `DDRE` (DMA disable on reception error) in `CR3`.
pub const CR3_DDRE: u32 = 13;

/// `ISR` flags (the matching `ICR` clear bits are at the same positions)
pub const ISR_PE: u32 = 0;

pub const ISR_FE: u32 = 1;

pub const ISR_NF: u32 = 2;

pub const ISR_ORE: u32 = 3;

pub const ISR_IDLE: u32 = 4;

pub const ISR_RXNE: u32 = 5;

pub const ISR_TC: u32 = 6;

pub const ISR_TXE: u32 = 7;

/// The baud rate register divisor: the peripheral clock over the baud rate,
/// with a four-bit fraction rounded to the nearest sixteenth, computed in
/// hundredths. The low-power UART takes it multiplied by 256.
pub open spec fn brr_value(pclk: u32, baudrate: u32, low_power: bool) -> int {
    let div = (pclk * 25) / (4 * baudrate as int);
    let mantissa = div / 100;
    let fraction = ((div - mantissa * 100) * 16 + 50) / 100;
    let brr = (mantissa * 16) as u32 | fraction as u32;
    if low_power {
        brr * 256
    } else {
        brr as int
    }
}

/// The divisor can be computed within 32 bits.
pub open spec fn brr_ok(pclk: u32, baudrate: u32, low_power: bool) -> bool {
    &&& baudrate > 0
    &&& 4 * baudrate <= u32::MAX
    &&& pclk * 25 <= u32::MAX
    &&& brr_value(pclk, baudrate, low_power) <= u32::MAX
}

/// Computes the baud rate register value for `baudrate` from the
/// peripheral clock `pclk`; `low_power` for the low-power UART.
pub fn brr(pclk: u32, baudrate: Bps, low_power: bool) -> (r: u32)
    requires
        brr_ok(pclk, baudrate.0, low_power),
    ensures
        r == brr_value(pclk, baudrate.0, low_power),
{
    let div = (pclk * 25) / (4 * baudrate.0);
    let mantissa = div / 100;
    let fraction = ((div - mantissa * 100) * 16 + 50) / 100;
    assert(mantissa * 16 <= u32::MAX);
    assert((mantissa << 4) == mantissa * 16) by (bit_vector)
        requires
            mantissa * 16 <= u32::MAX,
    ;
    let brr = mantissa << 4 | fraction;
    if low_power {
        brr * 256
    } else {
        brr
    }
}

/// Whether the baud rate divisor for `baudrate` from the peripheral clock
/// `pclk` can be computed: a non-zero baud rate, no overflow on the way,
/// and, for the low-power UART, a register value within 32 bits.
pub fn brr_valid(pclk: u32, baudrate: Bps, low_power: bool) -> (r: bool)
    ensures
        r == brr_ok(pclk, baudrate.0, low_power),
{
    if baudrate.0 == 0 || baudrate.0 > u32::MAX / 4 || pclk > u32::MAX / 25 {
        return false;
    }
    let div = (pclk * 25) / (4 * baudrate.0);
    let mantissa = div / 100;
    let fraction = ((div - mantissa * 100) * 16 + 50) / 100;
    assert(mantissa * 16 <= u32::MAX);
    assert((mantissa << 4) == mantissa * 16) by (bit_vector)
        requires
            mantissa * 16 <= u32::MAX,
    ;
    let brr = mantissa << 4 | fraction;
    if low_power {
        brr <= u32::MAX / 256
    } else {
        true
    }
}

/// The control register 1 value that enables the serial port with the
/// frame format of `config`: enabled, transmitter and receiver on, nine data
/// bits for `DataBits9`, parity on unless `ParityNone`, odd parity for
/// `ParityOdd`.
pub open spec fn cr1_value(config: Config) -> u32 {
    with_field(
        with_field(
            with_field(
                with_field(with_field(with_field(0, CR1_UE, 1, 1), CR1_TE, 1, 1), CR1_RE, 1, 1),
                CR1_M0,
                1,
                if config.wordlength == WordLength::DataBits9 { 1 } else { 0 },
            ),
            CR1_PCE,
            1,
            if config.parity == Parity::ParityNone { 0 } else { 1 },
        ),
        CR1_PS,
        1,
        if config.parity == Parity::ParityOdd { 1 } else { 0 },
    )
}

/// The frame format that `CR1` and `CR2` set up: parity control (`PCE`)
/// exactly when a parity is asked for, odd parity (`PS`) exactly for
/// `ParityOdd` (even parity leaves it clear), nine data bits (`M0`) exactly
/// for `DataBits9`, the port, its transmitter and its receiver enabled; and
/// the stop bits field `00` for one stop bit, `01` for a half, `10` for two
/// and `11` for one and a half.
pub proof fn lemma_frame_format(config: Config)
    ensures
        field(cr1_value(config), CR1_PCE, 1) == 1 <==> config.parity != Parity::ParityNone,
        field(cr1_value(config), CR1_PS, 1) == 1 <==> config.parity == Parity::ParityOdd,
        field(cr1_value(config), CR1_M0, 1) == 1 <==> config.wordlength == WordLength::DataBits9,
        field(cr1_value(config), CR1_UE, 1) == 1,
        field(cr1_value(config), CR1_TE, 1) == 1,
        field(cr1_value(config), CR1_RE, 1) == 1,
        field(with_field(0, CR2_STOP, 2, config.stopbits.spec_bits()), CR2_STOP, 2) == match config.stopbits {
            StopBits::STOP1 => 0b00u32,
            StopBits::STOP0P5 => 0b01u32,
            StopBits::STOP2 => 0b10u32,
            StopBits::STOP1P5 => 0b11u32,
        },
{
    lemma_low_masks();
    let m0: u32 = if config.wordlength == WordLength::DataBits9 { 1 } else { 0 };
    let pce: u32 = if config.parity == Parity::ParityNone { 0 } else { 1 };
    let ps: u32 = if config.parity == Parity::ParityOdd { 1 } else { 0 };
    let l1 = with_field(0, CR1_UE, 1, 1);
    let l2 = with_field(l1, CR1_TE, 1, 1);
    let l3 = with_field(l2, CR1_RE, 1, 1);
    let l4 = with_field(l3, CR1_M0, 1, m0);
    let l5 = with_field(l4, CR1_PCE, 1, pce);
    let l6 = with_field(l5, CR1_PS, 1, ps);
    lemma_with_field(0, CR1_UE, 1, 1);
    lemma_with_field(l1, CR1_TE, 1, 1);
    lemma_with_field(l2, CR1_RE, 1, 1);
    lemma_with_field(l3, CR1_M0, 1, m0);
    lemma_with_field(l4, CR1_PCE, 1, pce);
    lemma_with_field(l5, CR1_PS, 1, ps);
    assert(cr1_value(config) == l6);
    assert(field(l6, CR1_UE, 1) == 1);
    assert(field(l6, CR1_TE, 1) == 1);
    assert(field(l6, CR1_RE, 1) == 1);
    assert(field(l6, CR1_M0, 1) == m0);
    assert(field(l6, CR1_PCE, 1) == pce);
    lemma_with_field(0, CR2_STOP, 2, config.stopbits.spec_bits());
}

/// The register values that configure a serial port.
#[derive(Debug, Clone, Copy, PartialEq, Eq, Structural)]
pub struct SerialSetup {
    /// Baud rate register
    pub brr: u32,
    /// Control register 1: enabled, transmitter and receiver on, the frame
    pub cr1: u32,
    /// Control register 2: the stop bits, the rest at reset values
    pub cr2: u32,
    /// Control register 3: DMA for transmission and reception, kept running
    /// on reception errors
    pub cr3: u32,
}

/// The control register 3 value of a serial port: DMA enabled for both
/// directions, not disabled on reception errors.
pub open spec fn cr3_value() -> u32 {
    with_field(with_field(with_field(0, CR3_DDRE, 1, 0), CR3_DMAT, 1, 1), CR3_DMAR, 1, 1)
}

/// First bit of the two-bit `LPUART1SEL` field (low-power UART clock) in
/// `RCC_CCIPR`.
pub const CCIPR_LPUART1SEL: u32 = 10;

/// The `LPUART1SEL` value that selects the LSE.
pub const LPUART1SEL_LSE: u32 = 0b11;

/// The register writes that switch the low-power UART to the LSE clock, in
/// order.
#[derive(Debug, Clone, Copy, PartialEq, Eq, Structural)]
pub struct LseSwitch {
    /// Control register 1 with the transmitter disabled; the transmission
    /// complete flag is awaited after it.
    pub cr1_tx_off: u32,
    /// Control register 1 with the UART disabled as well.
    pub cr1_off: u32,
    /// `RCC_CCIPR`: the LSE selected as the low-power UART's clock.
    pub ccipr: u32,
    /// Baud rate register: 9600 baud from the 32768 Hz LSE.
    pub brr: u32,
    /// Control register 1: enabled, transmitter and receiver on, every other
    /// bit at its reset value.
    pub cr1: u32,
}

/// Serial abstraction: the peripheral and the interrupt enables of its
/// control register 1.
pub struct Serial<USART> {
    usart: USART,
    cr1: u32,
    rx: Rx<USART>,
    tx: Tx<USART>,
}

/// Serial receiver
pub struct Rx<USART> {
    _usart: PhantomData<USART>,
}

/// Serial transmitter
pub struct Tx<USART> {
    _usart: PhantomData<USART>,
}

/// The event that is pending and enabled, per the control register `cr1`
/// and the status register `isr`: receive first, then transmit, then idle.
pub open spec fn pending_event_of(cr1: u32, isr: u32) -> Option<Event> {
    if bit_set(cr1, CR1_RXNEIE) && bit_set(isr, ISR_RXNE) {
        Some(Event::Rxne)
    } else if bit_set(cr1, CR1_TXEIE) && bit_set(isr, ISR_TXE) {
        Some(Event::Txe)
    } else if bit_set(cr1, CR1_IDLEIE) && bit_set(isr, ISR_IDLE) {
        Some(Event::Idle)
    } else {
        None
    }
}

/// An event is reported only while it is listened to and flagged; and while
/// an event is listened to and flagged, some event is reported.
pub proof fn lemma_pending_needs_listen(cr1: u32, isr: u32, e: Event)
    ensures
        pending_event_of(cr1, isr) == Some(e) ==> bit_set(cr1, e.spec_bit()) && bit_set(
            isr,
            e.spec_bit(),
        ),
        bit_set(cr1, e.spec_bit()) && bit_set(isr, e.spec_bit()) ==> pending_event_of(cr1, isr)
            is Some,
{
}

/// The receive error that the status register `isr` reports, in the order
/// parity, framing, noise, overrun.
pub open spec fn receive_error(isr: u32) -> Option<Error> {
    if bit_set(isr, ISR_PE) {
        Some(Error::Parity)
    } else if bit_set(isr, ISR_FE) {
        Some(Error::Framing)
    } else if bit_set(isr, ISR_NF) {
        Some(Error::Noise)
    } else if bit_set(isr, ISR_ORE) {
        Some(Error::Overrun)
    } else {
        None
    }
}

impl Error {
    /// The interrupt clear register value that clears this error's flag.
    pub fn clear_flag(&self) -> (r: u32)
        ensures
            r == 1u32 << (match self {
                Error::Parity => ISR_PE,
                Error::Framing => ISR_FE,
                Error::Noise => ISR_NF,
                Error::Overrun => ISR_ORE,
            }),
    {
        let bit = match self {
            Error::Parity => ISR_PE,
            Error::Framing => ISR_FE,
            Error::Noise => ISR_NF,
            Error::Overrun => ISR_ORE,
        };
        1u32 << bit
    }
}

fn flag(isr: u32, n: u32) -> (r: bool)
    requires
        n < 32,
    ensures
        r == bit_set(isr, n),
{
    read_field(isr, n, 1) == 1
}

impl<USART> Serial<USART> {
    /// The control register 1 contents.
    pub closed spec fn spec_cr1(&self) -> u32 {
        self.cr1
    }

    /// The control register 1 value to write.
    pub fn cr1(&self) -> (r: u32)
        ensures
            r == self.spec_cr1(),
    {
        self.cr1
    }

    /// Sets up the pins and computes the register values for `config`, with
    /// the peripheral clock `pclk`; `low_power` for the low-power UART.
    pub fn new<TX, RX>(usart: USART, tx: TX, rx: RX, config: Config, pclk: u32, low_power: bool) -> (r:
        Result<(Self, SerialSetup), InvalidConfig>)
        where
            TX: TxPin<USART>,
            RX: RxPin<USART>,
        requires
            brr_ok(pclk, config.baudrate.0, low_power),
        ensures
            r matches Ok((s, setup)) && {
                &&& setup.brr == brr_value(pclk, config.baudrate.0, low_power)
                &&& setup.cr1 == cr1_value(config)
                &&& (field(setup.cr1, CR1_PCE, 1) == 1 <==> config.parity != Parity::ParityNone)
                &&& (field(setup.cr1, CR1_PS, 1) == 1 <==> config.parity == Parity::ParityOdd)
                &&& (field(setup.cr1, CR1_M0, 1) == 1 <==> config.wordlength
                    == WordLength::DataBits9)
                &&& setup.cr2 == with_field(0, CR2_STOP, 2, config.stopbits.spec_bits())
                &&& setup.cr3 == cr3_value()
                &&& s.spec_cr1() == cr1_value(config)
                &&& s.spec_usart() == usart
            },
    {
        proof {
            lemma_low_masks();
            lemma_frame_format(config);
        }
        tx.setup();
        rx.setup();
        let brr = brr(pclk, config.baudrate, low_power);
        let cr1 = write_field(0, CR1_UE, 1, 1);
        let cr1 = write_field(cr1, CR1_TE, 1, 1);
        let cr1 = write_field(cr1, CR1_RE, 1, 1);
        let cr1 = write_field(cr1, CR1_M0, 1, if matches!(config.wordlength, WordLength::DataBits9) { 1 } else { 0 });
        let cr1 = write_field(cr1, CR1_PCE, 1, if matches!(config.parity, Parity::ParityNone) { 0 } else { 1 });
        let cr1 = write_field(cr1, CR1_PS, 1, if matches!(config.parity, Parity::ParityOdd) { 1 } else { 0 });
        let stop: u32 = match config.stopbits {
            StopBits::STOP1 => 0b00,
            StopBits::STOP0P5 => 0b01,
            StopBits::STOP2 => 0b10,
            StopBits::STOP1P5 => 0b11,
        };
        let cr2 = write_field(0, CR2_STOP, 2, stop);
        let cr3 = write_field(0, CR3_DDRE, 1, 0);
        let cr3 = write_field(cr3, CR3_DMAT, 1, 1);
        let cr3 = write_field(cr3, CR3_DMAR, 1, 1);
        Ok((
            Serial {
                usart,
                cr1,
                tx: Tx { _usart: PhantomData },
                rx: Rx { _usart: PhantomData },
            },
            SerialSetup { brr, cr1, cr2, cr3 },
        ))
    }

    /// Starts listening for an interrupt event
    pub fn listen(&mut self, event: Event)
        ensures
            field(final(self).spec_cr1(), event.spec_bit(), 1) == 1,
            forall|o: u32, w: u32|
                1 <= w && o + w <= 32 && disjoint(event.spec_bit(), 1, o, w) ==> #[trigger] field(
                    final(self).spec_cr1(),
                    o,
                    w,
                ) == field(old(self).spec_cr1(), o, w),
    {
        proof {
            lemma_low_masks();
        }
        let bit = event.bit();
        self.cr1 = write_field(self.cr1, bit, 1, 1);
    }

    /// Stop listening for an interrupt event
    pub fn unlisten(&mut self, event: Event)
        ensures
            field(final(self).spec_cr1(), event.spec_bit(), 1) == 0,
            forall|o: u32, w: u32|
                1 <= w && o + w <= 32 && disjoint(event.spec_bit(), 1, o, w) ==> #[trigger] field(
                    final(self).spec_cr1(),
                    o,
                    w,
                ) == field(old(self).spec_cr1(), o, w),
    {
        proof {
            lemma_low_masks();
        }
        let bit = event.bit();
        self.cr1 = write_field(self.cr1, bit, 1, 0);
    }

    /// Switches the low-power UART to the 32768 Hz LSE clock, at 9600 baud:
    /// the register writes, in order. The interrupt enables are cleared by
    /// the last write.
    pub fn use_lse(&mut self, ccipr: u32, _lse: &crate::rcc::LSE) -> (r: LseSwitch)
        ensures
            r.cr1_tx_off == with_field(old(self).spec_cr1(), CR1_TE, 1, 0),
            r.cr1_off == with_field(r.cr1_tx_off, CR1_UE, 1, 0),
            r.ccipr == with_field(ccipr, CCIPR_LPUART1SEL, 2, LPUART1SEL_LSE),
            r.brr == 256 * 32768 / 9600,
            r.cr1 == with_field(with_field(with_field(0, CR1_UE, 1, 1), CR1_TE, 1, 1), CR1_RE, 1, 1),
            final(self).spec_cr1() == r.cr1,
    {
        proof {
            lemma_low_masks();
        }
        let cr1_tx_off = write_field(self.cr1, CR1_TE, 1, 0);
        let cr1_off = write_field(cr1_tx_off, CR1_UE, 1, 0);
        let ccipr = write_field(ccipr, CCIPR_LPUART1SEL, 2, LPUART1SEL_LSE);
        let brr = lse_brr();
        let cr1 = write_field(0, CR1_UE, 1, 1);
        let cr1 = write_field(cr1, CR1_TE, 1, 1);
        let cr1 = write_field(cr1, CR1_RE, 1, 1);
        self.cr1 = cr1;
        LseSwitch { cr1_tx_off, cr1_off, ccipr, brr, cr1 }
    }

    /// Whether the transmission is complete, given the status register
    /// `isr` (the `TC` flag): awaited after the transmitter is disabled.
    pub fn tx_complete(&self, isr: u32) -> (r: bool)
        ensures
            r == bit_set(isr, ISR_TC),
    {
        flag(isr, ISR_TC)
    }

    /// Returns a pending and enabled `Event`, given the status register
    /// `isr`: receive first (to help avoid overruns), then transmit, then
    /// idle.
    ///
    /// For an event to be returned by this method, it must first be enabled by calling
    /// `listen`.
    pub fn pending_event(&self, isr: u32) -> (r: Option<Event>)
        ensures
            r == pending_event_of(self.spec_cr1(), isr),
    {
        if flag(self.cr1, CR1_RXNEIE) && flag(isr, ISR_RXNE) {
            Some(Event::Rxne)
        } else if flag(self.cr1, CR1_TXEIE) && flag(isr, ISR_TXE) {
            Some(Event::Txe)
        } else if flag(self.cr1, CR1_IDLEIE) && flag(isr, ISR_IDLE) {
            Some(Event::Idle)
        } else {
            None
        }
    }

    /// Checks the status register `isr` for reception errors.
    pub fn check_errors(&mut self, isr: u32) -> (r: Result<(), Error>)
        ensures
            r == (match receive_error(isr) {
                Some(e) => Err(e),
                None => Ok(()),
            }),
    {
        self.rx.check_errors(isr)
    }

    /// The transmitter half.
    pub closed spec fn spec_tx(&self) -> Tx<USART> {
        self.tx
    }

    /// The receiver half.
    pub closed spec fn spec_rx(&self) -> Rx<USART> {
        self.rx
    }

    /// Splits the serial port into transmitter and receiver.
    pub fn split(self) -> (r: (Tx<USART>, Rx<USART>))
        ensures
            r.0 == self.spec_tx(),
            r.1 == self.spec_rx(),
    {
        (self.tx, self.rx)
    }

    /// The peripheral.
    pub closed spec fn spec_usart(&self) -> USART {
        self.usart
    }

    /// Releases the peripheral.
    pub fn release(self) -> (r: USART)
        ensures
            r == self.spec_usart(),
    {
        self.usart
    }
}

impl<USART> Rx<USART> {
    /// Prepares a DMA transfer of `num_words` bytes between a buffer (of
    /// `buffer_len` bytes at `buffer_addr`) and the receive data register at
    /// `address`: the transfer, ready to be started, and the channel's
    /// register values.
    pub fn read_some<C: dma::Channel, B>(
        self,
        handle: &mut dma::Handle,
        buffer: B,
        buffer_len: usize,
        buffer_addr: u32,
        num_words: usize,
        channel: C,
        address: u32,
    ) -> (r: (dma::Transfer<Self, C, B, dma::Ready>, dma::ChannelSetup))
        where
            Self: dma::Target<C>,
        requires
            buffer_len >= num_words,
            num_words <= u16::MAX,
        ensures
            r.1 == (dma::ChannelSetup {
                par: address,
                mar: buffer_addr,
                ndtr: num_words as u16,
                ccr: dma::ccr_value(0, 2, 0, false),
            }),
            r.0.spec_ccr() == r.1.ccr,
            field(final(handle).spec_cselr(), (4 * (C::spec_number() - 1)) as u32, 4)
                == <Self as dma::Target<C>>::spec_request(),
    {
        dma::Transfer::new::<u8>(
            handle,
            self,
            channel,
            buffer,
            buffer_len,
            buffer_addr,
            num_words,
            address,
            dma::Priority::high(),
            dma::Direction::peripheral_to_memory(),
            false,
        )
    }

    /// Prepares a DMA transfer of a whole buffer, as
    /// [`Rx::read_some`] does.
    pub fn read_all<C: dma::Channel, B>(
        self,
        handle: &mut dma::Handle,
        buffer: B,
        buffer_len: usize,
        buffer_addr: u32,
        channel: C,
        address: u32,
    ) -> (r: (dma::Transfer<Self, C, B, dma::Ready>, dma::ChannelSetup))
        where
            Self: dma::Target<C>,
        requires
            buffer_len <= u16::MAX,
        ensures
            r.1 == (dma::ChannelSetup {
                par: address,
                mar: buffer_addr,
                ndtr: buffer_len as u16,
                ccr: dma::ccr_value(0, 2, 0, false),
            }),
            r.0.spec_ccr() == r.1.ccr,
            field(final(handle).spec_cselr(), (4 * (C::spec_number() - 1)) as u32, 4)
                == <Self as dma::Target<C>>::spec_request(),
    {
        self.read_some(handle, buffer, buffer_len, buffer_addr, buffer_len, channel, address)
    }

    /// Checks the status register `isr` for reception errors: the first one
    /// flagged, in the order parity, framing, noise, overrun, whose flag is
    /// then to be cleared (see `Error::clear_flag`).
    pub fn check_errors(&mut self, isr: u32) -> (r: Result<(), Error>)
        ensures
            r == (match receive_error(isr) {
                Some(e) => Err(e),
                None => Ok(()),
            }),
    {
        if flag(isr, ISR_PE) {
            Err(Error::Parity)
        } else if flag(isr, ISR_FE) {
            Err(Error::Framing)
        } else if flag(isr, ISR_NF) {
            Err(Error::Noise)
        } else if flag(isr, ISR_ORE) {
            Err(Error::Overrun)
        } else {
            Ok(())
        }
    }

    /// The interrupt clear register value that clears all reception errors.
    pub fn clear_errors(&mut self) -> (r: u32)
        ensures
            r == (1u32 << ISR_PE) | (1u32 << ISR_FE) | (1u32 << ISR_NF) | (1u32 << ISR_ORE),
    {
        (1u32 << ISR_PE) | (1u32 << ISR_FE) | (1u32 << ISR_NF) | (1u32 << ISR_ORE)
    }

    /// Reads a byte, given the status register `isr` and the receive data
    /// register `rdr`: a reception error first, then the byte when one has
    /// been received, `None` when it has not (the read would block).
    pub fn read(&mut self, isr: u32, rdr: u8) -> (r: Result<Option<u8>, Error>)
        ensures
            receive_error(isr) matches Some(e) ==> r == Err::<Option<u8>, Error>(e),
            receive_error(isr) is None ==> r == Ok::<Option<u8>, Error>(
                if bit_set(isr, ISR_RXNE) {
                    Some(rdr)
                } else {
                    None
                },
            ),
    {
        match self.check_errors(isr) {
            Err(e) => Err(e),
            Ok(()) => {
                if flag(isr, ISR_RXNE) {
                    Ok(Some(rdr))
                } else {
                    Ok(None)
                }
            },
        }
    }

    /// Returns true if the line idle status is set in `isr`.
    pub fn is_idle(&self, isr: u32) -> (r: bool)
        ensures
            r == bit_set(isr, ISR_IDLE),
    {
        flag(isr, ISR_IDLE)
    }

    /// The interrupt clear register value that clears the idle line flag
    /// (`IDLECF`, at the bit of `IDLE`).
    pub fn clear_idle_interrupt(&self) -> (r: u32)
        ensures
            r == 1u32 << ISR_IDLE,
    {
        1u32 << ISR_IDLE
    }

    /// Returns true if the rx register is not empty (and can be read).
    pub fn is_rx_not_empty(&self, isr: u32) -> (r: bool)
        ensures
            r == bit_set(isr, ISR_RXNE),
    {
        flag(isr, ISR_RXNE)
    }
}

impl<USART> Tx<USART> {
    /// Prepares a DMA transfer of `num_words` bytes between a buffer (of
    /// `buffer_len` bytes at `buffer_addr`) and the transmit data register at
    /// `address`: the transfer, ready to be started, and the channel's
    /// register values.
    pub fn write_some<C: dma::Channel, B>(
        self,
        handle: &mut dma::Handle,
        buffer: B,
        buffer_len: usize,
        buffer_addr: u32,
        num_words: usize,
        channel: C,
        address: u32,
    ) -> (r: (dma::Transfer<Self, C, B, dma::Ready>, dma::ChannelSetup))
        where
            Self: dma::Target<C>,
        requires
            buffer_len >= num_words,
            num_words <= u16::MAX,
        ensures
            r.1 == (dma::ChannelSetup {
                par: address,
                mar: buffer_addr,
                ndtr: num_words as u16,
                ccr: dma::ccr_value(0, 2, 1, false),
            }),
            r.0.spec_ccr() == r.1.ccr,
            field(final(handle).spec_cselr(), (4 * (C::spec_number() - 1)) as u32, 4)
                == <Self as dma::Target<C>>::spec_request(),
    {
        dma::Transfer::new::<u8>(
            handle,
            self,
            channel,
            buffer,
            buffer_len,
            buffer_addr,
            num_words,
            address,
            dma::Priority::high(),
            dma::Direction::memory_to_peripheral(),
            false,
        )
    }

    /// Prepares a DMA transfer of a whole buffer, as
    /// [`Tx::write_some`] does.
    pub fn write_all<C: dma::Channel, B>(
        self,
        handle: &mut dma::Handle,
        buffer: B,
        buffer_len: usize,
        buffer_addr: u32,
        channel: C,
        address: u32,
    ) -> (r: (dma::Transfer<Self, C, B, dma::Ready>, dma::ChannelSetup))
        where
            Self: dma::Target<C>,
        requires
            buffer_len <= u16::MAX,
        ensures
            r.1 == (dma::ChannelSetup {
                par: address,
                mar: buffer_addr,
                ndtr: buffer_len as u16,
                ccr: dma::ccr_value(0, 2, 1, false),
            }),
            r.0.spec_ccr() == r.1.ccr,
            field(final(handle).spec_cselr(), (4 * (C::spec_number() - 1)) as u32, 4)
                == <Self as dma::Target<C>>::spec_request(),
    {
        self.write_some(handle, buffer, buffer_len, buffer_addr, buffer_len, channel, address)
    }

    /// Whether a frame is complete, per the status register `isr` (the
    /// transmission complete flag is then to be cleared); otherwise a flush
    /// would block.
    pub fn flush(&mut self, isr: u32) -> (r: bool)
        ensures
            r == bit_set(isr, ISR_TC),
    {
        flag(isr, ISR_TC)
    }

    /// Returns true if the tx register is empty (and can accept data), so
    /// that a byte can be written.
    pub fn is_tx_empty(&self, isr: u32) -> (r: bool)
        ensures
            r == bit_set(isr, ISR_TXE),
    {
        flag(isr, ISR_TXE)
    }
}

/// The baud rate register value of the low-power UART clocked by the
/// 32768 Hz LSE, for 9600 baud.
pub fn lse_brr() -> (r: u32)
    ensures
        r == 256 * 32768 / 9600,
{
    256 * 32768 / 9600
}

} // verus!
