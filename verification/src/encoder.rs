//! Encoder input using timers.
use core::marker::PhantomData;
use vstd::prelude::*;

use crate::bits::{bit_set, lemma_low_masks, read_field, with_field, write_field};
use crate::gpio::{AltMode, Port};

verus! {

/// Bit of `CEN` (counter enable) in `TIMx_CR1`.
pub const CR1_CEN: u32 = 0;

/// Bit of `URS` (update request source) in `TIMx_CR1`.
pub const CR1_URS: u32 = 2;

/// Bit of `DIR` (direction, set when counting down) in `TIMx_CR1`.
pub const CR1_DIR: u32 = 4;

/// First bit of the three-bit `SMS` field (slave mode) in `TIMx_SMCR`.
pub const SMCR_SMS: u32 = 0;

/// First bit of the three-bit `TS` field (trigger selection) in `TIMx_SMCR`.
pub const SMCR_TS: u32 = 4;

/// The `TS` value of the TI1 edge detector.
pub const TS_TI1F_ED: u32 = 0b100;

/// Bit of `UIE` (update interrupt enable) in `TIMx_DIER`.
pub const DIER_UIE: u32 = 0;

/// Bit of `TIE` (trigger interrupt enable) in `TIMx_DIER`.
pub const DIER_TIE: u32 = 6;

/// Bit of `UIF` (update interrupt flag) in `TIMx_SR`.
pub const SR_UIF: u32 = 0;

/// Implemented for the pairs of pins that carry the encoder's two channels.
pub trait Pins<TIM> {
    fn into_alt_mode(self);
}

/// A pin that carries the encoder's first channel.
pub trait PinCh1<TIM> {
    fn into_alt_mode(self);
}

/// A pin that carries the encoder's second channel.
pub trait PinCh2<TIM> {
    fn into_alt_mode(self);
}

impl<TIM, CH1, CH2> Pins<TIM> for (CH1, CH2) where CH1: PinCh1<TIM>, CH2: PinCh2<TIM> {
    fn into_alt_mode(self) {
        self.0.into_alt_mode();
        self.1.into_alt_mode();
    }
}

/// The timers that can read an encoder.
#[derive(Debug, Clone, Copy, PartialEq, Eq, Structural)]
pub enum TimerInstance {
    Tim2,
    Tim21,
}

/// The alternate function that makes pin `pin` of `port` the input of
/// channel `channel` (1 or 2) of `timer`, if it can be; the pin is taken
/// in analog mode.
pub open spec fn pin_alt_mode_spec(timer: TimerInstance, channel: u32, port: Port, pin: u8) -> Option<AltMode> {
    match timer {
        TimerInstance::Tim2 => {
            if channel == 1 && port == Port::PA && pin == 0 {
                Some(AltMode::AF2)
            } else if channel == 2 && port == Port::PA && pin == 1 {
                Some(AltMode::AF2)
            } else {
                None
            }
        },
        TimerInstance::Tim21 => {
            if channel == 1 && port == Port::PB && pin == 13 {
                Some(AltMode::AF6)
            } else if channel == 2 && port == Port::PB && pin == 14 {
                Some(AltMode::AF6)
            } else {
                None
            }
        },
    }
}

/// The alternate function that makes pin `pin` of `port` the input of
/// channel `channel` of `timer` (see [`pin_alt_mode_spec`]); `None` for a
/// pin that cannot carry it.
pub fn pin_alt_mode(timer: TimerInstance, channel: u32, port: Port, pin: u8) -> (r: Option<AltMode>)
    ensures
        r == pin_alt_mode_spec(timer, channel, port, pin),
{
    match timer {
        TimerInstance::Tim2 => {
            if channel == 1 && port == Port::PA && pin == 0 {
                Some(AltMode::AF2)
            } else if channel == 2 && port == Port::PA && pin == 1 {
                Some(AltMode::AF2)
            } else {
                None
            }
        },
        TimerInstance::Tim21 => {
            if channel == 1 && port == Port::PB && pin == 13 {
                Some(AltMode::AF6)
            } else if channel == 2 && port == Port::PB && pin == 14 {
                Some(AltMode::AF6)
            } else {
                None
            }
        },
    }
}

/// Encoder direction.
#[derive(Debug, PartialEq, Eq, Copy, Clone, Structural)]
pub enum Direction {
    /// Encoder is counting up.
    Up,
    /// Encoder is counting down.
    Down,
}

/// Encoder status.
#[derive(Debug, PartialEq, Eq, Copy, Clone, Structural)]
pub struct Status {
    /// Encoder direction.
    pub direction: Direction,
    /// Overflow flag.
    pub did_overflow: bool,
    /// Current encoder count.
    pub count: u16,
}

/// Encoder mode. See `TIMx_SMCR.SMS` item in datasheet.
#[derive(Debug, PartialEq, Eq, Copy, Clone, Structural)]
pub enum Mode {
    /// Encoder mode 1 (`SMS` = 0b001) - Counter counts up/down on TI2FP1 edge depending on TI1FP2 level.
    CountTi2,
    /// Encoder mode 2 (`SMS` = 0b010) - Counter counts up/down on TI1FP2 edge depending on TI2FP1 level.
    CountTi1,
    ///  Encoder mode 3 (`SMS` = 0b011, AKA quadrature mode) - Counter counts up/down on both TI1FP1 and TI2FP2 edges depending on the level of the other input.
    Qei,
}

impl Mode {
    /// The value of the `SMS` field.
    pub open spec fn spec_sms(self) -> u32 {
        match self {
            Mode::CountTi2 => 0b001,
            Mode::CountTi1 => 0b010,
            Mode::Qei => 0b011,
        }
    }

    fn sms(&self) -> (r: u32)
        ensures
            r == self.spec_sms(),
    {
        match self {
            Mode::CountTi2 => 0b001,
            Mode::CountTi1 => 0b010,
            Mode::Qei => 0b011,
        }
    }
}

/// The register writes that start an encoder, in order.
#[derive(Debug, PartialEq, Eq, Copy, Clone, Structural)]
pub struct EncoderSetup {
    /// `CR1` with the counter disabled, for the configuration.
    pub cr1_disable: u32,
    /// `SMCR`: trigger on the TI1 edge detector, the mode's encoder mode.
    pub smcr: u32,
    /// `CR1`: interrupt only on over/underflow, counter enabled. After it,
    /// two counter clock cycles pass before the counter runs.
    pub cr1_enable: u32,
    /// `ARR`, the auto-reload value.
    pub arr: u32,
}

/// The `SMCR` value of an encoder in `mode`.
pub open spec fn smcr_value(mode: Mode) -> u32 {
    with_field(with_field(0, SMCR_TS, 3, TS_TI1F_ED), SMCR_SMS, 3, mode.spec_sms())
}

/// The `CR1` value that starts the counter.
pub open spec fn cr1_enable_value() -> u32 {
    with_field(with_field(0, CR1_URS, 1, 1), CR1_CEN, 1, 1)
}

/// An encoder on timer `T`, with its auto-reload and interrupt enable
/// registers as plain values.
pub struct Encoder<T, PINS> {
    timer: T,
    arr: u16,
    dier: u32,
    _pins: PhantomData<PINS>,
}

impl<T, PINS> Encoder<T, PINS> {
    /// The auto-reload value.
    pub closed spec fn spec_arr(&self) -> u16 {
        self.arr
    }

    /// The interrupt enable register.
    pub closed spec fn spec_dier(&self) -> u32 {
        self.dier
    }

    /// Sets up `timer` as an encoder in `mode` that counts up to `arr`, with
    /// `pins` put into their alternate functions.
    pub fn new(timer: T, pins: PINS, mode: Mode, arr: u16) -> (r: (Self, EncoderSetup))
        where
            PINS: Pins<T>,
        ensures
            r.1 == (EncoderSetup {
                cr1_disable: 0,
                smcr: smcr_value(mode),
                cr1_enable: cr1_enable_value(),
                arr: arr as u32,
            }),
            r.0.spec_arr() == arr,
            r.0.spec_dier() == 0,
    {
        proof {
            lemma_low_masks();
        }
        let cr1_disable = write_field(0, CR1_CEN, 1, 0);
        pins.into_alt_mode();
        let smcr = write_field(0, SMCR_TS, 3, TS_TI1F_ED);
        let smcr = write_field(smcr, SMCR_SMS, 3, mode.sms());
        let cr1 = write_field(0, CR1_URS, 1, 1);
        let cr1_enable = write_field(cr1, CR1_CEN, 1, 1);
        assert(with_field(0, CR1_CEN, 1, 0) == 0) by (bit_vector);
        let mut e = Encoder { timer, arr: 0xffff, dier: 0, _pins: PhantomData };
        let arr_reg = e.set_arr(arr);
        (e, EncoderSetup { cr1_disable, smcr, cr1_enable, arr: arr_reg })
    }

    /// Get the ARR (Auto Reload Register) value.
    pub fn arr(&mut self) -> (r: u16)
        ensures
            r == old(self).spec_arr(),
            final(self).spec_arr() == old(self).spec_arr(),
            final(self).spec_dier() == old(self).spec_dier(),
    {
        self.arr
    }

    /// Set ARR (Auto Reload Register) value: the register value to write.
    ///
    /// ARR may only be set when timer is enabled.
    pub fn set_arr(&mut self, arr: u16) -> (r: u32)
        ensures
            r == arr as u32,
            final(self).spec_arr() == arr,
            final(self).spec_dier() == old(self).spec_dier(),
    {
        self.arr = arr;
        arr as u32
    }

    /// Listen for over/underflow interrupts: the interrupt enable register
    /// value to write.
    pub fn listen(&mut self) -> (r: u32)
        ensures
            r == with_field(0, DIER_UIE, 1, 1),
            final(self).spec_dier() == r,
            final(self).spec_arr() == old(self).spec_arr(),
    {
        proof {
            lemma_low_masks();
        }
        self.dier = write_field(0, DIER_UIE, 1, 1);
        self.dier
    }

    /// Listen for over/underflow interrupts, as well as IO triggers: the two
    /// interrupt enable register values written one after the other. Each
    /// write replaces the whole register, so the second one, which enables
    /// the trigger interrupt, is what remains.
    pub fn listen_all(&mut self) -> (r: (u32, u32))
        ensures
            r.0 == with_field(0, DIER_UIE, 1, 1),
            r.1 == with_field(0, DIER_TIE, 1, 1),
            final(self).spec_dier() == r.1,
            final(self).spec_arr() == old(self).spec_arr(),
    {
        proof {
            lemma_low_masks();
        }
        let first = self.listen();
        self.dier = write_field(0, DIER_TIE, 1, 1);
        (first, self.dier)
    }

    /// Get the current encoder status, from the control register `cr1`, the
    /// status register `sr` and the counter `cnt`.
    ///
    /// Note that calling `clear_irq` before this method will clear the `did_overflow` flag.
    pub fn status(&mut self, cr1: u32, sr: u32, cnt: u32) -> (r: Status)
        ensures
            r.direction == (if bit_set(cr1, CR1_DIR) {
                Direction::Down
            } else {
                Direction::Up
            }),
            r.did_overflow == bit_set(sr, SR_UIF),
            r.count == #[verifier::truncate] (cnt as u16),
            final(self).spec_arr() == old(self).spec_arr(),
            final(self).spec_dier() == old(self).spec_dier(),
    {
        proof {
            lemma_low_masks();
        }
        let is_dir_up = read_field(cr1, CR1_DIR, 1) == 0;
        let did_overflow = read_field(sr, SR_UIF, 1) == 1;
        let count = #[verifier::truncate] (cnt as u16);
        let direction = if is_dir_up {
            Direction::Up
        } else {
            Direction::Down
        };
        Status { direction, did_overflow, count }
    }

    /// Clear all interrupts: the status register value to write, its reset
    /// value.
    pub fn clear_irq(&mut self) -> (r: u32)
        ensures
            r == 0,
            final(self).spec_arr() == old(self).spec_arr(),
            final(self).spec_dier() == old(self).spec_dier(),
    {
        0
    }
}

} // verus!
