//! Pulse width modulation on the general purpose timers TIM2 and TIM3
use core::marker::PhantomData;
use vstd::prelude::*;

use crate::bits::{disjoint, field, lemma_low_masks, write_field};
use crate::gpio::{AltMode, Port};
use crate::timer::{clock_config_ok, get_clock_config, prescaler, ticks};
use crate::time::Hertz;

verus! {

/// A PWM timer: the timer peripheral and its four channels.
pub struct Timer<I> {
    instance: I,
    pub channel1: Pwm<I, C1, Unassigned>,
    pub channel2: Pwm<I, C2, Unassigned>,
    pub channel3: Pwm<I, C3, Unassigned>,
    pub channel4: Pwm<I, C4, Unassigned>,
}

impl<I> Timer<I> {
    /// A PWM timer on `timer`, with all channels unassigned, together with
    /// the prescaler and auto-reload values (`PSC`, `ARR`) that make it run
    /// at `frequency` from the timer clock `clk`.
    pub fn new(timer: I, frequency: Hertz, clk: u32) -> (r: (Self, (u16, u16)))
        requires
            clock_config_ok(frequency.0, clk),
        ensures
            r.1 == frequency_config_spec(frequency.0, clk),
            r.0.spec_instance() == timer,
    {
        let tim = Self {
            instance: timer,
            channel1: Pwm::new(),
            channel2: Pwm::new(),
            channel3: Pwm::new(),
            channel4: Pwm::new(),
        };
        let config = get_clock_config(frequency.0, clk);
        (tim, config)
    }

    /// The prescaler and auto-reload values (`PSC`, `ARR`) that change the
    /// frequency of the timer, and of all its channels, to `frequency`.
    pub fn set_frequency(&mut self, frequency: Hertz, clk: u32) -> (r: (u16, u16))
        requires
            clock_config_ok(frequency.0, clk),
        ensures
            r == frequency_config_spec(frequency.0, clk),
            final(self).spec_instance() == old(self).spec_instance(),
    {
        get_clock_config(frequency.0, clk)
    }

    /// Starts the PWM timer: the control register value `CR1` with the
    /// counter enabled (`CEN`, bit 0) over the reset value.
    pub fn start(&mut self) -> (r: u32)
        ensures
            r == 1,
            final(self).spec_instance() == old(self).spec_instance(),
    {
        1
    }

    /// Stops the PWM timer: the control register value `CR1` with the
    /// counter disabled over the reset value.
    pub fn stop(&mut self) -> (r: u32)
        ensures
            r == 0,
            final(self).spec_instance() == old(self).spec_instance(),
    {
        0
    }

    /// The timer peripheral.
    pub closed spec fn spec_instance(&self) -> I {
        self.instance
    }

    /// Returns the timer, so it can be used by any else
    pub fn free(self) -> (r: I)
        ensures
            r == self.spec_instance(),
    {
        self.instance
    }
}

/// The prescaler and auto-reload values for `freq` at timer clock `clk`.
pub open spec fn frequency_config_spec(freq: u32, clk: u32) -> (u16, u16) {
    (
        prescaler(ticks(freq, clk)) as u16,
        (ticks(freq, clk) / (prescaler(ticks(freq, clk)) + 1)) as u16,
    )
}

/// The capture/compare registers of a timer, as plain values.
#[derive(Debug, Clone, Copy, PartialEq, Eq, Structural)]
pub struct ChannelRegisters {
    /// Capture/compare mode register 1 (channels 1 and 2)
    pub ccmr1: u32,
    /// Capture/compare mode register 2 (channels 3 and 4)
    pub ccmr2: u32,
    /// Capture/compare enable register
    pub ccer: u32,
}

/// Output compare mode "PWM mode 1" (`OCxM`).
pub const PWM_MODE_1: u32 = 0b110;

/// A timer channel.
pub trait Channel {
    /// The channel number, 1 to 4.
    spec fn spec_number() -> u32;

    /// The channel number, 1 to 4.
    fn number() -> (r: u32)
        ensures
            r == Self::spec_number(),
            1 <= r <= 4,
    ;
}

/// Channel 1
pub struct C1;

/// Channel 2
pub struct C2;

/// Channel 3
pub struct C3;

/// Channel 4
pub struct C4;

impl Channel for C1 {
    open spec fn spec_number() -> u32 {
        1
    }

    fn number() -> (r: u32) {
        1
    }
}

impl Channel for C2 {
    open spec fn spec_number() -> u32 {
        2
    }

    fn number() -> (r: u32) {
        2
    }
}

impl Channel for C3 {
    open spec fn spec_number() -> u32 {
        3
    }

    fn number() -> (r: u32) {
        3
    }
}

impl Channel for C4 {
    open spec fn spec_number() -> u32 {
        4
    }

    fn number() -> (r: u32) {
        4
    }
}

/// The `CCxE` bit of channel `n` in `CCER`.
pub open spec fn ccer_bit(n: u32) -> u32 {
    (4 * (n - 1)) as u32
}

/// The first bit of the channel's half of its `CCMRx` register:
/// `OCxPE` is this bit plus 3, `OCxM` the three bits from this bit plus 4.
pub open spec fn ccmr_base(n: u32) -> u32 {
    if n % 2 == 1 {
        0
    } else {
        8
    }
}

/// Where the bits of each channel are: `CCnE` is bit `4 (n - 1)` of `CCER`;
/// channels 1 and 2 share `CCMR1`, channels 3 and 4 share `CCMR2`; of each
/// pair the odd channel uses the low byte and the even one the byte above
/// it, with `OCnPE` at bit 3 and `OCnM` at bits 4 to 6 of that byte.
pub proof fn lemma_channel_bits(n: u32)
    requires
        1 <= n <= 4,
    ensures
        ccer_bit(n) == 4 * (n - 1),
        ocpe_bit(n) == 3 + 8 * ((n - 1) % 2),
        ocm_bit(n) == 4 + 8 * ((n - 1) % 2),
        ocpe_bit(1) == 3 && ocm_bit(1) == 4,
        ocpe_bit(2) == 11 && ocm_bit(2) == 12,
        ocpe_bit(3) == 3 && ocm_bit(3) == 4,
        ocpe_bit(4) == 11 && ocm_bit(4) == 12,
{
}

/// The first of the three `OCxM` bits of channel `n` in its `CCMRx`.
pub open spec fn ocm_bit(n: u32) -> u32 {
    (ccmr_base(n) + 4) as u32
}

/// The `OCxPE` bit of channel `n` in its `CCMRx`.
pub open spec fn ocpe_bit(n: u32) -> u32 {
    (ccmr_base(n) + 3) as u32
}

/// A PWM channel of timer `I`.
pub struct Pwm<I, C, State> {
    channel: PhantomData<C>,
    timer: PhantomData<I>,
    _state: State,
}

impl<I, C> Pwm<I, C, Unassigned> {
    fn new() -> Self {
        Self { channel: PhantomData, timer: PhantomData, _state: Unassigned }
    }

    /// Assigns the channel to `pin`, which is set up for it.
    pub fn assign<P>(self, pin: P) -> (r: Pwm<I, C, Assigned<P>>)
        where
            P: Pin<I, C>,
        ensures
            r.spec_pin() == pin,
    {
        pin.setup();
        Pwm { channel: self.channel, timer: self.timer, _state: Assigned(pin) }
    }
}

impl<I, C, P> Pwm<I, C, Assigned<P>> {
    /// The pin the channel is assigned to.
    pub closed spec fn spec_pin(&self) -> P {
        self._state.0
    }
}

impl<I, C: Channel, P> Pwm<I, C, Assigned<P>> {
    /// Enables the channel's output: PWM mode 1 with preload, and the
    /// output enabled; the other channels keep their settings.
    pub fn enable(&mut self, regs: &mut ChannelRegisters)
        ensures
            field(final(regs).ccer, ccer_bit(C::spec_number()), 1) == 1,
            C::spec_number() <= 2 ==> field(final(regs).ccmr1, ocm_bit(C::spec_number()), 3)
                == PWM_MODE_1 && field(final(regs).ccmr1, ocpe_bit(C::spec_number()), 1) == 1
                && final(regs).ccmr2 == old(regs).ccmr2,
            C::spec_number() > 2 ==> field(final(regs).ccmr2, ocm_bit(C::spec_number()), 3)
                == PWM_MODE_1 && field(final(regs).ccmr2, ocpe_bit(C::spec_number()), 1) == 1
                && final(regs).ccmr1 == old(regs).ccmr1,
            forall|m: u32|
                1 <= m <= 4 && m != C::spec_number() ==> #[trigger] field(
                    final(regs).ccer,
                    ccer_bit(m),
                    1,
                ) == field(old(regs).ccer, ccer_bit(m), 1),
            // The same, in bit numbers: CCnE is bit 4 (n - 1) of CCER;
            // channels 1 and 3 use the low byte of their CCMR register,
            // channels 2 and 4 the byte above it (OCnPE at 3, OCnM at 4 to
            // 6 within it), and the other channel's byte stays as it was.
            field(final(regs).ccer, (4 * (C::spec_number() - 1)) as u32, 1) == 1,
            C::spec_number() <= 2 ==> {
                &&& field(
                    final(regs).ccmr1,
                    (4 + 8 * ((C::spec_number() - 1) % 2)) as u32,
                    3,
                ) == 0b110
                &&& field(final(regs).ccmr1, (3 + 8 * ((C::spec_number() - 1) % 2)) as u32, 1)
                    == 1
                &&& field(final(regs).ccmr1, (8 - 8 * ((C::spec_number() - 1) % 2)) as u32, 8)
                    == field(old(regs).ccmr1, (8 - 8 * ((C::spec_number() - 1) % 2)) as u32, 8)
            },
            C::spec_number() >= 3 ==> {
                &&& field(
                    final(regs).ccmr2,
                    (4 + 8 * ((C::spec_number() - 1) % 2)) as u32,
                    3,
                ) == 0b110
                &&& field(final(regs).ccmr2, (3 + 8 * ((C::spec_number() - 1) % 2)) as u32, 1)
                    == 1
                &&& field(final(regs).ccmr2, (8 - 8 * ((C::spec_number() - 1) % 2)) as u32, 8)
                    == field(old(regs).ccmr2, (8 - 8 * ((C::spec_number() - 1) % 2)) as u32, 8)
            },
    {
        proof {
            lemma_low_masks();
        }
        let n = C::number();
        proof {
            lemma_channel_bits(n);
        }
        let base: u32 = if n % 2 == 1 { 0 } else { 8 };
        if n <= 2 {
            regs.ccmr1 = write_field(regs.ccmr1, base + 3, 1, 1);
            regs.ccmr1 = write_field(regs.ccmr1, base + 4, 3, PWM_MODE_1);
            assert(disjoint((base + 4) as u32, 3, (base + 3) as u32, 1));
            assert(disjoint((base + 4) as u32, 3, (8 - base) as u32, 8));
            assert(disjoint((base + 3) as u32, 1, (8 - base) as u32, 8));
        } else {
            regs.ccmr2 = write_field(regs.ccmr2, base + 3, 1, 1);
            regs.ccmr2 = write_field(regs.ccmr2, base + 4, 3, PWM_MODE_1);
            assert(disjoint((base + 4) as u32, 3, (base + 3) as u32, 1));
            assert(disjoint((base + 4) as u32, 3, (8 - base) as u32, 8));
            assert(disjoint((base + 3) as u32, 1, (8 - base) as u32, 8));
        }
        let bit: u32 = 4 * (n - 1);
        regs.ccer = write_field(regs.ccer, bit, 1, 1);
        assert forall|m: u32| 1 <= m <= 4 && m != n implies #[trigger] field(
            regs.ccer,
            ccer_bit(m),
            1,
        ) == field(old(regs).ccer, ccer_bit(m), 1) by {
            assert(disjoint(bit, 1, ccer_bit(m), 1));
        }
    }

    /// Disables the channel's output; the other channels keep theirs.
    pub fn disable(&mut self, regs: &mut ChannelRegisters)
        ensures
            field(final(regs).ccer, ccer_bit(C::spec_number()), 1) == 0,
            field(final(regs).ccer, (4 * (C::spec_number() - 1)) as u32, 1) == 0,
            final(regs).ccmr1 == old(regs).ccmr1,
            final(regs).ccmr2 == old(regs).ccmr2,
            forall|m: u32|
                1 <= m <= 4 && m != C::spec_number() ==> #[trigger] field(
                    final(regs).ccer,
                    ccer_bit(m),
                    1,
                ) == field(old(regs).ccer, ccer_bit(m), 1),
    {
        proof {
            lemma_low_masks();
        }
        let n = C::number();
        proof {
            lemma_channel_bits(n);
        }
        let bit: u32 = 4 * (n - 1);
        regs.ccer = write_field(regs.ccer, bit, 1, 0);
        assert forall|m: u32| 1 <= m <= 4 && m != n implies #[trigger] field(
            regs.ccer,
            ccer_bit(m),
            1,
        ) == field(old(regs).ccer, ccer_bit(m), 1) by {
            assert(disjoint(bit, 1, ccer_bit(m), 1));
        }
    }

    /// The prescaler and auto-reload values (`PSC`, `ARR`) that change the
    /// frequency of the underlying timer to `frequency`, from the timer
    /// clock `clk`.
    ///
    /// This changes the frequency for all channels of the timer.
    pub fn set_frequency(&mut self, frequency: Hertz, clk: u32) -> (r: (u16, u16))
        requires
            clock_config_ok(frequency.0, clk),
        ensures
            r == frequency_config_spec(frequency.0, clk),
            *final(self) == *old(self),
    {
        get_clock_config(frequency.0, clk)
    }

    /// The pin the channel is assigned to.
    pub fn pin(&self) -> (r: &P)
        ensures
            *r == self.spec_pin(),
    {
        &self._state.0
    }
}

/// A pin that can be assigned to channel `C` of timer `I`.
pub trait Pin<I, C> {
    /// Puts the pin into the alternate function of the channel.
    fn setup(&self);
}

/// The PWM timers of the STM32L072/L073.
#[derive(Debug, Clone, Copy, PartialEq, Eq, Structural)]
pub enum TimerInstance {
    Tim2,
    Tim3,
}

/// The alternate function that makes pin `pin` of `port` the output of
/// channel `channel` (1 to 4) of `timer`, if it can be.
pub open spec fn pin_alt_mode_spec(timer: TimerInstance, channel: u32, port: Port, pin: u8) -> Option<AltMode> {
    match timer {
        TimerInstance::Tim2 => {
            if channel == 1 && port == Port::PA && pin == 0 {
                Some(AltMode::AF2)
            } else if channel == 1 && port == Port::PA && pin == 5 {
                Some(AltMode::AF5)
            } else if channel == 1 && port == Port::PA && pin == 15 {
                Some(AltMode::AF5)
            } else if channel == 1 && port == Port::PE && pin == 9 {
                Some(AltMode::AF0)
            } else if channel == 2 && port == Port::PA && pin == 1 {
                Some(AltMode::AF2)
            } else if channel == 2 && port == Port::PB && pin == 3 {
                Some(AltMode::AF2)
            } else if channel == 2 && port == Port::PE && pin == 10 {
                Some(AltMode::AF0)
            } else if channel == 3 && port == Port::PA && pin == 2 {
                Some(AltMode::AF2)
            } else if channel == 3 && port == Port::PB && pin == 10 {
                Some(AltMode::AF2)
            } else if channel == 3 && port == Port::PE && pin == 11 {
                Some(AltMode::AF0)
            } else if channel == 4 && port == Port::PA && pin == 3 {
                Some(AltMode::AF2)
            } else if channel == 4 && port == Port::PB && pin == 11 {
                Some(AltMode::AF2)
            } else if channel == 4 && port == Port::PE && pin == 12 {
                Some(AltMode::AF0)
            } else {
                None
            }
        },
        TimerInstance::Tim3 => {
            if channel == 1 && port == Port::PA && pin == 6 {
                Some(AltMode::AF2)
            } else if channel == 1 && port == Port::PB && pin == 4 {
                Some(AltMode::AF2)
            } else if channel == 1 && port == Port::PC && pin == 6 {
                Some(AltMode::AF2)
            } else if channel == 1 && port == Port::PE && pin == 3 {
                Some(AltMode::AF2)
            } else if channel == 2 && port == Port::PA && pin == 7 {
                Some(AltMode::AF2)
            } else if channel == 2 && port == Port::PB && pin == 5 {
                Some(AltMode::AF4)
            } else if channel == 2 && port == Port::PC && pin == 7 {
                Some(AltMode::AF2)
            } else if channel == 2 && port == Port::PE && pin == 4 {
                Some(AltMode::AF2)
            } else if channel == 3 && port == Port::PB && pin == 0 {
                Some(AltMode::AF2)
            } else if channel == 3 && port == Port::PC && pin == 8 {
                Some(AltMode::AF2)
            } else if channel == 3 && port == Port::PE && pin == 5 {
                Some(AltMode::AF2)
            } else if channel == 4 && port == Port::PB && pin == 1 {
                Some(AltMode::AF2)
            } else if channel == 4 && port == Port::PC && pin == 9 {
                Some(AltMode::AF2)
            } else if channel == 4 && port == Port::PE && pin == 6 {
                Some(AltMode::AF2)
            } else {
                None
            }
        },
    }
}

/// The alternate function that makes pin `pin` of `port` the output of
/// channel `channel` of `timer` (see [`pin_alt_mode_spec`]); `None` for a
/// pin that cannot carry it.
pub fn pin_alt_mode(timer: TimerInstance, channel: u32, port: Port, pin: u8) -> (r: Option<AltMode>)
    ensures
        r == pin_alt_mode_spec(timer, channel, port, pin),
{
    match timer {
        TimerInstance::Tim2 => {
            if channel == 1 && port == Port::PA && pin == 0 {
                Some(AltMode::AF2)
            } else if channel == 1 && port == Port::PA && pin == 5 {
                Some(AltMode::AF5)
            } else if channel == 1 && port == Port::PA && pin == 15 {
                Some(AltMode::AF5)
            } else if channel == 1 && port == Port::PE && pin == 9 {
                Some(AltMode::AF0)
            } else if channel == 2 && port == Port::PA && pin == 1 {
                Some(AltMode::AF2)
            } else if channel == 2 && port == Port::PB && pin == 3 {
                Some(AltMode::AF2)
            } else if channel == 2 && port == Port::PE && pin == 10 {
                Some(AltMode::AF0)
            } else if channel == 3 && port == Port::PA && pin == 2 {
                Some(AltMode::AF2)
            } else if channel == 3 && port == Port::PB && pin == 10 {
                Some(AltMode::AF2)
            } else if channel == 3 && port == Port::PE && pin == 11 {
                Some(AltMode::AF0)
            } else if channel == 4 && port == Port::PA && pin == 3 {
                Some(AltMode::AF2)
            } else if channel == 4 && port == Port::PB && pin == 11 {
                Some(AltMode::AF2)
            } else if channel == 4 && port == Port::PE && pin == 12 {
                Some(AltMode::AF0)
            } else {
                None
            }
        },
        TimerInstance::Tim3 => {
            if channel == 1 && port == Port::PA && pin == 6 {
                Some(AltMode::AF2)
            } else if channel == 1 && port == Port::PB && pin == 4 {
                Some(AltMode::AF2)
            } else if channel == 1 && port == Port::PC && pin == 6 {
                Some(AltMode::AF2)
            } else if channel == 1 && port == Port::PE && pin == 3 {
                Some(AltMode::AF2)
            } else if channel == 2 && port == Port::PA && pin == 7 {
                Some(AltMode::AF2)
            } else if channel == 2 && port == Port::PB && pin == 5 {
                Some(AltMode::AF4)
            } else if channel == 2 && port == Port::PC && pin == 7 {
                Some(AltMode::AF2)
            } else if channel == 2 && port == Port::PE && pin == 4 {
                Some(AltMode::AF2)
            } else if channel == 3 && port == Port::PB && pin == 0 {
                Some(AltMode::AF2)
            } else if channel == 3 && port == Port::PC && pin == 8 {
                Some(AltMode::AF2)
            } else if channel == 3 && port == Port::PE && pin == 5 {
                Some(AltMode::AF2)
            } else if channel == 4 && port == Port::PB && pin == 1 {
                Some(AltMode::AF2)
            } else if channel == 4 && port == Port::PC && pin == 9 {
                Some(AltMode::AF2)
            } else if channel == 4 && port == Port::PE && pin == 6 {
                Some(AltMode::AF2)
            } else {
                None
            }
        },
    }
}

/// Indicates that a PWM channel has not been assigned to a pin
pub struct Unassigned;

/// Indicates that a PWM channel has been assigned to the given pin
pub struct Assigned<P>(P);

} // verus!
