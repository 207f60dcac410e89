//! General Purpose Input / Output
use core::marker::PhantomData;
use vstd::prelude::*;

use crate::bits::{bit_set, disjoint, field, lemma_low_masks, low_mask, write_field};

verus! {

/// Input mode (type state)
pub struct Input<MODE> {
    _mode: PhantomData<MODE>,
}

/// Floating input (type state)
pub struct Floating;

/// Pulled down input (type state)
pub struct PullDown;

/// Pulled up input (type state)
pub struct PullUp;

/// Open drain input or output (type state)
pub struct OpenDrain;

/// Analog mode (type state)
pub struct Analog;

/// Output mode (type state)
pub struct Output<MODE> {
    _mode: PhantomData<MODE>,
}

/// Push pull output (type state)
pub struct PushPull;

/// Sealing of `PinMode`: only the modes of this module are pin modes.
pub trait Sealed {

}

impl Sealed for Input<Floating> {

}

impl Sealed for Input<PullDown> {

}

impl Sealed for Input<PullUp> {

}

impl Sealed for Analog {

}

impl Sealed for Output<OpenDrain> {

}

impl Sealed for Output<PushPull> {

}

/// Marker trait for valid pin modes (type state).
///
/// It can not be implemented by outside types.
pub trait PinMode: Sealed {
    /// The `PUPDR` field of a pin in this mode.
    spec fn spec_pupdr() -> u8;

    /// The `MODER` field of a pin in this mode.
    spec fn spec_moder() -> u8;

    /// The `OTYPER` bit of a pin in this mode, for the modes that set it.
    spec fn spec_otyper() -> Option<u8>;

    /// The `PUPDR` field of a pin in this mode.
    fn pupdr() -> (r: u8)
        ensures
            r == Self::spec_pupdr(),
            r < 4,
    ;

    /// The `MODER` field of a pin in this mode.
    fn moder() -> (r: u8)
        ensures
            r == Self::spec_moder(),
            r < 4,
    ;

    /// The `OTYPER` bit of a pin in this mode, for the modes that set it.
    fn otyper() -> (r: Option<u8>)
        ensures
            r == Self::spec_otyper(),
            r matches Some(b) ==> b < 2,
    ;
}

impl PinMode for Input<Floating> {
    open spec fn spec_pupdr() -> u8 {
        0b00
    }

    open spec fn spec_moder() -> u8 {
        0b00
    }

    open spec fn spec_otyper() -> Option<u8> {
        None
    }

    fn pupdr() -> (r: u8) {
        0b00
    }

    fn moder() -> (r: u8) {
        0b00
    }

    fn otyper() -> (r: Option<u8>) {
        None
    }
}

impl PinMode for Input<PullDown> {
    open spec fn spec_pupdr() -> u8 {
        0b10
    }

    open spec fn spec_moder() -> u8 {
        0b00
    }

    open spec fn spec_otyper() -> Option<u8> {
        None
    }

    fn pupdr() -> (r: u8) {
        0b10
    }

    fn moder() -> (r: u8) {
        0b00
    }

    fn otyper() -> (r: Option<u8>) {
        None
    }
}

impl PinMode for Input<PullUp> {
    open spec fn spec_pupdr() -> u8 {
        0b01
    }

    open spec fn spec_moder() -> u8 {
        0b00
    }

    open spec fn spec_otyper() -> Option<u8> {
        None
    }

    fn pupdr() -> (r: u8) {
        0b01
    }

    fn moder() -> (r: u8) {
        0b00
    }

    fn otyper() -> (r: Option<u8>) {
        None
    }
}

impl PinMode for Analog {
    open spec fn spec_pupdr() -> u8 {
        0b00
    }

    open spec fn spec_moder() -> u8 {
        0b11
    }

    open spec fn spec_otyper() -> Option<u8> {
        None
    }

    fn pupdr() -> (r: u8) {
        0b00
    }

    fn moder() -> (r: u8) {
        0b11
    }

    fn otyper() -> (r: Option<u8>) {
        None
    }
}

impl PinMode for Output<OpenDrain> {
    open spec fn spec_pupdr() -> u8 {
        0b00
    }

    open spec fn spec_moder() -> u8 {
        0b01
    }

    open spec fn spec_otyper() -> Option<u8> {
        Some(0b1)
    }

    fn pupdr() -> (r: u8) {
        0b00
    }

    fn moder() -> (r: u8) {
        0b01
    }

    fn otyper() -> (r: Option<u8>) {
        Some(0b1)
    }
}

impl PinMode for Output<PushPull> {
    open spec fn spec_pupdr() -> u8 {
        0b00
    }

    open spec fn spec_moder() -> u8 {
        0b01
    }

    open spec fn spec_otyper() -> Option<u8> {
        Some(0b0)
    }

    fn pupdr() -> (r: u8) {
        0b00
    }

    fn moder() -> (r: u8) {
        0b01
    }

    fn otyper() -> (r: Option<u8>) {
        Some(0b0)
    }
}

/// GPIO Pin speed selection
#[derive(Debug, Copy, Clone, PartialEq, Eq, Structural)]
pub enum Speed {
    Low,
    Medium,
    High,
    VeryHigh,
}

impl Speed {
    /// The value of the `OSPEEDR` field.
    pub open spec fn spec_bits(self) -> u8 {
        match self {
            Speed::Low => 0,
            Speed::Medium => 1,
            Speed::High => 2,
            Speed::VeryHigh => 3,
        }
    }

    /// The value of the `OSPEEDR` field.
    pub fn bits(&self) -> (r: u8)
        ensures
            r == self.spec_bits(),
    {
        match self {
            Speed::Low => 0,
            Speed::Medium => 1,
            Speed::High => 2,
            Speed::VeryHigh => 3,
        }
    }
}

/// Alternate function
#[derive(Debug, Copy, Clone, PartialEq, Eq, Structural)]
pub enum AltMode {
    AF0,
    AF1,
    AF2,
    AF3,
    AF4,
    AF5,
    AF6,
    AF7,
}

impl AltMode {
    /// The value of the `AFSELy` field.
    pub open spec fn spec_bits(self) -> u8 {
        match self {
            AltMode::AF0 => 0,
            AltMode::AF1 => 1,
            AltMode::AF2 => 2,
            AltMode::AF3 => 3,
            AltMode::AF4 => 4,
            AltMode::AF5 => 5,
            AltMode::AF6 => 6,
            AltMode::AF7 => 7,
        }
    }

    /// The value of the `AFSELy` field.
    pub fn bits(&self) -> (r: u8)
        ensures
            r == self.spec_bits(),
    {
        match self {
            AltMode::AF0 => 0,
            AltMode::AF1 => 1,
            AltMode::AF2 => 2,
            AltMode::AF3 => 3,
            AltMode::AF4 => 4,
            AltMode::AF5 => 5,
            AltMode::AF6 => 6,
            AltMode::AF7 => 7,
        }
    }
}

/// GPIO port
#[derive(Copy, Clone, Debug, PartialEq, Eq, Structural)]
pub enum Port {
    PA,
    PB,
    PC,
    PD,
    PE,
    PH,
}

/// The configuration registers of a GPIO port, as plain values.
#[derive(Copy, Clone, Debug, PartialEq, Eq, Structural)]
pub struct GpioRegisters {
    pub moder: u32,
    pub otyper: u32,
    pub ospeedr: u32,
    pub pupdr: u32,
    pub afrl: u32,
    pub afrh: u32,
}

/// The alternate function of pin `i` in a port's registers.
pub open spec fn alt_function(regs: GpioRegisters, i: u32) -> u32 {
    if i < 8 {
        field(regs.afrl, (4 * i) as u32, 4)
    } else {
        field(regs.afrh, (4 * (i - 8)) as u32, 4)
    }
}

impl GpioRegisters {
    /// Puts pin `i` into mode `M`: its `PUPDR`, `MODER` and (for outputs)
    /// `OTYPER` fields take the mode's values; all other pins keep theirs.
    pub fn set_mode<M: PinMode>(&mut self, i: u8)
        requires
            i < 16,
        ensures
            field(final(self).pupdr, (2 * i) as u32, 2) == M::spec_pupdr(),
            field(final(self).moder, (2 * i) as u32, 2) == M::spec_moder(),
            M::spec_otyper() matches Some(b) ==> field(final(self).otyper, i as u32, 1) == b,
            M::spec_otyper() is None ==> final(self).otyper == old(self).otyper,
            forall|j: u32|
                j < 16 && j != i ==> #[trigger] field(final(self).pupdr, (2 * j) as u32, 2) == field(
                    old(self).pupdr,
                    (2 * j) as u32,
                    2,
                ) && field(final(self).moder, (2 * j) as u32, 2) == field(old(self).moder, (2 * j) as u32, 2)
                    && field(final(self).otyper, j, 1) == field(old(self).otyper, j, 1),
            final(self).ospeedr == old(self).ospeedr,
            final(self).afrl == old(self).afrl,
            final(self).afrh == old(self).afrh,
    {
        proof {
            lemma_low_masks();
        }
        let offset: u32 = 2 * i as u32;
        let old_otyper = self.otyper;
        let pupdr = M::pupdr();
        let moder = M::moder();
        let otyper = M::otyper();
        self.pupdr = write_field(self.pupdr, offset, 2, pupdr as u32);
        if let Some(otyper) = otyper {
            self.otyper = write_field(self.otyper, i as u32, 1, otyper as u32);
        }
        self.moder = write_field(self.moder, offset, 2, moder as u32);
        assert forall|j: u32| j < 16 && j != i implies #[trigger] field(self.pupdr, (2 * j) as u32, 2) == field(
            old(self).pupdr,
            (2 * j) as u32,
            2,
        ) && field(self.moder, (2 * j) as u32, 2) == field(old(self).moder, (2 * j) as u32, 2) && field(
            self.otyper,
            j,
            1,
        ) == field(old(self).otyper, j, 1) by {
            assert(disjoint(offset, 2, (2 * j) as u32, 2));
            assert(disjoint(i as u32, 1, j, 1));
        }
    }

    /// Sets the output speed of pin `i`; all other pins keep theirs.
    pub fn set_speed(&mut self, i: u8, speed: Speed)
        requires
            i < 16,
        ensures
            field(final(self).ospeedr, (2 * i) as u32, 2) == speed.spec_bits(),
            forall|j: u32|
                j < 16 && j != i ==> #[trigger] field(final(self).ospeedr, (2 * j) as u32, 2) == field(
                    old(self).ospeedr,
                    (2 * j) as u32,
                    2,
                ),
            final(self).moder == old(self).moder,
            final(self).otyper == old(self).otyper,
            final(self).pupdr == old(self).pupdr,
            final(self).afrl == old(self).afrl,
            final(self).afrh == old(self).afrh,
    {
        proof {
            lemma_low_masks();
        }
        let offset: u32 = 2 * i as u32;
        let b = speed.bits();
        self.ospeedr = write_field(self.ospeedr, offset, 2, b as u32);
        assert forall|j: u32| j < 16 && j != i implies #[trigger] field(self.ospeedr, (2 * j) as u32, 2)
            == field(old(self).ospeedr, (2 * j) as u32, 2) by {
            assert(disjoint(offset, 2, (2 * j) as u32, 2));
        }
    }

    /// Connects pin `i` to alternate function `mode`: its `AFSEL` field takes
    /// the function and its `MODER` field the alternate-function mode
    /// (`0b10`); all other pins keep theirs.
    pub fn set_alt_mode(&mut self, i: u8, mode: AltMode)
        requires
            i < 16,
        ensures
            alt_function(*final(self), i as u32) == mode.spec_bits(),
            field(final(self).moder, (2 * i) as u32, 2) == 0b10,
            forall|j: u32|
                j < 16 && j != i ==> alt_function(*final(self), j) == alt_function(*old(self), j)
                    && #[trigger] field(final(self).moder, (2 * j) as u32, 2) == field(
                    old(self).moder,
                    (2 * j) as u32,
                    2,
                ),
            final(self).otyper == old(self).otyper,
            final(self).ospeedr == old(self).ospeedr,
            final(self).pupdr == old(self).pupdr,
    {
        proof {
            lemma_low_masks();
        }
        let mode = mode.bits();
        let mode = mode as u32;
        let offset: u32 = 2 * i as u32;
        let offset2: u32 = 4 * i as u32;
        if offset2 < 32 {
            self.afrl = write_field(self.afrl, offset2, 4, mode);
        } else {
            self.afrh = write_field(self.afrh, offset2 - 32, 4, mode);
        }
        self.moder = write_field(self.moder, offset, 2, 0b10);
        assert forall|j: u32| j < 16 && j != i implies alt_function(*self, j) == alt_function(
            *old(self),
            j,
        ) && #[trigger] field(self.moder, (2 * j) as u32, 2) == field(old(self).moder, (2 * j) as u32, 2) by {
            assert(disjoint(offset, 2, (2 * j) as u32, 2));
            if j < 8 {
                assert(disjoint(offset2, 4, (4 * j) as u32, 4));
            } else {
                assert(offset2 >= 32 ==> disjoint((offset2 - 32) as u32, 4, (4 * (j - 8)) as u32, 4));
            }
        }
    }
}

/// The output data register after a write of `bsrr` to the bit set/reset
/// register: bits 0 to 15 set the corresponding output, bits 16 to 31 reset
/// it, and setting wins over resetting.
pub open spec fn bsrr_effect(odr: u32, bsrr: u32) -> u32 {
    ((odr & !(bsrr >> 16u32)) | (bsrr & 0xffffu32)) & 0xffffu32
}

/// Fully erased pin
pub struct Pin<MODE> {
    i: u8,
    port: Port,
    _mode: PhantomData<MODE>,
}

impl<MODE> Pin<MODE> {
    /// The pin's number inside its port.
    pub closed spec fn spec_number(&self) -> u8 {
        self.i
    }

    /// The port this pin is part of.
    pub closed spec fn spec_port(&self) -> Port {
        self.port
    }

    /// The pin number `i` of `port`, erased from the type.
    pub fn new(port: Port, i: u8) -> (r: Self)
        requires
            i < 16,
        ensures
            r.spec_number() == i,
            r.spec_port() == port,
    {
        Pin { i, port, _mode: PhantomData }
    }

    /// Returns the port this pin is part of.
    pub fn port(&self) -> (r: Port)
        ensures
            r == self.spec_port(),
    {
        self.port
    }

    /// Returns this pin's number inside its port.
    pub fn pin_number(&self) -> (r: u8)
        ensures
            r == self.spec_number(),
    {
        self.i
    }
}

impl<MODE> Pin<Output<MODE>> {
    /// The bit set/reset register value that drives the pin high.
    pub fn set_high(&self) -> (r: u32)
        requires
            self.spec_number() < 16,
        ensures
            r == 1u32 << self.spec_number(),
    {
        1u32 << self.i
    }

    /// The bit set/reset register value that drives the pin low.
    pub fn set_low(&self) -> (r: u32)
        requires
            self.spec_number() < 16,
        ensures
            r == 1u32 << (self.spec_number() + 16),
    {
        1u32 << (self.i + 16)
    }

    /// Whether the output data register `odr` drives this pin low.
    pub fn is_set_low(&self, odr: u32) -> (r: bool)
        requires
            self.spec_number() < 16,
        ensures
            r == !bit_set(odr, self.spec_number() as u32),
    {
        !pin_bit(odr, self.i)
    }

    /// Whether the output data register `odr` drives this pin high.
    pub fn is_set_high(&self, odr: u32) -> (r: bool)
        requires
            self.spec_number() < 16,
        ensures
            r == bit_set(odr, self.spec_number() as u32),
    {
        pin_bit(odr, self.i)
    }
}

impl<MODE> Pin<Input<MODE>> {
    /// Whether the input data register `idr` reads this pin low.
    pub fn is_low(&self, idr: u32) -> (r: bool)
        requires
            self.spec_number() < 16,
        ensures
            r == !bit_set(idr, self.spec_number() as u32),
    {
        !pin_bit(idr, self.i)
    }

    /// Whether the input data register `idr` reads this pin high.
    pub fn is_high(&self, idr: u32) -> (r: bool)
        requires
            self.spec_number() < 16,
        ensures
            r == bit_set(idr, self.spec_number() as u32),
    {
        pin_bit(idr, self.i)
    }
}

impl Pin<Output<OpenDrain>> {
    /// Whether the input data register `idr` reads this open-drain output
    /// low.
    pub fn is_low(&self, idr: u32) -> (r: bool)
        requires
            self.spec_number() < 16,
        ensures
            r == !bit_set(idr, self.spec_number() as u32),
    {
        !pin_bit(idr, self.i)
    }

    /// Whether the input data register `idr` reads this open-drain output
    /// high.
    pub fn is_high(&self, idr: u32) -> (r: bool)
        requires
            self.spec_number() < 16,
        ensures
            r == bit_set(idr, self.spec_number() as u32),
    {
        pin_bit(idr, self.i)
    }
}

/// Whether bit `i` of a data register is set.
fn pin_bit(reg: u32, i: u8) -> (r: bool)
    requires
        i < 16,
    ensures
        r == bit_set(reg, i as u32),
{
    proof {
        lemma_low_masks();
    }
    assert((reg & (1u32 << i as u32) != 0) == ((reg >> i as u32) & 1u32 == 1u32)) by (bit_vector)
        requires
            i < 16,
    ;
    reg & (1u32 << i as u32) != 0
}

/// Driving a pin high through the bit set/reset register makes the output
/// data register hold it high, driving it low makes it hold it low, and no
/// other pin's output changes either way.
pub proof fn lemma_bsrr_set_reset(odr: u32, i: u32, j: u32)
    requires
        i < 16,
        j < 16,
        i != j,
    ensures
        bit_set(bsrr_effect(odr, 1u32 << i), i),
        !bit_set(bsrr_effect(odr, 1u32 << (i + 16)), i),
        bit_set(bsrr_effect(odr, 1u32 << i), j) == bit_set(odr, j),
        bit_set(bsrr_effect(odr, 1u32 << (i + 16)), j) == bit_set(odr, j),
{
    assert(low_mask(1) == 1u32) by {
        crate::bits::lemma_pow2_shifts();
    }
    assert({
        &&& ((((odr & !((1u32 << i) >> 16u32)) | ((1u32 << i) & 0xffffu32)) & 0xffffu32) >> i) & 1u32
            == 1u32
        &&& ((((odr & !((1u32 << (i + 16)) >> 16u32)) | ((1u32 << (i + 16)) & 0xffffu32))
            & 0xffffu32) >> i) & 1u32 != 1u32
        &&& ((((odr & !((1u32 << i) >> 16u32)) | ((1u32 << i) & 0xffffu32)) & 0xffffu32) >> j) & 1u32
            == (odr >> j) & 1u32
        &&& ((((odr & !((1u32 << (i + 16)) >> 16u32)) | ((1u32 << (i + 16)) & 0xffffu32))
            & 0xffffu32) >> j) & 1u32 == (odr >> j) & 1u32
    }) by (bit_vector)
        requires
            i < 16,
            j < 16,
            i != j,
    ;
}

} // verus!
