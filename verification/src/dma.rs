//! Interface to the DMA peripheral
//!
//! See STM32L0x2 Reference Manual, chapter 11.
use vstd::prelude::*;

use crate::bits::{bit_set, disjoint, field, lemma_low_masks, read_field, with_field, write_field};
use crate::i2c::{Rx as I2cRx, Tx as I2cTx};
use crate::serial::{Rx, Tx};
use crate::spi::{Rx as SpiRx, Tx as SpiTx};
use stm32l0::stm32l0x2::{I2C1, I2C2, I2C3, SPI1, SPI2, USART1, USART2};

verus! {

/// Priority levels of the `PL` field
#[derive(Debug, Clone, Copy, PartialEq, Eq, Structural)]
pub enum PriorityLevel {
    Low,
    Medium,
    High,
    VeryHigh,
}

/// The priority of the DMA transfer
#[derive(Debug, Clone, Copy, PartialEq, Eq, Structural)]
pub struct Priority(pub PriorityLevel);

impl Priority {
    /// The value of the `PL` field.
    pub open spec fn spec_bits(self) -> u32 {
        match self.0 {
            PriorityLevel::Low => 0,
            PriorityLevel::Medium => 1,
            PriorityLevel::High => 2,
            PriorityLevel::VeryHigh => 3,
        }
    }

    pub fn low() -> (r: Self)
        ensures
            r.spec_bits() == 0,
    {
        Self(PriorityLevel::Low)
    }

    pub fn medium() -> (r: Self)
        ensures
            r.spec_bits() == 1,
    {
        Self(PriorityLevel::Medium)
    }

    pub fn high() -> (r: Self)
        ensures
            r.spec_bits() == 2,
    {
        Self(PriorityLevel::High)
    }

    pub fn very_high() -> (r: Self)
        ensures
            r.spec_bits() == 3,
    {
        Self(PriorityLevel::VeryHigh)
    }

    fn bits(&self) -> (r: u32)
        ensures
            r == self.spec_bits(),
    {
        match self.0 {
            PriorityLevel::Low => 0,
            PriorityLevel::Medium => 1,
            PriorityLevel::High => 2,
            PriorityLevel::VeryHigh => 3,
        }
    }
}

/// The direction of the DMA transfer
#[derive(Debug, Clone, Copy, PartialEq, Eq, Structural)]
pub struct Direction(pub bool);

impl Direction {
    /// The value of the `DIR` bit: set for reads from memory.
    pub open spec fn spec_bits(self) -> u32 {
        if self.0 {
            1
        } else {
            0
        }
    }

    pub fn memory_to_peripheral() -> (r: Self)
        ensures
            r.spec_bits() == 1,
    {
        Self(true)
    }

    pub fn peripheral_to_memory() -> (r: Self)
        ensures
            r.spec_bits() == 0,
    {
        Self(false)
    }
}

/// DMA transfer error
#[derive(Debug, Clone, Copy, PartialEq, Eq, Structural)]
pub struct Error;

/// Channel configuration register (`CCR`) bits
pub const CCR_EN: u32 = 0;

pub const CCR_TCIE: u32 = 1;

pub const CCR_HTIE: u32 = 2;

pub const CCR_TEIE: u32 = 3;

pub const CCR_DIR: u32 = 4;

pub const CCR_CIRC: u32 = 5;

pub const CCR_PINC: u32 = 6;

pub const CCR_MINC: u32 = 7;

/// First bit of the two-bit peripheral size field
pub const CCR_PSIZE: u32 = 8;

/// First bit of the two-bit memory size field
pub const CCR_MSIZE: u32 = 10;

/// First bit of the two-bit priority field
pub const CCR_PL: u32 = 12;

pub const CCR_MEM2MEM: u32 = 14;

/// A DMA channel, 1 to 7
pub trait Channel {
    spec fn spec_number() -> u32;

    fn number() -> (r: u32)
        ensures
            r == Self::spec_number(),
            1 <= r <= 7,
    ;
}

/// Implemented for types that can be used as a DMA word
pub trait SupportedWordSize {
    /// The value of the size fields, and the size in bytes.
    spec fn spec_size() -> (u32, u32);

    fn size() -> (r: (u32, u32))
        ensures
            r == Self::spec_size(),
            r.0 <= 2,
            r.1 == 1 || r.1 == 2 || r.1 == 4,
    ;
}

impl SupportedWordSize for u8 {
    open spec fn spec_size() -> (u32, u32) {
        (0, 1)
    }

    fn size() -> (r: (u32, u32)) {
        (0, 1)
    }
}

impl SupportedWordSize for u16 {
    open spec fn spec_size() -> (u32, u32) {
        (1, 2)
    }

    fn size() -> (r: (u32, u32)) {
        (1, 2)
    }
}

impl SupportedWordSize for u32 {
    open spec fn spec_size() -> (u32, u32) {
        (2, 4)
    }

    fn size() -> (r: (u32, u32)) {
        (2, 4)
    }
}

/// A peripheral that can be the target of transfers on channel `C`.
pub trait Target<C> {
    /// The request number of the target on the channel (`CxS`).
    spec fn spec_request() -> u32;

    fn request() -> (r: u32)
        ensures
            r == Self::spec_request(),
            r < 16,
    ;
}

/// Interrupts of a DMA transfer
#[derive(Debug, Clone, Copy, PartialEq, Eq, Structural)]
pub struct Interrupts {
    pub transfer_error: bool,
    pub half_transfer: bool,
    pub transfer_complete: bool,
}

impl Default for Interrupts {
    fn default() -> (r: Interrupts)
        ensures
            !r.transfer_error && !r.half_transfer && !r.transfer_complete,
    {
        Interrupts { transfer_error: false, half_transfer: false, transfer_complete: false }
    }
}

/// Indicates that a DMA transfer is ready
pub struct Ready;

/// Indicates that a DMA transfer has been started
pub struct Started;

/// Handle to the DMA peripheral: the channel selection register.
pub struct Handle {
    cselr: u32,
}

impl Handle {
    /// The channel selection register.
    pub closed spec fn spec_cselr(&self) -> u32 {
        self.cselr
    }

    /// The channel selection register value to write.
    pub fn cselr(&self) -> (r: u32)
        ensures
            r == self.spec_cselr(),
    {
        self.cselr
    }
}

/// The resources of a transfer
pub struct TransferResources<T, C, B> {
    pub target: T,
    pub channel: C,
    pub buffer: B,
}

/// The channel configuration register value of a transfer: word size for
/// memory and peripheral, no memory-to-memory, the priority, memory pointer
/// incremented, peripheral pointer fixed, circular when asked, the
/// direction, all interrupts off, not yet enabled.
pub open spec fn ccr_value(size: u32, priority: u32, dir: u32, circular: bool) -> u32 {
    with_field(
        with_field(
            with_field(
                with_field(
                    with_field(
                        with_field(
                            with_field(
                                with_field(
                                    with_field(
                                        with_field(with_field(0, CCR_MSIZE, 2, size), CCR_PSIZE, 2, size),
                                        CCR_MEM2MEM,
                                        1,
                                        0,
                                    ),
                                    CCR_PL,
                                    2,
                                    priority,
                                ),
                                CCR_MINC,
                                1,
                                1,
                            ),
                            CCR_PINC,
                            1,
                            0,
                        ),
                        CCR_CIRC,
                        1,
                        if circular { 1 } else { 0 },
                    ),
                    CCR_DIR,
                    1,
                    dir,
                ),
                CCR_TEIE,
                1,
                0,
            ),
            CCR_HTIE,
            1,
            0,
        ),
        CCR_TCIE,
        1,
        0,
    )
}

/// The register values that set up a transfer on a channel.
#[derive(Debug, Clone, Copy, PartialEq, Eq, Structural)]
pub struct ChannelSetup {
    /// Peripheral address (`CPAR`)
    pub par: u32,
    /// Memory address (`CMAR`)
    pub mar: u32,
    /// Number of words (`CNDTR`)
    pub ndtr: u16,
    /// Channel configuration (`CCR`)
    pub ccr: u32,
}

/// A DMA transfer
pub struct Transfer<T, C, B, State> {
    res: TransferResources<T, C, B>,
    ccr: u32,
    _state: State,
}

/// The interrupt status flags of channel `n`: global at `4(n-1)`, transfer
/// complete at `4(n-1)+1`, half transfer at `4(n-1)+2`, transfer error at
/// `4(n-1)+3`; the interrupt flag clear register has the same layout.
pub open spec fn isr_bit(n: u32, k: u32) -> u32 {
    (4 * (n - 1) + k) as u32
}

/// What a wait for the end of a transfer finds in the interrupt status
/// register.
#[derive(Debug, Clone, Copy, PartialEq, Eq, Structural)]
pub enum WaitStep {
    /// The transfer is still running; the status is to be read again.
    Pending,
    /// The transfer failed; this interrupt flag clear register value clears
    /// the error flag.
    Failed(u32),
    /// The transfer is complete: clear the complete flag with this interrupt
    /// flag clear register value and disable the channel (the configuration
    /// register value given), then check for an error once more.
    Complete(u32, u32),
}

impl<T, C: Channel, B> Transfer<T, C, B, Ready> {
    /// Prepares a transfer of `num_words` words between the buffer (of
    /// `buffer_len` words at address `buffer_addr`) and the peripheral
    /// register at `address`: selects the target on the channel and computes
    /// the channel's register values.
    ///
    /// The buffer must hold the words, their number must fit in 16 bits, and
    /// the buffer must be aligned to the word size.
    pub fn new<Word: SupportedWordSize>(
        handle: &mut Handle,
        target: T,
        channel: C,
        buffer: B,
        buffer_len: usize,
        buffer_addr: u32,
        num_words: usize,
        address: u32,
        priority: Priority,
        dir: Direction,
        circular: bool,
    ) -> (r: (Self, ChannelSetup))
        where
            T: Target<C>,
        requires
            buffer_len >= num_words,
            num_words <= u16::MAX,
            buffer_addr % Word::spec_size().1 == 0,
        ensures
            field(final(handle).spec_cselr(), (4 * (C::spec_number() - 1)) as u32, 4)
                == T::spec_request(),
            forall|m: u32|
                1 <= m <= 7 && m != C::spec_number() ==> #[trigger] field(
                    final(handle).spec_cselr(),
                    (4 * (m - 1)) as u32,
                    4,
                ) == field(old(handle).spec_cselr(), (4 * (m - 1)) as u32, 4),
            r.1 == (ChannelSetup {
                par: address,
                mar: buffer_addr,
                ndtr: num_words as u16,
                ccr: ccr_value(Word::spec_size().0, priority.spec_bits(), dir.spec_bits(), circular),
            }),
            r.0.spec_ccr() == r.1.ccr,
    {
        proof {
            lemma_low_masks();
        }
        let n = C::number();
        let off: u32 = 4 * (n - 1);
        let req = T::request();
        handle.cselr = write_field(handle.cselr, off, 4, req);
        assert forall|m: u32| 1 <= m <= 7 && m != n implies #[trigger] field(
            handle.cselr,
            (4 * (m - 1)) as u32,
            4,
        ) == field(old(handle).cselr, (4 * (m - 1)) as u32, 4) by {
            assert(disjoint(off, 4, (4 * (m - 1)) as u32, 4));
        }
        let (size, _) = Word::size();
        let pl = priority.bits();
        let d: u32 = if dir.0 { 1 } else { 0 };
        let ccr = write_field(0, CCR_MSIZE, 2, size);
        let ccr = write_field(ccr, CCR_PSIZE, 2, size);
        let ccr = write_field(ccr, CCR_MEM2MEM, 1, 0);
        let ccr = write_field(ccr, CCR_PL, 2, pl);
        let ccr = write_field(ccr, CCR_MINC, 1, 1);
        let ccr = write_field(ccr, CCR_PINC, 1, 0);
        let ccr = write_field(ccr, CCR_CIRC, 1, if circular { 1 } else { 0 });
        let ccr = write_field(ccr, CCR_DIR, 1, d);
        let ccr = write_field(ccr, CCR_TEIE, 1, 0);
        let ccr = write_field(ccr, CCR_HTIE, 1, 0);
        let ccr = write_field(ccr, CCR_TCIE, 1, 0);
        let setup = ChannelSetup { par: address, mar: buffer_addr, ndtr: num_words as u16, ccr };
        (Transfer { res: TransferResources { target, channel, buffer }, ccr, _state: Ready }, setup)
    }

    /// Enables the provided interrupts
    ///
    /// This setting only affects this transfer. It doesn't affect transfer on
    /// other channels, or subsequent transfers on the same channel.
    pub fn enable_interrupts(&mut self, interrupts: Interrupts)
        ensures
            bit_set(final(self).spec_ccr(), CCR_TEIE) == interrupts.transfer_error,
            bit_set(final(self).spec_ccr(), CCR_HTIE) == interrupts.half_transfer,
            bit_set(final(self).spec_ccr(), CCR_TCIE) == interrupts.transfer_complete,
            forall|o: u32, w: u32|
                1 <= w && o + w <= 32 && disjoint(CCR_TCIE, 3, o, w) ==> #[trigger] field(
                    final(self).spec_ccr(),
                    o,
                    w,
                ) == field(old(self).spec_ccr(), o, w),
    {
        proof {
            lemma_low_masks();
        }
        let ccr = write_field(self.ccr, CCR_TEIE, 1, if interrupts.transfer_error { 1 } else { 0 });
        let ccr = write_field(ccr, CCR_HTIE, 1, if interrupts.half_transfer { 1 } else { 0 });
        let ccr = write_field(ccr, CCR_TCIE, 1, if interrupts.transfer_complete { 1 } else { 0 });
        self.ccr = ccr;
        assert(disjoint(CCR_TEIE, 1, CCR_HTIE, 1));
        assert(disjoint(CCR_TEIE, 1, CCR_TCIE, 1));
        assert(disjoint(CCR_HTIE, 1, CCR_TCIE, 1));
    }

    /// Starts the transfer: the channel configuration register with `EN` set.
    pub fn start(self) -> (r: (Transfer<T, C, B, Started>, u32))
        ensures
            r.1 == with_field(self.spec_ccr(), CCR_EN, 1, 1),
            r.0.spec_ccr() == r.1,
    {
        proof {
            lemma_low_masks();
        }
        let ccr = write_field(self.ccr, CCR_EN, 1, 1);
        (Transfer { res: self.res, ccr, _state: Started }, ccr)
    }
}

impl<T, C, B, State> Transfer<T, C, B, State> {
    /// The channel configuration register.
    pub closed spec fn spec_ccr(&self) -> u32 {
        self.ccr
    }

    /// The channel configuration register value to write.
    pub fn ccr(&self) -> (r: u32)
        ensures
            r == self.spec_ccr(),
    {
        self.ccr
    }
}

impl<T, C: Channel, B> Transfer<T, C, B, Started> {
    /// Indicates whether the transfer is still ongoing, per the interrupt
    /// status register `isr`: its transfer complete flag is clear.
    pub fn is_active(&self, isr: u32) -> (r: bool)
        ensures
            r == !bit_set(isr, isr_bit(C::spec_number(), 1)),
    {
        let n = C::number();
        read_field(isr, 4 * (n - 1) + 1, 1) != 1
    }

    /// One look at the interrupt status register `isr` while waiting for the
    /// transfer to finish: an error ends the wait, a complete transfer is
    /// cleared and disabled.
    pub fn wait_step(&self, isr: u32) -> (r: WaitStep)
        ensures
            ({
                let n = C::spec_number();
                let complete = bit_set(isr, isr_bit(n, 1));
                let error = bit_set(isr, isr_bit(n, 3));
                &&& !complete && error ==> r == WaitStep::Failed(1u32 << isr_bit(n, 3))
                &&& !complete && !error ==> r == WaitStep::Pending
                &&& complete ==> r == WaitStep::Complete(
                    1u32 << isr_bit(n, 1),
                    with_field(self.spec_ccr(), CCR_EN, 1, 0),
                )
            }),
    {
        proof {
            lemma_low_masks();
        }
        let n = C::number();
        let base: u32 = 4 * (n - 1);
        let complete = read_field(isr, base + 1, 1) == 1;
        if !complete {
            if read_field(isr, base + 3, 1) == 1 {
                WaitStep::Failed(1u32 << (base + 3))
            } else {
                WaitStep::Pending
            }
        } else {
            WaitStep::Complete(1u32 << (base + 1), write_field(self.ccr, CCR_EN, 1, 0))
        }
    }

    /// The error check after a complete transfer: an error when the error
    /// flag is set in `isr` (then cleared with the value given), the
    /// resources otherwise.
    pub fn finish(self, isr: u32) -> (r: Result<TransferResources<T, C, B>, (TransferResources<T, C, B>, Error)>)
        ensures
            bit_set(isr, isr_bit(C::spec_number(), 3)) <==> r is Err,
    {
        let n = C::number();
        if read_field(isr, 4 * (n - 1) + 3, 1) == 1 {
            Err((self.res, Error))
        } else {
            Ok(self.res)
        }
    }

    /// The transfer state from the number of words left (`ndtr`) and the
    /// interrupt status register `isr`: words left, half transfer flag,
    /// transfer complete flag.
    pub fn state(&self, ndtr: u16, isr: u32) -> (r: (u16, bool, bool))
        ensures
            r == (ndtr, bit_set(isr, isr_bit(C::spec_number(), 2)), bit_set(
                isr,
                isr_bit(C::spec_number(), 1),
            )),
    {
        let n = C::number();
        let base: u32 = 4 * (n - 1);
        (ndtr, read_field(isr, base + 2, 1) == 1, read_field(isr, base + 1, 1) == 1)
    }

    /// The interrupt flag clear register value that clears the half
    /// transfer and transfer complete flags.
    pub fn clear_flags(&self) -> (r: u32)
        ensures
            r == (1u32 << isr_bit(C::spec_number(), 2)) | (1u32 << isr_bit(C::spec_number(), 1)),
    {
        let n = C::number();
        let base: u32 = 4 * (n - 1);
        (1u32 << (base + 2)) | (1u32 << (base + 1))
    }
}

/// DMA channels
pub struct Channels {
    pub channel1: Channel1,
    pub channel2: Channel2,
    pub channel3: Channel3,
    pub channel4: Channel4,
    pub channel5: Channel5,
    pub channel6: Channel6,
    pub channel7: Channel7,
}

impl Channels {
    /// All seven channels.
    pub fn new() -> Self {
        Channels {
            channel1: Channel1(()),
            channel2: Channel2(()),
            channel3: Channel3(()),
            channel4: Channel4(()),
            channel5: Channel5(()),
            channel6: Channel6(()),
            channel7: Channel7(()),
        }
    }
}

/// DMA channel 1
pub struct Channel1(());

impl Channel for Channel1 {
    open spec fn spec_number() -> u32 {
        1
    }

    fn number() -> (r: u32) {
        1
    }
}

/// DMA channel 2
pub struct Channel2(());

impl Channel for Channel2 {
    open spec fn spec_number() -> u32 {
        2
    }

    fn number() -> (r: u32) {
        2
    }
}

/// DMA channel 3
pub struct Channel3(());

impl Channel for Channel3 {
    open spec fn spec_number() -> u32 {
        3
    }

    fn number() -> (r: u32) {
        3
    }
}

/// DMA channel 4
pub struct Channel4(());

impl Channel for Channel4 {
    open spec fn spec_number() -> u32 {
        4
    }

    fn number() -> (r: u32) {
        4
    }
}

/// DMA channel 5
pub struct Channel5(());

impl Channel for Channel5 {
    open spec fn spec_number() -> u32 {
        5
    }

    fn number() -> (r: u32) {
        5
    }
}

/// DMA channel 6
pub struct Channel6(());

impl Channel for Channel6 {
    open spec fn spec_number() -> u32 {
        6
    }

    fn number() -> (r: u32) {
        6
    }
}

/// DMA channel 7
pub struct Channel7(());

impl Channel for Channel7 {
    open spec fn spec_number() -> u32 {
        7
    }

    fn number() -> (r: u32) {
        7
    }
}

/// Entry point to the DMA API
pub struct DMA {
    /// Handle to the DMA peripheral
    pub handle: Handle,
    /// DMA channels
    pub channels: Channels,
}

impl DMA {
    /// The DMA API of a peripheral just reset: no request is selected on any
    /// channel.
    pub fn new() -> (r: Self)
        ensures
            r.handle.spec_cselr() == 0,
    {
        DMA { handle: Handle { cselr: 0 }, channels: Channels::new() }
    }
}

// Request numbers of the targets on each channel (reference manual, table 51).
impl Target<Channel1> for crate::adc::DmaToken {
    open spec fn spec_request() -> u32 {
        0
    }

    fn request() -> (r: u32) {
        0
    }
}

impl Target<Channel2> for crate::adc::DmaToken {
    open spec fn spec_request() -> u32 {
        0
    }

    fn request() -> (r: u32) {
        0
    }
}

impl Target<Channel2> for Tx<USART1> {
    open spec fn spec_request() -> u32 {
        3
    }

    fn request() -> (r: u32) {
        3
    }
}

impl Target<Channel4> for Tx<USART1> {
    open spec fn spec_request() -> u32 {
        3
    }

    fn request() -> (r: u32) {
        3
    }
}

impl Target<Channel3> for Rx<USART1> {
    open spec fn spec_request() -> u32 {
        3
    }

    fn request() -> (r: u32) {
        3
    }
}

impl Target<Channel5> for Rx<USART1> {
    open spec fn spec_request() -> u32 {
        3
    }

    fn request() -> (r: u32) {
        3
    }
}

impl Target<Channel4> for Tx<USART2> {
    open spec fn spec_request() -> u32 {
        4
    }

    fn request() -> (r: u32) {
        4
    }
}

impl Target<Channel7> for Tx<USART2> {
    open spec fn spec_request() -> u32 {
        4
    }

    fn request() -> (r: u32) {
        4
    }
}

impl Target<Channel5> for Rx<USART2> {
    open spec fn spec_request() -> u32 {
        4
    }

    fn request() -> (r: u32) {
        4
    }
}

impl Target<Channel6> for Rx<USART2> {
    open spec fn spec_request() -> u32 {
        4
    }

    fn request() -> (r: u32) {
        4
    }
}

impl Target<Channel2> for I2cTx<I2C1> {
    open spec fn spec_request() -> u32 {
        6
    }

    fn request() -> (r: u32) {
        6
    }
}

impl Target<Channel3> for I2cRx<I2C1> {
    open spec fn spec_request() -> u32 {
        6
    }

    fn request() -> (r: u32) {
        6
    }
}

impl Target<Channel6> for I2cTx<I2C1> {
    open spec fn spec_request() -> u32 {
        6
    }

    fn request() -> (r: u32) {
        6
    }
}

impl Target<Channel7> for I2cRx<I2C1> {
    open spec fn spec_request() -> u32 {
        6
    }

    fn request() -> (r: u32) {
        6
    }
}

impl Target<Channel4> for I2cTx<I2C2> {
    open spec fn spec_request() -> u32 {
        7
    }

    fn request() -> (r: u32) {
        7
    }
}

impl Target<Channel5> for I2cRx<I2C2> {
    open spec fn spec_request() -> u32 {
        7
    }

    fn request() -> (r: u32) {
        7
    }
}

impl Target<Channel2> for I2cTx<I2C3> {
    open spec fn spec_request() -> u32 {
        14
    }

    fn request() -> (r: u32) {
        14
    }
}

impl Target<Channel3> for I2cRx<I2C3> {
    open spec fn spec_request() -> u32 {
        14
    }

    fn request() -> (r: u32) {
        14
    }
}

impl Target<Channel4> for I2cTx<I2C3> {
    open spec fn spec_request() -> u32 {
        14
    }

    fn request() -> (r: u32) {
        14
    }
}

impl Target<Channel5> for I2cRx<I2C3> {
    open spec fn spec_request() -> u32 {
        14
    }

    fn request() -> (r: u32) {
        14
    }
}

impl Target<Channel3> for SpiTx<SPI1> {
    open spec fn spec_request() -> u32 {
        1
    }

    fn request() -> (r: u32) {
        1
    }
}

impl Target<Channel2> for SpiRx<SPI1> {
    open spec fn spec_request() -> u32 {
        1
    }

    fn request() -> (r: u32) {
        1
    }
}

impl Target<Channel5> for SpiTx<SPI2> {
    open spec fn spec_request() -> u32 {
        2
    }

    fn request() -> (r: u32) {
        2
    }
}

impl Target<Channel4> for SpiRx<SPI2> {
    open spec fn spec_request() -> u32 {
        2
    }

    fn request() -> (r: u32) {
        2
    }
}

impl Target<Channel7> for SpiTx<SPI2> {
    open spec fn spec_request() -> u32 {
        2
    }

    fn request() -> (r: u32) {
        2
    }
}

impl Target<Channel6> for SpiRx<SPI2> {
    open spec fn spec_request() -> u32 {
        2
    }

    fn request() -> (r: u32) {
        2
    }
}

} // verus!
