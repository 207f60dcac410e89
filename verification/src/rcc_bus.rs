//! Clock enable, sleep-mode clock enable and reset bits of the peripherals.
//!
//! Each peripheral has one bit, at the same position, in the enable, sleep
//! mode enable and reset registers of its bus.
use vstd::prelude::*;

use crate::bits::{bit_set, lemma_low_masks, read_field, with_field, write_field};
use crate::aes::AES;
use crate::flash::FLASH;
use crate::pwr::PWR;
use crate::syscfg::SYSCFG;
use crate::usb::USB;
use stm32l0::stm32l0x2::{GPIOA, GPIOB, GPIOC, GPIOD, GPIOE, GPIOH, DMA1, CRC, TSC, RNG, TIM2, TIM3, TIM6, TIM7, WWDG, SPI2, USART2, LPUART1, USART4, USART5, I2C1, I2C2, CRS, DAC, I2C3, LPTIM, TIM21, TIM22, ADC, SPI1, USART1, DBG};

verus! {

/// The bus a peripheral is attached to, which selects its registers
/// (`IOPENR`, `AHBENR`, `APB1ENR`, `APB2ENR` and their sleep mode and reset
/// counterparts).
#[derive(Debug, Clone, Copy, PartialEq, Eq, Structural)]
pub enum Bus {
    IOP,
    AHB,
    APB1,
    APB2,
}

/// A peripheral attached to a bus of the RCC.
pub trait RccBus {
    /// The bus.
    spec fn spec_bus() -> Bus;

    /// The peripheral's bit in the bus registers.
    spec fn spec_bit() -> u32;

    /// The bus.
    fn bus() -> (r: Bus)
        ensures
            r == Self::spec_bus(),
    ;

    /// The peripheral's bit in the bus registers.
    fn bit() -> (r: u32)
        ensures
            r == Self::spec_bit(),
            r < 32,
    ;
}

/// Enables peripheral `P`: the value of its bus's enable register (or sleep
/// mode enable register), from its value `enr`.
pub fn enable<P: RccBus>(enr: u32) -> (r: u32)
    ensures
        r == with_field(enr, P::spec_bit(), 1, 1),
{
    proof {
        lemma_low_masks();
    }
    write_field(enr, P::bit(), 1, 1)
}

/// Disables peripheral `P`: the value of its bus's enable register (or sleep
/// mode enable register), from its value `enr`.
pub fn disable<P: RccBus>(enr: u32) -> (r: u32)
    ensures
        r == with_field(enr, P::spec_bit(), 1, 0),
{
    proof {
        lemma_low_masks();
    }
    write_field(enr, P::bit(), 1, 0)
}

/// Whether peripheral `P` is enabled, per its bus's enable register `enr`.
pub fn is_enabled<P: RccBus>(enr: u32) -> (r: bool)
    ensures
        r == bit_set(enr, P::spec_bit()),
{
    read_field(enr, P::bit(), 1) == 1
}

/// Resets peripheral `P`: the two values written to its bus's reset
/// register, from its value `rstr`: the reset bit set, then cleared again.
pub fn reset<P: RccBus>(rstr: u32) -> (r: (u32, u32))
    ensures
        r.0 == with_field(rstr, P::spec_bit(), 1, 1),
        r.1 == with_field(r.0, P::spec_bit(), 1, 0),
{
    proof {
        lemma_low_masks();
    }
    let set = write_field(rstr, P::bit(), 1, 1);
    (set, write_field(set, P::bit(), 1, 0))
}

/// Enabling a peripheral and disabling it again leaves the enable register
/// as it was, when the peripheral was disabled before.
pub proof fn lemma_enable_disable(enr: u32, bit: u32)
    requires
        bit < 32,
        !bit_set(enr, bit),
    ensures
        with_field(with_field(enr, bit, 1, 1), bit, 1, 0) == enr,
{
    lemma_low_masks();
    assert(((enr >> bit) & 1u32) != 1u32 ==> (((((enr & !(1u32 << bit)) | (1u32 << bit)) & !(1u32 << bit)) | (0u32 << bit)) == enr)) by (bit_vector)
        requires
            bit < 32,
    ;
}

impl RccBus for GPIOA {
    open spec fn spec_bus() -> Bus {
        Bus::IOP
    }

    open spec fn spec_bit() -> u32 {
        0
    }

    fn bus() -> (r: Bus) {
        Bus::IOP
    }

    fn bit() -> (r: u32) {
        0
    }
}

impl RccBus for GPIOB {
    open spec fn spec_bus() -> Bus {
        Bus::IOP
    }

    open spec fn spec_bit() -> u32 {
        1
    }

    fn bus() -> (r: Bus) {
        Bus::IOP
    }

    fn bit() -> (r: u32) {
        1
    }
}

impl RccBus for GPIOC {
    open spec fn spec_bus() -> Bus {
        Bus::IOP
    }

    open spec fn spec_bit() -> u32 {
        2
    }

    fn bus() -> (r: Bus) {
        Bus::IOP
    }

    fn bit() -> (r: u32) {
        2
    }
}

impl RccBus for GPIOD {
    open spec fn spec_bus() -> Bus {
        Bus::IOP
    }

    open spec fn spec_bit() -> u32 {
        3
    }

    fn bus() -> (r: Bus) {
        Bus::IOP
    }

    fn bit() -> (r: u32) {
        3
    }
}

impl RccBus for GPIOE {
    open spec fn spec_bus() -> Bus {
        Bus::IOP
    }

    open spec fn spec_bit() -> u32 {
        4
    }

    fn bus() -> (r: Bus) {
        Bus::IOP
    }

    fn bit() -> (r: u32) {
        4
    }
}

impl RccBus for GPIOH {
    open spec fn spec_bus() -> Bus {
        Bus::IOP
    }

    open spec fn spec_bit() -> u32 {
        7
    }

    fn bus() -> (r: Bus) {
        Bus::IOP
    }

    fn bit() -> (r: u32) {
        7
    }
}

impl RccBus for DMA1 {
    open spec fn spec_bus() -> Bus {
        Bus::AHB
    }

    open spec fn spec_bit() -> u32 {
        0
    }

    fn bus() -> (r: Bus) {
        Bus::AHB
    }

    fn bit() -> (r: u32) {
        0
    }
}

impl RccBus for FLASH {
    open spec fn spec_bus() -> Bus {
        Bus::AHB
    }

    open spec fn spec_bit() -> u32 {
        8
    }

    fn bus() -> (r: Bus) {
        Bus::AHB
    }

    fn bit() -> (r: u32) {
        8
    }
}

impl RccBus for CRC {
    open spec fn spec_bus() -> Bus {
        Bus::AHB
    }

    open spec fn spec_bit() -> u32 {
        12
    }

    fn bus() -> (r: Bus) {
        Bus::AHB
    }

    fn bit() -> (r: u32) {
        12
    }
}

impl RccBus for TSC {
    open spec fn spec_bus() -> Bus {
        Bus::AHB
    }

    open spec fn spec_bit() -> u32 {
        16
    }

    fn bus() -> (r: Bus) {
        Bus::AHB
    }

    fn bit() -> (r: u32) {
        16
    }
}

impl RccBus for RNG {
    open spec fn spec_bus() -> Bus {
        Bus::AHB
    }

    open spec fn spec_bit() -> u32 {
        20
    }

    fn bus() -> (r: Bus) {
        Bus::AHB
    }

    fn bit() -> (r: u32) {
        20
    }
}

impl RccBus for AES {
    open spec fn spec_bus() -> Bus {
        Bus::AHB
    }

    open spec fn spec_bit() -> u32 {
        24
    }

    fn bus() -> (r: Bus) {
        Bus::AHB
    }

    fn bit() -> (r: u32) {
        24
    }
}

impl RccBus for TIM2 {
    open spec fn spec_bus() -> Bus {
        Bus::APB1
    }

    open spec fn spec_bit() -> u32 {
        0
    }

    fn bus() -> (r: Bus) {
        Bus::APB1
    }

    fn bit() -> (r: u32) {
        0
    }
}

impl RccBus for TIM3 {
    open spec fn spec_bus() -> Bus {
        Bus::APB1
    }

    open spec fn spec_bit() -> u32 {
        1
    }

    fn bus() -> (r: Bus) {
        Bus::APB1
    }

    fn bit() -> (r: u32) {
        1
    }
}

impl RccBus for TIM6 {
    open spec fn spec_bus() -> Bus {
        Bus::APB1
    }

    open spec fn spec_bit() -> u32 {
        4
    }

    fn bus() -> (r: Bus) {
        Bus::APB1
    }

    fn bit() -> (r: u32) {
        4
    }
}

impl RccBus for TIM7 {
    open spec fn spec_bus() -> Bus {
        Bus::APB1
    }

    open spec fn spec_bit() -> u32 {
        5
    }

    fn bus() -> (r: Bus) {
        Bus::APB1
    }

    fn bit() -> (r: u32) {
        5
    }
}

impl RccBus for WWDG {
    open spec fn spec_bus() -> Bus {
        Bus::APB1
    }

    open spec fn spec_bit() -> u32 {
        11
    }

    fn bus() -> (r: Bus) {
        Bus::APB1
    }

    fn bit() -> (r: u32) {
        11
    }
}

impl RccBus for SPI2 {
    open spec fn spec_bus() -> Bus {
        Bus::APB1
    }

    open spec fn spec_bit() -> u32 {
        14
    }

    fn bus() -> (r: Bus) {
        Bus::APB1
    }

    fn bit() -> (r: u32) {
        14
    }
}

impl RccBus for USART2 {
    open spec fn spec_bus() -> Bus {
        Bus::APB1
    }

    open spec fn spec_bit() -> u32 {
        17
    }

    fn bus() -> (r: Bus) {
        Bus::APB1
    }

    fn bit() -> (r: u32) {
        17
    }
}

impl RccBus for LPUART1 {
    open spec fn spec_bus() -> Bus {
        Bus::APB1
    }

    open spec fn spec_bit() -> u32 {
        18
    }

    fn bus() -> (r: Bus) {
        Bus::APB1
    }

    fn bit() -> (r: u32) {
        18
    }
}

impl RccBus for USART4 {
    open spec fn spec_bus() -> Bus {
        Bus::APB1
    }

    open spec fn spec_bit() -> u32 {
        19
    }

    fn bus() -> (r: Bus) {
        Bus::APB1
    }

    fn bit() -> (r: u32) {
        19
    }
}

impl RccBus for USART5 {
    open spec fn spec_bus() -> Bus {
        Bus::APB1
    }

    open spec fn spec_bit() -> u32 {
        20
    }

    fn bus() -> (r: Bus) {
        Bus::APB1
    }

    fn bit() -> (r: u32) {
        20
    }
}

impl RccBus for I2C1 {
    open spec fn spec_bus() -> Bus {
        Bus::APB1
    }

    open spec fn spec_bit() -> u32 {
        21
    }

    fn bus() -> (r: Bus) {
        Bus::APB1
    }

    fn bit() -> (r: u32) {
        21
    }
}

impl RccBus for I2C2 {
    open spec fn spec_bus() -> Bus {
        Bus::APB1
    }

    open spec fn spec_bit() -> u32 {
        22
    }

    fn bus() -> (r: Bus) {
        Bus::APB1
    }

    fn bit() -> (r: u32) {
        22
    }
}

impl RccBus for USB {
    open spec fn spec_bus() -> Bus {
        Bus::APB1
    }

    open spec fn spec_bit() -> u32 {
        23
    }

    fn bus() -> (r: Bus) {
        Bus::APB1
    }

    fn bit() -> (r: u32) {
        23
    }
}

impl RccBus for CRS {
    open spec fn spec_bus() -> Bus {
        Bus::APB1
    }

    open spec fn spec_bit() -> u32 {
        27
    }

    fn bus() -> (r: Bus) {
        Bus::APB1
    }

    fn bit() -> (r: u32) {
        27
    }
}

impl RccBus for PWR {
    open spec fn spec_bus() -> Bus {
        Bus::APB1
    }

    open spec fn spec_bit() -> u32 {
        28
    }

    fn bus() -> (r: Bus) {
        Bus::APB1
    }

    fn bit() -> (r: u32) {
        28
    }
}

impl RccBus for DAC {
    open spec fn spec_bus() -> Bus {
        Bus::APB1
    }

    open spec fn spec_bit() -> u32 {
        29
    }

    fn bus() -> (r: Bus) {
        Bus::APB1
    }

    fn bit() -> (r: u32) {
        29
    }
}

impl RccBus for I2C3 {
    open spec fn spec_bus() -> Bus {
        Bus::APB1
    }

    open spec fn spec_bit() -> u32 {
        30
    }

    fn bus() -> (r: Bus) {
        Bus::APB1
    }

    fn bit() -> (r: u32) {
        30
    }
}

impl RccBus for LPTIM {
    open spec fn spec_bus() -> Bus {
        Bus::APB1
    }

    open spec fn spec_bit() -> u32 {
        31
    }

    fn bus() -> (r: Bus) {
        Bus::APB1
    }

    fn bit() -> (r: u32) {
        31
    }
}

impl RccBus for SYSCFG {
    open spec fn spec_bus() -> Bus {
        Bus::APB2
    }

    open spec fn spec_bit() -> u32 {
        0
    }

    fn bus() -> (r: Bus) {
        Bus::APB2
    }

    fn bit() -> (r: u32) {
        0
    }
}

impl RccBus for TIM21 {
    open spec fn spec_bus() -> Bus {
        Bus::APB2
    }

    open spec fn spec_bit() -> u32 {
        2
    }

    fn bus() -> (r: Bus) {
        Bus::APB2
    }

    fn bit() -> (r: u32) {
        2
    }
}

impl RccBus for TIM22 {
    open spec fn spec_bus() -> Bus {
        Bus::APB2
    }

    open spec fn spec_bit() -> u32 {
        5
    }

    fn bus() -> (r: Bus) {
        Bus::APB2
    }

    fn bit() -> (r: u32) {
        5
    }
}

impl RccBus for ADC {
    open spec fn spec_bus() -> Bus {
        Bus::APB2
    }

    open spec fn spec_bit() -> u32 {
        9
    }

    fn bus() -> (r: Bus) {
        Bus::APB2
    }

    fn bit() -> (r: u32) {
        9
    }
}

impl RccBus for SPI1 {
    open spec fn spec_bus() -> Bus {
        Bus::APB2
    }

    open spec fn spec_bit() -> u32 {
        12
    }

    fn bus() -> (r: Bus) {
        Bus::APB2
    }

    fn bit() -> (r: u32) {
        12
    }
}

impl RccBus for USART1 {
    open spec fn spec_bus() -> Bus {
        Bus::APB2
    }

    open spec fn spec_bit() -> u32 {
        14
    }

    fn bus() -> (r: Bus) {
        Bus::APB2
    }

    fn bit() -> (r: u32) {
        14
    }
}

impl RccBus for DBG {
    open spec fn spec_bus() -> Bus {
        Bus::APB2
    }

    open spec fn spec_bit() -> u32 {
        22
    }

    fn bus() -> (r: Bus) {
        Bus::APB2
    }

    fn bit() -> (r: u32) {
        22
    }
}

} // verus!
