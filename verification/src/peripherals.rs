//! Peripheral types of the device crates that this library holds or names.
//!
//! These types are opaque here: the library only carries a value of them
//! through, or names by them which instance of a peripheral a transfer token
//! belongs to.
use vstd::prelude::*;

verus! {

#[verifier::external_type_specification]
#[verifier::external_body]
pub struct ExSpi1(stm32l0::stm32l0x2::SPI1);

#[verifier::external_type_specification]
#[verifier::external_body]
pub struct ExSpi2(stm32l0::stm32l0x2::SPI2);

#[verifier::external_type_specification]
#[verifier::external_body]
pub struct ExI2c1(stm32l0::stm32l0x2::I2C1);

#[verifier::external_type_specification]
#[verifier::external_body]
pub struct ExI2c2(stm32l0::stm32l0x2::I2C2);

#[verifier::external_type_specification]
#[verifier::external_body]
pub struct ExI2c3(stm32l0::stm32l0x2::I2C3);

#[verifier::external_type_specification]
#[verifier::external_body]
pub struct ExUsart1(stm32l0::stm32l0x2::USART1);

#[verifier::external_type_specification]
#[verifier::external_body]
pub struct ExUsart2(stm32l0::stm32l0x2::USART2);

#[verifier::external_type_specification]
#[verifier::external_body]
pub struct ExGpioa(stm32l0::stm32l0x2::GPIOA);

#[verifier::external_type_specification]
#[verifier::external_body]
pub struct ExGpiob(stm32l0::stm32l0x2::GPIOB);

#[verifier::external_type_specification]
#[verifier::external_body]
pub struct ExGpioc(stm32l0::stm32l0x2::GPIOC);

#[verifier::external_type_specification]
#[verifier::external_body]
pub struct ExGpiod(stm32l0::stm32l0x2::GPIOD);

#[verifier::external_type_specification]
#[verifier::external_body]
pub struct ExGpioe(stm32l0::stm32l0x2::GPIOE);

#[verifier::external_type_specification]
#[verifier::external_body]
pub struct ExGpioh(stm32l0::stm32l0x2::GPIOH);

#[verifier::external_type_specification]
#[verifier::external_body]
pub struct ExDma1(stm32l0::stm32l0x2::DMA1);

#[verifier::external_type_specification]
#[verifier::external_body]
pub struct ExCrc(stm32l0::stm32l0x2::CRC);

#[verifier::external_type_specification]
#[verifier::external_body]
pub struct ExTsc(stm32l0::stm32l0x2::TSC);

#[verifier::external_type_specification]
#[verifier::external_body]
pub struct ExRng(stm32l0::stm32l0x2::RNG);

#[verifier::external_type_specification]
#[verifier::external_body]
pub struct ExTim2(stm32l0::stm32l0x2::TIM2);

#[verifier::external_type_specification]
#[verifier::external_body]
pub struct ExTim3(stm32l0::stm32l0x2::TIM3);

#[verifier::external_type_specification]
#[verifier::external_body]
pub struct ExTim6(stm32l0::stm32l0x2::TIM6);

#[verifier::external_type_specification]
#[verifier::external_body]
pub struct ExTim7(stm32l0::stm32l0x2::TIM7);

#[verifier::external_type_specification]
#[verifier::external_body]
pub struct ExWwdg(stm32l0::stm32l0x2::WWDG);

#[verifier::external_type_specification]
#[verifier::external_body]
pub struct ExIwdg(stm32l0::stm32l0x2::IWDG);

#[verifier::external_type_specification]
#[verifier::external_body]
pub struct ExLpuart1(stm32l0::stm32l0x2::LPUART1);

#[verifier::external_type_specification]
#[verifier::external_body]
pub struct ExUsart4(stm32l0::stm32l0x2::USART4);

#[verifier::external_type_specification]
#[verifier::external_body]
pub struct ExUsart5(stm32l0::stm32l0x2::USART5);

#[verifier::external_type_specification]
#[verifier::external_body]
pub struct ExCrs(stm32l0::stm32l0x2::CRS);

#[verifier::external_type_specification]
#[verifier::external_body]
pub struct ExDac(stm32l0::stm32l0x2::DAC);

#[verifier::external_type_specification]
#[verifier::external_body]
pub struct ExLptim(stm32l0::stm32l0x2::LPTIM);

#[verifier::external_type_specification]
#[verifier::external_body]
pub struct ExTim21(stm32l0::stm32l0x2::TIM21);

#[verifier::external_type_specification]
#[verifier::external_body]
pub struct ExTim22(stm32l0::stm32l0x2::TIM22);

#[verifier::external_type_specification]
#[verifier::external_body]
pub struct ExAdc(stm32l0::stm32l0x2::ADC);

#[verifier::external_type_specification]
#[verifier::external_body]
pub struct ExDbg(stm32l0::stm32l0x2::DBG);

#[verifier::external_type_specification]
#[verifier::external_body]
pub struct ExSyst(cortex_m::peripheral::SYST);

} // verus!
