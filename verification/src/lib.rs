//! Verified register-level logic for the STM32L0xx family of microcontrollers.
//!
//! Every peripheral is modelled by the values its registers hold (a register
//! image). The functions of this crate compute, with proved contracts, what
//! the driver writes to the hardware, and decide what follows from what the
//! hardware reports back.
#![allow(non_camel_case_types)]

pub mod bits;
pub mod time;
pub mod rcc;
pub mod rcc_bus;
pub mod adc;
pub mod gpio;
pub mod exti;
pub mod syscfg;
pub mod pwr;
pub mod convert;
pub mod timer;
pub mod pwm;
pub mod watchdog;
pub mod rtc;
pub mod flash;
pub mod i2c;
pub mod serial;
pub mod spi;
pub mod dma;
pub mod peripherals;
pub mod aes;
pub mod rng;
pub mod usb;
pub mod encoder;
pub mod delay;
pub mod signature;
pub mod mco;
