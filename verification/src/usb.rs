//! Interface to the USB peripheral
//!
//! As USB seems to work mostly the same across all STM32 MCUs, there is a
//! single crate that supports USB for these MCUs: `stm32-usbd`. This module
//! holds what that crate needs to know of this family.
use vstd::prelude::*;

use crate::gpio::{Analog, Pin};
use crate::rcc::HSI48;

verus! {

/// Start of the packet memory that the USB peripheral shares with the CPU.
pub const EP_MEMORY: u32 = 0x4000_6000;

/// Size of the packet memory, in bytes.
pub const EP_MEMORY_SIZE: usize = 1024;

/// Whether the packet memory is accessed as two 16-bit halves of each word.
pub const EP_MEMORY_ACCESS_2X16: bool = true;

/// Whether the peripheral has its own pull-up resistor on D+.
pub const DP_PULL_UP_FEATURE: bool = true;

/// CPU cycles to wait after the peripheral is enabled: the start-up delay of
/// the STM32L0x2/x3 is 1 µs.
pub const STARTUP_DELAY_CYCLES: u32 = 32;

/// Token of the USB peripheral: the pins `PA11` (D-) and `PA12` (D+) are
/// given up to it and the HSI48 clock runs.
pub struct USB(());

impl USB {
    /// Takes the two data pins, which must be `PA11` and `PA12` in analog
    /// mode, and the token of the HSI48 clock.
    pub fn new(dm: Pin<Analog>, dp: Pin<Analog>, _hsi48: HSI48) -> (r: Self)
        requires
            dm.spec_port() == crate::gpio::Port::PA && dm.spec_number() == 11,
            dp.spec_port() == crate::gpio::Port::PA && dp.spec_number() == 12,
    {
        USB(())
    }
}

} // verus!
