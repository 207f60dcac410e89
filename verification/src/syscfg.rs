//! Interface to the SYSCFG peripheral
//!
//! See STM32L0x2 reference manual, chapter 10.
use vstd::prelude::*;

verus! {

/// The SYSCFG registers that the HAL configures, as plain values.
#[derive(Debug, Clone, Copy, PartialEq, Eq, Structural)]
pub struct SyscfgRegisters {
    /// External interrupt configuration registers 1 to 4: the GPIO port of
    /// each EXTI line, four bits per line.
    pub exticr1: u32,
    pub exticr2: u32,
    pub exticr3: u32,
    pub exticr4: u32,
}

/// The SYSCFG peripheral.
pub struct SYSCFG {
    pub syscfg: SyscfgRegisters,
}

impl SYSCFG {
    /// The SYSCFG peripheral with the given register contents.
    pub fn new(syscfg: SyscfgRegisters) -> (r: Self)
        ensures
            r.syscfg == syscfg,
    {
        SYSCFG { syscfg }
    }
}

} // verus!
