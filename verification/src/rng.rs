//! Interface to the true random number generator (RNG) peripheral
use vstd::prelude::*;

use crate::bits::{bit_set, lemma_low_masks, read_field, with_field, write_field};
use crate::rcc::HSI48;

verus! {

/// Bit of `RNGEN` (generator enable) in `RNG_CR`.
pub const CR_RNGEN: u32 = 2;

/// Bit of `IE` (interrupt enable) in `RNG_CR`.
pub const CR_IE: u32 = 3;

/// Bit of `DRDY` (data ready) in `RNG_SR`.
pub const SR_DRDY: u32 = 0;

/// The control register written by [`Rng::enable`]: the generator on, its
/// interrupt off, every other bit at its reset value.
pub open spec fn enabled_cr() -> u32 {
    with_field(with_field(0, CR_RNGEN, 1, 1), CR_IE, 1, 0)
}

/// The random number generator: its control register, as a plain value.
pub struct Rng {
    cr: u32,
}

impl Rng {
    /// The control register.
    pub closed spec fn spec_cr(&self) -> u32 {
        self.cr
    }

    /// The control register value to write.
    pub fn cr(&self) -> (r: u32)
        ensures
            r == self.spec_cr(),
    {
        self.cr
    }

    /// Initializes the peripheral, which runs on the HSI48 clock: the
    /// generator is enabled.
    pub fn new(_hsi48: HSI48) -> (r: Rng)
        ensures
            r.spec_cr() == enabled_cr(),
    {
        let mut ret = Rng { cr: 0 };
        ret.enable();
        ret
    }

    /// Enables the generator, with its interrupt disabled.
    pub fn enable(&mut self)
        ensures
            final(self).spec_cr() == enabled_cr(),
    {
        proof {
            lemma_low_masks();
        }
        let cr = write_field(0, CR_RNGEN, 1, 1);
        self.cr = write_field(cr, CR_IE, 1, 0);
    }

    /// Disables the generator and its interrupt; the other bits keep their
    /// values.
    pub fn disable(&mut self)
        ensures
            final(self).spec_cr() == with_field(
                with_field(old(self).spec_cr(), CR_RNGEN, 1, 0),
                CR_IE,
                1,
                0,
            ),
    {
        proof {
            lemma_low_masks();
        }
        let cr = write_field(self.cr, CR_RNGEN, 1, 0);
        self.cr = write_field(cr, CR_IE, 1, 0);
    }

    /// One look at the status register `sr` while waiting for a random
    /// number: the wait is over once the data ready flag is set.
    pub fn wait(&mut self, sr: u32) -> (done: bool)
        ensures
            done == bit_set(sr, SR_DRDY),
            final(self).spec_cr() == old(self).spec_cr(),
    {
        read_field(sr, SR_DRDY, 1) == 1
    }

    /// The random number: the value of the data register `dr`, read once the
    /// data is ready.
    pub fn take_result(&mut self, dr: u32) -> (r: u32)
        ensures
            r == dr,
            final(self).spec_cr() == old(self).spec_cr(),
    {
        dr
    }
}

} // verus!
