//! Time units
use vstd::prelude::*;

verus! {

/// Bits per second
#[derive(Debug, Clone, Copy, PartialEq, Eq, Structural, PartialOrd)]
pub struct Bps(pub u32);

/// Hertz
#[derive(Debug, Clone, Copy, PartialEq, Eq, Structural, PartialOrd)]
pub struct Hertz(pub u32);

/// Microseconds
#[derive(Debug, Clone, Copy, PartialEq, Eq, Structural, PartialOrd)]
pub struct MicroSeconds(pub u32);

/// Extension trait that adds convenience methods to the `u32` type
pub trait U32Ext: Sized {
    /// The value can be scaled by one thousand without leaving `u32`.
    spec fn fits_thousand(self) -> bool;

    /// The value can be scaled by one million without leaving `u32`.
    spec fn fits_million(self) -> bool;

    /// Wrap in `Bps`
    fn bps(self) -> Bps;

    /// Wrap in `Hertz`
    fn hz(self) -> Hertz;

    /// Wrap in `Hertz`
    fn khz(self) -> Hertz
        requires
            self.fits_thousand(),
    ;

    /// Wrap in `Hertz`
    fn mhz(self) -> Hertz
        requires
            self.fits_million(),
    ;

    /// Wrap in `MicroSeconds`
    fn us(self) -> MicroSeconds;

    /// Wrap in `MicroSeconds`
    fn ms(self) -> MicroSeconds
        requires
            self.fits_thousand(),
    ;
}

impl U32Ext for u32 {
    open spec fn fits_thousand(self) -> bool {
        self * 1000 <= u32::MAX
    }

    open spec fn fits_million(self) -> bool {
        self * 1_000_000 <= u32::MAX
    }

    fn bps(self) -> (r: Bps)
        ensures
            r.0 == self,
    {
        Bps(self)
    }

    fn hz(self) -> (r: Hertz)
        ensures
            r.0 == self,
    {
        Hertz(self)
    }

    fn khz(self) -> (r: Hertz)
        ensures
            r.0 == self * 1000,
    {
        Hertz(self * 1_000)
    }

    fn mhz(self) -> (r: Hertz)
        ensures
            r.0 == self * 1_000_000,
    {
        Hertz(self * 1_000_000)
    }

    fn ms(self) -> (r: MicroSeconds)
        ensures
            r.0 == self * 1000,
    {
        MicroSeconds(self * 1_000)
    }

    fn us(self) -> (r: MicroSeconds)
        ensures
            r.0 == self,
    {
        MicroSeconds(self)
    }
}

impl Hertz {
    /// The period of this frequency, in whole microseconds.
    pub fn to_micro_seconds(self) -> (r: MicroSeconds)
        requires
            self.0 != 0,
            self.0 <= 1_000_000,
        ensures
            r.0 == 1_000_000u32 / self.0,
    {
        MicroSeconds(1_000_000 / self.0)
    }
}

impl MicroSeconds {
    /// The frequency of this period, in whole hertz.
    pub fn to_hertz(self) -> (r: Hertz)
        requires
            self.0 != 0,
            self.0 <= 1_000_000,
        ensures
            r.0 == 1_000_000u32 / self.0,
    {
        Hertz(1_000_000 / self.0)
    }
}

} // verus!
