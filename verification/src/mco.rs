//! MCO (Microcontroller Clock Output)
//!
//! MCO is available on PA8 or PA9. See "Table 16. Alternate function port A" in the datasheet.
use vstd::prelude::*;

use crate::gpio::{AltMode, Port};

verus! {

/// Implemented for the pins, and groups of pins, that can output the clock.
pub trait Pin {
    fn into_mco(self);
}

impl<P1: Pin, P2: Pin> Pin for (P1, P2) {
    fn into_mco(self) {
        self.0.into_mco();
        self.1.into_mco();
    }
}

impl<P1: Pin, P2: Pin, P3: Pin> Pin for (P1, P2, P3) {
    fn into_mco(self) {
        self.0.into_mco();
        self.1.into_mco();
        self.2.into_mco();
    }
}

/// The alternate function that routes the clock output to pin `pin` of
/// `port`: AF0 on `PA8` and `PA9`, AF2 on `PB13`; no other pin carries it.
pub fn alt_mode(port: Port, pin: u8) -> (r: Option<AltMode>)
    ensures
        r == (if port == Port::PA && (pin == 8 || pin == 9) {
            Some(AltMode::AF0)
        } else if port == Port::PB && pin == 13 {
            Some(AltMode::AF2)
        } else {
            None::<AltMode>
        }),
{
    match port {
        Port::PA => {
            if pin == 8 || pin == 9 {
                Some(AltMode::AF0)
            } else {
                None
            }
        },
        Port::PB => {
            if pin == 13 {
                Some(AltMode::AF2)
            } else {
                None
            }
        },
        _ => None,
    }
}

} // verus!
