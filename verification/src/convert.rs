//! Checked integer conversions, by the `cast` crate.
use vstd::prelude::*;

verus! {

/// Calls `cast::u16` on a `u32`: the value itself when it fits in `u16`;
/// the crate's overflow error becomes `None`.
#[verifier::external_body]
pub(crate) fn cast_u16(x: u32) -> (r: Option<u16>)
    ensures
        r == (if x <= u16::MAX {
            Some(x as u16)
        } else {
            None::<u16>
        }),
{
    cast::u16(x).ok()
}

/// Calls `cast::u8` on a `u32`: the value itself when it fits in `u8`; the
/// crate's overflow error becomes `None`.
#[verifier::external_body]
pub(crate) fn cast_u8(x: u32) -> (r: Option<u8>)
    ensures
        r == (if x <= u8::MAX {
            Some(x as u8)
        } else {
            None::<u8>
        }),
{
    cast::u8(x).ok()
}

/// The value of a checked conversion that cannot fail.
pub(crate) fn expect_u16(r: Option<u16>) -> (v: u16)
    requires
        r is Some,
    ensures
        r == Some(v),
{
    match r {
        Some(v) => v,
        None => 0,
    }
}

/// The value of a checked conversion that cannot fail.
pub(crate) fn expect_u8(r: Option<u8>) -> (v: u8)
    requires
        r is Some,
    ensures
        r == Some(v),
{
    match r {
        Some(v) => v,
        None => 0,
    }
}

} // verus!
