//! Factory-programmed data
//!
//! The STM32L0 contains a few read-only registers with factory programming
//! data that are written during production.
use vstd::prelude::*;

verus! {

/// Address of the first eight bytes of the unique device ID.
pub const FACTORY_PROD_ADDRESS: u32 = 0x1FF8_0050;

/// Address of the last four bytes of the unique device ID.
pub const UNIQUE_ID_ADDRESS: u32 = 0x1FF8_0064;

/// Address of the Flash memory size, in Kbytes (16 bits).
pub const FLASH_SIZE_ADDRESS: u32 = 0x1FF8_007C;

/// The lower-case hexadecimal digit of `n` in ASCII, for `n < 16`.
pub open spec fn hex_digit(n: u8) -> u8 {
    if n < 10 {
        (48 + n) as u8
    } else {
        (87 + n) as u8
    }
}

/// The value of a lower-case hexadecimal ASCII digit.
pub open spec fn hex_value(c: u8) -> int {
    if 48 <= c <= 57 {
        c - 48
    } else {
        c - 87
    }
}

/// Whether `c` is a lower-case hexadecimal ASCII digit.
pub open spec fn is_hex_digit(c: u8) -> bool {
    (48 <= c <= 57) || (97 <= c <= 102)
}

/// The digit of `n`, from `"0123456789abcdef"`.
fn hex_char(n: u8) -> (r: u8)
    requires
        n < 16,
    ensures
        r == hex_digit(n),
{
    if n < 10 {
        48 + n
    } else {
        87 + n
    }
}

/// The hex-encoded unique device ID: two lower-case digits for each of the
/// twelve bytes, the high nibble first.
pub fn device_id_hex(id: &[u8; 12]) -> (r: [u8; 24])
    ensures
        forall|i: int|
            0 <= i < 12 ==> r[2 * i] == hex_digit(#[trigger] id[i] / 16) && r[2 * i + 1]
                == hex_digit(id[i] % 16),
{
    let mut out = [0u8; 24];
    let mut i: usize = 0;
    while i < 12
        invariant
            0 <= i <= 12,
            forall|j: int|
                0 <= j < i ==> out[2 * j] == hex_digit(#[trigger] id[j] / 16) && out[2 * j + 1]
                    == hex_digit(id[j] % 16),
        decreases 12 - i,
    {
        let b = id[i];
        out[2 * i] = hex_char(b / 16);
        out[2 * i + 1] = hex_char(b % 16);
        i = i + 1;
    }
    out
}

/// The hex encoding of the device ID is text of hexadecimal digits, and it
/// gives back every byte of the ID.
pub proof fn lemma_hex_round_trip(id: [u8; 12], hex: [u8; 24])
    requires
        forall|i: int|
            0 <= i < 12 ==> hex[2 * i] == hex_digit(#[trigger] id[i] / 16) && hex[2 * i + 1]
                == hex_digit(id[i] % 16),
    ensures
        forall|k: int| 0 <= k < 24 ==> is_hex_digit(#[trigger] hex[k]),
        forall|i: int|
            0 <= i < 12 ==> 16 * hex_value(hex[2 * i]) + hex_value(hex[2 * i + 1]) == #[trigger] id[i],
{
    assert forall|k: int| 0 <= k < 24 implies is_hex_digit(#[trigger] hex[k]) by {
        let i = k / 2;
        assert(hex[2 * i] == hex_digit(id[i] / 16));
        assert(k == 2 * i || k == 2 * i + 1);
    }
}

} // verus!
