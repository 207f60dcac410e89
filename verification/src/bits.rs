//! Bit fields of 32-bit peripheral registers.
use vstd::prelude::*;

verus! {

/// The mask of the lowest `width` bits.
pub open spec fn low_mask(width: u32) -> u32 {
    if width >= 32 { 0xffff_ffffu32 } else { ((1u32 << width) - 1) as u32 }
}

/// The value of the field of `width` bits at bit `offset` of `reg`.
pub open spec fn field(reg: u32, offset: u32, width: u32) -> u32 {
    (reg >> offset) & low_mask(width)
}

/// `reg` with the field of `width` bits at bit `offset` replaced by `value`.
pub open spec fn with_field(reg: u32, offset: u32, width: u32, value: u32) -> u32 {
    (reg & !(low_mask(width) << offset)) | (value << offset)
}

/// Whether bit `n` of `reg` is set.
pub open spec fn bit_set(reg: u32, n: u32) -> bool {
    field(reg, n, 1) == 1
}

/// A field fits in the register and the value fits in the field.
pub open spec fn field_ok(offset: u32, width: u32, value: u32) -> bool {
    &&& 1 <= width
    &&& offset + width <= 32
    &&& value <= low_mask(width)
}

/// Two fields share no bit.
pub open spec fn disjoint(o1: u32, w1: u32, o2: u32, w2: u32) -> bool {
    o1 + w1 <= o2 || o2 + w2 <= o1
}

/// Writing a field and reading it back gives the value written.
pub proof fn lemma_field_read_write(reg: u32, offset: u32, width: u32, value: u32)
    requires
        field_ok(offset, width, value),
    ensures
        field(with_field(reg, offset, width, value), offset, width) == value,
{
    let m = low_mask(width);
    assert(m == if width >= 32 { 0xffff_ffffu32 } else { ((1u32 << width) - 1) as u32 });
    assert(((reg & !(m << offset)) | (value << offset)) >> offset & m == value) by (bit_vector)
        requires
            1 <= width,
            offset + width <= 32,
            value <= m,
            m == if width >= 32 { 0xffff_ffffu32 } else { ((1u32 << width) - 1) as u32 },
    ;
}

/// Writing a field leaves every field that shares no bit with it unchanged.
pub proof fn lemma_field_frame(reg: u32, offset: u32, width: u32, value: u32, o2: u32, w2: u32)
    requires
        field_ok(offset, width, value),
        1 <= w2,
        o2 + w2 <= 32,
        disjoint(offset, width, o2, w2),
    ensures
        field(with_field(reg, offset, width, value), o2, w2) == field(reg, o2, w2),
{
    let m = low_mask(width);
    let m2 = low_mask(w2);
    assert(m == if width >= 32 { 0xffff_ffffu32 } else { ((1u32 << width) - 1) as u32 });
    assert(m2 == if w2 >= 32 { 0xffff_ffffu32 } else { ((1u32 << w2) - 1) as u32 });
    assert(((reg & !(m << offset)) | (value << offset)) >> o2 & m2 == (reg >> o2) & m2) by (bit_vector)
        requires
            1 <= width,
            offset + width <= 32,
            value <= m,
            m == if width >= 32 { 0xffff_ffffu32 } else { ((1u32 << width) - 1) as u32 },
            1 <= w2,
            o2 + w2 <= 32,
            m2 == if w2 >= 32 { 0xffff_ffffu32 } else { ((1u32 << w2) - 1) as u32 },
            offset + width <= o2 || o2 + w2 <= offset,
    ;
}

/// Writing a field gives it the value written and leaves every field that
/// shares no bit with it as it was.
pub proof fn lemma_with_field(reg: u32, offset: u32, width: u32, value: u32)
    requires
        field_ok(offset, width, value),
    ensures
        field(with_field(reg, offset, width, value), offset, width) == value,
        forall|o2: u32, w2: u32|
            1 <= w2 && o2 + w2 <= 32 && disjoint(offset, width, o2, w2) ==> #[trigger] field(
                with_field(reg, offset, width, value),
                o2,
                w2,
            ) == field(reg, o2, w2),
{
    lemma_field_read_write(reg, offset, width, value);
    assert forall|o2: u32, w2: u32|
        1 <= w2 && o2 + w2 <= 32 && disjoint(offset, width, o2, w2) implies #[trigger] field(
            with_field(reg, offset, width, value),
            o2,
            w2,
        ) == field(reg, o2, w2) by {
        lemma_field_frame(reg, offset, width, value, o2, w2);
    }
}

/// Small powers of two, as left shifts of one.
pub proof fn lemma_pow2_shifts()
    by (bit_vector)
    ensures
        1u32 << 0u32 == 1,
        1u32 << 1u32 == 2,
        1u32 << 2u32 == 4,
        1u32 << 3u32 == 8,
        1u32 << 4u32 == 16,
        1u32 << 5u32 == 32,
        1u32 << 6u32 == 64,
        1u32 << 7u32 == 128,
        1u32 << 8u32 == 256,
        1u32 << 9u32 == 512,
        1u32 << 10u32 == 1024,
        1u32 << 12u32 == 4096,
        1u32 << 15u32 == 0x8000,
        1u32 << 16u32 == 0x1_0000,
        1u32 << 24u32 == 0x100_0000,
{
}

/// The masks of the field widths in use.
pub proof fn lemma_low_masks()
    ensures
        low_mask(1) == 1,
        low_mask(2) == 3,
        low_mask(3) == 7,
        low_mask(4) == 15,
        low_mask(7) == 0x7f,
        low_mask(8) == 0xff,
        low_mask(10) == 0x3ff,
        low_mask(12) == 0xfff,
        low_mask(15) == 0x7fff,
        low_mask(16) == 0xffff,
{
    lemma_pow2_shifts();
    assert(1u32 << 16u32 == 0x1_0000);
    assert(1u32 << 8u32 == 0x100);
}

/// The mask of the lowest `width` bits, for `1 <= width <= 32`.
pub fn mask(width: u32) -> (m: u32)
    requires
        1 <= width <= 32,
    ensures
        m == low_mask(width),
{
    if width >= 32 {
        0xffff_ffffu32
    } else {
        assert(1u32 << width >= 1) by (bit_vector)
            requires
                width < 32,
        ;
        (1u32 << width) - 1
    }
}

/// Replaces the field of `width` bits at bit `offset` of `reg` by `value`.
pub fn write_field(reg: u32, offset: u32, width: u32, value: u32) -> (r: u32)
    requires
        field_ok(offset, width, value),
    ensures
        r == with_field(reg, offset, width, value),
        field(r, offset, width) == value,
        forall|o2: u32, w2: u32|
            1 <= w2 && o2 + w2 <= 32 && disjoint(offset, width, o2, w2) ==> #[trigger] field(r, o2, w2)
                == field(reg, o2, w2),
{
    let m = mask(width);
    proof {
        lemma_field_read_write(reg, offset, width, value);
        assert forall|o2: u32, w2: u32|
            1 <= w2 && o2 + w2 <= 32 && disjoint(offset, width, o2, w2) implies #[trigger] field(
                with_field(reg, offset, width, value), o2, w2) == field(reg, o2, w2) by {
            lemma_field_frame(reg, offset, width, value, o2, w2);
        }
    }
    (reg & !(m << offset)) | (value << offset)
}

/// A value that fits the mask is unchanged by masking.
pub proof fn lemma_mask_fits(value: u32, width: u32)
    requires
        value <= low_mask(width),
    ensures
        value & low_mask(width) == value,
{
    let m = low_mask(width);
    assert(m == if width >= 32 { 0xffff_ffffu32 } else { ((1u32 << width) - 1) as u32 });
    assert(value & m == value) by (bit_vector)
        requires
            value <= m,
            m == if width >= 32 { 0xffff_ffffu32 } else { ((1u32 << width) - 1) as u32 },
    ;
}

/// Writes a field the way a register writer does: the value is cut to the
/// field's width first.
pub fn write_field_masked(reg: u32, offset: u32, width: u32, value: u32) -> (r: u32)
    requires
        1 <= width,
        offset + width <= 32,
    ensures
        r == with_field(reg, offset, width, value & low_mask(width)),
        field(r, offset, width) == value & low_mask(width),
        forall|o2: u32, w2: u32|
            1 <= w2 && o2 + w2 <= 32 && disjoint(offset, width, o2, w2) ==> #[trigger] field(r, o2, w2)
                == field(reg, o2, w2),
{
    let m = mask(width);
    let v = value & m;
    assert(v <= m) by (bit_vector)
        requires
            v == value & m,
    ;
    write_field(reg, offset, width, v)
}

/// A field holds no more than its width allows.
pub proof fn lemma_field_bound(reg: u32, offset: u32, width: u32)
    ensures
        field(reg, offset, width) <= low_mask(width),
{
    let m = low_mask(width);
    assert((reg >> offset) & m <= m) by (bit_vector);
}

/// Reads the field of `width` bits at bit `offset` of `reg`.
pub fn read_field(reg: u32, offset: u32, width: u32) -> (r: u32)
    requires
        1 <= width,
        offset + width <= 32,
    ensures
        r == field(reg, offset, width),
        r <= low_mask(width),
{
    proof {
        lemma_field_bound(reg, offset, width);
    }
    let m = mask(width);
    (reg >> offset) & m
}

} // verus!
