use vstd::prelude::*;

verus! {

/// The WIDTH bits of V that start at bit OFFSET, as a number.
pub open spec fn spec_field_u8(v: u8, offset: u8, width: u8) -> u8 {
    (v >> offset) & (((1u8 << width) - 1) as u8)
}

/// V with the WIDTH bits that start at bit OFFSET replaced by X.
pub open spec fn spec_with_field_u8(v: u8, offset: u8, width: u8, x: u8) -> u8 {
    (v & !((((1u8 << width) - 1) as u8) << offset)) | (x << offset)
}

/// Writing a field and reading it back gives what was written.
pub proof fn lemma_with_field_same_u8(v: u8, offset: u8, width: u8, x: u8)
    by (bit_vector)
    requires
        0 < width < 8,
        offset + width <= 8,
        x < (1u8 << width),
    ensures
        spec_field_u8(spec_with_field_u8(v, offset, width, x), offset, width) == x,
{
}

/// Writing a field leaves every field that does not overlap it as it was.
pub proof fn lemma_with_field_other_u8(v: u8, offset: u8, width: u8, x: u8, offset2: u8, width2: u8)
    by (bit_vector)
    requires
        0 < width < 8,
        offset + width <= 8,
        x < (1u8 << width),
        0 < width2 < 8,
        offset2 + width2 <= 8,
        offset2 + width2 <= offset || offset + width <= offset2,
    ensures
        spec_field_u8(spec_with_field_u8(v, offset, width, x), offset2, width2) == spec_field_u8(v, offset2, width2),
{
}

/// A field of WIDTH bits is less than 2 to the power of WIDTH.
pub proof fn lemma_field_bound_u8(v: u8, offset: u8, width: u8)
    by (bit_vector)
    requires
        0 < width < 8,
        offset + width <= 8,
    ensures
        spec_field_u8(v, offset, width) < (1u8 << width),
{
}

/// Reads a field.
pub fn field_u8(v: u8, offset: u8, width: u8) -> (r: u8)
    requires
        0 < width < 8,
        offset + width <= 8,
    ensures
        r == spec_field_u8(v, offset, width),
        r < (1u8 << width),
{
    proof {
        lemma_field_bound_u8(v, offset, width);
    }
    (v >> offset) & ((1u8 << width) - 1)
}

/// Writes a field.
pub fn with_field_u8(v: u8, offset: u8, width: u8, x: u8) -> (r: u8)
    requires
        0 < width < 8,
        offset + width <= 8,
        x < (1u8 << width),
    ensures
        r == spec_with_field_u8(v, offset, width, x),
        spec_field_u8(r, offset, width) == x,
{
    proof {
        lemma_with_field_same_u8(v, offset, width, x);
    }
    (v & !(((1u8 << width) - 1) << offset)) | (x << offset)
}

/// The WIDTH bits of V that start at bit OFFSET, as a number.
pub open spec fn spec_field_u16(v: u16, offset: u16, width: u16) -> u16 {
    (v >> offset) & (((1u16 << width) - 1) as u16)
}

/// V with the WIDTH bits that start at bit OFFSET replaced by X.
pub open spec fn spec_with_field_u16(v: u16, offset: u16, width: u16, x: u16) -> u16 {
    (v & !((((1u16 << width) - 1) as u16) << offset)) | (x << offset)
}

/// Writing a field and reading it back gives what was written.
pub proof fn lemma_with_field_same_u16(v: u16, offset: u16, width: u16, x: u16)
    by (bit_vector)
    requires
        0 < width < 16,
        offset + width <= 16,
        x < (1u16 << width),
    ensures
        spec_field_u16(spec_with_field_u16(v, offset, width, x), offset, width) == x,
{
}

/// Writing a field leaves every field that does not overlap it as it was.
pub proof fn lemma_with_field_other_u16(v: u16, offset: u16, width: u16, x: u16, offset2: u16, width2: u16)
    by (bit_vector)
    requires
        0 < width < 16,
        offset + width <= 16,
        x < (1u16 << width),
        0 < width2 < 16,
        offset2 + width2 <= 16,
        offset2 + width2 <= offset || offset + width <= offset2,
    ensures
        spec_field_u16(spec_with_field_u16(v, offset, width, x), offset2, width2) == spec_field_u16(v, offset2, width2),
{
}

/// A field of WIDTH bits is less than 2 to the power of WIDTH.
pub proof fn lemma_field_bound_u16(v: u16, offset: u16, width: u16)
    by (bit_vector)
    requires
        0 < width < 16,
        offset + width <= 16,
    ensures
        spec_field_u16(v, offset, width) < (1u16 << width),
{
}

/// Reads a field.
pub fn field_u16(v: u16, offset: u16, width: u16) -> (r: u16)
    requires
        0 < width < 16,
        offset + width <= 16,
    ensures
        r == spec_field_u16(v, offset, width),
        r < (1u16 << width),
{
    proof {
        lemma_field_bound_u16(v, offset, width);
    }
    (v >> offset) & ((1u16 << width) - 1)
}

/// Writes a field.
pub fn with_field_u16(v: u16, offset: u16, width: u16, x: u16) -> (r: u16)
    requires
        0 < width < 16,
        offset + width <= 16,
        x < (1u16 << width),
    ensures
        r == spec_with_field_u16(v, offset, width, x),
        spec_field_u16(r, offset, width) == x,
{
    proof {
        lemma_with_field_same_u16(v, offset, width, x);
    }
    (v & !(((1u16 << width) - 1) << offset)) | (x << offset)
}

/// The WIDTH bits of V that start at bit OFFSET, as a number.
pub open spec fn spec_field_u32(v: u32, offset: u32, width: u32) -> u32 {
    (v >> offset) & (((1u32 << width) - 1) as u32)
}

/// V with the WIDTH bits that start at bit OFFSET replaced by X.
pub open spec fn spec_with_field_u32(v: u32, offset: u32, width: u32, x: u32) -> u32 {
    (v & !((((1u32 << width) - 1) as u32) << offset)) | (x << offset)
}

/// Writing a field and reading it back gives what was written.
pub proof fn lemma_with_field_same_u32(v: u32, offset: u32, width: u32, x: u32)
    by (bit_vector)
    requires
        0 < width < 32,
        offset + width <= 32,
        x < (1u32 << width),
    ensures
        spec_field_u32(spec_with_field_u32(v, offset, width, x), offset, width) == x,
{
}

/// Writing a field leaves every field that does not overlap it as it was.
pub proof fn lemma_with_field_other_u32(v: u32, offset: u32, width: u32, x: u32, offset2: u32, width2: u32)
    by (bit_vector)
    requires
        0 < width < 32,
        offset + width <= 32,
        x < (1u32 << width),
        0 < width2 < 32,
        offset2 + width2 <= 32,
        offset2 + width2 <= offset || offset + width <= offset2,
    ensures
        spec_field_u32(spec_with_field_u32(v, offset, width, x), offset2, width2) == spec_field_u32(v, offset2, width2),
{
}

/// A field of WIDTH bits is less than 2 to the power of WIDTH.
pub proof fn lemma_field_bound_u32(v: u32, offset: u32, width: u32)
    by (bit_vector)
    requires
        0 < width < 32,
        offset + width <= 32,
    ensures
        spec_field_u32(v, offset, width) < (1u32 << width),
{
}

/// Reads a field.
pub fn field_u32(v: u32, offset: u32, width: u32) -> (r: u32)
    requires
        0 < width < 32,
        offset + width <= 32,
    ensures
        r == spec_field_u32(v, offset, width),
        r < (1u32 << width),
{
    proof {
        lemma_field_bound_u32(v, offset, width);
    }
    (v >> offset) & ((1u32 << width) - 1)
}

/// Writes a field.
pub fn with_field_u32(v: u32, offset: u32, width: u32, x: u32) -> (r: u32)
    requires
        0 < width < 32,
        offset + width <= 32,
        x < (1u32 << width),
    ensures
        r == spec_with_field_u32(v, offset, width, x),
        spec_field_u32(r, offset, width) == x,
{
    proof {
        lemma_with_field_same_u32(v, offset, width, x);
    }
    (v & !(((1u32 << width) - 1) << offset)) | (x << offset)
}

/// The WIDTH bits of V that start at bit OFFSET, as a number.
pub open spec fn spec_field_u64(v: u64, offset: u64, width: u64) -> u64 {
    (v >> offset) & (((1u64 << width) - 1) as u64)
}

/// V with the WIDTH bits that start at bit OFFSET replaced by X.
pub open spec fn spec_with_field_u64(v: u64, offset: u64, width: u64, x: u64) -> u64 {
    (v & !((((1u64 << width) - 1) as u64) << offset)) | (x << offset)
}

/// Writing a field and reading it back gives what was written.
pub proof fn lemma_with_field_same_u64(v: u64, offset: u64, width: u64, x: u64)
    by (bit_vector)
    requires
        0 < width < 64,
        offset + width <= 64,
        x < (1u64 << width),
    ensures
        spec_field_u64(spec_with_field_u64(v, offset, width, x), offset, width) == x,
{
}

/// Writing a field leaves every field that does not overlap it as it was.
pub proof fn lemma_with_field_other_u64(v: u64, offset: u64, width: u64, x: u64, offset2: u64, width2: u64)
    by (bit_vector)
    requires
        0 < width < 64,
        offset + width <= 64,
        x < (1u64 << width),
        0 < width2 < 64,
        offset2 + width2 <= 64,
        offset2 + width2 <= offset || offset + width <= offset2,
    ensures
        spec_field_u64(spec_with_field_u64(v, offset, width, x), offset2, width2) == spec_field_u64(v, offset2, width2),
{
}

/// A field of WIDTH bits is less than 2 to the power of WIDTH.
pub proof fn lemma_field_bound_u64(v: u64, offset: u64, width: u64)
    by (bit_vector)
    requires
        0 < width < 64,
        offset + width <= 64,
    ensures
        spec_field_u64(v, offset, width) < (1u64 << width),
{
}

/// Reads a field.
pub fn field_u64(v: u64, offset: u64, width: u64) -> (r: u64)
    requires
        0 < width < 64,
        offset + width <= 64,
    ensures
        r == spec_field_u64(v, offset, width),
        r < (1u64 << width),
{
    proof {
        lemma_field_bound_u64(v, offset, width);
    }
    (v >> offset) & ((1u64 << width) - 1)
}

/// Writes a field.
pub fn with_field_u64(v: u64, offset: u64, width: u64, x: u64) -> (r: u64)
    requires
        0 < width < 64,
        offset + width <= 64,
        x < (1u64 << width),
    ensures
        r == spec_with_field_u64(v, offset, width, x),
        spec_field_u64(r, offset, width) == x,
{
    proof {
        lemma_with_field_same_u64(v, offset, width, x);
    }
    (v & !(((1u64 << width) - 1) << offset)) | (x << offset)
}

/// The values of 1 shifted left by each amount below 8.
pub proof fn lemma_shift_table_u8()
    by (bit_vector)
    ensures
        (1u8 << 0u8) == 0x1u8,
        (1u8 << 1u8) == 0x2u8,
        (1u8 << 2u8) == 0x4u8,
        (1u8 << 3u8) == 0x8u8,
        (1u8 << 4u8) == 0x10u8,
        (1u8 << 5u8) == 0x20u8,
        (1u8 << 6u8) == 0x40u8,
        (1u8 << 7u8) == 0x80u8,
{
}

/// The values of 1 shifted left by each amount below 16.
pub proof fn lemma_shift_table_u16()
    by (bit_vector)
    ensures
        (1u16 << 0u16) == 0x1u16,
        (1u16 << 1u16) == 0x2u16,
        (1u16 << 2u16) == 0x4u16,
        (1u16 << 3u16) == 0x8u16,
        (1u16 << 4u16) == 0x10u16,
        (1u16 << 5u16) == 0x20u16,
        (1u16 << 6u16) == 0x40u16,
        (1u16 << 7u16) == 0x80u16,
        (1u16 << 8u16) == 0x100u16,
        (1u16 << 9u16) == 0x200u16,
        (1u16 << 10u16) == 0x400u16,
        (1u16 << 11u16) == 0x800u16,
        (1u16 << 12u16) == 0x1000u16,
        (1u16 << 13u16) == 0x2000u16,
        (1u16 << 14u16) == 0x4000u16,
        (1u16 << 15u16) == 0x8000u16,
{
}

/// The values of 1 shifted left by each amount below 32.
pub proof fn lemma_shift_table_u32()
    by (bit_vector)
    ensures
        (1u32 << 0u32) == 0x1u32,
        (1u32 << 1u32) == 0x2u32,
        (1u32 << 2u32) == 0x4u32,
        (1u32 << 3u32) == 0x8u32,
        (1u32 << 4u32) == 0x10u32,
        (1u32 << 5u32) == 0x20u32,
        (1u32 << 6u32) == 0x40u32,
        (1u32 << 7u32) == 0x80u32,
        (1u32 << 8u32) == 0x100u32,
        (1u32 << 9u32) == 0x200u32,
        (1u32 << 10u32) == 0x400u32,
        (1u32 << 11u32) == 0x800u32,
        (1u32 << 12u32) == 0x1000u32,
        (1u32 << 13u32) == 0x2000u32,
        (1u32 << 14u32) == 0x4000u32,
        (1u32 << 15u32) == 0x8000u32,
        (1u32 << 16u32) == 0x10000u32,
        (1u32 << 17u32) == 0x20000u32,
        (1u32 << 18u32) == 0x40000u32,
        (1u32 << 19u32) == 0x80000u32,
        (1u32 << 20u32) == 0x100000u32,
        (1u32 << 21u32) == 0x200000u32,
        (1u32 << 22u32) == 0x400000u32,
        (1u32 << 23u32) == 0x800000u32,
        (1u32 << 24u32) == 0x1000000u32,
        (1u32 << 25u32) == 0x2000000u32,
        (1u32 << 26u32) == 0x4000000u32,
        (1u32 << 27u32) == 0x8000000u32,
        (1u32 << 28u32) == 0x10000000u32,
        (1u32 << 29u32) == 0x20000000u32,
        (1u32 << 30u32) == 0x40000000u32,
        (1u32 << 31u32) == 0x80000000u32,
{
}

/// The values of 1 shifted left by each amount below 64.
pub proof fn lemma_shift_table_u64()
    by (bit_vector)
    ensures
        (1u64 << 0u64) == 0x1u64,
        (1u64 << 1u64) == 0x2u64,
        (1u64 << 2u64) == 0x4u64,
        (1u64 << 3u64) == 0x8u64,
        (1u64 << 4u64) == 0x10u64,
        (1u64 << 5u64) == 0x20u64,
        (1u64 << 6u64) == 0x40u64,
        (1u64 << 7u64) == 0x80u64,
        (1u64 << 8u64) == 0x100u64,
        (1u64 << 9u64) == 0x200u64,
        (1u64 << 10u64) == 0x400u64,
        (1u64 << 11u64) == 0x800u64,
        (1u64 << 12u64) == 0x1000u64,
        (1u64 << 13u64) == 0x2000u64,
        (1u64 << 14u64) == 0x4000u64,
        (1u64 << 15u64) == 0x8000u64,
        (1u64 << 16u64) == 0x10000u64,
        (1u64 << 17u64) == 0x20000u64,
        (1u64 << 18u64) == 0x40000u64,
        (1u64 << 19u64) == 0x80000u64,
        (1u64 << 20u64) == 0x100000u64,
        (1u64 << 21u64) == 0x200000u64,
        (1u64 << 22u64) == 0x400000u64,
        (1u64 << 23u64) == 0x800000u64,
        (1u64 << 24u64) == 0x1000000u64,
        (1u64 << 25u64) == 0x2000000u64,
        (1u64 << 26u64) == 0x4000000u64,
        (1u64 << 27u64) == 0x8000000u64,
        (1u64 << 28u64) == 0x10000000u64,
        (1u64 << 29u64) == 0x20000000u64,
        (1u64 << 30u64) == 0x40000000u64,
        (1u64 << 31u64) == 0x80000000u64,
        (1u64 << 32u64) == 0x100000000u64,
        (1u64 << 33u64) == 0x200000000u64,
        (1u64 << 34u64) == 0x400000000u64,
        (1u64 << 35u64) == 0x800000000u64,
        (1u64 << 36u64) == 0x1000000000u64,
        (1u64 << 37u64) == 0x2000000000u64,
        (1u64 << 38u64) == 0x4000000000u64,
        (1u64 << 39u64) == 0x8000000000u64,
        (1u64 << 40u64) == 0x10000000000u64,
        (1u64 << 41u64) == 0x20000000000u64,
        (1u64 << 42u64) == 0x40000000000u64,
        (1u64 << 43u64) == 0x80000000000u64,
        (1u64 << 44u64) == 0x100000000000u64,
        (1u64 << 45u64) == 0x200000000000u64,
        (1u64 << 46u64) == 0x400000000000u64,
        (1u64 << 47u64) == 0x800000000000u64,
        (1u64 << 48u64) == 0x1000000000000u64,
        (1u64 << 49u64) == 0x2000000000000u64,
        (1u64 << 50u64) == 0x4000000000000u64,
        (1u64 << 51u64) == 0x8000000000000u64,
        (1u64 << 52u64) == 0x10000000000000u64,
        (1u64 << 53u64) == 0x20000000000000u64,
        (1u64 << 54u64) == 0x40000000000000u64,
        (1u64 << 55u64) == 0x80000000000000u64,
        (1u64 << 56u64) == 0x100000000000000u64,
        (1u64 << 57u64) == 0x200000000000000u64,
        (1u64 << 58u64) == 0x400000000000000u64,
        (1u64 << 59u64) == 0x800000000000000u64,
        (1u64 << 60u64) == 0x1000000000000000u64,
        (1u64 << 61u64) == 0x2000000000000000u64,
        (1u64 << 62u64) == 0x4000000000000000u64,
        (1u64 << 63u64) == 0x8000000000000000u64,
{
}

/// A value with no bit outside MASK is at most MASK.
pub proof fn lemma_masked_bound_u64(v: u64, mask: u64)
    by (bit_vector)
    requires
        v & !mask == 0,
    ensures
        v <= mask,
{
}

} // verus!
