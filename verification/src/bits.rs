//! Bit-field utilities over 32-bit words.
//!
//! Bit 0 is the least significant bit. Ranges are half-open, `[low, high)`.

use bit_field::BitField;
use vstd::prelude::*;

verus! {

/// The bit of `value` at position `bit`.
pub open spec fn spec_bit(value: u32, bit: nat) -> bool {
    (value >> bit) & 1 == 1
}

/// A word whose `width` low bits are set and all others clear.
pub open spec fn spec_low_mask(width: nat) -> u32 {
    if width >= 32 {
        0xffff_ffffu32
    } else {
        ((1u32 << width) - 1) as u32
    }
}

/// Bits `[low, high)` of `value`, right-aligned.
pub open spec fn spec_bits(value: u32, low: nat, high: nat) -> u32 {
    (value >> low) & spec_low_mask((high - low) as nat)
}

/// `value` with the bit at position `bit` replaced by `set`.
pub open spec fn spec_with_bit(value: u32, bit: nat, set: bool) -> u32 {
    if set {
        value | (1u32 << bit)
    } else {
        value & !(1u32 << bit)
    }
}

/// `value` with bits `[low, high)` replaced by the low bits of `field`.
pub open spec fn spec_with_bits(value: u32, low: nat, high: nat, field: u32) -> u32 {
    let mask = spec_low_mask((high - low) as nat);
    (value & !(mask << low)) | ((field & mask) << low)
}

/// Reads one bit.
pub fn get_bit(value: u32, bit: usize) -> (b: bool)
    requires
        bit < 32,
    ensures
        b == spec_bit(value, bit as nat),
{
    (value >> bit) & 1 == 1
}

/// Sets or clears one bit, leaving every other bit as it was.
pub fn set_bit(value: &mut u32, bit: usize, set: bool)
    requires
        bit < 32,
    ensures
        *final(value) == spec_with_bit(*old(value), bit as nat, set),
{
    if set {
        *value = *value | (1u32 << bit);
    } else {
        *value = *value & !(1u32 << bit);
    }
}

/// A mask of `width` low bits.
pub fn low_mask(width: usize) -> (m: u32)
    requires
        width <= 32,
    ensures
        m == spec_low_mask(width as nat),
{
    if width >= 32 {
        0xffff_ffffu32
    } else {
        proof {
            bit_update_facts(0, width as u32, 0);
        }
        (1u32 << width) - 1
    }
}

/// Extracts bits `[low, high)` as a right-aligned value.
pub fn get_bits(value: u32, low: usize, high: usize) -> (field: u32)
    requires
        low <= high <= 32,
        low < 32,
    ensures
        field == spec_bits(value, low as nat, high as nat),
{
    (value >> low) & low_mask(high - low)
}

/// Writes the low bits of `field` into bits `[low, high)`, leaving bits
/// outside the range as they were.
pub fn set_bits(value: &mut u32, low: usize, high: usize, field: u32)
    requires
        low <= high <= 32,
        low < 32,
    ensures
        *final(value) == spec_with_bits(*old(value), low as nat, high as nat, field),
{
    let mask: u32 = low_mask(high - low);
    *value = (*value & !(mask << low)) | ((field & mask) << low);
}

/// Calls `bit_field::BitField::get_bits` on a `u32` with the range
/// `low..high`. The crate documents the result as those bits, right-aligned,
/// and panics unless `low < 32`, `high <= 32` and `low <= high`.
#[verifier::external_body]
pub(crate) fn field_bits(value: u32, low: usize, high: usize) -> (field: u32)
    requires
        low <= high <= 32,
        low < 32,
    ensures
        field == spec_bits(value, low as nat, high as nat),
{
    value.get_bits(low..high)
}

proof fn bit_update_facts(value: u32, bit: u32, other: u32)
    by (bit_vector)
    requires
        bit < 32,
        other < 32,
    ensures
        ((value | (1u32 << bit)) >> other) & 1 == (if other == bit {
            1u32
        } else {
            (value >> other) & 1
        }),
        ((value & !(1u32 << bit)) >> other) & 1 == (if other == bit {
            0u32
        } else {
            (value >> other) & 1
        }),
        (1u32 << bit) >= 1,
{
}

proof fn field_update_facts(value: u32, low: u32, mask: u32, field: u32, other: u32)
    by (bit_vector)
    requires
        low < 32,
        other < 32,
        (mask << low) >> low == mask,
    ensures
        (((value & !(mask << low)) | ((field & mask) << low)) >> low) & mask == field & mask,
        (other < low || (mask >> (other - low) as u32) & 1 == 0) ==> (((value & !(mask << low)) | ((
        field & mask) << low)) >> other) & 1 == (value >> other) & 1,
        (value >> low) & mask <= mask,
{
}

proof fn low_mask_facts(width: u32, low: u32, other: u32)
    by (bit_vector)
    requires
        width < 32,
        low < 32,
        other < 32,
        low + width <= 32,
    ensures
        ((((1u32 << width) - 1) as u32) << low) >> low == ((1u32 << width) - 1) as u32,
        (0xffff_ffffu32 << 0u32) >> 0u32 == 0xffff_ffffu32,
        other >= low + width ==> ((((1u32 << width) - 1) as u32) >> (other - low) as u32) & 1 == 0,
{
}

/// Replacing one bit changes that bit and no other.
pub proof fn lemma_with_bit(value: u32, bit: nat, set: bool, other: nat)
    requires
        bit < 32,
        other < 32,
    ensures
        spec_bit(spec_with_bit(value, bit, set), other) == (if other == bit {
            set
        } else {
            spec_bit(value, other)
        }),
{
    bit_update_facts(value, bit as u32, other as u32);
}

/// Reading back a range that was just written gives the low bits of what was
/// written.
pub proof fn lemma_with_bits_read_back(value: u32, low: nat, high: nat, field: u32)
    requires
        low <= high <= 32,
        low < 32,
    ensures
        spec_bits(spec_with_bits(value, low, high, field), low, high) == field & spec_low_mask(
            (high - low) as nat,
        ),
        spec_bits(value, low, high) <= spec_low_mask((high - low) as nat),
{
    let width = (high - low) as nat;
    if width < 32 {
        low_mask_facts(width as u32, low as u32, 0);
    } else {
        low_mask_facts(0, 0, 0);
    }
    field_update_facts(value, low as u32, spec_low_mask(width), field, 0);
}

/// Writing a range leaves every bit outside the range as it was.
pub proof fn lemma_with_bits_frame(value: u32, low: nat, high: nat, field: u32, other: nat)
    requires
        low <= high <= 32,
        low < 32,
        other < 32,
        other < low || other >= high,
    ensures
        spec_bit(spec_with_bits(value, low, high, field), other) == spec_bit(value, other),
{
    let width = (high - low) as nat;
    if width < 32 {
        low_mask_facts(width as u32, low as u32, other as u32);
    } else {
        low_mask_facts(0, 0, 0);
    }
    field_update_facts(value, low as u32, spec_low_mask(width), field, other as u32);
}

proof fn small_shift_facts()
    by (bit_vector)
    ensures
        1u32 << 1u32 == 2u32,
        1u32 << 2u32 == 4u32,
        1u32 << 3u32 == 8u32,
        1u32 << 4u32 == 16u32,
        1u32 << 5u32 == 32u32,
        1u32 << 6u32 == 64u32,
        1u32 << 7u32 == 128u32,
        1u32 << 8u32 == 256u32,
        1u32 << 9u32 == 512u32,
        1u32 << 10u32 == 1024u32,
        1u32 << 11u32 == 2048u32,
        1u32 << 12u32 == 4096u32,
        1u32 << 16u32 == 0x1_0000u32,
        1u32 << 24u32 == 0x100_0000u32,
        1u32 << 25u32 == 0x200_0000u32,
        1u32 << 28u32 == 0x1000_0000u32,
{
}

/// The low masks of the widths that instruction fields have, as numbers.
pub proof fn lemma_low_masks()
    ensures
        spec_low_mask(1) == 1,
        spec_low_mask(2) == 3,
        spec_low_mask(3) == 7,
        spec_low_mask(4) == 15,
        spec_low_mask(5) == 31,
        spec_low_mask(6) == 63,
        spec_low_mask(7) == 127,
        spec_low_mask(8) == 255,
        spec_low_mask(9) == 511,
        spec_low_mask(10) == 1023,
        spec_low_mask(11) == 2047,
        spec_low_mask(12) == 4095,
        spec_low_mask(16) == 0xffff,
        spec_low_mask(24) == 0xff_ffff,
        spec_low_mask(25) == 0x1ff_ffff,
        spec_low_mask(28) == 0xfff_ffff,
{
    small_shift_facts();
}

} // verus!
