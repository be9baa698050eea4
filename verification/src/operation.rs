//! Arithmetic, shift and extension primitives shared by the decoder and the
//! execution engine.

use crate::bits::get_bit;
use crate::bits::low_mask;
use crate::bits::spec_bit;
use crate::bits::spec_low_mask;
use vstd::prelude::*;

verus! {

/// The kinds of shift that the barrel shifter performs.
#[allow(clippy::upper_case_acronyms)]
#[derive(Copy, Clone, Debug, PartialEq, Eq, Structural)]
pub enum SRType {
    /// Logical shift left
    LSL,
    /// Logical shift right
    LSR,
    /// Arithmetic shift right
    ASR,
    /// Rotate right with extend, through the carry flag
    RRX,
    /// Rotate right
    ROR,
}

/// Two to the power 32.
pub open spec fn spec_word_modulus() -> int {
    0x1_0000_0000
}

/// The value of `x` read as a two's complement number.
pub open spec fn spec_signed(x: u32) -> int {
    if x >= 0x8000_0000 {
        x - spec_word_modulus()
    } else {
        x as int
    }
}

/// The sum of `x`, `y` and the carry as an unbounded number.
pub open spec fn spec_unsigned_sum(x: u32, y: u32, carry_in: bool) -> int {
    x + y + (if carry_in {
        1int
    } else {
        0int
    })
}

/// The sum of `x`, `y` read as signed numbers, and the carry.
pub open spec fn spec_signed_sum(x: u32, y: u32, carry_in: bool) -> int {
    spec_signed(x) + spec_signed(y) + (if carry_in {
        1int
    } else {
        0int
    })
}

/// Result, carry out and overflow of adding `x`, `y` and the carry in.
pub open spec fn spec_add_with_carry(x: u32, y: u32, carry_in: bool) -> (u32, bool, bool) {
    let result = (spec_unsigned_sum(x, y, carry_in) % spec_word_modulus()) as u32;
    (
        result,
        spec_unsigned_sum(x, y, carry_in) >= spec_word_modulus(),
        spec_signed(result) != spec_signed_sum(x, y, carry_in),
    )
}

/// Adds `x`, `y` and the carry with 33-bit precision.
///
/// The result is the sum modulo 2^32, the carry is the 33rd bit of the
/// unsigned sum, and overflow tells that the signed sum does not fit in 32
/// bits: the operands have the same sign and the result has the other.
pub fn add_with_carry(x: u32, y: u32, carry_in: bool) -> (out: (u32, bool, bool))
    ensures
        out == spec_add_with_carry(x, y, carry_in),
        out.2 == (spec_bit(x, 31) == spec_bit(y, 31) && spec_bit(out.0, 31) != spec_bit(x, 31)),
{
    let carry: u64 = if carry_in {
        1
    } else {
        0
    };
    let sum: u64 = x as u64 + y as u64 + carry;
    let carry_out: bool = sum >= 0x1_0000_0000u64;
    let result: u32 = if carry_out {
        (sum - 0x1_0000_0000u64) as u32
    } else {
        sum as u32
    };
    let x_negative: bool = get_bit(x, 31);
    let y_negative: bool = get_bit(y, 31);
    let result_negative: bool = get_bit(result, 31);
    proof {
        sign_bit_facts(x);
        sign_bit_facts(y);
        sign_bit_facts(result);
    }
    let overflow: bool = x_negative == y_negative && result_negative != x_negative;
    (result, carry_out, overflow)
}

proof fn sign_bit_facts(x: u32)
    by (bit_vector)
    ensures
        ((x >> 31u32) & 1 == 1) == (x >= 0x8000_0000u32),
{
}

/// The sign bit of a word is set exactly when the word is 2^31 or more.
pub proof fn lemma_sign_bit(x: u32)
    ensures
        spec_bit(x, 31) == (x >= 0x8000_0000u32),
        spec_bit(x, 31) == (spec_signed(x) < 0),
{
    sign_bit_facts(x);
}

/// Subtraction by adding the complement: `x + !y + 1` is `x - y` modulo 2^32,
/// and the carry out tells that no borrow occurred.
pub proof fn lemma_subtract_by_complement(x: u32, y: u32)
    ensures
        spec_add_with_carry(x, !y, true).0 == (if x >= y {
            x - y
        } else {
            x - y + spec_word_modulus()
        }),
        spec_add_with_carry(x, !y, true).1 == (x >= y),
        spec_add_with_carry(x, !y, true).2 == (spec_signed(x) - spec_signed(y) < -0x8000_0000
            || spec_signed(x) - spec_signed(y) > 0x7fff_ffff),
{
    complement_facts(y);
}

proof fn complement_facts(y: u32)
    by (bit_vector)
    ensures
        !y == 0xffff_ffffu32 - y,
        y ^ 0xffff_ffffu32 == !y,
{
}

/// The complement of a word, written either way, is 2^32 - 1 minus the word.
pub proof fn lemma_complement(y: u32)
    ensures
        !y == 0xffff_ffffu32 - y,
        y ^ 0xffff_ffffu32 == !y,
{
    complement_facts(y);
}

/// Logical shift left by `amount` of at least 1, with the last bit shifted out.
pub open spec fn spec_lsl_c(value: u32, amount: nat) -> (u32, bool) {
    if amount < 32 {
        (value << amount, spec_bit(value, (32 - amount) as nat))
    } else if amount == 32 {
        (0u32, spec_bit(value, 0))
    } else {
        (0u32, false)
    }
}

/// Logical shift right by `amount` of at least 1, with the last bit shifted out.
pub open spec fn spec_lsr_c(value: u32, amount: nat) -> (u32, bool) {
    if amount < 32 {
        (value >> amount, spec_bit(value, (amount - 1) as nat))
    } else if amount == 32 {
        (0u32, spec_bit(value, 31))
    } else {
        (0u32, false)
    }
}

/// Arithmetic shift right by `amount` of at least 1: the sign bit fills the
/// vacated positions.
pub open spec fn spec_asr_c(value: u32, amount: nat) -> (u32, bool) {
    if amount < 32 {
        (
            if spec_bit(value, 31) {
                (value >> amount) | !(0xffff_ffffu32 >> amount)
            } else {
                value >> amount
            },
            spec_bit(value, (amount - 1) as nat),
        )
    } else {
        (
            if spec_bit(value, 31) {
                0xffff_ffffu32
            } else {
                0u32
            },
            spec_bit(value, 31),
        )
    }
}

/// Rotation right by `amount` of at least 1; the carry is the top bit of the result.
pub open spec fn spec_ror_c(value: u32, amount: nat) -> (u32, bool) {
    let turn = amount % 32;
    let result = if turn == 0 {
        value
    } else {
        (value >> turn) | (value << (32 - turn) as nat)
    };
    (result, spec_bit(result, 31))
}

/// Rotation right by one place through the carry.
pub open spec fn spec_rrx_c(value: u32, carry_in: bool) -> (u32, bool) {
    (
        (value >> 1u32) | (if carry_in {
            0x8000_0000u32
        } else {
            0u32
        }),
        spec_bit(value, 0),
    )
}

/// Result and carry out of shifting `value`; an amount of 0 changes nothing.
pub open spec fn spec_shift_c(value: u32, shift_t: SRType, amount: nat, carry_in: bool) -> (
    u32,
    bool,
) {
    if amount == 0 {
        (value, carry_in)
    } else {
        match shift_t {
            SRType::LSL => spec_lsl_c(value, amount),
            SRType::LSR => spec_lsr_c(value, amount),
            SRType::ASR => spec_asr_c(value, amount),
            SRType::ROR => spec_ror_c(value, amount),
            SRType::RRX => spec_rrx_c(value, carry_in),
        }
    }
}

/// Shifts `value` by `amount` and reports the carry out.
///
/// An amount of 0 returns `value` and `carry_in` unchanged. `RRX` rotates by
/// one place through the carry, whatever positive amount is given.
pub fn shift_c(value: u32, shift_t: SRType, amount: u32, carry_in: bool) -> (out: (u32, bool))
    ensures
        out == spec_shift_c(value, shift_t, amount as nat, carry_in),
{
    if amount == 0 {
        return (value, carry_in);
    }
    match shift_t {
        SRType::LSL => {
            if amount < 32 {
                (value << amount, get_bit(value, (32 - amount) as usize))
            } else if amount == 32 {
                (0, get_bit(value, 0))
            } else {
                (0, false)
            }
        },
        SRType::LSR => {
            if amount < 32 {
                (value >> amount, get_bit(value, (amount - 1) as usize))
            } else if amount == 32 {
                (0, get_bit(value, 31))
            } else {
                (0, false)
            }
        },
        SRType::ASR => {
            let negative: bool = get_bit(value, 31);
            if amount < 32 {
                let shifted: u32 = value >> amount;
                let result: u32 = if negative {
                    shifted | !(0xffff_ffffu32 >> amount)
                } else {
                    shifted
                };
                (result, get_bit(value, (amount - 1) as usize))
            } else if negative {
                (0xffff_ffff, true)
            } else {
                (0, false)
            }
        },
        SRType::ROR => {
            let turn: u32 = amount % 32;
            let result: u32 = if turn == 0 {
                value
            } else {
                (value >> turn) | (value << (32 - turn))
            };
            (result, get_bit(result, 31))
        },
        SRType::RRX => {
            let top: u32 = if carry_in {
                0x8000_0000
            } else {
                0
            };
            ((value >> 1u32) | top, get_bit(value, 0))
        },
    }
}

/// Kind and amount of the shift that a 2-bit type field and a 5-bit immediate encode.
pub open spec fn spec_decode_imm_shift(type_bits: u8, imm5: u8) -> (SRType, u8) {
    if type_bits == 0 {
        (SRType::LSL, imm5)
    } else if type_bits == 1 {
        (
            SRType::LSR,
            if imm5 == 0 {
                32u8
            } else {
                imm5
            },
        )
    } else if type_bits == 2 {
        (
            SRType::ASR,
            if imm5 == 0 {
                32u8
            } else {
                imm5
            },
        )
    } else if imm5 == 0 {
        (SRType::RRX, 1u8)
    } else {
        (SRType::ROR, imm5)
    }
}

/// Decodes the shift of an immediate-shift instruction.
///
/// An immediate of 0 means a shift by 32 for `LSR` and `ASR`, and `RRX` in
/// place of `ROR`. A type above 3 is read as 3.
pub fn decode_imm_shift(type_bits: u8, imm5: u8) -> (out: (SRType, u8))
    ensures
        out == spec_decode_imm_shift(type_bits, imm5),
        imm5 < 32 ==> 1 <= out.1 <= 32 || (out.0 == SRType::LSL && out.1 == 0),
{
    match type_bits {
        0 => (SRType::LSL, imm5),
        1 => (
            SRType::LSR,
            if imm5 == 0 {
                32
            } else {
                imm5
            },
        ),
        2 => (
            SRType::ASR,
            if imm5 == 0 {
                32
            } else {
                imm5
            },
        ),
        _ => {
            if imm5 == 0 {
                (SRType::RRX, 1)
            } else {
                (SRType::ROR, imm5)
            }
        },
    }
}

/// The fields joined most significant first: each field is shifted in
/// below the ones before it, by its own width.
pub open spec fn spec_zero_extend(fields: Seq<u8>, widths: Seq<u8>) -> u32
    decreases fields.len(),
{
    if fields.len() == 0 || widths.len() != fields.len() {
        0u32
    } else {
        (spec_zero_extend(fields.drop_last(), widths.drop_last()) << widths.last()) | (
        fields.last() as u32)
    }
}

/// Joins bit fields, most significant first, into one zero-extended word.
///
/// `widths[i]` is the width in bits of `fields[i]`.
pub fn zero_extend(fields: &[u8], widths: &[u8]) -> (word: u32)
    requires
        fields@.len() == widths@.len(),
        forall|i: int| 0 <= i < widths@.len() ==> widths@[i] < 32,
    ensures
        word == spec_zero_extend(fields@, widths@),
{
    let mut word: u32 = 0;
    let mut i: usize = 0;
    while i < fields.len()
        invariant
            i <= fields@.len(),
            fields@.len() == widths@.len(),
            forall|k: int| 0 <= k < widths@.len() ==> widths@[k] < 32,
            word == spec_zero_extend(fields@.take(i as int), widths@.take(i as int)),
        decreases fields@.len() - i,
    {
        proof {
            assert(fields@.take(i + 1).drop_last() =~= fields@.take(i as int));
            assert(widths@.take(i + 1).drop_last() =~= widths@.take(i as int));
        }
        word = (word << widths[i]) | (fields[i] as u32);
        i = i + 1;
    }
    proof {
        assert(fields@.take(i as int) =~= fields@);
        assert(widths@.take(i as int) =~= widths@);
    }
    word
}

/// The low `width` bits of `value` read as a two's complement number: the
/// bits above them are filled with the field's top bit.
pub open spec fn spec_sign_extend(value: u32, width: nat) -> i32 {
    let field = value & spec_low_mask(width);
    if spec_bit(field, (width - 1) as nat) {
        (field | !spec_low_mask(width)) as i32
    } else {
        field as i32
    }
}

/// Sign-extends the low `width` bits of `value`.
pub fn sign_extend(value: u32, width: usize) -> (extended: i32)
    requires
        1 <= width <= 32,
    ensures
        extended == spec_sign_extend(value, width as nat),
{
    let mask: u32 = low_mask(width);
    let field: u32 = value & mask;
    if get_bit(field, width - 1) {
        (field | !mask) as i32
    } else {
        field as i32
    }
}

proof fn sign_extend_facts(value: u32, width: u32, mask: u32)
    by (bit_vector)
    requires
        1 <= width < 32,
        mask == ((1u32 << width) - 1) as u32,
    ensures
        ((value & mask) >> ((width - 1) as u32)) & 1 == 1 ==> (((value & mask) | !mask) as i32)
            == (value & mask) - mask - 1,
        ((value & mask) >> ((width - 1) as u32)) & 1 == 1 <==> (value & mask) >= (1u32 << ((width
            - 1) as u32)),
        ((value & mask) >> ((width - 1) as u32)) & 1 != 1 ==> ((value & mask) as i32) == (value
            & mask),
        (1u32 << width) == 2 * (1u32 << ((width - 1) as u32)),
        (1u32 << width) >= 2,
{
}

/// The value of a sign-extended field of fewer than 32 bits: the field itself
/// when it is below half its range, and the field minus its range otherwise.
pub proof fn lemma_sign_extend_value(value: u32, width: nat)
    requires
        1 <= width < 32,
    ensures
        ({
            let field = value & spec_low_mask(width);
            let half = 1u32 << ((width - 1) as nat);
            spec_sign_extend(value, width) == (if field >= half {
                field - 2 * half
            } else {
                field as int
            })
        }),
{
    sign_extend_facts(value, width as u32, spec_low_mask(width));
}

proof fn shift_facts(value: u32, amount: u32)
    by (bit_vector)
    requires
        amount < 32,
    ensures
        value >> amount == value / (1u32 << amount),
{
}

proof fn shift_facts_left(value: u32, amount: u32, scale: u32)
    by (bit_vector)
    requires
        amount < 32,
        scale == 1u32 << amount,
    ensures
        (value << amount) == (value * scale) % 0x1_0000_0000,
{
}

/// A logical shift by fewer than 32 places divides or multiplies by the
/// power of two that a one shifted as far makes, the product modulo 2^32.
pub proof fn lemma_shifts_scale(value: u32, amount: nat)
    requires
        0 < amount < 32,
    ensures
        spec_lsr_c(value, amount).0 == value / (1u32 << amount),
        spec_lsl_c(value, amount).0 == (value * (1u32 << amount)) % 0x1_0000_0000,
{
    shift_facts(value, amount as u32);
    shift_facts_left(value, amount as u32, 1u32 << (amount as u32));
}

/// The product of `x` and `y` read as two's complement numbers.
pub open spec fn spec_signed_product(x: u32, y: u32) -> int {
    spec_signed(x) * spec_signed(y)
}

/// The low and the high word of the 64-bit signed product of `x` and `y`.
pub open spec fn spec_signed_multiply_long(x: u32, y: u32) -> (u32, u32) {
    let product = spec_signed_product(x, y);
    (
        (product % spec_word_modulus()) as u32,
        ((product / spec_word_modulus()) % spec_word_modulus()) as u32,
    )
}

/// The size of `x` read as a two's complement number, and whether it is negative.
fn magnitude(x: u32) -> (out: (u64, bool))
    ensures
        out.1 == (spec_signed(x) < 0),
        out.0 <= 0x8000_0000,
        out.0 == (if spec_signed(x) < 0 {
            -spec_signed(x)
        } else {
            spec_signed(x)
        }),
{
    if x >= 0x8000_0000 {
        (0x1_0000_0000u64 - x as u64, true)
    } else {
        (x as u64, false)
    }
}

/// Multiplies two words as signed numbers and returns the low and the
/// high word of the 64-bit product.
pub fn signed_multiply_long(x: u32, y: u32) -> (out: (u32, u32))
    ensures
        out == spec_signed_multiply_long(x, y),
{
    let (size_x, x_negative): (u64, bool) = magnitude(x);
    let (size_y, y_negative): (u64, bool) = magnitude(y);
    proof {
        assert(size_x * size_y <= 0x4000_0000_0000_0000) by (nonlinear_arith)
            requires
                size_x <= 0x8000_0000,
                size_y <= 0x8000_0000,
        ;
    }
    let size: u64 = size_x * size_y;
    let negative: bool = x_negative != y_negative;
    proof {
        let sx = spec_signed(x);
        let sy = spec_signed(y);
        assert(sx * sy == (if negative {
            -(size_x * size_y)
        } else {
            size_x * size_y
        })) by (nonlinear_arith)
            requires
                size_x == (if x_negative {
                    -sx
                } else {
                    sx
                }),
                size_y == (if y_negative {
                    -sy
                } else {
                    sy
                }),
                negative == (x_negative != y_negative),
        ;
    }
    let wrapped: u64 = if negative && size != 0 {
        (0xffff_ffff_ffff_ffffu64 - size) + 1
    } else {
        size
    };
    let low: u32 = (wrapped % 0x1_0000_0000) as u32;
    let high: u32 = (wrapped / 0x1_0000_0000) as u32;
    proof {
        let product = spec_signed_product(x, y);
        assert(wrapped == (if product < 0 {
            product + 0x1_0000_0000_0000_0000
        } else {
            product
        }));
        assert(product % 0x1_0000_0000 == wrapped % 0x1_0000_0000);
        assert((product / 0x1_0000_0000) % 0x1_0000_0000 == wrapped / 0x1_0000_0000);
    }
    (low, high)
}

} // verus!
