use zmu_cortex_m::bits::{get_bit, get_bits, low_mask, set_bit, set_bits};
use zmu_cortex_m::condition::{condition_passed, Condition};
use zmu_cortex_m::operation::{
    add_with_carry, decode_imm_shift, shift_c, sign_extend, signed_multiply_long, zero_extend,
    SRType,
};
use zmu_cortex_m::psr::{Apsr, Profile, PSR};

#[test]
fn get_bit_reads_each_position() {
    assert!(get_bit(0b110101, 0));
    assert!(!get_bit(0b110101, 1));
    assert!(get_bit(0b110101, 2));
    assert!(get_bit(0x8000_0000, 31));
    assert!(!get_bit(0x7fff_ffff, 31));
}

#[test]
fn set_bit_changes_only_that_bit() {
    let mut value: u32 = 0;
    set_bit(&mut value, 1, true);
    assert_eq!(value, 2);
    set_bit(&mut value, 3, true);
    assert_eq!(value, 10);
    set_bit(&mut value, 1, false);
    assert_eq!(value, 8);
    set_bit(&mut value, 31, true);
    assert_eq!(value, 0x8000_0008);
}

#[test]
fn get_bits_is_right_aligned_and_half_open() {
    assert_eq!(get_bits(0b110101, 0, 3), 0b101);
    assert_eq!(get_bits(0b110101, 2, 6), 0b1101);
    assert_eq!(get_bits(0xdead_beef, 0, 32), 0xdead_beef);
    assert_eq!(get_bits(0xdead_beef, 28, 32), 0xd);
    assert_eq!(get_bits(0xdead_beef, 5, 5), 0);
}

#[test]
fn set_bits_leaves_the_rest() {
    let mut value: u32 = 0xffff_ffff;
    set_bits(&mut value, 4, 8, 0);
    assert_eq!(value, 0xffff_ff0f);
    set_bits(&mut value, 0, 32, 0x1234_5678);
    assert_eq!(value, 0x1234_5678);
    set_bits(&mut value, 8, 16, 0xfab);
    assert_eq!(value, 0x1234_ab78);
}

#[test]
fn low_mask_of_each_width() {
    assert_eq!(low_mask(0), 0);
    assert_eq!(low_mask(1), 1);
    assert_eq!(low_mask(9), 0x1ff);
    assert_eq!(low_mask(32), 0xffff_ffff);
}

#[test]
fn add_with_carry_wraps_to_zero() {
    assert_eq!(add_with_carry(0xFFFF_FFFF, 1, false), (0x0000_0000, true, false));
}

#[test]
fn add_with_carry_overflows_into_the_sign() {
    assert_eq!(add_with_carry(0x7FFF_FFFF, 1, false), (0x8000_0000, false, true));
}

#[test]
fn add_with_carry_takes_the_carry_in() {
    assert_eq!(add_with_carry(1, 2, true), (4, false, false));
    assert_eq!(add_with_carry(0xffff_ffff, 0xffff_ffff, true), (0xffff_ffff, true, false));
    assert_eq!(add_with_carry(0x8000_0000, 0x8000_0000, false), (0, true, true));
}

#[test]
fn subtraction_is_addition_of_the_complement() {
    assert_eq!(add_with_carry(5, !3u32, true), (2, true, false));
    assert_eq!(add_with_carry(3, !5u32, true), (0xffff_fffe, false, false));
    assert_eq!(add_with_carry(0x8000_0000, !1u32, true), (0x7fff_ffff, true, true));
}

#[test]
fn signed_long_multiplication() {
    assert_eq!(signed_multiply_long(0, 0), (0, 0));
    assert_eq!(signed_multiply_long(7, 6), (42, 0));
    assert_eq!(signed_multiply_long(0xffff_fffe, 3), (0xffff_fffa, 0xffff_ffff));
    assert_eq!(signed_multiply_long(0xffff_fffe, 0xffff_fffd), (6, 0));
    assert_eq!(signed_multiply_long(0x8000_0000, 0x8000_0000), (0, 0x4000_0000));
    assert_eq!(signed_multiply_long(0x8000_0000, 0x7fff_ffff), (0x8000_0000, 0xc000_0000));
    assert_eq!(signed_multiply_long(0x0001_0000, 0x0001_0000), (0, 1));
    assert_eq!(signed_multiply_long(0x1234_5678, 0x9abc_def0), (0x242d_2080, 0xf8cc_93d6));
}

#[test]
fn shift_by_zero_changes_nothing() {
    assert_eq!(shift_c(0x1234, SRType::LSL, 0, true), (0x1234, true));
    assert_eq!(shift_c(0x1234, SRType::ROR, 0, false), (0x1234, false));
}

#[test]
fn logical_shifts_report_the_last_bit_out() {
    assert_eq!(shift_c(0x8000_0001, SRType::LSL, 1, false), (2, true));
    assert_eq!(shift_c(0x4000_0000, SRType::LSL, 1, true), (0x8000_0000, false));
    assert_eq!(shift_c(1, SRType::LSL, 32, false), (0, true));
    assert_eq!(shift_c(1, SRType::LSL, 33, true), (0, false));
    assert_eq!(shift_c(0x8000_0001, SRType::LSR, 1, false), (0x4000_0000, true));
    assert_eq!(shift_c(0x8000_0000, SRType::LSR, 32, false), (0, true));
    assert_eq!(shift_c(0x8000_0000, SRType::LSR, 40, true), (0, false));
}

#[test]
fn arithmetic_shift_fills_with_the_sign() {
    assert_eq!(shift_c(0x8000_0000, SRType::ASR, 4, false), (0xf800_0000, false));
    assert_eq!(shift_c(0x4000_0008, SRType::ASR, 4, false), (0x0400_0000, true));
    assert_eq!(shift_c(0x8000_0000, SRType::ASR, 32, false), (0xffff_ffff, true));
    assert_eq!(shift_c(0x7fff_ffff, SRType::ASR, 32, true), (0, false));
}

#[test]
fn rotations() {
    assert_eq!(shift_c(0x0000_0001, SRType::ROR, 1, false), (0x8000_0000, true));
    assert_eq!(shift_c(0x1234_5678, SRType::ROR, 8, false), (0x7812_3456, false));
    assert_eq!(shift_c(0x1234_5678, SRType::ROR, 32, false), (0x1234_5678, false));
    assert_eq!(shift_c(0x0000_0003, SRType::RRX, 1, false), (0x0000_0001, true));
    assert_eq!(shift_c(0x0000_0002, SRType::RRX, 1, true), (0x8000_0001, false));
}

#[test]
fn immediate_shift_decode_table() {
    assert_eq!(decode_imm_shift(0b00, 0), (SRType::LSL, 0));
    assert_eq!(decode_imm_shift(0b00, 7), (SRType::LSL, 7));
    assert_eq!(decode_imm_shift(0b01, 0), (SRType::LSR, 32));
    assert_eq!(decode_imm_shift(0b01, 31), (SRType::LSR, 31));
    assert_eq!(decode_imm_shift(0b10, 0), (SRType::ASR, 32));
    assert_eq!(decode_imm_shift(0b10, 1), (SRType::ASR, 1));
    assert_eq!(decode_imm_shift(0b11, 0), (SRType::RRX, 1));
    assert_eq!(decode_imm_shift(0b11, 5), (SRType::ROR, 5));
}

#[test]
fn zero_extend_joins_most_significant_first() {
    assert_eq!(zero_extend(&[1, 0b101, 0xab], &[1, 3, 8]), 0b1_101_1010_1011);
    assert_eq!(zero_extend(&[], &[]), 0);
    assert_eq!(zero_extend(&[0xff], &[8]), 0xff);
    assert_eq!(zero_extend(&[0x12, 0x34, 0x56, 0x78], &[8, 8, 8, 8]), 0x1234_5678);
}

#[test]
fn sign_extend_fills_with_the_top_bit() {
    assert_eq!(sign_extend(0xff, 8), -1);
    assert_eq!(sign_extend(0x7f, 8), 127);
    assert_eq!(sign_extend(0x80, 8), -128);
    assert_eq!(sign_extend(0x1_0000_u32 - 2, 16), -2);
    assert_eq!(sign_extend(0x1fe, 9), -2);
    assert_eq!(sign_extend(0xffff_ff0f, 8), 15);
    assert_eq!(sign_extend(0x8000_0000, 32), i32::MIN);
    assert_eq!(sign_extend(1, 1), -1);
}

fn flags(n: bool, z: bool, c: bool, v: bool) -> PSR {
    let mut psr = PSR::new(Profile::ArmV6M);
    psr.set_n(if n { 0x8000_0000 } else { 0 });
    psr.set_z(if z { 0 } else { 1 });
    psr.set_c(c);
    psr.set_v(v);
    psr
}

#[test]
fn conditions_follow_the_flags() {
    let all = [
        Condition::EQ,
        Condition::NE,
        Condition::CS,
        Condition::CC,
        Condition::MI,
        Condition::PL,
        Condition::VS,
        Condition::VC,
        Condition::HI,
        Condition::LS,
        Condition::GE,
        Condition::LT,
        Condition::GT,
        Condition::LE,
        Condition::AL,
        Condition::UNCOND,
    ];
    for bits in 0..16u32 {
        let (n, z, c, v) = (bits & 8 != 0, bits & 4 != 0, bits & 2 != 0, bits & 1 != 0);
        let psr = flags(n, z, c, v);
        let expected = [
            z,
            !z,
            c,
            !c,
            n,
            !n,
            v,
            !v,
            c && !z,
            !c || z,
            n == v,
            n != v,
            !z && n == v,
            z || n != v,
            true,
            true,
        ];
        for (condition, want) in all.iter().zip(expected.iter()) {
            assert_eq!(condition_passed(*condition, &psr), *want);
        }
    }
}

#[test]
fn condition_codes_round_trip() {
    for n in 0..16u16 {
        let condition = Condition::from_u16(n).unwrap();
        assert_eq!(condition.value(), n as usize);
    }
    assert_eq!(Condition::from_u16(16), None);
    assert_eq!(Condition::EQ.name(), "eq");
    assert_eq!(Condition::AL.name(), "");
}
