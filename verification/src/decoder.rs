//! The instruction decoder: from opcodes to instructions.
//!
//! Decoding reads nothing but the opcode and is total: every bit pattern
//! gives an instruction or nothing.

use crate::bits::get_bits;
use crate::bits::lemma_low_masks;
use crate::bits::lemma_with_bits_read_back;
use crate::bits::spec_bits;
use crate::condition::Condition;
use crate::instruction::Instruction;
use crate::instruction::ThumbCode;
use crate::operation::spec_zero_extend;
use crate::operation::zero_extend;
use crate::register::Reg;
use crate::register::SpecialReg;
use vstd::prelude::*;

pub mod thumb16;
pub mod thumb32;

verus! {

/// Whether a halfword starts a 32-bit instruction: its bits [15:11] are
/// `0b11101`, `0b11110` or `0b11111`.
pub open spec fn spec_is_thumb32(hw: u16) -> bool {
    hw >> 11u16 == 0b11101 || hw >> 11u16 == 0b11110 || hw >> 11u16 == 0b11111
}

/// Tells whether a halfword starts a 32-bit instruction.
pub fn is_thumb32(hw: u16) -> (wide: bool)
    ensures
        wide == spec_is_thumb32(hw),
{
    match hw >> 11u16 {
        0b11101 | 0b11110 | 0b11111 => true,
        _ => false,
    }
}

/// The register that a field of `width` bits at `low` names.
pub open spec fn spec_reg_at(opcode: u32, low: nat, width: nat) -> Reg {
    Reg::spec_from(spec_bits(opcode, low, low + width) as int)
}

/// The register that bit 7 and bits [2:0] name together, bit 7 on top.
pub open spec fn spec_reg_split(opcode: u32) -> Reg {
    Reg::spec_from(((spec_bits(opcode, 7, 8) << 3u32) | spec_bits(opcode, 0, 3)) as int)
}

/// The condition that the four bits from `low` encode.
pub open spec fn spec_condition_at(opcode: u32, low: nat) -> Condition {
    Condition::spec_from(spec_bits(opcode, low, low + 4) as int)
}

/// The 25-bit offset of BL before sign extension: S, I1, I2, imm10 and imm11
/// and a zero bit, where I1 and I2 are J1 and J2, each inverted unless S is set.
pub open spec fn spec_bl_offset(opcode: u32) -> u32 {
    let s = spec_bits(opcode, 26, 27);
    let j1 = spec_bits(opcode, 13, 14);
    let j2 = spec_bits(opcode, 11, 12);
    let i1 = (j1 ^ s) ^ 1;
    let i2 = (j2 ^ s) ^ 1;
    (s << 24u32) | (i1 << 23u32) | (i2 << 22u32) | (spec_bits(opcode, 16, 26) << 12u32) | (
    spec_bits(opcode, 0, 11) << 1u32)
}

proof fn split_facts(high: u32, low: u32)
    by (bit_vector)
    requires
        high <= 1,
        low <= 7,
    ensures
        (high << 3u32) | low <= 15,
{
}

/// Reads a register field of up to four bits.
pub fn reg_at(opcode: u32, low: usize, width: usize) -> (r: Reg)
    requires
        1 <= width <= 4,
        low + width <= 32,
    ensures
        r == spec_reg_at(opcode, low as nat, width as nat),
{
    let field: u32 = get_bits(opcode, low, low + width);
    proof {
        lemma_low_masks();
        lemma_with_bits_read_back(opcode, low as nat, (low + width) as nat, 0);
    }
    match Reg::from_u16(field as u16) {
        Some(r) => r,
        None => Reg::R0,
    }
}

/// Reads the register that bit 7 and bits [2:0] name together.
pub fn reg_split(opcode: u32) -> (r: Reg)
    ensures
        r == spec_reg_split(opcode),
{
    let high: u32 = get_bits(opcode, 7, 8);
    let low: u32 = get_bits(opcode, 0, 3);
    proof {
        lemma_low_masks();
        lemma_with_bits_read_back(opcode, 7, 8, 0);
        lemma_with_bits_read_back(opcode, 0, 3, 0);
        split_facts(high, low);
    }
    match Reg::from_u16(((high << 3u32) | low) as u16) {
        Some(r) => r,
        None => Reg::R0,
    }
}

/// Reads a condition field.
pub fn condition_at(opcode: u32, low: usize) -> (c: Condition)
    requires
        low + 4 <= 32,
    ensures
        c == spec_condition_at(opcode, low as nat),
{
    let field: u32 = get_bits(opcode, low, low + 4);
    proof {
        lemma_low_masks();
        lemma_with_bits_read_back(opcode, low as nat, (low + 4) as nat, 0);
    }
    match Condition::from_u16(field as u16) {
        Some(c) => c,
        None => Condition::EQ,
    }
}

/// Reads the SYSm field, bits [7:0]: the special register that the whole
/// field names, if it names one.
pub fn special_at(opcode: u32) -> (spec_reg: Option<SpecialReg>)
    ensures
        spec_reg == SpecialReg::spec_from(spec_bits(opcode, 0, 8) as int),
{
    let field: u32 = get_bits(opcode, 0, 8);
    proof {
        lemma_low_masks();
        lemma_with_bits_read_back(opcode, 0, 8, 0);
    }
    SpecialReg::from_u16(field as u16)
}

/// Joins the offset fields of BL.
pub fn bl_offset(opcode: u32) -> (offset: u32)
    ensures
        offset == spec_bl_offset(opcode),
{
    let s: u32 = get_bits(opcode, 26, 27);
    let j1: u32 = get_bits(opcode, 13, 14);
    let j2: u32 = get_bits(opcode, 11, 12);
    let i1: u32 = (j1 ^ s) ^ 1;
    let i2: u32 = (j2 ^ s) ^ 1;
    (s << 24u32) | (i1 << 23u32) | (i2 << 22u32) | (get_bits(opcode, 16, 26) << 12u32) | (get_bits(
        opcode,
        0,
        11,
    ) << 1u32)
}

/// The offset of ADR's 32-bit encodings: the fields i, imm3 and imm8 joined.
pub open spec fn spec_adr_offset(opcode: u32) -> u32 {
    spec_zero_extend(
        seq![
            spec_bits(opcode, 26, 27) as u8,
            spec_bits(opcode, 12, 15) as u8,
            spec_bits(opcode, 0, 8) as u8,
        ],
        seq![1u8, 3u8, 8u8],
    )
}

/// Joins the offset fields i, imm3 and imm8 of ADR's 32-bit encodings.
pub fn adr_offset(opcode: u32) -> (offset: u32)
    ensures
        offset == spec_adr_offset(opcode),
{
    let fields: [u8; 3] = [
        get_bits(opcode, 26, 27) as u8,
        get_bits(opcode, 12, 15) as u8,
        get_bits(opcode, 0, 8) as u8,
    ];
    let widths: [u8; 3] = [1, 3, 8];
    proof {
        assert(fields@ =~= seq![
            spec_bits(opcode, 26, 27) as u8,
            spec_bits(opcode, 12, 15) as u8,
            spec_bits(opcode, 0, 8) as u8,
        ]);
        assert(widths@ =~= seq![1u8, 3u8, 8u8]);
    }
    zero_extend(fields.as_slice(), widths.as_slice())
}

/// The instruction that a 16-bit opcode encodes, by the table of encodings:
/// the first encoding whose fixed bits the opcode has decides. Nothing is
/// encoded by an opcode that has the fixed bits of no encoding.
pub open spec fn spec_decode_16(hw: u16) -> Option<Instruction> {
    if hw & 0xffc0 == 0x0000 {
        Some(thumb16::spec_decode_MOV_reg_t2(hw))
    }     else if hw & 0xf800 == 0x0000 {
        Some(thumb16::spec_decode_LSL_imm_t1(hw))
    }     else if hw & 0xf800 == 0x0800 {
        Some(thumb16::spec_decode_LSR_imm_t1(hw))
    }     else if hw & 0xf800 == 0x1000 {
        Some(thumb16::spec_decode_ASR_imm_t1(hw))
    }     else if hw & 0xfe00 == 0x1800 {
        Some(thumb16::spec_decode_ADD_reg_t1(hw))
    }     else if hw & 0xfe00 == 0x1a00 {
        Some(thumb16::spec_decode_SUB_reg_t1(hw))
    }     else if hw & 0xfe00 == 0x1c00 {
        Some(thumb16::spec_decode_ADD_imm_t1(hw))
    }     else if hw & 0xfe00 == 0x1e00 {
        Some(thumb16::spec_decode_SUB_imm_t1(hw))
    }     else if hw & 0xf800 == 0x2000 {
        Some(thumb16::spec_decode_MOV_imm_t1(hw))
    }     else if hw & 0xf800 == 0x2800 {
        Some(thumb16::spec_decode_CMP_imm_t1(hw))
    }     else if hw & 0xf800 == 0x3000 {
        Some(thumb16::spec_decode_ADD_imm_t2(hw))
    }     else if hw & 0xf800 == 0x3800 {
        Some(thumb16::spec_decode_SUB_imm_t2(hw))
    }     else if hw & 0xffc0 == 0x4000 {
        Some(thumb16::spec_decode_AND_reg_t1(hw))
    }     else if hw & 0xffc0 == 0x4040 {
        Some(thumb16::spec_decode_EOR_reg_t1(hw))
    }     else if hw & 0xffc0 == 0x4080 {
        Some(thumb16::spec_decode_LSL_reg_t1(hw))
    }     else if hw & 0xffc0 == 0x40c0 {
        Some(thumb16::spec_decode_LSR_reg_t1(hw))
    }     else if hw & 0xffc0 == 0x4100 {
        Some(thumb16::spec_decode_ASR_reg_t1(hw))
    }     else if hw & 0xffc0 == 0x4140 {
        Some(thumb16::spec_decode_ADC_reg_t1(hw))
    }     else if hw & 0xffc0 == 0x4180 {
        Some(thumb16::spec_decode_SBC_reg_t1(hw))
    }     else if hw & 0xffc0 == 0x41c0 {
        Some(thumb16::spec_decode_ROR_reg_t1(hw))
    }     else if hw & 0xffc0 == 0x4200 {
        Some(thumb16::spec_decode_TST_reg_t1(hw))
    }     else if hw & 0xffc0 == 0x4240 {
        Some(thumb16::spec_decode_RSB_imm_t1(hw))
    }     else if hw & 0xffc0 == 0x4280 {
        Some(thumb16::spec_decode_CMP_reg_t1(hw))
    }     else if hw & 0xffc0 == 0x42c0 {
        Some(thumb16::spec_decode_CMN_reg_t1(hw))
    }     else if hw & 0xffc0 == 0x4300 {
        Some(thumb16::spec_decode_ORR_reg_t1(hw))
    }     else if hw & 0xffc0 == 0x4340 {
        Some(thumb16::spec_decode_MUL_t1(hw))
    }     else if hw & 0xffc0 == 0x4380 {
        Some(thumb16::spec_decode_BIC_reg_t1(hw))
    }     else if hw & 0xffc0 == 0x43c0 {
        Some(thumb16::spec_decode_MVN_reg_t1(hw))
    }     else if hw & 0xff00 == 0x4400 {
        Some(thumb16::spec_decode_ADD_reg_t2(hw))
    }     else if hw & 0xff00 == 0x4500 {
        Some(thumb16::spec_decode_CMP_reg_t2(hw))
    }     else if hw & 0xff00 == 0x4600 {
        Some(thumb16::spec_decode_MOV_reg_t1(hw))
    }     else if hw & 0xff87 == 0x4700 {
        Some(thumb16::spec_decode_BX_t1(hw))
    }     else if hw & 0xff87 == 0x4780 {
        Some(thumb16::spec_decode_BLX_t1(hw))
    }     else if hw & 0xf800 == 0x4800 {
        Some(thumb16::spec_decode_LDR_lit_t1(hw))
    }     else if hw & 0xfe00 == 0x5000 {
        Some(thumb16::spec_decode_STR_reg_t1(hw))
    }     else if hw & 0xfe00 == 0x5200 {
        Some(thumb16::spec_decode_STRH_reg_t1(hw))
    }     else if hw & 0xfe00 == 0x5400 {
        Some(thumb16::spec_decode_STRB_reg_t1(hw))
    }     else if hw & 0xfe00 == 0x5600 {
        Some(thumb16::spec_decode_LDRSB_reg_t1(hw))
    }     else if hw & 0xfe00 == 0x5800 {
        Some(thumb16::spec_decode_LDR_reg_t1(hw))
    }     else if hw & 0xfe00 == 0x5a00 {
        Some(thumb16::spec_decode_LDRH_reg_t1(hw))
    }     else if hw & 0xfe00 == 0x5c00 {
        Some(thumb16::spec_decode_LDRB_reg_t1(hw))
    }     else if hw & 0xfe00 == 0x5e00 {
        Some(thumb16::spec_decode_LDRSH_reg_t1(hw))
    }     else if hw & 0xf800 == 0x6000 {
        Some(thumb16::spec_decode_STR_imm_t1(hw))
    }     else if hw & 0xf800 == 0x6800 {
        Some(thumb16::spec_decode_LDR_imm_t1(hw))
    }     else if hw & 0xf800 == 0x7000 {
        Some(thumb16::spec_decode_STRB_imm_t1(hw))
    }     else if hw & 0xf800 == 0x7800 {
        Some(thumb16::spec_decode_LDRB_imm_t1(hw))
    }     else if hw & 0xf800 == 0x8000 {
        Some(thumb16::spec_decode_STRH_imm_t1(hw))
    }     else if hw & 0xf800 == 0x8800 {
        Some(thumb16::spec_decode_LDRH_imm_t1(hw))
    }     else if hw & 0xf800 == 0x9000 {
        Some(thumb16::spec_decode_STR_imm_t2(hw))
    }     else if hw & 0xf800 == 0x9800 {
        Some(thumb16::spec_decode_LDR_imm_t2(hw))
    }     else if hw & 0xf800 == 0xa000 {
        Some(thumb16::spec_decode_ADR_t1(hw))
    }     else if hw & 0xf800 == 0xa800 {
        Some(thumb16::spec_decode_ADD_SP_imm_t1(hw))
    }     else if hw & 0xff80 == 0xb000 {
        Some(thumb16::spec_decode_ADD_SP_imm_t2(hw))
    }     else if hw & 0xff80 == 0xb080 {
        Some(thumb16::spec_decode_SUB_SP_imm_t1(hw))
    }     else if hw & 0xffc0 == 0xb200 {
        Some(thumb16::spec_decode_SXTH_t1(hw))
    }     else if hw & 0xffc0 == 0xb240 {
        Some(thumb16::spec_decode_SXTB_t1(hw))
    }     else if hw & 0xffc0 == 0xb280 {
        Some(thumb16::spec_decode_UXTH_t1(hw))
    }     else if hw & 0xffc0 == 0xb2c0 {
        Some(thumb16::spec_decode_UXTB_t1(hw))
    }     else if hw & 0xfe00 == 0xb400 {
        Some(thumb16::spec_decode_PUSH_t1(hw))
    }     else if hw & 0xffef == 0xb662 {
        Some(thumb16::spec_decode_CPS_t1(hw))
    }     else if hw & 0xffc0 == 0xba00 {
        Some(thumb16::spec_decode_REV_t1(hw))
    }     else if hw & 0xffc0 == 0xba40 {
        Some(thumb16::spec_decode_REV16_t1(hw))
    }     else if hw & 0xffc0 == 0xbac0 {
        Some(thumb16::spec_decode_REVSH_t1(hw))
    }     else if hw & 0xfe00 == 0xbc00 {
        Some(thumb16::spec_decode_POP_t1(hw))
    }     else if hw & 0xff00 == 0xbe00 {
        Some(thumb16::spec_decode_BKPT_t1(hw))
    }     else if hw & 0xffff == 0xbf00 {
        Some(thumb16::spec_decode_NOP_t1(hw))
    }     else if hw & 0xffff == 0xbf10 {
        Some(thumb16::spec_decode_YIELD_t1(hw))
    }     else if hw & 0xffff == 0xbf20 {
        Some(thumb16::spec_decode_WFE_t1(hw))
    }     else if hw & 0xffff == 0xbf30 {
        Some(thumb16::spec_decode_WFI_t1(hw))
    }     else if hw & 0xffff == 0xbf40 {
        Some(thumb16::spec_decode_SEV_t1(hw))
    }     else if hw & 0xf800 == 0xc000 {
        Some(thumb16::spec_decode_STM_t1(hw))
    }     else if hw & 0xf800 == 0xc800 {
        Some(thumb16::spec_decode_LDM_t1(hw))
    }     else if hw & 0xff00 == 0xde00 {
        Some(thumb16::spec_decode_UDF_t1(hw))
    }     else if hw & 0xff00 == 0xdf00 {
        Some(thumb16::spec_decode_SVC_t1(hw))
    }     else if hw & 0xf000 == 0xd000 {
        Some(thumb16::spec_decode_B_t1(hw))
    }     else if hw & 0xf800 == 0xe000 {
        Some(thumb16::spec_decode_B_t2(hw))
    } else {
        None
    }
}

/// Whether the table of 16-bit encodings has an encoding for the opcode.
pub open spec fn spec_encoded_16(hw: u16) -> bool {
    ||| hw & 0xffc0 == 0x0000
    ||| hw & 0xf800 == 0x0000
    ||| hw & 0xf800 == 0x0800
    ||| hw & 0xf800 == 0x1000
    ||| hw & 0xfe00 == 0x1800
    ||| hw & 0xfe00 == 0x1a00
    ||| hw & 0xfe00 == 0x1c00
    ||| hw & 0xfe00 == 0x1e00
    ||| hw & 0xf800 == 0x2000
    ||| hw & 0xf800 == 0x2800
    ||| hw & 0xf800 == 0x3000
    ||| hw & 0xf800 == 0x3800
    ||| hw & 0xffc0 == 0x4000
    ||| hw & 0xffc0 == 0x4040
    ||| hw & 0xffc0 == 0x4080
    ||| hw & 0xffc0 == 0x40c0
    ||| hw & 0xffc0 == 0x4100
    ||| hw & 0xffc0 == 0x4140
    ||| hw & 0xffc0 == 0x4180
    ||| hw & 0xffc0 == 0x41c0
    ||| hw & 0xffc0 == 0x4200
    ||| hw & 0xffc0 == 0x4240
    ||| hw & 0xffc0 == 0x4280
    ||| hw & 0xffc0 == 0x42c0
    ||| hw & 0xffc0 == 0x4300
    ||| hw & 0xffc0 == 0x4340
    ||| hw & 0xffc0 == 0x4380
    ||| hw & 0xffc0 == 0x43c0
    ||| hw & 0xff00 == 0x4400
    ||| hw & 0xff00 == 0x4500
    ||| hw & 0xff00 == 0x4600
    ||| hw & 0xff87 == 0x4700
    ||| hw & 0xff87 == 0x4780
    ||| hw & 0xf800 == 0x4800
    ||| hw & 0xfe00 == 0x5000
    ||| hw & 0xfe00 == 0x5200
    ||| hw & 0xfe00 == 0x5400
    ||| hw & 0xfe00 == 0x5600
    ||| hw & 0xfe00 == 0x5800
    ||| hw & 0xfe00 == 0x5a00
    ||| hw & 0xfe00 == 0x5c00
    ||| hw & 0xfe00 == 0x5e00
    ||| hw & 0xf800 == 0x6000
    ||| hw & 0xf800 == 0x6800
    ||| hw & 0xf800 == 0x7000
    ||| hw & 0xf800 == 0x7800
    ||| hw & 0xf800 == 0x8000
    ||| hw & 0xf800 == 0x8800
    ||| hw & 0xf800 == 0x9000
    ||| hw & 0xf800 == 0x9800
    ||| hw & 0xf800 == 0xa000
    ||| hw & 0xf800 == 0xa800
    ||| hw & 0xff80 == 0xb000
    ||| hw & 0xff80 == 0xb080
    ||| hw & 0xffc0 == 0xb200
    ||| hw & 0xffc0 == 0xb240
    ||| hw & 0xffc0 == 0xb280
    ||| hw & 0xffc0 == 0xb2c0
    ||| hw & 0xfe00 == 0xb400
    ||| hw & 0xffef == 0xb662
    ||| hw & 0xffc0 == 0xba00
    ||| hw & 0xffc0 == 0xba40
    ||| hw & 0xffc0 == 0xbac0
    ||| hw & 0xfe00 == 0xbc00
    ||| hw & 0xff00 == 0xbe00
    ||| hw & 0xffff == 0xbf00
    ||| hw & 0xffff == 0xbf10
    ||| hw & 0xffff == 0xbf20
    ||| hw & 0xffff == 0xbf30
    ||| hw & 0xffff == 0xbf40
    ||| hw & 0xf800 == 0xc000
    ||| hw & 0xf800 == 0xc800
    ||| hw & 0xff00 == 0xde00
    ||| hw & 0xff00 == 0xdf00
    ||| hw & 0xf000 == 0xd000
    ||| hw & 0xf800 == 0xe000
}

proof fn group_facts(hw: u16)
    by (bit_vector)
    ensures
        hw & 0xffc0 == 0x0000 ==> hw >> 11u16 == 0,
        hw & 0xf800 == 0x0000 ==> hw >> 11u16 == 0,
        hw & 0xf800 == 0x0800 ==> hw >> 11u16 == 1,
        hw & 0xf800 == 0x1000 ==> hw >> 11u16 == 2,
        hw & 0xfe00 == 0x1800 ==> hw >> 11u16 == 3,
        hw & 0xfe00 == 0x1a00 ==> hw >> 11u16 == 3,
        hw & 0xfe00 == 0x1c00 ==> hw >> 11u16 == 3,
        hw & 0xfe00 == 0x1e00 ==> hw >> 11u16 == 3,
        hw & 0xf800 == 0x2000 ==> hw >> 11u16 == 4,
        hw & 0xf800 == 0x2800 ==> hw >> 11u16 == 5,
        hw & 0xf800 == 0x3000 ==> hw >> 11u16 == 6,
        hw & 0xf800 == 0x3800 ==> hw >> 11u16 == 7,
        hw & 0xffc0 == 0x4000 ==> hw >> 11u16 == 8,
        hw & 0xffc0 == 0x4040 ==> hw >> 11u16 == 8,
        hw & 0xffc0 == 0x4080 ==> hw >> 11u16 == 8,
        hw & 0xffc0 == 0x40c0 ==> hw >> 11u16 == 8,
        hw & 0xffc0 == 0x4100 ==> hw >> 11u16 == 8,
        hw & 0xffc0 == 0x4140 ==> hw >> 11u16 == 8,
        hw & 0xffc0 == 0x4180 ==> hw >> 11u16 == 8,
        hw & 0xffc0 == 0x41c0 ==> hw >> 11u16 == 8,
        hw & 0xffc0 == 0x4200 ==> hw >> 11u16 == 8,
        hw & 0xffc0 == 0x4240 ==> hw >> 11u16 == 8,
        hw & 0xffc0 == 0x4280 ==> hw >> 11u16 == 8,
        hw & 0xffc0 == 0x42c0 ==> hw >> 11u16 == 8,
        hw & 0xffc0 == 0x4300 ==> hw >> 11u16 == 8,
        hw & 0xffc0 == 0x4340 ==> hw >> 11u16 == 8,
        hw & 0xffc0 == 0x4380 ==> hw >> 11u16 == 8,
        hw & 0xffc0 == 0x43c0 ==> hw >> 11u16 == 8,
        hw & 0xff00 == 0x4400 ==> hw >> 11u16 == 8,
        hw & 0xff00 == 0x4500 ==> hw >> 11u16 == 8,
        hw & 0xff00 == 0x4600 ==> hw >> 11u16 == 8,
        hw & 0xff87 == 0x4700 ==> hw >> 11u16 == 8,
        hw & 0xff87 == 0x4780 ==> hw >> 11u16 == 8,
        hw & 0xf800 == 0x4800 ==> hw >> 11u16 == 9,
        hw & 0xfe00 == 0x5000 ==> hw >> 11u16 == 10,
        hw & 0xfe00 == 0x5200 ==> hw >> 11u16 == 10,
        hw & 0xfe00 == 0x5400 ==> hw >> 11u16 == 10,
        hw & 0xfe00 == 0x5600 ==> hw >> 11u16 == 10,
        hw & 0xfe00 == 0x5800 ==> hw >> 11u16 == 11,
        hw & 0xfe00 == 0x5a00 ==> hw >> 11u16 == 11,
        hw & 0xfe00 == 0x5c00 ==> hw >> 11u16 == 11,
        hw & 0xfe00 == 0x5e00 ==> hw >> 11u16 == 11,
        hw & 0xf800 == 0x6000 ==> hw >> 11u16 == 12,
        hw & 0xf800 == 0x6800 ==> hw >> 11u16 == 13,
        hw & 0xf800 == 0x7000 ==> hw >> 11u16 == 14,
        hw & 0xf800 == 0x7800 ==> hw >> 11u16 == 15,
        hw & 0xf800 == 0x8000 ==> hw >> 11u16 == 16,
        hw & 0xf800 == 0x8800 ==> hw >> 11u16 == 17,
        hw & 0xf800 == 0x9000 ==> hw >> 11u16 == 18,
        hw & 0xf800 == 0x9800 ==> hw >> 11u16 == 19,
        hw & 0xf800 == 0xa000 ==> hw >> 11u16 == 20,
        hw & 0xf800 == 0xa800 ==> hw >> 11u16 == 21,
        hw & 0xff80 == 0xb000 ==> hw >> 11u16 == 22,
        hw & 0xff80 == 0xb080 ==> hw >> 11u16 == 22,
        hw & 0xffc0 == 0xb200 ==> hw >> 11u16 == 22,
        hw & 0xffc0 == 0xb240 ==> hw >> 11u16 == 22,
        hw & 0xffc0 == 0xb280 ==> hw >> 11u16 == 22,
        hw & 0xffc0 == 0xb2c0 ==> hw >> 11u16 == 22,
        hw & 0xfe00 == 0xb400 ==> hw >> 11u16 == 22,
        hw & 0xffef == 0xb662 ==> hw >> 11u16 == 22,
        hw & 0xffc0 == 0xba00 ==> hw >> 11u16 == 23,
        hw & 0xffc0 == 0xba40 ==> hw >> 11u16 == 23,
        hw & 0xffc0 == 0xbac0 ==> hw >> 11u16 == 23,
        hw & 0xfe00 == 0xbc00 ==> hw >> 11u16 == 23,
        hw & 0xff00 == 0xbe00 ==> hw >> 11u16 == 23,
        hw & 0xffff == 0xbf00 ==> hw >> 11u16 == 23,
        hw & 0xffff == 0xbf10 ==> hw >> 11u16 == 23,
        hw & 0xffff == 0xbf20 ==> hw >> 11u16 == 23,
        hw & 0xffff == 0xbf30 ==> hw >> 11u16 == 23,
        hw & 0xffff == 0xbf40 ==> hw >> 11u16 == 23,
        hw & 0xf800 == 0xc000 ==> hw >> 11u16 == 24,
        hw & 0xf800 == 0xc800 ==> hw >> 11u16 == 25,
        hw & 0xff00 == 0xde00 ==> hw >> 11u16 == 27,
        hw & 0xff00 == 0xdf00 ==> hw >> 11u16 == 27,
        hw & 0xf000 == 0xd000 ==> hw >> 11u16 == 26 || hw >> 11u16 == 27,
        hw & 0xf800 == 0xe000 ==> hw >> 11u16 == 28,
{
}

/// Decodes a 16-bit opcode.
///
/// The opcode is first sorted by its five top bits, then held against the
/// encodings that share them.
pub fn decode_16(hw: u16) -> (out: Option<Instruction>)
    ensures
        out == spec_decode_16(hw),
        out is Some <==> spec_encoded_16(hw),
        spec_is_thumb32(hw) ==> out is None,
{
    proof {
        group_facts(hw);
    }
    match hw >> 11u16 {
        0 => {
            if hw & 0xffc0 == 0x0000 {
                Some(thumb16::decode_MOV_reg_t2(hw))
            }             else if hw & 0xf800 == 0x0000 {
                Some(thumb16::decode_LSL_imm_t1(hw))
            } else {
                None
            }
        },
        1 => {
            if hw & 0xf800 == 0x0800 {
                Some(thumb16::decode_LSR_imm_t1(hw))
            } else {
                None
            }
        },
        2 => {
            if hw & 0xf800 == 0x1000 {
                Some(thumb16::decode_ASR_imm_t1(hw))
            } else {
                None
            }
        },
        3 => {
            if hw & 0xfe00 == 0x1800 {
                Some(thumb16::decode_ADD_reg_t1(hw))
            }             else if hw & 0xfe00 == 0x1a00 {
                Some(thumb16::decode_SUB_reg_t1(hw))
            }             else if hw & 0xfe00 == 0x1c00 {
                Some(thumb16::decode_ADD_imm_t1(hw))
            }             else if hw & 0xfe00 == 0x1e00 {
                Some(thumb16::decode_SUB_imm_t1(hw))
            } else {
                None
            }
        },
        4 => {
            if hw & 0xf800 == 0x2000 {
                Some(thumb16::decode_MOV_imm_t1(hw))
            } else {
                None
            }
        },
        5 => {
            if hw & 0xf800 == 0x2800 {
                Some(thumb16::decode_CMP_imm_t1(hw))
            } else {
                None
            }
        },
        6 => {
            if hw & 0xf800 == 0x3000 {
                Some(thumb16::decode_ADD_imm_t2(hw))
            } else {
                None
            }
        },
        7 => {
            if hw & 0xf800 == 0x3800 {
                Some(thumb16::decode_SUB_imm_t2(hw))
            } else {
                None
            }
        },
        8 => {
            if hw & 0xffc0 == 0x4000 {
                Some(thumb16::decode_AND_reg_t1(hw))
            }             else if hw & 0xffc0 == 0x4040 {
                Some(thumb16::decode_EOR_reg_t1(hw))
            }             else if hw & 0xffc0 == 0x4080 {
                Some(thumb16::decode_LSL_reg_t1(hw))
            }             else if hw & 0xffc0 == 0x40c0 {
                Some(thumb16::decode_LSR_reg_t1(hw))
            }             else if hw & 0xffc0 == 0x4100 {
                Some(thumb16::decode_ASR_reg_t1(hw))
            }             else if hw & 0xffc0 == 0x4140 {
                Some(thumb16::decode_ADC_reg_t1(hw))
            }             else if hw & 0xffc0 == 0x4180 {
                Some(thumb16::decode_SBC_reg_t1(hw))
            }             else if hw & 0xffc0 == 0x41c0 {
                Some(thumb16::decode_ROR_reg_t1(hw))
            }             else if hw & 0xffc0 == 0x4200 {
                Some(thumb16::decode_TST_reg_t1(hw))
            }             else if hw & 0xffc0 == 0x4240 {
                Some(thumb16::decode_RSB_imm_t1(hw))
            }             else if hw & 0xffc0 == 0x4280 {
                Some(thumb16::decode_CMP_reg_t1(hw))
            }             else if hw & 0xffc0 == 0x42c0 {
                Some(thumb16::decode_CMN_reg_t1(hw))
            }             else if hw & 0xffc0 == 0x4300 {
                Some(thumb16::decode_ORR_reg_t1(hw))
            }             else if hw & 0xffc0 == 0x4340 {
                Some(thumb16::decode_MUL_t1(hw))
            }             else if hw & 0xffc0 == 0x4380 {
                Some(thumb16::decode_BIC_reg_t1(hw))
            }             else if hw & 0xffc0 == 0x43c0 {
                Some(thumb16::decode_MVN_reg_t1(hw))
            }             else if hw & 0xff00 == 0x4400 {
                Some(thumb16::decode_ADD_reg_t2(hw))
            }             else if hw & 0xff00 == 0x4500 {
                Some(thumb16::decode_CMP_reg_t2(hw))
            }             else if hw & 0xff00 == 0x4600 {
                Some(thumb16::decode_MOV_reg_t1(hw))
            }             else if hw & 0xff87 == 0x4700 {
                Some(thumb16::decode_BX_t1(hw))
            }             else if hw & 0xff87 == 0x4780 {
                Some(thumb16::decode_BLX_t1(hw))
            } else {
                None
            }
        },
        9 => {
            if hw & 0xf800 == 0x4800 {
                Some(thumb16::decode_LDR_lit_t1(hw))
            } else {
                None
            }
        },
        10 => {
            if hw & 0xfe00 == 0x5000 {
                Some(thumb16::decode_STR_reg_t1(hw))
            }             else if hw & 0xfe00 == 0x5200 {
                Some(thumb16::decode_STRH_reg_t1(hw))
            }             else if hw & 0xfe00 == 0x5400 {
                Some(thumb16::decode_STRB_reg_t1(hw))
            }             else if hw & 0xfe00 == 0x5600 {
                Some(thumb16::decode_LDRSB_reg_t1(hw))
            } else {
                None
            }
        },
        11 => {
            if hw & 0xfe00 == 0x5800 {
                Some(thumb16::decode_LDR_reg_t1(hw))
            }             else if hw & 0xfe00 == 0x5a00 {
                Some(thumb16::decode_LDRH_reg_t1(hw))
            }             else if hw & 0xfe00 == 0x5c00 {
                Some(thumb16::decode_LDRB_reg_t1(hw))
            }             else if hw & 0xfe00 == 0x5e00 {
                Some(thumb16::decode_LDRSH_reg_t1(hw))
            } else {
                None
            }
        },
        12 => {
            if hw & 0xf800 == 0x6000 {
                Some(thumb16::decode_STR_imm_t1(hw))
            } else {
                None
            }
        },
        13 => {
            if hw & 0xf800 == 0x6800 {
                Some(thumb16::decode_LDR_imm_t1(hw))
            } else {
                None
            }
        },
        14 => {
            if hw & 0xf800 == 0x7000 {
                Some(thumb16::decode_STRB_imm_t1(hw))
            } else {
                None
            }
        },
        15 => {
            if hw & 0xf800 == 0x7800 {
                Some(thumb16::decode_LDRB_imm_t1(hw))
            } else {
                None
            }
        },
        16 => {
            if hw & 0xf800 == 0x8000 {
                Some(thumb16::decode_STRH_imm_t1(hw))
            } else {
                None
            }
        },
        17 => {
            if hw & 0xf800 == 0x8800 {
                Some(thumb16::decode_LDRH_imm_t1(hw))
            } else {
                None
            }
        },
        18 => {
            if hw & 0xf800 == 0x9000 {
                Some(thumb16::decode_STR_imm_t2(hw))
            } else {
                None
            }
        },
        19 => {
            if hw & 0xf800 == 0x9800 {
                Some(thumb16::decode_LDR_imm_t2(hw))
            } else {
                None
            }
        },
        20 => {
            if hw & 0xf800 == 0xa000 {
                Some(thumb16::decode_ADR_t1(hw))
            } else {
                None
            }
        },
        21 => {
            if hw & 0xf800 == 0xa800 {
                Some(thumb16::decode_ADD_SP_imm_t1(hw))
            } else {
                None
            }
        },
        22 => {
            if hw & 0xff80 == 0xb000 {
                Some(thumb16::decode_ADD_SP_imm_t2(hw))
            }             else if hw & 0xff80 == 0xb080 {
                Some(thumb16::decode_SUB_SP_imm_t1(hw))
            }             else if hw & 0xffc0 == 0xb200 {
                Some(thumb16::decode_SXTH_t1(hw))
            }             else if hw & 0xffc0 == 0xb240 {
                Some(thumb16::decode_SXTB_t1(hw))
            }             else if hw & 0xffc0 == 0xb280 {
                Some(thumb16::decode_UXTH_t1(hw))
            }             else if hw & 0xffc0 == 0xb2c0 {
                Some(thumb16::decode_UXTB_t1(hw))
            }             else if hw & 0xfe00 == 0xb400 {
                Some(thumb16::decode_PUSH_t1(hw))
            }             else if hw & 0xffef == 0xb662 {
                Some(thumb16::decode_CPS_t1(hw))
            } else {
                None
            }
        },
        23 => {
            if hw & 0xffc0 == 0xba00 {
                Some(thumb16::decode_REV_t1(hw))
            }             else if hw & 0xffc0 == 0xba40 {
                Some(thumb16::decode_REV16_t1(hw))
            }             else if hw & 0xffc0 == 0xbac0 {
                Some(thumb16::decode_REVSH_t1(hw))
            }             else if hw & 0xfe00 == 0xbc00 {
                Some(thumb16::decode_POP_t1(hw))
            }             else if hw & 0xff00 == 0xbe00 {
                Some(thumb16::decode_BKPT_t1(hw))
            }             else if hw & 0xffff == 0xbf00 {
                Some(thumb16::decode_NOP_t1(hw))
            }             else if hw & 0xffff == 0xbf10 {
                Some(thumb16::decode_YIELD_t1(hw))
            }             else if hw & 0xffff == 0xbf20 {
                Some(thumb16::decode_WFE_t1(hw))
            }             else if hw & 0xffff == 0xbf30 {
                Some(thumb16::decode_WFI_t1(hw))
            }             else if hw & 0xffff == 0xbf40 {
                Some(thumb16::decode_SEV_t1(hw))
            } else {
                None
            }
        },
        24 => {
            if hw & 0xf800 == 0xc000 {
                Some(thumb16::decode_STM_t1(hw))
            } else {
                None
            }
        },
        25 => {
            if hw & 0xf800 == 0xc800 {
                Some(thumb16::decode_LDM_t1(hw))
            } else {
                None
            }
        },
        26 => {
            if hw & 0xf000 == 0xd000 {
                Some(thumb16::decode_B_t1(hw))
            } else {
                None
            }
        },
        27 => {
            if hw & 0xff00 == 0xde00 {
                Some(thumb16::decode_UDF_t1(hw))
            }             else if hw & 0xff00 == 0xdf00 {
                Some(thumb16::decode_SVC_t1(hw))
            }             else if hw & 0xf000 == 0xd000 {
                Some(thumb16::decode_B_t1(hw))
            } else {
                None
            }
        },
        28 => {
            if hw & 0xf800 == 0xe000 {
                Some(thumb16::decode_B_t2(hw))
            } else {
                None
            }
        },
        _ => None,
    }
}

/// The instruction that a 32-bit opcode encodes, by the table of encodings.
pub open spec fn spec_decode_thumb32(opcode: u32) -> Option<Instruction> {
    if opcode & 0xf800d000 == 0xf000d000 {
        Some(thumb32::spec_decode_BL_t1(opcode))
    }     else if opcode & 0xfff0ff00 == 0xf3808800 {
        Some(thumb32::spec_decode_MSR_reg_t1(opcode))
    }     else if opcode & 0xfffff000 == 0xf3ef8000 {
        Some(thumb32::spec_decode_MRS_t1(opcode))
    }     else if opcode & 0xfffffff0 == 0xf3bf8f40 {
        Some(thumb32::spec_decode_DSB_t1(opcode))
    }     else if opcode & 0xfffffff0 == 0xf3bf8f50 {
        Some(thumb32::spec_decode_DMB_t1(opcode))
    }     else if opcode & 0xfffffff0 == 0xf3bf8f60 {
        Some(thumb32::spec_decode_ISB_t1(opcode))
    }     else if opcode & 0xfff0f000 == 0xf7f0a000 {
        Some(thumb32::spec_decode_UDF_t2(opcode))
    }     else if opcode & 0xfbff8000 == 0xf2af0000 {
        Some(thumb32::spec_decode_ADR_t2(opcode))
    }     else if opcode & 0xfbff8000 == 0xf20f0000 {
        Some(thumb32::spec_decode_ADR_t3(opcode))
    }     else if opcode & 0xfff000f0 == 0xfb800000 {
        Some(thumb32::spec_decode_SMULL_t1(opcode))
    } else {
        None
    }
}

/// Decodes a 32-bit opcode, the first halfword in its high half.
pub fn decode_thumb32(opcode: u32) -> (out: Option<Instruction>)
    ensures
        out == spec_decode_thumb32(opcode),
{
    if opcode & 0xf800d000 == 0xf000d000 {
        Some(thumb32::decode_BL_t1(opcode))
    }     else if opcode & 0xfff0ff00 == 0xf3808800 {
        Some(thumb32::decode_MSR_reg_t1(opcode))
    }     else if opcode & 0xfffff000 == 0xf3ef8000 {
        Some(thumb32::decode_MRS_t1(opcode))
    }     else if opcode & 0xfffffff0 == 0xf3bf8f40 {
        Some(thumb32::decode_DSB_t1(opcode))
    }     else if opcode & 0xfffffff0 == 0xf3bf8f50 {
        Some(thumb32::decode_DMB_t1(opcode))
    }     else if opcode & 0xfffffff0 == 0xf3bf8f60 {
        Some(thumb32::decode_ISB_t1(opcode))
    }     else if opcode & 0xfff0f000 == 0xf7f0a000 {
        Some(thumb32::decode_UDF_t2(opcode))
    }     else if opcode & 0xfbff8000 == 0xf2af0000 {
        Some(thumb32::decode_ADR_t2(opcode))
    }     else if opcode & 0xfbff8000 == 0xf20f0000 {
        Some(thumb32::decode_ADR_t3(opcode))
    }     else if opcode & 0xfff000f0 == 0xfb800000 {
        Some(thumb32::decode_SMULL_t1(opcode))
    } else {
        None
    }
}

/// The opcode that two halfwords make: the first in the high half.
pub open spec fn spec_opcode_32(hw1: u16, hw2: u16) -> u32 {
    ((hw1 as u32) << 16u32) | (hw2 as u32)
}

/// The instruction that two halfwords encode.
pub open spec fn spec_decode_32(hw1: u16, hw2: u16) -> Option<Instruction> {
    spec_decode_thumb32(spec_opcode_32(hw1, hw2))
}

/// Decodes a 32-bit instruction from its two halfwords.
pub fn decode_32(hw1: u16, hw2: u16) -> (out: Option<Instruction>)
    ensures
        out == spec_decode_32(hw1, hw2),
{
    decode_thumb32(((hw1 as u32) << 16u32) | (hw2 as u32))
}

/// The instruction that a fetched opcode encodes.
pub open spec fn spec_decode(code: ThumbCode) -> Option<Instruction> {
    match code {
        ThumbCode::Thumb16 { opcode } => spec_decode_16(opcode),
        ThumbCode::Thumb32 { opcode } => spec_decode_thumb32(opcode),
    }
}

/// Decodes a fetched opcode.
pub fn decode(code: &ThumbCode) -> (out: Option<Instruction>)
    ensures
        out == spec_decode(*code),
{
    match code {
        ThumbCode::Thumb16 { opcode } => decode_16(*opcode),
        ThumbCode::Thumb32 { opcode } => decode_thumb32(*opcode),
    }
}

proof fn prefix_facts(hw: u16)
    by (bit_vector)
    ensures
        (hw >> 11u16 == 0b11101 || hw >> 11u16 == 0b11110 || hw >> 11u16 == 0b11111) <==> hw
            >= 0xe800,
        hw >> 11u16 <= 31,
{
}

/// The halfwords that start a 32-bit instruction are those from `0xE800` up.
pub proof fn lemma_is_thumb32_range(hw: u16)
    ensures
        spec_is_thumb32(hw) <==> hw >= 0xe800,
        !spec_is_thumb32(hw) <==> hw >> 11u16 <= 0b11100,
{
    prefix_facts(hw);
}

proof fn wide_prefix_facts(hw1: u16, hw2: u16)
    by (bit_vector)
    ensures
        ({
            let opcode = ((hw1 as u32) << 16u32) | (hw2 as u32);
            &&& opcode & 0xf800_0000u32 == 0xf000_0000u32 ==> hw1 >> 11u16 == 0b11110
            &&& opcode & 0xfb00_0000u32 == 0xf200_0000u32 ==> hw1 >> 11u16 == 0b11110
            &&& opcode & 0xff00_0000u32 == 0xfb00_0000u32 ==> hw1 >> 11u16 == 0b11111
            &&& opcode >> 16u32 == hw1
            &&& opcode & 0xffffu32 == hw2
        }),
{
}

proof fn wide_row_facts(opcode: u32)
    by (bit_vector)
    ensures
        opcode & 0xf800_d000u32 == 0xf000_d000u32 ==> opcode & 0xf800_0000u32 == 0xf000_0000u32,
        opcode & 0xfff0_ff00u32 == 0xf380_8800u32 ==> opcode & 0xf800_0000u32 == 0xf000_0000u32,
        opcode & 0xffff_f000u32 == 0xf3ef_8000u32 ==> opcode & 0xf800_0000u32 == 0xf000_0000u32,
        opcode & 0xffff_fff0u32 == 0xf3bf_8f40u32 ==> opcode & 0xf800_0000u32 == 0xf000_0000u32,
        opcode & 0xffff_fff0u32 == 0xf3bf_8f50u32 ==> opcode & 0xf800_0000u32 == 0xf000_0000u32,
        opcode & 0xffff_fff0u32 == 0xf3bf_8f60u32 ==> opcode & 0xf800_0000u32 == 0xf000_0000u32,
        opcode & 0xfff0_f000u32 == 0xf7f0_a000u32 ==> opcode & 0xf800_0000u32 == 0xf000_0000u32,
        opcode & 0xfbff_8000u32 == 0xf2af_0000u32 ==> opcode & 0xfb00_0000u32 == 0xf200_0000u32,
        opcode & 0xfbff_8000u32 == 0xf20f_0000u32 ==> opcode & 0xfb00_0000u32 == 0xf200_0000u32,
        opcode & 0xfff0_00f0u32 == 0xfb80_0000u32 ==> opcode & 0xff00_0000u32 == 0xfb00_0000u32,
{
}

/// Two halfwords encode an instruction only where the first starts a 32-bit
/// instruction, and a halfword that does encodes nothing by itself.
pub proof fn lemma_widths_are_disjoint(hw1: u16, hw2: u16)
    ensures
        spec_decode_32(hw1, hw2) is Some ==> spec_is_thumb32(hw1),
        spec_is_thumb32(hw1) ==> spec_decode_16(hw1) is None,
{
    wide_prefix_facts(hw1, hw2);
    wide_row_facts(spec_opcode_32(hw1, hw2));
    group_facts(hw1);
}

/// The opcode of two halfwords holds the first in its high half and the
/// second in its low half.
pub proof fn lemma_opcode_halves(hw1: u16, hw2: u16)
    ensures
        spec_opcode_32(hw1, hw2) >> 16u32 == hw1,
        spec_opcode_32(hw1, hw2) & 0xffffu32 == hw2,
{
    wide_prefix_facts(hw1, hw2);
}

} // verus!
