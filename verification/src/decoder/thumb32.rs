//! Decoders of the 32-bit encodings, one for each encoding.

use crate::bits::get_bits;
use crate::bits::spec_bits;
use crate::decoder::adr_offset;
use crate::decoder::bl_offset;
use crate::decoder::reg_at;
use crate::decoder::special_at;
use crate::decoder::spec_adr_offset;
use crate::decoder::spec_bl_offset;
use crate::decoder::spec_reg_at;
use crate::instruction::Instruction;
use crate::instruction::ThumbCode;
use crate::operation::sign_extend;
use crate::operation::spec_sign_extend;
use crate::register::SpecialReg;
use vstd::prelude::*;

verus! {

/// The instruction that the opcode encodes as BL, encoding T1.
#[allow(non_snake_case)]
pub open spec fn spec_decode_BL_t1(opcode: u32) -> Instruction {
    Instruction::BL { imm32: spec_sign_extend(spec_bl_offset(opcode), 25) }
}

/// Decodes BL, encoding T1.
#[allow(non_snake_case)]
pub fn decode_BL_t1(opcode: u32) -> (instruction: Instruction)
    ensures
        instruction == spec_decode_BL_t1(opcode),
{
    Instruction::BL { imm32: sign_extend(bl_offset(opcode), 25) }
}

/// The instruction that the opcode encodes as MSR (register), encoding T1:
/// the permanently undefined instruction where the SYSm field names no
/// special register.
#[allow(non_snake_case)]
pub open spec fn spec_decode_MSR_reg_t1(opcode: u32) -> Instruction {
    match SpecialReg::spec_from(spec_bits(opcode, 0, 8) as int) {
        Some(spec_reg) => Instruction::MSR_reg { rn: spec_reg_at(opcode, 16, 4), spec_reg },
        None => Instruction::UDF { imm32: 0, opcode: ThumbCode::Thumb32 { opcode } },
    }
}

/// Decodes MSR (register), encoding T1. A SYSm field that names no special
/// register gives the permanently undefined instruction.
#[allow(non_snake_case)]
pub fn decode_MSR_reg_t1(opcode: u32) -> (instruction: Instruction)
    ensures
        instruction == spec_decode_MSR_reg_t1(opcode),
{
    match special_at(opcode) {
        Some(spec_reg) => Instruction::MSR_reg { rn: reg_at(opcode, 16, 4), spec_reg },
        None => Instruction::UDF { imm32: 0, opcode: ThumbCode::Thumb32 { opcode } },
    }
}

/// The instruction that the opcode encodes as MRS, encoding T1: the
/// permanently undefined instruction where the SYSm field names no special
/// register.
#[allow(non_snake_case)]
pub open spec fn spec_decode_MRS_t1(opcode: u32) -> Instruction {
    match SpecialReg::spec_from(spec_bits(opcode, 0, 8) as int) {
        Some(spec_reg) => Instruction::MRS { rd: spec_reg_at(opcode, 8, 4), spec_reg },
        None => Instruction::UDF { imm32: 0, opcode: ThumbCode::Thumb32 { opcode } },
    }
}

/// Decodes MRS, encoding T1. A SYSm field that names no special register
/// gives the permanently undefined instruction.
#[allow(non_snake_case)]
pub fn decode_MRS_t1(opcode: u32) -> (instruction: Instruction)
    ensures
        instruction == spec_decode_MRS_t1(opcode),
{
    match special_at(opcode) {
        Some(spec_reg) => Instruction::MRS { rd: reg_at(opcode, 8, 4), spec_reg },
        None => Instruction::UDF { imm32: 0, opcode: ThumbCode::Thumb32 { opcode } },
    }
}

/// The instruction that the opcode encodes as DSB, encoding T1.
#[allow(non_snake_case)]
pub open spec fn spec_decode_DSB_t1(opcode: u32) -> Instruction {
    Instruction::DSB
}

/// Decodes DSB, encoding T1.
#[allow(non_snake_case)]
pub fn decode_DSB_t1(opcode: u32) -> (instruction: Instruction)
    ensures
        instruction == spec_decode_DSB_t1(opcode),
{
    Instruction::DSB
}

/// The instruction that the opcode encodes as DMB, encoding T1.
#[allow(non_snake_case)]
pub open spec fn spec_decode_DMB_t1(opcode: u32) -> Instruction {
    Instruction::DMB
}

/// Decodes DMB, encoding T1.
#[allow(non_snake_case)]
pub fn decode_DMB_t1(opcode: u32) -> (instruction: Instruction)
    ensures
        instruction == spec_decode_DMB_t1(opcode),
{
    Instruction::DMB
}

/// The instruction that the opcode encodes as ISB, encoding T1.
#[allow(non_snake_case)]
pub open spec fn spec_decode_ISB_t1(opcode: u32) -> Instruction {
    Instruction::ISB
}

/// Decodes ISB, encoding T1.
#[allow(non_snake_case)]
pub fn decode_ISB_t1(opcode: u32) -> (instruction: Instruction)
    ensures
        instruction == spec_decode_ISB_t1(opcode),
{
    Instruction::ISB
}

/// The instruction that the opcode encodes as UDF, encoding T2.
#[allow(non_snake_case)]
pub open spec fn spec_decode_UDF_t2(opcode: u32) -> Instruction {
    Instruction::UDF {
        imm32: (spec_bits(opcode, 16, 20) << 12u32) | spec_bits(opcode, 0, 12),
        opcode: ThumbCode::Thumb32 { opcode },
    }
}

/// Decodes UDF, encoding T2.
#[allow(non_snake_case)]
pub fn decode_UDF_t2(opcode: u32) -> (instruction: Instruction)
    ensures
        instruction == spec_decode_UDF_t2(opcode),
{
    Instruction::UDF {
        imm32: (get_bits(opcode, 16, 20) << 12u32) | get_bits(opcode, 0, 12),
        opcode: ThumbCode::Thumb32 { opcode },
    }
}

/// The instruction that the opcode encodes as ADR, encoding T2, which subtracts: it decodes to
/// the permanently undefined instruction.
#[allow(non_snake_case)]
pub open spec fn spec_decode_ADR_t2(opcode: u32) -> Instruction {
    Instruction::UDF { imm32: 0, opcode: ThumbCode::Thumb32 { opcode } }
}

/// Decodes ADR, encoding T2, which subtracts: it decodes to the permanently undefined
/// instruction.
#[allow(non_snake_case)]
pub fn decode_ADR_t2(opcode: u32) -> (instruction: Instruction)
    ensures
        instruction == spec_decode_ADR_t2(opcode),
{
    Instruction::UDF { imm32: 0, opcode: ThumbCode::Thumb32 { opcode } }
}

/// The instruction that the opcode encodes as ADR, encoding T3: the offset joins the fields i,
/// imm3 and imm8.
#[allow(non_snake_case)]
pub open spec fn spec_decode_ADR_t3(opcode: u32) -> Instruction {
    Instruction::ADR {
        rd: spec_reg_at(opcode, 8, 4),
        imm32: spec_adr_offset(opcode),
        thumb32: true,
    }
}

/// Decodes ADR, encoding T3: the offset joins the fields i, imm3 and imm8.
#[allow(non_snake_case)]
pub fn decode_ADR_t3(opcode: u32) -> (instruction: Instruction)
    ensures
        instruction == spec_decode_ADR_t3(opcode),
{
    Instruction::ADR { rd: reg_at(opcode, 8, 4), imm32: adr_offset(opcode), thumb32: true }
}

/// The instruction that the opcode encodes as SMULL, encoding T1.
#[allow(non_snake_case)]
pub open spec fn spec_decode_SMULL_t1(opcode: u32) -> Instruction {
    Instruction::SMULL {
        rdlo: spec_reg_at(opcode, 12, 4),
        rdhi: spec_reg_at(opcode, 8, 4),
        rn: spec_reg_at(opcode, 16, 4),
        rm: spec_reg_at(opcode, 0, 4),
    }
}

/// Decodes SMULL, encoding T1.
#[allow(non_snake_case)]
pub fn decode_SMULL_t1(opcode: u32) -> (instruction: Instruction)
    ensures
        instruction == spec_decode_SMULL_t1(opcode),
{
    Instruction::SMULL {
        rdlo: reg_at(opcode, 12, 4),
        rdhi: reg_at(opcode, 8, 4),
        rn: reg_at(opcode, 16, 4),
        rm: reg_at(opcode, 0, 4),
    }
}

} // verus!
