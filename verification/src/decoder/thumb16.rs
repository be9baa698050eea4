//! Decoders of the 16-bit encodings, one for each encoding.

use crate::bits::get_bits;
use crate::bits::spec_bits;
use crate::condition::Condition;
use crate::decoder::condition_at;
use crate::decoder::reg_at;
use crate::decoder::reg_split;
use crate::decoder::spec_condition_at;
use crate::decoder::spec_reg_at;
use crate::decoder::spec_reg_split;
use crate::instruction::Instruction;
use crate::instruction::ThumbCode;
use crate::operation::sign_extend;
use crate::operation::spec_sign_extend;
use crate::register::Reg;
use vstd::prelude::*;

verus! {

/// The instruction that the opcode encodes as MOVS (register), encoding T2.
#[allow(non_snake_case)]
pub open spec fn spec_decode_MOV_reg_t2(command: u16) -> Instruction {
    let opcode = command as u32;
    Instruction::MOV_reg {
        rd: spec_reg_at(opcode, 0, 3),
        rm: spec_reg_at(opcode, 3, 3),
        setflags: true,
    }
}

/// Decodes MOVS (register), encoding T2.
#[allow(non_snake_case)]
pub fn decode_MOV_reg_t2(command: u16) -> (instruction: Instruction)
    ensures
        instruction == spec_decode_MOV_reg_t2(command),
{
    let opcode: u32 = command as u32;
    Instruction::MOV_reg { rd: reg_at(opcode, 0, 3), rm: reg_at(opcode, 3, 3), setflags: true }
}

/// The instruction that the opcode encodes as LSLS (immediate), encoding T1.
#[allow(non_snake_case)]
pub open spec fn spec_decode_LSL_imm_t1(command: u16) -> Instruction {
    let opcode = command as u32;
    Instruction::LSL_imm {
        rd: spec_reg_at(opcode, 0, 3),
        rm: spec_reg_at(opcode, 3, 3),
        imm5: spec_bits(opcode, 6, 11) as u8,
        setflags: true,
    }
}

/// Decodes LSLS (immediate), encoding T1.
#[allow(non_snake_case)]
pub fn decode_LSL_imm_t1(command: u16) -> (instruction: Instruction)
    ensures
        instruction == spec_decode_LSL_imm_t1(command),
{
    let opcode: u32 = command as u32;
    Instruction::LSL_imm {
        rd: reg_at(opcode, 0, 3),
        rm: reg_at(opcode, 3, 3),
        imm5: get_bits(opcode, 6, 11) as u8,
        setflags: true,
    }
}

/// The instruction that the opcode encodes as LSRS (immediate), encoding T1.
#[allow(non_snake_case)]
pub open spec fn spec_decode_LSR_imm_t1(command: u16) -> Instruction {
    let opcode = command as u32;
    Instruction::LSR_imm {
        rd: spec_reg_at(opcode, 0, 3),
        rm: spec_reg_at(opcode, 3, 3),
        imm5: spec_bits(opcode, 6, 11) as u8,
        setflags: true,
    }
}

/// Decodes LSRS (immediate), encoding T1.
#[allow(non_snake_case)]
pub fn decode_LSR_imm_t1(command: u16) -> (instruction: Instruction)
    ensures
        instruction == spec_decode_LSR_imm_t1(command),
{
    let opcode: u32 = command as u32;
    Instruction::LSR_imm {
        rd: reg_at(opcode, 0, 3),
        rm: reg_at(opcode, 3, 3),
        imm5: get_bits(opcode, 6, 11) as u8,
        setflags: true,
    }
}

/// The instruction that the opcode encodes as ASRS (immediate), encoding T1.
#[allow(non_snake_case)]
pub open spec fn spec_decode_ASR_imm_t1(command: u16) -> Instruction {
    let opcode = command as u32;
    Instruction::ASR_imm {
        rd: spec_reg_at(opcode, 0, 3),
        rm: spec_reg_at(opcode, 3, 3),
        imm5: spec_bits(opcode, 6, 11) as u8,
        setflags: true,
    }
}

/// Decodes ASRS (immediate), encoding T1.
#[allow(non_snake_case)]
pub fn decode_ASR_imm_t1(command: u16) -> (instruction: Instruction)
    ensures
        instruction == spec_decode_ASR_imm_t1(command),
{
    let opcode: u32 = command as u32;
    Instruction::ASR_imm {
        rd: reg_at(opcode, 0, 3),
        rm: reg_at(opcode, 3, 3),
        imm5: get_bits(opcode, 6, 11) as u8,
        setflags: true,
    }
}

/// The instruction that the opcode encodes as ADDS (register), encoding T1.
#[allow(non_snake_case)]
pub open spec fn spec_decode_ADD_reg_t1(command: u16) -> Instruction {
    let opcode = command as u32;
    Instruction::ADDS {
        rd: spec_reg_at(opcode, 0, 3),
        rn: spec_reg_at(opcode, 3, 3),
        rm: spec_reg_at(opcode, 6, 3),
    }
}

/// Decodes ADDS (register), encoding T1.
#[allow(non_snake_case)]
pub fn decode_ADD_reg_t1(command: u16) -> (instruction: Instruction)
    ensures
        instruction == spec_decode_ADD_reg_t1(command),
{
    let opcode: u32 = command as u32;
    Instruction::ADDS {
        rd: reg_at(opcode, 0, 3),
        rn: reg_at(opcode, 3, 3),
        rm: reg_at(opcode, 6, 3),
    }
}

/// The instruction that the opcode encodes as SUBS (register), encoding T1.
#[allow(non_snake_case)]
pub open spec fn spec_decode_SUB_reg_t1(command: u16) -> Instruction {
    let opcode = command as u32;
    Instruction::SUBS_reg {
        rd: spec_reg_at(opcode, 0, 3),
        rn: spec_reg_at(opcode, 3, 3),
        rm: spec_reg_at(opcode, 6, 3),
    }
}

/// Decodes SUBS (register), encoding T1.
#[allow(non_snake_case)]
pub fn decode_SUB_reg_t1(command: u16) -> (instruction: Instruction)
    ensures
        instruction == spec_decode_SUB_reg_t1(command),
{
    let opcode: u32 = command as u32;
    Instruction::SUBS_reg {
        rd: reg_at(opcode, 0, 3),
        rn: reg_at(opcode, 3, 3),
        rm: reg_at(opcode, 6, 3),
    }
}

/// The instruction that the opcode encodes as ADDS (3-bit immediate), encoding T1.
#[allow(non_snake_case)]
pub open spec fn spec_decode_ADD_imm_t1(command: u16) -> Instruction {
    let opcode = command as u32;
    Instruction::ADD_imm {
        rd: spec_reg_at(opcode, 0, 3),
        rn: spec_reg_at(opcode, 3, 3),
        imm32: spec_bits(opcode, 6, 9),
        setflags: true,
    }
}

/// Decodes ADDS (3-bit immediate), encoding T1.
#[allow(non_snake_case)]
pub fn decode_ADD_imm_t1(command: u16) -> (instruction: Instruction)
    ensures
        instruction == spec_decode_ADD_imm_t1(command),
{
    let opcode: u32 = command as u32;
    Instruction::ADD_imm {
        rd: reg_at(opcode, 0, 3),
        rn: reg_at(opcode, 3, 3),
        imm32: get_bits(opcode, 6, 9),
        setflags: true,
    }
}

/// The instruction that the opcode encodes as SUBS (3-bit immediate), encoding T1.
#[allow(non_snake_case)]
pub open spec fn spec_decode_SUB_imm_t1(command: u16) -> Instruction {
    let opcode = command as u32;
    Instruction::SUB_imm {
        rd: spec_reg_at(opcode, 0, 3),
        rn: spec_reg_at(opcode, 3, 3),
        imm32: spec_bits(opcode, 6, 9),
        setflags: true,
    }
}

/// Decodes SUBS (3-bit immediate), encoding T1.
#[allow(non_snake_case)]
pub fn decode_SUB_imm_t1(command: u16) -> (instruction: Instruction)
    ensures
        instruction == spec_decode_SUB_imm_t1(command),
{
    let opcode: u32 = command as u32;
    Instruction::SUB_imm {
        rd: reg_at(opcode, 0, 3),
        rn: reg_at(opcode, 3, 3),
        imm32: get_bits(opcode, 6, 9),
        setflags: true,
    }
}

/// The instruction that the opcode encodes as MOVS (immediate), encoding T1.
#[allow(non_snake_case)]
pub open spec fn spec_decode_MOV_imm_t1(command: u16) -> Instruction {
    let opcode = command as u32;
    Instruction::MOV_imm {
        rd: spec_reg_at(opcode, 8, 3),
        imm32: spec_bits(opcode, 0, 8),
        setflags: true,
    }
}

/// Decodes MOVS (immediate), encoding T1.
#[allow(non_snake_case)]
pub fn decode_MOV_imm_t1(command: u16) -> (instruction: Instruction)
    ensures
        instruction == spec_decode_MOV_imm_t1(command),
{
    let opcode: u32 = command as u32;
    Instruction::MOV_imm { rd: reg_at(opcode, 8, 3), imm32: get_bits(opcode, 0, 8), setflags: true }
}

/// The instruction that the opcode encodes as CMP (immediate), encoding T1.
#[allow(non_snake_case)]
pub open spec fn spec_decode_CMP_imm_t1(command: u16) -> Instruction {
    let opcode = command as u32;
    Instruction::CMP_imm { rn: spec_reg_at(opcode, 8, 3), imm32: spec_bits(opcode, 0, 8) }
}

/// Decodes CMP (immediate), encoding T1.
#[allow(non_snake_case)]
pub fn decode_CMP_imm_t1(command: u16) -> (instruction: Instruction)
    ensures
        instruction == spec_decode_CMP_imm_t1(command),
{
    let opcode: u32 = command as u32;
    Instruction::CMP_imm { rn: reg_at(opcode, 8, 3), imm32: get_bits(opcode, 0, 8) }
}

/// The instruction that the opcode encodes as ADDS (8-bit immediate), encoding T2.
#[allow(non_snake_case)]
pub open spec fn spec_decode_ADD_imm_t2(command: u16) -> Instruction {
    let opcode = command as u32;
    Instruction::ADD_imm {
        rd: spec_reg_at(opcode, 8, 3),
        rn: spec_reg_at(opcode, 8, 3),
        imm32: spec_bits(opcode, 0, 8),
        setflags: true,
    }
}

/// Decodes ADDS (8-bit immediate), encoding T2.
#[allow(non_snake_case)]
pub fn decode_ADD_imm_t2(command: u16) -> (instruction: Instruction)
    ensures
        instruction == spec_decode_ADD_imm_t2(command),
{
    let opcode: u32 = command as u32;
    Instruction::ADD_imm {
        rd: reg_at(opcode, 8, 3),
        rn: reg_at(opcode, 8, 3),
        imm32: get_bits(opcode, 0, 8),
        setflags: true,
    }
}

/// The instruction that the opcode encodes as SUBS (8-bit immediate), encoding T2.
#[allow(non_snake_case)]
pub open spec fn spec_decode_SUB_imm_t2(command: u16) -> Instruction {
    let opcode = command as u32;
    Instruction::SUB_imm {
        rd: spec_reg_at(opcode, 8, 3),
        rn: spec_reg_at(opcode, 8, 3),
        imm32: spec_bits(opcode, 0, 8),
        setflags: true,
    }
}

/// Decodes SUBS (8-bit immediate), encoding T2.
#[allow(non_snake_case)]
pub fn decode_SUB_imm_t2(command: u16) -> (instruction: Instruction)
    ensures
        instruction == spec_decode_SUB_imm_t2(command),
{
    let opcode: u32 = command as u32;
    Instruction::SUB_imm {
        rd: reg_at(opcode, 8, 3),
        rn: reg_at(opcode, 8, 3),
        imm32: get_bits(opcode, 0, 8),
        setflags: true,
    }
}

/// The instruction that the opcode encodes as ANDS (register), encoding T1.
#[allow(non_snake_case)]
pub open spec fn spec_decode_AND_reg_t1(command: u16) -> Instruction {
    let opcode = command as u32;
    Instruction::AND_reg {
        rd: spec_reg_at(opcode, 0, 3),
        rn: spec_reg_at(opcode, 0, 3),
        rm: spec_reg_at(opcode, 3, 3),
        setflags: true,
    }
}

/// Decodes ANDS (register), encoding T1.
#[allow(non_snake_case)]
pub fn decode_AND_reg_t1(command: u16) -> (instruction: Instruction)
    ensures
        instruction == spec_decode_AND_reg_t1(command),
{
    let opcode: u32 = command as u32;
    Instruction::AND_reg {
        rd: reg_at(opcode, 0, 3),
        rn: reg_at(opcode, 0, 3),
        rm: reg_at(opcode, 3, 3),
        setflags: true,
    }
}

/// The instruction that the opcode encodes as EORS (register), encoding T1.
#[allow(non_snake_case)]
pub open spec fn spec_decode_EOR_reg_t1(command: u16) -> Instruction {
    let opcode = command as u32;
    Instruction::EOR_reg {
        rd: spec_reg_at(opcode, 0, 3),
        rn: spec_reg_at(opcode, 0, 3),
        rm: spec_reg_at(opcode, 3, 3),
        setflags: true,
    }
}

/// Decodes EORS (register), encoding T1.
#[allow(non_snake_case)]
pub fn decode_EOR_reg_t1(command: u16) -> (instruction: Instruction)
    ensures
        instruction == spec_decode_EOR_reg_t1(command),
{
    let opcode: u32 = command as u32;
    Instruction::EOR_reg {
        rd: reg_at(opcode, 0, 3),
        rn: reg_at(opcode, 0, 3),
        rm: reg_at(opcode, 3, 3),
        setflags: true,
    }
}

/// The instruction that the opcode encodes as LSLS (register), encoding T1.
#[allow(non_snake_case)]
pub open spec fn spec_decode_LSL_reg_t1(command: u16) -> Instruction {
    let opcode = command as u32;
    Instruction::LSL_reg {
        rd: spec_reg_at(opcode, 0, 3),
        rn: spec_reg_at(opcode, 0, 3),
        rm: spec_reg_at(opcode, 3, 3),
        setflags: true,
    }
}

/// Decodes LSLS (register), encoding T1.
#[allow(non_snake_case)]
pub fn decode_LSL_reg_t1(command: u16) -> (instruction: Instruction)
    ensures
        instruction == spec_decode_LSL_reg_t1(command),
{
    let opcode: u32 = command as u32;
    Instruction::LSL_reg {
        rd: reg_at(opcode, 0, 3),
        rn: reg_at(opcode, 0, 3),
        rm: reg_at(opcode, 3, 3),
        setflags: true,
    }
}

/// The instruction that the opcode encodes as LSRS (register), encoding T1.
#[allow(non_snake_case)]
pub open spec fn spec_decode_LSR_reg_t1(command: u16) -> Instruction {
    let opcode = command as u32;
    Instruction::LSR_reg {
        rd: spec_reg_at(opcode, 0, 3),
        rn: spec_reg_at(opcode, 0, 3),
        rm: spec_reg_at(opcode, 3, 3),
        setflags: true,
    }
}

/// Decodes LSRS (register), encoding T1.
#[allow(non_snake_case)]
pub fn decode_LSR_reg_t1(command: u16) -> (instruction: Instruction)
    ensures
        instruction == spec_decode_LSR_reg_t1(command),
{
    let opcode: u32 = command as u32;
    Instruction::LSR_reg {
        rd: reg_at(opcode, 0, 3),
        rn: reg_at(opcode, 0, 3),
        rm: reg_at(opcode, 3, 3),
        setflags: true,
    }
}

/// The instruction that the opcode encodes as ASRS (register), encoding T1.
#[allow(non_snake_case)]
pub open spec fn spec_decode_ASR_reg_t1(command: u16) -> Instruction {
    let opcode = command as u32;
    Instruction::ASR_reg {
        rd: spec_reg_at(opcode, 0, 3),
        rn: spec_reg_at(opcode, 0, 3),
        rm: spec_reg_at(opcode, 3, 3),
        setflags: true,
    }
}

/// Decodes ASRS (register), encoding T1.
#[allow(non_snake_case)]
pub fn decode_ASR_reg_t1(command: u16) -> (instruction: Instruction)
    ensures
        instruction == spec_decode_ASR_reg_t1(command),
{
    let opcode: u32 = command as u32;
    Instruction::ASR_reg {
        rd: reg_at(opcode, 0, 3),
        rn: reg_at(opcode, 0, 3),
        rm: reg_at(opcode, 3, 3),
        setflags: true,
    }
}

/// The instruction that the opcode encodes as ADCS (register), encoding T1.
#[allow(non_snake_case)]
pub open spec fn spec_decode_ADC_reg_t1(command: u16) -> Instruction {
    let opcode = command as u32;
    Instruction::ADC_reg {
        rd: spec_reg_at(opcode, 0, 3),
        rn: spec_reg_at(opcode, 0, 3),
        rm: spec_reg_at(opcode, 3, 3),
        setflags: true,
    }
}

/// Decodes ADCS (register), encoding T1.
#[allow(non_snake_case)]
pub fn decode_ADC_reg_t1(command: u16) -> (instruction: Instruction)
    ensures
        instruction == spec_decode_ADC_reg_t1(command),
{
    let opcode: u32 = command as u32;
    Instruction::ADC_reg {
        rd: reg_at(opcode, 0, 3),
        rn: reg_at(opcode, 0, 3),
        rm: reg_at(opcode, 3, 3),
        setflags: true,
    }
}

/// The instruction that the opcode encodes as SBCS (register), encoding T1.
#[allow(non_snake_case)]
pub open spec fn spec_decode_SBC_reg_t1(command: u16) -> Instruction {
    let opcode = command as u32;
    Instruction::SBC_reg {
        rd: spec_reg_at(opcode, 0, 3),
        rn: spec_reg_at(opcode, 0, 3),
        rm: spec_reg_at(opcode, 3, 3),
        setflags: true,
    }
}

/// Decodes SBCS (register), encoding T1.
#[allow(non_snake_case)]
pub fn decode_SBC_reg_t1(command: u16) -> (instruction: Instruction)
    ensures
        instruction == spec_decode_SBC_reg_t1(command),
{
    let opcode: u32 = command as u32;
    Instruction::SBC_reg {
        rd: reg_at(opcode, 0, 3),
        rn: reg_at(opcode, 0, 3),
        rm: reg_at(opcode, 3, 3),
        setflags: true,
    }
}

/// The instruction that the opcode encodes as RORS (register), encoding T1.
#[allow(non_snake_case)]
pub open spec fn spec_decode_ROR_reg_t1(command: u16) -> Instruction {
    let opcode = command as u32;
    Instruction::ROR_reg {
        rd: spec_reg_at(opcode, 0, 3),
        rn: spec_reg_at(opcode, 0, 3),
        rm: spec_reg_at(opcode, 3, 3),
        setflags: true,
    }
}

/// Decodes RORS (register), encoding T1.
#[allow(non_snake_case)]
pub fn decode_ROR_reg_t1(command: u16) -> (instruction: Instruction)
    ensures
        instruction == spec_decode_ROR_reg_t1(command),
{
    let opcode: u32 = command as u32;
    Instruction::ROR_reg {
        rd: reg_at(opcode, 0, 3),
        rn: reg_at(opcode, 0, 3),
        rm: reg_at(opcode, 3, 3),
        setflags: true,
    }
}

/// The instruction that the opcode encodes as TST (register), encoding T1.
#[allow(non_snake_case)]
pub open spec fn spec_decode_TST_reg_t1(command: u16) -> Instruction {
    let opcode = command as u32;
    Instruction::TST_reg { rn: spec_reg_at(opcode, 0, 3), rm: spec_reg_at(opcode, 3, 3) }
}

/// Decodes TST (register), encoding T1.
#[allow(non_snake_case)]
pub fn decode_TST_reg_t1(command: u16) -> (instruction: Instruction)
    ensures
        instruction == spec_decode_TST_reg_t1(command),
{
    let opcode: u32 = command as u32;
    Instruction::TST_reg { rn: reg_at(opcode, 0, 3), rm: reg_at(opcode, 3, 3) }
}

/// The instruction that the opcode encodes as RSBS (immediate), encoding T1: the immediate is
/// zero.
#[allow(non_snake_case)]
pub open spec fn spec_decode_RSB_imm_t1(command: u16) -> Instruction {
    let opcode = command as u32;
    Instruction::RSB_imm {
        rd: spec_reg_at(opcode, 0, 3),
        rn: spec_reg_at(opcode, 3, 3),
        imm32: 0,
        setflags: true,
    }
}

/// Decodes RSBS (immediate), encoding T1: the immediate is zero.
#[allow(non_snake_case)]
pub fn decode_RSB_imm_t1(command: u16) -> (instruction: Instruction)
    ensures
        instruction == spec_decode_RSB_imm_t1(command),
{
    let opcode: u32 = command as u32;
    Instruction::RSB_imm {
        rd: reg_at(opcode, 0, 3),
        rn: reg_at(opcode, 3, 3),
        imm32: 0,
        setflags: true,
    }
}

/// The instruction that the opcode encodes as CMP (register), encoding T1.
#[allow(non_snake_case)]
pub open spec fn spec_decode_CMP_reg_t1(command: u16) -> Instruction {
    let opcode = command as u32;
    Instruction::CMP { rn: spec_reg_at(opcode, 0, 3), rm: spec_reg_at(opcode, 3, 3) }
}

/// Decodes CMP (register), encoding T1.
#[allow(non_snake_case)]
pub fn decode_CMP_reg_t1(command: u16) -> (instruction: Instruction)
    ensures
        instruction == spec_decode_CMP_reg_t1(command),
{
    let opcode: u32 = command as u32;
    Instruction::CMP { rn: reg_at(opcode, 0, 3), rm: reg_at(opcode, 3, 3) }
}

/// The instruction that the opcode encodes as CMN (register), encoding T1.
#[allow(non_snake_case)]
pub open spec fn spec_decode_CMN_reg_t1(command: u16) -> Instruction {
    let opcode = command as u32;
    Instruction::CMN_reg { rn: spec_reg_at(opcode, 0, 3), rm: spec_reg_at(opcode, 3, 3) }
}

/// Decodes CMN (register), encoding T1.
#[allow(non_snake_case)]
pub fn decode_CMN_reg_t1(command: u16) -> (instruction: Instruction)
    ensures
        instruction == spec_decode_CMN_reg_t1(command),
{
    let opcode: u32 = command as u32;
    Instruction::CMN_reg { rn: reg_at(opcode, 0, 3), rm: reg_at(opcode, 3, 3) }
}

/// The instruction that the opcode encodes as ORRS (register), encoding T1.
#[allow(non_snake_case)]
pub open spec fn spec_decode_ORR_reg_t1(command: u16) -> Instruction {
    let opcode = command as u32;
    Instruction::ORR_reg {
        rd: spec_reg_at(opcode, 0, 3),
        rn: spec_reg_at(opcode, 0, 3),
        rm: spec_reg_at(opcode, 3, 3),
        setflags: true,
    }
}

/// Decodes ORRS (register), encoding T1.
#[allow(non_snake_case)]
pub fn decode_ORR_reg_t1(command: u16) -> (instruction: Instruction)
    ensures
        instruction == spec_decode_ORR_reg_t1(command),
{
    let opcode: u32 = command as u32;
    Instruction::ORR_reg {
        rd: reg_at(opcode, 0, 3),
        rn: reg_at(opcode, 0, 3),
        rm: reg_at(opcode, 3, 3),
        setflags: true,
    }
}

/// The instruction that the opcode encodes as MULS, encoding T1.
#[allow(non_snake_case)]
pub open spec fn spec_decode_MUL_t1(command: u16) -> Instruction {
    let opcode = command as u32;
    Instruction::MUL {
        rd: spec_reg_at(opcode, 0, 3),
        rn: spec_reg_at(opcode, 3, 3),
        rm: spec_reg_at(opcode, 0, 3),
        setflags: true,
    }
}

/// Decodes MULS, encoding T1.
#[allow(non_snake_case)]
pub fn decode_MUL_t1(command: u16) -> (instruction: Instruction)
    ensures
        instruction == spec_decode_MUL_t1(command),
{
    let opcode: u32 = command as u32;
    Instruction::MUL {
        rd: reg_at(opcode, 0, 3),
        rn: reg_at(opcode, 3, 3),
        rm: reg_at(opcode, 0, 3),
        setflags: true,
    }
}

/// The instruction that the opcode encodes as BICS (register), encoding T1.
#[allow(non_snake_case)]
pub open spec fn spec_decode_BIC_reg_t1(command: u16) -> Instruction {
    let opcode = command as u32;
    Instruction::BIC_reg {
        rd: spec_reg_at(opcode, 0, 3),
        rn: spec_reg_at(opcode, 0, 3),
        rm: spec_reg_at(opcode, 3, 3),
        setflags: true,
    }
}

/// Decodes BICS (register), encoding T1.
#[allow(non_snake_case)]
pub fn decode_BIC_reg_t1(command: u16) -> (instruction: Instruction)
    ensures
        instruction == spec_decode_BIC_reg_t1(command),
{
    let opcode: u32 = command as u32;
    Instruction::BIC_reg {
        rd: reg_at(opcode, 0, 3),
        rn: reg_at(opcode, 0, 3),
        rm: reg_at(opcode, 3, 3),
        setflags: true,
    }
}

/// The instruction that the opcode encodes as MVNS (register), encoding T1.
#[allow(non_snake_case)]
pub open spec fn spec_decode_MVN_reg_t1(command: u16) -> Instruction {
    let opcode = command as u32;
    Instruction::MVN_reg {
        rd: spec_reg_at(opcode, 0, 3),
        rm: spec_reg_at(opcode, 3, 3),
        setflags: true,
    }
}

/// Decodes MVNS (register), encoding T1.
#[allow(non_snake_case)]
pub fn decode_MVN_reg_t1(command: u16) -> (instruction: Instruction)
    ensures
        instruction == spec_decode_MVN_reg_t1(command),
{
    let opcode: u32 = command as u32;
    Instruction::MVN_reg { rd: reg_at(opcode, 0, 3), rm: reg_at(opcode, 3, 3), setflags: true }
}

/// The instruction that the opcode encodes as ADD (register), encoding T2.
#[allow(non_snake_case)]
pub open spec fn spec_decode_ADD_reg_t2(command: u16) -> Instruction {
    let opcode = command as u32;
    Instruction::ADD { rdn: spec_reg_split(opcode), rm: spec_reg_at(opcode, 3, 4) }
}

/// Decodes ADD (register), encoding T2.
#[allow(non_snake_case)]
pub fn decode_ADD_reg_t2(command: u16) -> (instruction: Instruction)
    ensures
        instruction == spec_decode_ADD_reg_t2(command),
{
    let opcode: u32 = command as u32;
    Instruction::ADD { rdn: reg_split(opcode), rm: reg_at(opcode, 3, 4) }
}

/// The instruction that the opcode encodes as CMP (register), encoding T2.
#[allow(non_snake_case)]
pub open spec fn spec_decode_CMP_reg_t2(command: u16) -> Instruction {
    let opcode = command as u32;
    Instruction::CMP { rn: spec_reg_split(opcode), rm: spec_reg_at(opcode, 3, 4) }
}

/// Decodes CMP (register), encoding T2.
#[allow(non_snake_case)]
pub fn decode_CMP_reg_t2(command: u16) -> (instruction: Instruction)
    ensures
        instruction == spec_decode_CMP_reg_t2(command),
{
    let opcode: u32 = command as u32;
    Instruction::CMP { rn: reg_split(opcode), rm: reg_at(opcode, 3, 4) }
}

/// The instruction that the opcode encodes as MOV (register), encoding T1.
#[allow(non_snake_case)]
pub open spec fn spec_decode_MOV_reg_t1(command: u16) -> Instruction {
    let opcode = command as u32;
    Instruction::MOV_reg {
        rd: spec_reg_split(opcode),
        rm: spec_reg_at(opcode, 3, 4),
        setflags: false,
    }
}

/// Decodes MOV (register), encoding T1.
#[allow(non_snake_case)]
pub fn decode_MOV_reg_t1(command: u16) -> (instruction: Instruction)
    ensures
        instruction == spec_decode_MOV_reg_t1(command),
{
    let opcode: u32 = command as u32;
    Instruction::MOV_reg { rd: reg_split(opcode), rm: reg_at(opcode, 3, 4), setflags: false }
}

/// The instruction that the opcode encodes as BX, encoding T1.
#[allow(non_snake_case)]
pub open spec fn spec_decode_BX_t1(command: u16) -> Instruction {
    let opcode = command as u32;
    Instruction::BX { rm: spec_reg_at(opcode, 3, 4) }
}

/// Decodes BX, encoding T1.
#[allow(non_snake_case)]
pub fn decode_BX_t1(command: u16) -> (instruction: Instruction)
    ensures
        instruction == spec_decode_BX_t1(command),
{
    let opcode: u32 = command as u32;
    Instruction::BX { rm: reg_at(opcode, 3, 4) }
}

/// The instruction that the opcode encodes as BLX (register), encoding T1.
#[allow(non_snake_case)]
pub open spec fn spec_decode_BLX_t1(command: u16) -> Instruction {
    let opcode = command as u32;
    Instruction::BLX { rm: spec_reg_at(opcode, 3, 4) }
}

/// Decodes BLX (register), encoding T1.
#[allow(non_snake_case)]
pub fn decode_BLX_t1(command: u16) -> (instruction: Instruction)
    ensures
        instruction == spec_decode_BLX_t1(command),
{
    let opcode: u32 = command as u32;
    Instruction::BLX { rm: reg_at(opcode, 3, 4) }
}

/// The instruction that the opcode encodes as LDR (literal), encoding T1.
#[allow(non_snake_case)]
pub open spec fn spec_decode_LDR_lit_t1(command: u16) -> Instruction {
    let opcode = command as u32;
    Instruction::LDR_lit { rt: spec_reg_at(opcode, 8, 3), imm32: spec_bits(opcode, 0, 8) << 2u32 }
}

/// Decodes LDR (literal), encoding T1.
#[allow(non_snake_case)]
pub fn decode_LDR_lit_t1(command: u16) -> (instruction: Instruction)
    ensures
        instruction == spec_decode_LDR_lit_t1(command),
{
    let opcode: u32 = command as u32;
    Instruction::LDR_lit { rt: reg_at(opcode, 8, 3), imm32: get_bits(opcode, 0, 8) << 2u32 }
}

/// The instruction that the opcode encodes as STR (register), encoding T1.
#[allow(non_snake_case)]
pub open spec fn spec_decode_STR_reg_t1(command: u16) -> Instruction {
    let opcode = command as u32;
    Instruction::STR_reg {
        rt: spec_reg_at(opcode, 0, 3),
        rn: spec_reg_at(opcode, 3, 3),
        rm: spec_reg_at(opcode, 6, 3),
    }
}

/// Decodes STR (register), encoding T1.
#[allow(non_snake_case)]
pub fn decode_STR_reg_t1(command: u16) -> (instruction: Instruction)
    ensures
        instruction == spec_decode_STR_reg_t1(command),
{
    let opcode: u32 = command as u32;
    Instruction::STR_reg {
        rt: reg_at(opcode, 0, 3),
        rn: reg_at(opcode, 3, 3),
        rm: reg_at(opcode, 6, 3),
    }
}

/// The instruction that the opcode encodes as STRH (register), encoding T1.
#[allow(non_snake_case)]
pub open spec fn spec_decode_STRH_reg_t1(command: u16) -> Instruction {
    let opcode = command as u32;
    Instruction::STRH_reg {
        rt: spec_reg_at(opcode, 0, 3),
        rn: spec_reg_at(opcode, 3, 3),
        rm: spec_reg_at(opcode, 6, 3),
    }
}

/// Decodes STRH (register), encoding T1.
#[allow(non_snake_case)]
pub fn decode_STRH_reg_t1(command: u16) -> (instruction: Instruction)
    ensures
        instruction == spec_decode_STRH_reg_t1(command),
{
    let opcode: u32 = command as u32;
    Instruction::STRH_reg {
        rt: reg_at(opcode, 0, 3),
        rn: reg_at(opcode, 3, 3),
        rm: reg_at(opcode, 6, 3),
    }
}

/// The instruction that the opcode encodes as STRB (register), encoding T1.
#[allow(non_snake_case)]
pub open spec fn spec_decode_STRB_reg_t1(command: u16) -> Instruction {
    let opcode = command as u32;
    Instruction::STRB_reg {
        rt: spec_reg_at(opcode, 0, 3),
        rn: spec_reg_at(opcode, 3, 3),
        rm: spec_reg_at(opcode, 6, 3),
    }
}

/// Decodes STRB (register), encoding T1.
#[allow(non_snake_case)]
pub fn decode_STRB_reg_t1(command: u16) -> (instruction: Instruction)
    ensures
        instruction == spec_decode_STRB_reg_t1(command),
{
    let opcode: u32 = command as u32;
    Instruction::STRB_reg {
        rt: reg_at(opcode, 0, 3),
        rn: reg_at(opcode, 3, 3),
        rm: reg_at(opcode, 6, 3),
    }
}

/// The instruction that the opcode encodes as LDRSB (register), encoding T1.
#[allow(non_snake_case)]
pub open spec fn spec_decode_LDRSB_reg_t1(command: u16) -> Instruction {
    let opcode = command as u32;
    Instruction::LDRSB_reg {
        rt: spec_reg_at(opcode, 0, 3),
        rn: spec_reg_at(opcode, 3, 3),
        rm: spec_reg_at(opcode, 6, 3),
    }
}

/// Decodes LDRSB (register), encoding T1.
#[allow(non_snake_case)]
pub fn decode_LDRSB_reg_t1(command: u16) -> (instruction: Instruction)
    ensures
        instruction == spec_decode_LDRSB_reg_t1(command),
{
    let opcode: u32 = command as u32;
    Instruction::LDRSB_reg {
        rt: reg_at(opcode, 0, 3),
        rn: reg_at(opcode, 3, 3),
        rm: reg_at(opcode, 6, 3),
    }
}

/// The instruction that the opcode encodes as LDR (register), encoding T1.
#[allow(non_snake_case)]
pub open spec fn spec_decode_LDR_reg_t1(command: u16) -> Instruction {
    let opcode = command as u32;
    Instruction::LDR_reg {
        rt: spec_reg_at(opcode, 0, 3),
        rn: spec_reg_at(opcode, 3, 3),
        rm: spec_reg_at(opcode, 6, 3),
    }
}

/// Decodes LDR (register), encoding T1.
#[allow(non_snake_case)]
pub fn decode_LDR_reg_t1(command: u16) -> (instruction: Instruction)
    ensures
        instruction == spec_decode_LDR_reg_t1(command),
{
    let opcode: u32 = command as u32;
    Instruction::LDR_reg {
        rt: reg_at(opcode, 0, 3),
        rn: reg_at(opcode, 3, 3),
        rm: reg_at(opcode, 6, 3),
    }
}

/// The instruction that the opcode encodes as LDRH (register), encoding T1.
#[allow(non_snake_case)]
pub open spec fn spec_decode_LDRH_reg_t1(command: u16) -> Instruction {
    let opcode = command as u32;
    Instruction::LDRH_reg {
        rt: spec_reg_at(opcode, 0, 3),
        rn: spec_reg_at(opcode, 3, 3),
        rm: spec_reg_at(opcode, 6, 3),
    }
}

/// Decodes LDRH (register), encoding T1.
#[allow(non_snake_case)]
pub fn decode_LDRH_reg_t1(command: u16) -> (instruction: Instruction)
    ensures
        instruction == spec_decode_LDRH_reg_t1(command),
{
    let opcode: u32 = command as u32;
    Instruction::LDRH_reg {
        rt: reg_at(opcode, 0, 3),
        rn: reg_at(opcode, 3, 3),
        rm: reg_at(opcode, 6, 3),
    }
}

/// The instruction that the opcode encodes as LDRB (register), encoding T1.
#[allow(non_snake_case)]
pub open spec fn spec_decode_LDRB_reg_t1(command: u16) -> Instruction {
    let opcode = command as u32;
    Instruction::LDRB_reg {
        rt: spec_reg_at(opcode, 0, 3),
        rn: spec_reg_at(opcode, 3, 3),
        rm: spec_reg_at(opcode, 6, 3),
    }
}

/// Decodes LDRB (register), encoding T1.
#[allow(non_snake_case)]
pub fn decode_LDRB_reg_t1(command: u16) -> (instruction: Instruction)
    ensures
        instruction == spec_decode_LDRB_reg_t1(command),
{
    let opcode: u32 = command as u32;
    Instruction::LDRB_reg {
        rt: reg_at(opcode, 0, 3),
        rn: reg_at(opcode, 3, 3),
        rm: reg_at(opcode, 6, 3),
    }
}

/// The instruction that the opcode encodes as LDRSH (register), encoding T1.
#[allow(non_snake_case)]
pub open spec fn spec_decode_LDRSH_reg_t1(command: u16) -> Instruction {
    let opcode = command as u32;
    Instruction::LDRSH_reg {
        rt: spec_reg_at(opcode, 0, 3),
        rn: spec_reg_at(opcode, 3, 3),
        rm: spec_reg_at(opcode, 6, 3),
    }
}

/// Decodes LDRSH (register), encoding T1.
#[allow(non_snake_case)]
pub fn decode_LDRSH_reg_t1(command: u16) -> (instruction: Instruction)
    ensures
        instruction == spec_decode_LDRSH_reg_t1(command),
{
    let opcode: u32 = command as u32;
    Instruction::LDRSH_reg {
        rt: reg_at(opcode, 0, 3),
        rn: reg_at(opcode, 3, 3),
        rm: reg_at(opcode, 6, 3),
    }
}

/// The instruction that the opcode encodes as STR (immediate), encoding T1.
#[allow(non_snake_case)]
pub open spec fn spec_decode_STR_imm_t1(command: u16) -> Instruction {
    let opcode = command as u32;
    Instruction::STR_imm {
        rt: spec_reg_at(opcode, 0, 3),
        rn: spec_reg_at(opcode, 3, 3),
        imm32: spec_bits(opcode, 6, 11) << 2u32,
    }
}

/// Decodes STR (immediate), encoding T1.
#[allow(non_snake_case)]
pub fn decode_STR_imm_t1(command: u16) -> (instruction: Instruction)
    ensures
        instruction == spec_decode_STR_imm_t1(command),
{
    let opcode: u32 = command as u32;
    Instruction::STR_imm {
        rt: reg_at(opcode, 0, 3),
        rn: reg_at(opcode, 3, 3),
        imm32: get_bits(opcode, 6, 11) << 2u32,
    }
}

/// The instruction that the opcode encodes as LDR (immediate), encoding T1.
#[allow(non_snake_case)]
pub open spec fn spec_decode_LDR_imm_t1(command: u16) -> Instruction {
    let opcode = command as u32;
    Instruction::LDR_imm {
        rt: spec_reg_at(opcode, 0, 3),
        rn: spec_reg_at(opcode, 3, 3),
        imm32: spec_bits(opcode, 6, 11) << 2u32,
    }
}

/// Decodes LDR (immediate), encoding T1.
#[allow(non_snake_case)]
pub fn decode_LDR_imm_t1(command: u16) -> (instruction: Instruction)
    ensures
        instruction == spec_decode_LDR_imm_t1(command),
{
    let opcode: u32 = command as u32;
    Instruction::LDR_imm {
        rt: reg_at(opcode, 0, 3),
        rn: reg_at(opcode, 3, 3),
        imm32: get_bits(opcode, 6, 11) << 2u32,
    }
}

/// The instruction that the opcode encodes as STRB (immediate), encoding T1.
#[allow(non_snake_case)]
pub open spec fn spec_decode_STRB_imm_t1(command: u16) -> Instruction {
    let opcode = command as u32;
    Instruction::STRB_imm {
        rt: spec_reg_at(opcode, 0, 3),
        rn: spec_reg_at(opcode, 3, 3),
        imm32: spec_bits(opcode, 6, 11),
    }
}

/// Decodes STRB (immediate), encoding T1.
#[allow(non_snake_case)]
pub fn decode_STRB_imm_t1(command: u16) -> (instruction: Instruction)
    ensures
        instruction == spec_decode_STRB_imm_t1(command),
{
    let opcode: u32 = command as u32;
    Instruction::STRB_imm {
        rt: reg_at(opcode, 0, 3),
        rn: reg_at(opcode, 3, 3),
        imm32: get_bits(opcode, 6, 11),
    }
}

/// The instruction that the opcode encodes as LDRB (immediate), encoding T1.
#[allow(non_snake_case)]
pub open spec fn spec_decode_LDRB_imm_t1(command: u16) -> Instruction {
    let opcode = command as u32;
    Instruction::LDRB_imm {
        rt: spec_reg_at(opcode, 0, 3),
        rn: spec_reg_at(opcode, 3, 3),
        imm32: spec_bits(opcode, 6, 11),
    }
}

/// Decodes LDRB (immediate), encoding T1.
#[allow(non_snake_case)]
pub fn decode_LDRB_imm_t1(command: u16) -> (instruction: Instruction)
    ensures
        instruction == spec_decode_LDRB_imm_t1(command),
{
    let opcode: u32 = command as u32;
    Instruction::LDRB_imm {
        rt: reg_at(opcode, 0, 3),
        rn: reg_at(opcode, 3, 3),
        imm32: get_bits(opcode, 6, 11),
    }
}

/// The instruction that the opcode encodes as STRH (immediate), encoding T1.
#[allow(non_snake_case)]
pub open spec fn spec_decode_STRH_imm_t1(command: u16) -> Instruction {
    let opcode = command as u32;
    Instruction::STRH_imm {
        rt: spec_reg_at(opcode, 0, 3),
        rn: spec_reg_at(opcode, 3, 3),
        imm32: spec_bits(opcode, 6, 11) << 1u32,
    }
}

/// Decodes STRH (immediate), encoding T1.
#[allow(non_snake_case)]
pub fn decode_STRH_imm_t1(command: u16) -> (instruction: Instruction)
    ensures
        instruction == spec_decode_STRH_imm_t1(command),
{
    let opcode: u32 = command as u32;
    Instruction::STRH_imm {
        rt: reg_at(opcode, 0, 3),
        rn: reg_at(opcode, 3, 3),
        imm32: get_bits(opcode, 6, 11) << 1u32,
    }
}

/// The instruction that the opcode encodes as LDRH (immediate), encoding T1.
#[allow(non_snake_case)]
pub open spec fn spec_decode_LDRH_imm_t1(command: u16) -> Instruction {
    let opcode = command as u32;
    Instruction::LDRH_imm {
        rt: spec_reg_at(opcode, 0, 3),
        rn: spec_reg_at(opcode, 3, 3),
        imm32: spec_bits(opcode, 6, 11) << 1u32,
    }
}

/// Decodes LDRH (immediate), encoding T1.
#[allow(non_snake_case)]
pub fn decode_LDRH_imm_t1(command: u16) -> (instruction: Instruction)
    ensures
        instruction == spec_decode_LDRH_imm_t1(command),
{
    let opcode: u32 = command as u32;
    Instruction::LDRH_imm {
        rt: reg_at(opcode, 0, 3),
        rn: reg_at(opcode, 3, 3),
        imm32: get_bits(opcode, 6, 11) << 1u32,
    }
}

/// The instruction that the opcode encodes as STR (SP-relative), encoding T2.
#[allow(non_snake_case)]
pub open spec fn spec_decode_STR_imm_t2(command: u16) -> Instruction {
    let opcode = command as u32;
    Instruction::STR_imm {
        rt: spec_reg_at(opcode, 8, 3),
        rn: Reg::SP,
        imm32: spec_bits(opcode, 0, 8) << 2u32,
    }
}

/// Decodes STR (SP-relative), encoding T2.
#[allow(non_snake_case)]
pub fn decode_STR_imm_t2(command: u16) -> (instruction: Instruction)
    ensures
        instruction == spec_decode_STR_imm_t2(command),
{
    let opcode: u32 = command as u32;
    Instruction::STR_imm {
        rt: reg_at(opcode, 8, 3),
        rn: Reg::SP,
        imm32: get_bits(opcode, 0, 8) << 2u32,
    }
}

/// The instruction that the opcode encodes as LDR (SP-relative), encoding T2.
#[allow(non_snake_case)]
pub open spec fn spec_decode_LDR_imm_t2(command: u16) -> Instruction {
    let opcode = command as u32;
    Instruction::LDR_imm {
        rt: spec_reg_at(opcode, 8, 3),
        rn: Reg::SP,
        imm32: spec_bits(opcode, 0, 8) << 2u32,
    }
}

/// Decodes LDR (SP-relative), encoding T2.
#[allow(non_snake_case)]
pub fn decode_LDR_imm_t2(command: u16) -> (instruction: Instruction)
    ensures
        instruction == spec_decode_LDR_imm_t2(command),
{
    let opcode: u32 = command as u32;
    Instruction::LDR_imm {
        rt: reg_at(opcode, 8, 3),
        rn: Reg::SP,
        imm32: get_bits(opcode, 0, 8) << 2u32,
    }
}

/// The instruction that the opcode encodes as ADR, encoding T1: the offset is the 8-bit
/// immediate times four.
#[allow(non_snake_case)]
pub open spec fn spec_decode_ADR_t1(command: u16) -> Instruction {
    let opcode = command as u32;
    Instruction::ADR {
        rd: spec_reg_at(opcode, 8, 3),
        imm32: spec_bits(opcode, 0, 8) << 2u32,
        thumb32: false,
    }
}

/// Decodes ADR, encoding T1: the offset is the 8-bit immediate times four.
#[allow(non_snake_case)]
pub fn decode_ADR_t1(command: u16) -> (instruction: Instruction)
    ensures
        instruction == spec_decode_ADR_t1(command),
{
    let opcode: u32 = command as u32;
    Instruction::ADR {
        rd: reg_at(opcode, 8, 3),
        imm32: get_bits(opcode, 0, 8) << 2u32,
        thumb32: false,
    }
}

/// The instruction that the opcode encodes as ADD (SP plus immediate), encoding T1.
#[allow(non_snake_case)]
pub open spec fn spec_decode_ADD_SP_imm_t1(command: u16) -> Instruction {
    let opcode = command as u32;
    Instruction::ADD_imm {
        rd: spec_reg_at(opcode, 8, 3),
        rn: Reg::SP,
        imm32: spec_bits(opcode, 0, 8) << 2u32,
        setflags: false,
    }
}

/// Decodes ADD (SP plus immediate), encoding T1.
#[allow(non_snake_case)]
pub fn decode_ADD_SP_imm_t1(command: u16) -> (instruction: Instruction)
    ensures
        instruction == spec_decode_ADD_SP_imm_t1(command),
{
    let opcode: u32 = command as u32;
    Instruction::ADD_imm {
        rd: reg_at(opcode, 8, 3),
        rn: Reg::SP,
        imm32: get_bits(opcode, 0, 8) << 2u32,
        setflags: false,
    }
}

/// The instruction that the opcode encodes as ADD (SP plus immediate), encoding T2.
#[allow(non_snake_case)]
pub open spec fn spec_decode_ADD_SP_imm_t2(command: u16) -> Instruction {
    let opcode = command as u32;
    Instruction::ADD_imm {
        rd: Reg::SP,
        rn: Reg::SP,
        imm32: spec_bits(opcode, 0, 7) << 2u32,
        setflags: false,
    }
}

/// Decodes ADD (SP plus immediate), encoding T2.
#[allow(non_snake_case)]
pub fn decode_ADD_SP_imm_t2(command: u16) -> (instruction: Instruction)
    ensures
        instruction == spec_decode_ADD_SP_imm_t2(command),
{
    let opcode: u32 = command as u32;
    Instruction::ADD_imm {
        rd: Reg::SP,
        rn: Reg::SP,
        imm32: get_bits(opcode, 0, 7) << 2u32,
        setflags: false,
    }
}

/// The instruction that the opcode encodes as SUB (SP minus immediate), encoding T1.
#[allow(non_snake_case)]
pub open spec fn spec_decode_SUB_SP_imm_t1(command: u16) -> Instruction {
    let opcode = command as u32;
    Instruction::SUB_SP_imm { imm32: spec_bits(opcode, 0, 7) << 2u32 }
}

/// Decodes SUB (SP minus immediate), encoding T1.
#[allow(non_snake_case)]
pub fn decode_SUB_SP_imm_t1(command: u16) -> (instruction: Instruction)
    ensures
        instruction == spec_decode_SUB_SP_imm_t1(command),
{
    let opcode: u32 = command as u32;
    Instruction::SUB_SP_imm { imm32: get_bits(opcode, 0, 7) << 2u32 }
}

/// The instruction that the opcode encodes as SXTH, encoding T1.
#[allow(non_snake_case)]
pub open spec fn spec_decode_SXTH_t1(command: u16) -> Instruction {
    let opcode = command as u32;
    Instruction::SXTH { rd: spec_reg_at(opcode, 0, 3), rm: spec_reg_at(opcode, 3, 3) }
}

/// Decodes SXTH, encoding T1.
#[allow(non_snake_case)]
pub fn decode_SXTH_t1(command: u16) -> (instruction: Instruction)
    ensures
        instruction == spec_decode_SXTH_t1(command),
{
    let opcode: u32 = command as u32;
    Instruction::SXTH { rd: reg_at(opcode, 0, 3), rm: reg_at(opcode, 3, 3) }
}

/// The instruction that the opcode encodes as SXTB, encoding T1.
#[allow(non_snake_case)]
pub open spec fn spec_decode_SXTB_t1(command: u16) -> Instruction {
    let opcode = command as u32;
    Instruction::SXTB { rd: spec_reg_at(opcode, 0, 3), rm: spec_reg_at(opcode, 3, 3) }
}

/// Decodes SXTB, encoding T1.
#[allow(non_snake_case)]
pub fn decode_SXTB_t1(command: u16) -> (instruction: Instruction)
    ensures
        instruction == spec_decode_SXTB_t1(command),
{
    let opcode: u32 = command as u32;
    Instruction::SXTB { rd: reg_at(opcode, 0, 3), rm: reg_at(opcode, 3, 3) }
}

/// The instruction that the opcode encodes as UXTH, encoding T1.
#[allow(non_snake_case)]
pub open spec fn spec_decode_UXTH_t1(command: u16) -> Instruction {
    let opcode = command as u32;
    Instruction::UXTH { rd: spec_reg_at(opcode, 0, 3), rm: spec_reg_at(opcode, 3, 3) }
}

/// Decodes UXTH, encoding T1.
#[allow(non_snake_case)]
pub fn decode_UXTH_t1(command: u16) -> (instruction: Instruction)
    ensures
        instruction == spec_decode_UXTH_t1(command),
{
    let opcode: u32 = command as u32;
    Instruction::UXTH { rd: reg_at(opcode, 0, 3), rm: reg_at(opcode, 3, 3) }
}

/// The instruction that the opcode encodes as UXTB, encoding T1.
#[allow(non_snake_case)]
pub open spec fn spec_decode_UXTB_t1(command: u16) -> Instruction {
    let opcode = command as u32;
    Instruction::UXTB { rd: spec_reg_at(opcode, 0, 3), rm: spec_reg_at(opcode, 3, 3) }
}

/// Decodes UXTB, encoding T1.
#[allow(non_snake_case)]
pub fn decode_UXTB_t1(command: u16) -> (instruction: Instruction)
    ensures
        instruction == spec_decode_UXTB_t1(command),
{
    let opcode: u32 = command as u32;
    Instruction::UXTB { rd: reg_at(opcode, 0, 3), rm: reg_at(opcode, 3, 3) }
}

/// The instruction that the opcode encodes as PUSH, encoding T1: R0 to R7 and, with bit 8, LR.
#[allow(non_snake_case)]
pub open spec fn spec_decode_PUSH_t1(command: u16) -> Instruction {
    let opcode = command as u32;
    Instruction::PUSH {
        registers: ((spec_bits(opcode, 8, 9) << 14u32) | spec_bits(opcode, 0, 8)) as u16,
    }
}

/// Decodes PUSH, encoding T1: R0 to R7 and, with bit 8, LR.
#[allow(non_snake_case)]
pub fn decode_PUSH_t1(command: u16) -> (instruction: Instruction)
    ensures
        instruction == spec_decode_PUSH_t1(command),
{
    let opcode: u32 = command as u32;
    Instruction::PUSH {
        registers: ((get_bits(opcode, 8, 9) << 14u32) | get_bits(opcode, 0, 8)) as u16,
    }
}

/// The instruction that the opcode encodes as CPS, encoding T1.
#[allow(non_snake_case)]
pub open spec fn spec_decode_CPS_t1(command: u16) -> Instruction {
    let opcode = command as u32;
    Instruction::CPS { im: spec_bits(opcode, 4, 5) == 1 }
}

/// Decodes CPS, encoding T1.
#[allow(non_snake_case)]
pub fn decode_CPS_t1(command: u16) -> (instruction: Instruction)
    ensures
        instruction == spec_decode_CPS_t1(command),
{
    let opcode: u32 = command as u32;
    Instruction::CPS { im: get_bits(opcode, 4, 5) == 1 }
}

/// The instruction that the opcode encodes as REV, encoding T1.
#[allow(non_snake_case)]
pub open spec fn spec_decode_REV_t1(command: u16) -> Instruction {
    let opcode = command as u32;
    Instruction::REV { rd: spec_reg_at(opcode, 0, 3), rm: spec_reg_at(opcode, 3, 3) }
}

/// Decodes REV, encoding T1.
#[allow(non_snake_case)]
pub fn decode_REV_t1(command: u16) -> (instruction: Instruction)
    ensures
        instruction == spec_decode_REV_t1(command),
{
    let opcode: u32 = command as u32;
    Instruction::REV { rd: reg_at(opcode, 0, 3), rm: reg_at(opcode, 3, 3) }
}

/// The instruction that the opcode encodes as REV16, encoding T1.
#[allow(non_snake_case)]
pub open spec fn spec_decode_REV16_t1(command: u16) -> Instruction {
    let opcode = command as u32;
    Instruction::REV16 { rd: spec_reg_at(opcode, 0, 3), rm: spec_reg_at(opcode, 3, 3) }
}

/// Decodes REV16, encoding T1.
#[allow(non_snake_case)]
pub fn decode_REV16_t1(command: u16) -> (instruction: Instruction)
    ensures
        instruction == spec_decode_REV16_t1(command),
{
    let opcode: u32 = command as u32;
    Instruction::REV16 { rd: reg_at(opcode, 0, 3), rm: reg_at(opcode, 3, 3) }
}

/// The instruction that the opcode encodes as REVSH, encoding T1.
#[allow(non_snake_case)]
pub open spec fn spec_decode_REVSH_t1(command: u16) -> Instruction {
    let opcode = command as u32;
    Instruction::REVSH { rd: spec_reg_at(opcode, 0, 3), rm: spec_reg_at(opcode, 3, 3) }
}

/// Decodes REVSH, encoding T1.
#[allow(non_snake_case)]
pub fn decode_REVSH_t1(command: u16) -> (instruction: Instruction)
    ensures
        instruction == spec_decode_REVSH_t1(command),
{
    let opcode: u32 = command as u32;
    Instruction::REVSH { rd: reg_at(opcode, 0, 3), rm: reg_at(opcode, 3, 3) }
}

/// The instruction that the opcode encodes as POP, encoding T1: R0 to R7 and, with bit 8, PC.
#[allow(non_snake_case)]
pub open spec fn spec_decode_POP_t1(command: u16) -> Instruction {
    let opcode = command as u32;
    Instruction::POP {
        registers: ((spec_bits(opcode, 8, 9) << 15u32) | spec_bits(opcode, 0, 8)) as u16,
    }
}

/// Decodes POP, encoding T1: R0 to R7 and, with bit 8, PC.
#[allow(non_snake_case)]
pub fn decode_POP_t1(command: u16) -> (instruction: Instruction)
    ensures
        instruction == spec_decode_POP_t1(command),
{
    let opcode: u32 = command as u32;
    Instruction::POP {
        registers: ((get_bits(opcode, 8, 9) << 15u32) | get_bits(opcode, 0, 8)) as u16,
    }
}

/// The instruction that the opcode encodes as BKPT, encoding T1.
#[allow(non_snake_case)]
pub open spec fn spec_decode_BKPT_t1(command: u16) -> Instruction {
    let opcode = command as u32;
    Instruction::BKPT { imm32: spec_bits(opcode, 0, 8) }
}

/// Decodes BKPT, encoding T1.
#[allow(non_snake_case)]
pub fn decode_BKPT_t1(command: u16) -> (instruction: Instruction)
    ensures
        instruction == spec_decode_BKPT_t1(command),
{
    let opcode: u32 = command as u32;
    Instruction::BKPT { imm32: get_bits(opcode, 0, 8) }
}

/// The instruction that the opcode encodes as NOP, encoding T1.
#[allow(non_snake_case)]
pub open spec fn spec_decode_NOP_t1(command: u16) -> Instruction {
    Instruction::NOP
}

/// Decodes NOP, encoding T1.
#[allow(non_snake_case)]
pub fn decode_NOP_t1(command: u16) -> (instruction: Instruction)
    ensures
        instruction == spec_decode_NOP_t1(command),
{
    Instruction::NOP
}

/// The instruction that the opcode encodes as YIELD, encoding T1.
#[allow(non_snake_case)]
pub open spec fn spec_decode_YIELD_t1(command: u16) -> Instruction {
    Instruction::YIELD
}

/// Decodes YIELD, encoding T1.
#[allow(non_snake_case)]
pub fn decode_YIELD_t1(command: u16) -> (instruction: Instruction)
    ensures
        instruction == spec_decode_YIELD_t1(command),
{
    Instruction::YIELD
}

/// The instruction that the opcode encodes as WFE, encoding T1.
#[allow(non_snake_case)]
pub open spec fn spec_decode_WFE_t1(command: u16) -> Instruction {
    Instruction::WFE
}

/// Decodes WFE, encoding T1.
#[allow(non_snake_case)]
pub fn decode_WFE_t1(command: u16) -> (instruction: Instruction)
    ensures
        instruction == spec_decode_WFE_t1(command),
{
    Instruction::WFE
}

/// The instruction that the opcode encodes as WFI, encoding T1.
#[allow(non_snake_case)]
pub open spec fn spec_decode_WFI_t1(command: u16) -> Instruction {
    Instruction::WFI
}

/// Decodes WFI, encoding T1.
#[allow(non_snake_case)]
pub fn decode_WFI_t1(command: u16) -> (instruction: Instruction)
    ensures
        instruction == spec_decode_WFI_t1(command),
{
    Instruction::WFI
}

/// The instruction that the opcode encodes as SEV, encoding T1.
#[allow(non_snake_case)]
pub open spec fn spec_decode_SEV_t1(command: u16) -> Instruction {
    Instruction::SEV
}

/// Decodes SEV, encoding T1.
#[allow(non_snake_case)]
pub fn decode_SEV_t1(command: u16) -> (instruction: Instruction)
    ensures
        instruction == spec_decode_SEV_t1(command),
{
    Instruction::SEV
}

/// The instruction that the opcode encodes as STM, encoding T1.
#[allow(non_snake_case)]
pub open spec fn spec_decode_STM_t1(command: u16) -> Instruction {
    let opcode = command as u32;
    Instruction::STM { rn: spec_reg_at(opcode, 8, 3), registers: spec_bits(opcode, 0, 8) as u16 }
}

/// Decodes STM, encoding T1.
#[allow(non_snake_case)]
pub fn decode_STM_t1(command: u16) -> (instruction: Instruction)
    ensures
        instruction == spec_decode_STM_t1(command),
{
    let opcode: u32 = command as u32;
    Instruction::STM { rn: reg_at(opcode, 8, 3), registers: get_bits(opcode, 0, 8) as u16 }
}

/// The instruction that the opcode encodes as LDM, encoding T1.
#[allow(non_snake_case)]
pub open spec fn spec_decode_LDM_t1(command: u16) -> Instruction {
    let opcode = command as u32;
    Instruction::LDM { rn: spec_reg_at(opcode, 8, 3), registers: spec_bits(opcode, 0, 8) as u16 }
}

/// Decodes LDM, encoding T1.
#[allow(non_snake_case)]
pub fn decode_LDM_t1(command: u16) -> (instruction: Instruction)
    ensures
        instruction == spec_decode_LDM_t1(command),
{
    let opcode: u32 = command as u32;
    Instruction::LDM { rn: reg_at(opcode, 8, 3), registers: get_bits(opcode, 0, 8) as u16 }
}

/// The instruction that the opcode encodes as UDF, encoding T1.
#[allow(non_snake_case)]
pub open spec fn spec_decode_UDF_t1(command: u16) -> Instruction {
    let opcode = command as u32;
    Instruction::UDF {
        imm32: spec_bits(opcode, 0, 8),
        opcode: ThumbCode::Thumb16 { opcode: command },
    }
}

/// Decodes UDF, encoding T1.
#[allow(non_snake_case)]
pub fn decode_UDF_t1(command: u16) -> (instruction: Instruction)
    ensures
        instruction == spec_decode_UDF_t1(command),
{
    let opcode: u32 = command as u32;
    Instruction::UDF {
        imm32: get_bits(opcode, 0, 8),
        opcode: ThumbCode::Thumb16 { opcode: command },
    }
}

/// The instruction that the opcode encodes as SVC, encoding T1.
#[allow(non_snake_case)]
pub open spec fn spec_decode_SVC_t1(command: u16) -> Instruction {
    let opcode = command as u32;
    Instruction::SVC { imm32: spec_bits(opcode, 0, 8) }
}

/// Decodes SVC, encoding T1.
#[allow(non_snake_case)]
pub fn decode_SVC_t1(command: u16) -> (instruction: Instruction)
    ensures
        instruction == spec_decode_SVC_t1(command),
{
    let opcode: u32 = command as u32;
    Instruction::SVC { imm32: get_bits(opcode, 0, 8) }
}

/// The instruction that the opcode encodes as B (conditional), encoding T1: the offset is the
/// signed 8-bit immediate times two.
#[allow(non_snake_case)]
pub open spec fn spec_decode_B_t1(command: u16) -> Instruction {
    let opcode = command as u32;
    Instruction::B {
        cond: spec_condition_at(opcode, 8),
        imm32: spec_sign_extend(spec_bits(opcode, 0, 8) << 1u32, 9),
    }
}

/// Decodes B (conditional), encoding T1: the offset is the signed 8-bit immediate times two.
#[allow(non_snake_case)]
pub fn decode_B_t1(command: u16) -> (instruction: Instruction)
    ensures
        instruction == spec_decode_B_t1(command),
{
    let opcode: u32 = command as u32;
    Instruction::B {
        cond: condition_at(opcode, 8),
        imm32: sign_extend(get_bits(opcode, 0, 8) << 1u32, 9),
    }
}

/// The instruction that the opcode encodes as B, encoding T2: the offset is the signed 11-bit
/// immediate times two.
#[allow(non_snake_case)]
pub open spec fn spec_decode_B_t2(command: u16) -> Instruction {
    let opcode = command as u32;
    Instruction::B {
        cond: Condition::AL,
        imm32: spec_sign_extend(spec_bits(opcode, 0, 11) << 1u32, 12),
    }
}

/// Decodes B, encoding T2: the offset is the signed 11-bit immediate times two.
#[allow(non_snake_case)]
pub fn decode_B_t2(command: u16) -> (instruction: Instruction)
    ensures
        instruction == spec_decode_B_t2(command),
{
    let opcode: u32 = command as u32;
    Instruction::B { cond: Condition::AL, imm32: sign_extend(get_bits(opcode, 0, 11) << 1u32, 12) }
}

} // verus!
