//! The instruction set model: one variant for each decoded instruction form.

use crate::condition::Condition;
use crate::register::Reg;
use crate::register::SpecialReg;
use crate::text::bare;
use crate::text::base_list;
use crate::text::branch;
use crate::text::four_regs;
use crate::text::from_special;
use crate::text::immediate;
use crate::text::mem_imm;
use crate::text::mem_reg;
use crate::text::one_reg;
use crate::text::reg_imm;
use crate::text::reg_list;
use crate::text::spec_bare;
use crate::text::spec_base_list;
use crate::text::spec_branch;
use crate::text::spec_four_regs;
use crate::text::spec_from_special;
use crate::text::spec_immediate;
use crate::text::spec_mem_imm;
use crate::text::spec_mem_reg;
use crate::text::spec_one_reg;
use crate::text::spec_reg_imm;
use crate::text::spec_reg_list;
use crate::text::spec_three_regs;
use crate::text::spec_to_special;
use crate::text::spec_two_regs;
use crate::text::spec_two_regs_imm;
use crate::text::three_regs;
use crate::text::to_special;
use crate::text::two_regs;
use crate::text::two_regs_imm;
use vstd::prelude::*;

verus! {

/// A fetched opcode, of one or two halfwords.
#[derive(Copy, Clone, Debug, PartialEq, Eq, Structural)]
pub enum ThumbCode {
    /// A 32-bit opcode: the first halfword in the high half.
    Thumb32 {
        /// The two halfwords.
        opcode: u32,
    },
    /// A 16-bit opcode.
    Thumb16 {
        /// The halfword.
        opcode: u16,
    },
}

/// A decoded instruction with the operands that executing it needs.
///
/// Register lists are 16-bit masks: bit `n` selects the register with number `n`.
#[allow(non_camel_case_types)]
#[allow(clippy::upper_case_acronyms)]
#[derive(Copy, Clone, Debug, PartialEq, Eq, Structural)]
pub enum Instruction {
    /// Add with carry, register
    ADC_reg { rd: Reg, rn: Reg, rm: Reg, setflags: bool },
    /// Add register to register, flags untouched
    ADD { rdn: Reg, rm: Reg },
    /// Add registers and set flags
    ADDS { rd: Reg, rn: Reg, rm: Reg },
    /// Add immediate
    ADD_imm { rd: Reg, rn: Reg, imm32: u32, setflags: bool },
    /// Form a PC-relative address
    ADR { rd: Reg, imm32: u32, thumb32: bool },
    /// Bitwise AND, register
    AND_reg { rd: Reg, rn: Reg, rm: Reg, setflags: bool },
    /// Arithmetic shift right by immediate
    ASR_imm { rd: Reg, rm: Reg, imm5: u8, setflags: bool },
    /// Arithmetic shift right by register
    ASR_reg { rd: Reg, rn: Reg, rm: Reg, setflags: bool },
    /// Branch, conditional or not
    B { cond: Condition, imm32: i32 },
    /// Bit clear, register
    BIC_reg { rd: Reg, rn: Reg, rm: Reg, setflags: bool },
    /// Breakpoint
    BKPT { imm32: u32 },
    /// Branch with link
    BL { imm32: i32 },
    /// Branch with link and exchange
    BLX { rm: Reg },
    /// Branch and exchange
    BX { rm: Reg },
    /// Compare negative, register
    CMN_reg { rn: Reg, rm: Reg },
    /// Compare with immediate
    CMP_imm { rn: Reg, imm32: u32 },
    /// Compare registers
    CMP { rn: Reg, rm: Reg },
    /// Change processor state: `im` set masks interrupts
    CPS { im: bool },
    /// Data memory barrier
    DMB,
    /// Data synchronization barrier
    DSB,
    /// Bitwise exclusive OR, register
    EOR_reg { rd: Reg, rn: Reg, rm: Reg, setflags: bool },
    /// Instruction synchronization barrier
    ISB,
    /// Load multiple registers, increment after
    LDM { rn: Reg, registers: u16 },
    /// Load word, immediate offset
    LDR_imm { rt: Reg, rn: Reg, imm32: u32 },
    /// Load word from the literal pool
    LDR_lit { rt: Reg, imm32: u32 },
    /// Load word, register offset
    LDR_reg { rt: Reg, rn: Reg, rm: Reg },
    /// Load byte, immediate offset
    LDRB_imm { rt: Reg, rn: Reg, imm32: u32 },
    /// Load byte, register offset
    LDRB_reg { rt: Reg, rn: Reg, rm: Reg },
    /// Load halfword, immediate offset
    LDRH_imm { rt: Reg, rn: Reg, imm32: u32 },
    /// Load halfword, register offset
    LDRH_reg { rt: Reg, rn: Reg, rm: Reg },
    /// Load signed byte, register offset
    LDRSB_reg { rt: Reg, rn: Reg, rm: Reg },
    /// Load signed halfword, register offset
    LDRSH_reg { rt: Reg, rn: Reg, rm: Reg },
    /// Logical shift left by immediate
    LSL_imm { rd: Reg, rm: Reg, imm5: u8, setflags: bool },
    /// Logical shift left by register
    LSL_reg { rd: Reg, rn: Reg, rm: Reg, setflags: bool },
    /// Logical shift right by immediate
    LSR_imm { rd: Reg, rm: Reg, imm5: u8, setflags: bool },
    /// Logical shift right by register
    LSR_reg { rd: Reg, rn: Reg, rm: Reg, setflags: bool },
    /// Move register
    MOV_reg { rd: Reg, rm: Reg, setflags: bool },
    /// Move immediate
    MOV_imm { rd: Reg, imm32: u32, setflags: bool },
    /// Move special register to register
    MRS { rd: Reg, spec_reg: SpecialReg },
    /// Move register to special register
    MSR_reg { rn: Reg, spec_reg: SpecialReg },
    /// Multiply
    MUL { rd: Reg, rn: Reg, rm: Reg, setflags: bool },
    /// Bitwise NOT, register
    MVN_reg { rd: Reg, rm: Reg, setflags: bool },
    /// No operation
    NOP,
    /// Bitwise OR, register
    ORR_reg { rd: Reg, rn: Reg, rm: Reg, setflags: bool },
    /// Pop registers from the stack
    POP { registers: u16 },
    /// Push registers to the stack
    PUSH { registers: u16 },
    /// Reverse the bytes of a word
    REV { rd: Reg, rm: Reg },
    /// Reverse the bytes of each halfword
    REV16 { rd: Reg, rm: Reg },
    /// Reverse the bytes of the low halfword and sign-extend
    REVSH { rd: Reg, rm: Reg },
    /// Rotate right by register
    ROR_reg { rd: Reg, rn: Reg, rm: Reg, setflags: bool },
    /// Reverse subtract from immediate
    RSB_imm { rd: Reg, rn: Reg, imm32: u32, setflags: bool },
    /// Subtract with carry, register
    SBC_reg { rd: Reg, rn: Reg, rm: Reg, setflags: bool },
    /// Send event
    SEV,
    /// Signed long multiply
    SMULL { rdlo: Reg, rdhi: Reg, rn: Reg, rm: Reg },
    /// Store multiple registers, increment after
    STM { rn: Reg, registers: u16 },
    /// Store word, immediate offset
    STR_imm { rt: Reg, rn: Reg, imm32: u32 },
    /// Store word, register offset
    STR_reg { rt: Reg, rn: Reg, rm: Reg },
    /// Store byte, immediate offset
    STRB_imm { rt: Reg, rn: Reg, imm32: u32 },
    /// Store byte, register offset
    STRB_reg { rt: Reg, rn: Reg, rm: Reg },
    /// Store halfword, immediate offset
    STRH_imm { rt: Reg, rn: Reg, imm32: u32 },
    /// Store halfword, register offset
    STRH_reg { rt: Reg, rn: Reg, rm: Reg },
    /// Subtract immediate
    SUB_imm { rd: Reg, rn: Reg, imm32: u32, setflags: bool },
    /// Subtract registers and set flags
    SUBS_reg { rd: Reg, rn: Reg, rm: Reg },
    /// Subtract immediate from the stack pointer
    SUB_SP_imm { imm32: u32 },
    /// Supervisor call
    SVC { imm32: u32 },
    /// Sign-extend byte
    SXTB { rd: Reg, rm: Reg },
    /// Sign-extend halfword
    SXTH { rd: Reg, rm: Reg },
    /// Test bits, register
    TST_reg { rn: Reg, rm: Reg },
    /// Permanently undefined
    UDF { imm32: u32, opcode: ThumbCode },
    /// Zero-extend byte
    UXTB { rd: Reg, rm: Reg },
    /// Zero-extend halfword
    UXTH { rd: Reg, rm: Reg },
    /// Wait for event
    WFE,
    /// Wait for interrupt
    WFI,
    /// Yield
    YIELD,
}

impl Instruction {
    /// The number of bytes that the instruction's encoding occupies.
    pub open spec fn spec_size(self) -> u32 {
        match self {
            Instruction::BL { .. } => 4,
            Instruction::MRS { .. } => 4,
            Instruction::MSR_reg { .. } => 4,
            Instruction::SMULL { .. } => 4,
            Instruction::DMB => 4,
            Instruction::DSB => 4,
            Instruction::ISB => 4,
            Instruction::ADR { thumb32, .. } => if thumb32 {
                4
            } else {
                2
            },
            Instruction::UDF { opcode, .. } => match opcode {
                ThumbCode::Thumb32 { .. } => 4,
                ThumbCode::Thumb16 { .. } => 2,
            },
            _ => 2,
        }
    }

    /// The number of bytes by which the PC advances past the instruction.
    pub fn size(&self) -> (bytes: u32)
        ensures
            bytes == self.spec_size(),
            bytes == 2 || bytes == 4,
    {
        match self {
            Instruction::BL { .. } => 4,
            Instruction::MRS { .. } => 4,
            Instruction::MSR_reg { .. } => 4,
            Instruction::SMULL { .. } => 4,
            Instruction::DMB => 4,
            Instruction::DSB => 4,
            Instruction::ISB => 4,
            Instruction::ADR { thumb32, .. } => if *thumb32 {
                4
            } else {
                2
            },
            Instruction::UDF { opcode, .. } => match opcode {
                ThumbCode::Thumb32 { .. } => 4,
                ThumbCode::Thumb16 { .. } => 2,
            },
            _ => 2,
        }
    }

    /// The text that the instruction is rendered as: the mnemonic, with `S`
    /// where the flags are set, then the operands, immediates in decimal.
    pub open spec fn spec_text(self) -> Seq<char> {
        match self {
            Instruction::ADC_reg { rd, rn, rm, setflags } => spec_three_regs(
                "ADC"@,
                setflags,
                rd,
                rn,
                rm,
            ),
            Instruction::ADD { rdn, rm } => spec_two_regs("ADD"@, false, rdn, rm),
            Instruction::ADDS { rd, rn, rm } => spec_three_regs("ADDS"@, false, rd, rn, rm),
            Instruction::ADD_imm { rd, rn, imm32, setflags } => spec_two_regs_imm(
                "ADD"@,
                setflags,
                rd,
                rn,
                imm32,
            ),
            Instruction::ADR { rd, imm32, thumb32: _ } => spec_reg_imm("ADR"@, false, rd, imm32),
            Instruction::AND_reg { rd, rn, rm, setflags } => spec_three_regs(
                "AND"@,
                setflags,
                rd,
                rn,
                rm,
            ),
            Instruction::ASR_imm { rd, rm, imm5, setflags } => spec_two_regs_imm(
                "ASR"@,
                setflags,
                rd,
                rm,
                imm5 as u32,
            ),
            Instruction::ASR_reg { rd, rn, rm, setflags } => spec_three_regs(
                "ASR"@,
                setflags,
                rd,
                rn,
                rm,
            ),
            Instruction::B { cond, imm32 } => spec_branch("B"@, cond, imm32),
            Instruction::BIC_reg { rd, rn, rm, setflags } => spec_three_regs(
                "BIC"@,
                setflags,
                rd,
                rn,
                rm,
            ),
            Instruction::BKPT { imm32 } => spec_immediate("BKPT"@, imm32),
            Instruction::BL { imm32 } => spec_branch("BL"@, Condition::AL, imm32),
            Instruction::BLX { rm } => spec_one_reg("BLX"@, rm),
            Instruction::BX { rm } => spec_one_reg("BX"@, rm),
            Instruction::CMN_reg { rn, rm } => spec_two_regs("CMN"@, false, rn, rm),
            Instruction::CMP_imm { rn, imm32 } => spec_reg_imm("CMP"@, false, rn, imm32),
            Instruction::CMP { rn, rm } => spec_two_regs("CMP"@, false, rn, rm),
            Instruction::CPS { im } => if im {
                spec_bare("CPSID"@)
            } else {
                spec_bare("CPSIE"@)
            },
            Instruction::DMB => spec_bare("DMB"@),
            Instruction::DSB => spec_bare("DSB"@),
            Instruction::EOR_reg { rd, rn, rm, setflags } => spec_three_regs(
                "EOR"@,
                setflags,
                rd,
                rn,
                rm,
            ),
            Instruction::ISB => spec_bare("ISB"@),
            Instruction::LDM { rn, registers } => spec_base_list("LDM"@, rn, registers),
            Instruction::LDR_imm { rt, rn, imm32 } => spec_mem_imm("LDR"@, rt, rn, imm32),
            Instruction::LDR_lit { rt, imm32 } => spec_mem_imm("LDR"@, rt, Reg::PC, imm32),
            Instruction::LDR_reg { rt, rn, rm } => spec_mem_reg("LDR"@, rt, rn, rm),
            Instruction::LDRB_imm { rt, rn, imm32 } => spec_mem_imm("LDRB"@, rt, rn, imm32),
            Instruction::LDRB_reg { rt, rn, rm } => spec_mem_reg("LDRB"@, rt, rn, rm),
            Instruction::LDRH_imm { rt, rn, imm32 } => spec_mem_imm("LDRH"@, rt, rn, imm32),
            Instruction::LDRH_reg { rt, rn, rm } => spec_mem_reg("LDRH"@, rt, rn, rm),
            Instruction::LDRSB_reg { rt, rn, rm } => spec_mem_reg("LDRSB"@, rt, rn, rm),
            Instruction::LDRSH_reg { rt, rn, rm } => spec_mem_reg("LDRSH"@, rt, rn, rm),
            Instruction::LSL_imm { rd, rm, imm5, setflags } => spec_two_regs_imm(
                "LSL"@,
                setflags,
                rd,
                rm,
                imm5 as u32,
            ),
            Instruction::LSL_reg { rd, rn, rm, setflags } => spec_three_regs(
                "LSL"@,
                setflags,
                rd,
                rn,
                rm,
            ),
            Instruction::LSR_imm { rd, rm, imm5, setflags } => spec_two_regs_imm(
                "LSR"@,
                setflags,
                rd,
                rm,
                imm5 as u32,
            ),
            Instruction::LSR_reg { rd, rn, rm, setflags } => spec_three_regs(
                "LSR"@,
                setflags,
                rd,
                rn,
                rm,
            ),
            Instruction::MOV_reg { rd, rm, setflags } => spec_two_regs("MOV"@, setflags, rd, rm),
            Instruction::MOV_imm { rd, imm32, setflags } => spec_reg_imm(
                "MOV"@,
                setflags,
                rd,
                imm32,
            ),
            Instruction::MRS { rd, spec_reg } => spec_from_special("MRS"@, rd, spec_reg),
            Instruction::MSR_reg { rn, spec_reg } => spec_to_special("MSR"@, spec_reg, rn),
            Instruction::MUL { rd, rn, rm, setflags } => spec_three_regs(
                "MUL"@,
                setflags,
                rd,
                rn,
                rm,
            ),
            Instruction::MVN_reg { rd, rm, setflags } => spec_two_regs("MVN"@, setflags, rd, rm),
            Instruction::NOP => spec_bare("NOP"@),
            Instruction::ORR_reg { rd, rn, rm, setflags } => spec_three_regs(
                "ORR"@,
                setflags,
                rd,
                rn,
                rm,
            ),
            Instruction::POP { registers } => spec_reg_list("POP"@, registers),
            Instruction::PUSH { registers } => spec_reg_list("PUSH"@, registers),
            Instruction::REV { rd, rm } => spec_two_regs("REV"@, false, rd, rm),
            Instruction::REV16 { rd, rm } => spec_two_regs("REV16"@, false, rd, rm),
            Instruction::REVSH { rd, rm } => spec_two_regs("REVSH"@, false, rd, rm),
            Instruction::ROR_reg { rd, rn, rm, setflags } => spec_three_regs(
                "ROR"@,
                setflags,
                rd,
                rn,
                rm,
            ),
            Instruction::RSB_imm { rd, rn, imm32, setflags } => spec_two_regs_imm(
                "RSB"@,
                setflags,
                rd,
                rn,
                imm32,
            ),
            Instruction::SBC_reg { rd, rn, rm, setflags } => spec_three_regs(
                "SBC"@,
                setflags,
                rd,
                rn,
                rm,
            ),
            Instruction::SEV => spec_bare("SEV"@),
            Instruction::SMULL { rdlo, rdhi, rn, rm } => spec_four_regs(
                "SMULL"@,
                rdlo,
                rdhi,
                rn,
                rm,
            ),
            Instruction::STM { rn, registers } => spec_base_list("STM"@, rn, registers),
            Instruction::STR_imm { rt, rn, imm32 } => spec_mem_imm("STR"@, rt, rn, imm32),
            Instruction::STR_reg { rt, rn, rm } => spec_mem_reg("STR"@, rt, rn, rm),
            Instruction::STRB_imm { rt, rn, imm32 } => spec_mem_imm("STRB"@, rt, rn, imm32),
            Instruction::STRB_reg { rt, rn, rm } => spec_mem_reg("STRB"@, rt, rn, rm),
            Instruction::STRH_imm { rt, rn, imm32 } => spec_mem_imm("STRH"@, rt, rn, imm32),
            Instruction::STRH_reg { rt, rn, rm } => spec_mem_reg("STRH"@, rt, rn, rm),
            Instruction::SUB_imm { rd, rn, imm32, setflags } => spec_two_regs_imm(
                "SUB"@,
                setflags,
                rd,
                rn,
                imm32,
            ),
            Instruction::SUBS_reg { rd, rn, rm } => spec_three_regs("SUBS"@, false, rd, rn, rm),
            Instruction::SUB_SP_imm { imm32 } => spec_immediate("SUB sp, sp,"@, imm32),
            Instruction::SVC { imm32 } => spec_immediate("SVC"@, imm32),
            Instruction::SXTB { rd, rm } => spec_two_regs("SXTB"@, false, rd, rm),
            Instruction::SXTH { rd, rm } => spec_two_regs("SXTH"@, false, rd, rm),
            Instruction::TST_reg { rn, rm } => spec_two_regs("TST"@, false, rn, rm),
            Instruction::UDF { imm32, opcode: _ } => spec_immediate("UDF"@, imm32),
            Instruction::UXTB { rd, rm } => spec_two_regs("UXTB"@, false, rd, rm),
            Instruction::UXTH { rd, rm } => spec_two_regs("UXTH"@, false, rd, rm),
            Instruction::WFE => spec_bare("WFE"@),
            Instruction::WFI => spec_bare("WFI"@),
            Instruction::YIELD => spec_bare("YIELD"@),
        }
    }

    /// Renders the instruction for a trace. Execution never reads the text.
    pub fn to_text(&self) -> (text: String)
        ensures
            text@ == self.spec_text(),
    {
        match *self {
            Instruction::ADC_reg { rd, rn, rm, setflags } => three_regs("ADC", setflags, rd, rn, rm),
            Instruction::ADD { rdn, rm } => two_regs("ADD", false, rdn, rm),
            Instruction::ADDS { rd, rn, rm } => three_regs("ADDS", false, rd, rn, rm),
            Instruction::ADD_imm { rd, rn, imm32, setflags } => two_regs_imm(
                "ADD",
                setflags,
                rd,
                rn,
                imm32,
            ),
            Instruction::ADR { rd, imm32, thumb32: _ } => reg_imm("ADR", false, rd, imm32),
            Instruction::AND_reg { rd, rn, rm, setflags } => three_regs("AND", setflags, rd, rn, rm),
            Instruction::ASR_imm { rd, rm, imm5, setflags } => two_regs_imm(
                "ASR",
                setflags,
                rd,
                rm,
                imm5 as u32,
            ),
            Instruction::ASR_reg { rd, rn, rm, setflags } => three_regs("ASR", setflags, rd, rn, rm),
            Instruction::B { cond, imm32 } => branch("B", cond, imm32),
            Instruction::BIC_reg { rd, rn, rm, setflags } => three_regs("BIC", setflags, rd, rn, rm),
            Instruction::BKPT { imm32 } => immediate("BKPT", imm32),
            Instruction::BL { imm32 } => branch("BL", Condition::AL, imm32),
            Instruction::BLX { rm } => one_reg("BLX", rm),
            Instruction::BX { rm } => one_reg("BX", rm),
            Instruction::CMN_reg { rn, rm } => two_regs("CMN", false, rn, rm),
            Instruction::CMP_imm { rn, imm32 } => reg_imm("CMP", false, rn, imm32),
            Instruction::CMP { rn, rm } => two_regs("CMP", false, rn, rm),
            Instruction::CPS { im } => if im {
                bare("CPSID")
            } else {
                bare("CPSIE")
            },
            Instruction::DMB => bare("DMB"),
            Instruction::DSB => bare("DSB"),
            Instruction::EOR_reg { rd, rn, rm, setflags } => three_regs("EOR", setflags, rd, rn, rm),
            Instruction::ISB => bare("ISB"),
            Instruction::LDM { rn, registers } => base_list("LDM", rn, registers),
            Instruction::LDR_imm { rt, rn, imm32 } => mem_imm("LDR", rt, rn, imm32),
            Instruction::LDR_lit { rt, imm32 } => mem_imm("LDR", rt, Reg::PC, imm32),
            Instruction::LDR_reg { rt, rn, rm } => mem_reg("LDR", rt, rn, rm),
            Instruction::LDRB_imm { rt, rn, imm32 } => mem_imm("LDRB", rt, rn, imm32),
            Instruction::LDRB_reg { rt, rn, rm } => mem_reg("LDRB", rt, rn, rm),
            Instruction::LDRH_imm { rt, rn, imm32 } => mem_imm("LDRH", rt, rn, imm32),
            Instruction::LDRH_reg { rt, rn, rm } => mem_reg("LDRH", rt, rn, rm),
            Instruction::LDRSB_reg { rt, rn, rm } => mem_reg("LDRSB", rt, rn, rm),
            Instruction::LDRSH_reg { rt, rn, rm } => mem_reg("LDRSH", rt, rn, rm),
            Instruction::LSL_imm { rd, rm, imm5, setflags } => two_regs_imm(
                "LSL",
                setflags,
                rd,
                rm,
                imm5 as u32,
            ),
            Instruction::LSL_reg { rd, rn, rm, setflags } => three_regs("LSL", setflags, rd, rn, rm),
            Instruction::LSR_imm { rd, rm, imm5, setflags } => two_regs_imm(
                "LSR",
                setflags,
                rd,
                rm,
                imm5 as u32,
            ),
            Instruction::LSR_reg { rd, rn, rm, setflags } => three_regs("LSR", setflags, rd, rn, rm),
            Instruction::MOV_reg { rd, rm, setflags } => two_regs("MOV", setflags, rd, rm),
            Instruction::MOV_imm { rd, imm32, setflags } => reg_imm("MOV", setflags, rd, imm32),
            Instruction::MRS { rd, spec_reg } => from_special("MRS", rd, spec_reg),
            Instruction::MSR_reg { rn, spec_reg } => to_special("MSR", spec_reg, rn),
            Instruction::MUL { rd, rn, rm, setflags } => three_regs("MUL", setflags, rd, rn, rm),
            Instruction::MVN_reg { rd, rm, setflags } => two_regs("MVN", setflags, rd, rm),
            Instruction::NOP => bare("NOP"),
            Instruction::ORR_reg { rd, rn, rm, setflags } => three_regs("ORR", setflags, rd, rn, rm),
            Instruction::POP { registers } => reg_list("POP", registers),
            Instruction::PUSH { registers } => reg_list("PUSH", registers),
            Instruction::REV { rd, rm } => two_regs("REV", false, rd, rm),
            Instruction::REV16 { rd, rm } => two_regs("REV16", false, rd, rm),
            Instruction::REVSH { rd, rm } => two_regs("REVSH", false, rd, rm),
            Instruction::ROR_reg { rd, rn, rm, setflags } => three_regs("ROR", setflags, rd, rn, rm),
            Instruction::RSB_imm { rd, rn, imm32, setflags } => two_regs_imm(
                "RSB",
                setflags,
                rd,
                rn,
                imm32,
            ),
            Instruction::SBC_reg { rd, rn, rm, setflags } => three_regs("SBC", setflags, rd, rn, rm),
            Instruction::SEV => bare("SEV"),
            Instruction::SMULL { rdlo, rdhi, rn, rm } => four_regs("SMULL", rdlo, rdhi, rn, rm),
            Instruction::STM { rn, registers } => base_list("STM", rn, registers),
            Instruction::STR_imm { rt, rn, imm32 } => mem_imm("STR", rt, rn, imm32),
            Instruction::STR_reg { rt, rn, rm } => mem_reg("STR", rt, rn, rm),
            Instruction::STRB_imm { rt, rn, imm32 } => mem_imm("STRB", rt, rn, imm32),
            Instruction::STRB_reg { rt, rn, rm } => mem_reg("STRB", rt, rn, rm),
            Instruction::STRH_imm { rt, rn, imm32 } => mem_imm("STRH", rt, rn, imm32),
            Instruction::STRH_reg { rt, rn, rm } => mem_reg("STRH", rt, rn, rm),
            Instruction::SUB_imm { rd, rn, imm32, setflags } => two_regs_imm(
                "SUB",
                setflags,
                rd,
                rn,
                imm32,
            ),
            Instruction::SUBS_reg { rd, rn, rm } => three_regs("SUBS", false, rd, rn, rm),
            Instruction::SUB_SP_imm { imm32 } => immediate("SUB sp, sp,", imm32),
            Instruction::SVC { imm32 } => immediate("SVC", imm32),
            Instruction::SXTB { rd, rm } => two_regs("SXTB", false, rd, rm),
            Instruction::SXTH { rd, rm } => two_regs("SXTH", false, rd, rm),
            Instruction::TST_reg { rn, rm } => two_regs("TST", false, rn, rm),
            Instruction::UDF { imm32, opcode: _ } => immediate("UDF", imm32),
            Instruction::UXTB { rd, rm } => two_regs("UXTB", false, rd, rm),
            Instruction::UXTH { rd, rm } => two_regs("UXTH", false, rd, rm),
            Instruction::WFE => bare("WFE"),
            Instruction::WFI => bare("WFI"),
            Instruction::YIELD => bare("YIELD"),
        }
    }
}

} // verus!
