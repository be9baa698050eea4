use zmu_cortex_m::condition::Condition;
use zmu_cortex_m::instruction::{Instruction, ThumbCode};
use zmu_cortex_m::register::{Reg, SpecialReg};
use zmu_cortex_m::text::{append_decimal, append_register_list, append_signed_decimal};

fn decimal(n: u32) -> String {
    let mut text = String::new();
    append_decimal(&mut text, n);
    text
}

fn signed(i: i32) -> String {
    let mut text = String::from("x");
    append_signed_decimal(&mut text, i);
    text
}

#[test]
fn decimal_digits() {
    assert_eq!(decimal(0), "0");
    assert_eq!(decimal(9), "9");
    assert_eq!(decimal(10), "10");
    assert_eq!(decimal(1234567890), "1234567890");
    assert_eq!(decimal(u32::MAX), "4294967295");
    assert_eq!(signed(0), "x0");
    assert_eq!(signed(-1), "x-1");
    assert_eq!(signed(i32::MIN), "x-2147483648");
    assert_eq!(signed(i32::MAX), "x2147483647");
}

#[test]
fn register_lists() {
    let mut text = String::new();
    append_register_list(&mut text, 0);
    assert_eq!(text, "{}");
    append_register_list(&mut text, 0x8000);
    assert_eq!(text, "{}{pc}");
    let mut list = String::new();
    append_register_list(&mut list, 0x40f1);
    assert_eq!(list, "{r0, r4, r5, r6, r7, lr}");
}

#[test]
fn instructions_as_text() {
    let (rd, rn, rm) = (Reg::R0, Reg::R1, Reg::R2);
    let cases = [
        (Instruction::ADC_reg { rd, rn, rm, setflags: true }, "ADCS r0, r1, r2"),
        (Instruction::ADD { rdn: Reg::R8, rm }, "ADD r8, r2"),
        (Instruction::ADDS { rd, rn, rm }, "ADDS r0, r1, r2"),
        (Instruction::ADD_imm { rd, rn: Reg::SP, imm32: 8, setflags: false }, "ADD r0, sp, #8"),
        (Instruction::ADD_imm { rd, rn, imm32: 255, setflags: true }, "ADDS r0, r1, #255"),
        (Instruction::ADR { rd, imm32: 1020, thumb32: false }, "ADR r0, #1020"),
        (Instruction::AND_reg { rd, rn, rm, setflags: false }, "AND r0, r1, r2"),
        (Instruction::ASR_imm { rd, rm, imm5: 31, setflags: true }, "ASRS r0, r2, #31"),
        (Instruction::B { cond: Condition::NE, imm32: -4 }, "Bne -4"),
        (Instruction::B { cond: Condition::AL, imm32: 2046 }, "B 2046"),
        (Instruction::BKPT { imm32: 171 }, "BKPT #171"),
        (Instruction::BL { imm32: -16777216 }, "BL -16777216"),
        (Instruction::BLX { rm: Reg::R3 }, "BLX r3"),
        (Instruction::BX { rm: Reg::LR }, "BX lr"),
        (Instruction::CMN_reg { rn, rm }, "CMN r1, r2"),
        (Instruction::CMP_imm { rn, imm32: 0 }, "CMP r1, #0"),
        (Instruction::CMP { rn, rm: Reg::R12 }, "CMP r1, r12"),
        (Instruction::CPS { im: true }, "CPSID"),
        (Instruction::CPS { im: false }, "CPSIE"),
        (Instruction::DMB, "DMB"),
        (Instruction::LDM { rn, registers: 0b1100 }, "LDM r1, {r2, r3}"),
        (Instruction::LDR_imm { rt: rd, rn, imm32: 4 }, "LDR r0, [r1, #4]"),
        (Instruction::LDR_lit { rt: rd, imm32: 8 }, "LDR r0, [pc, #8]"),
        (Instruction::LDR_reg { rt: rd, rn, rm }, "LDR r0, [r1, r2]"),
        (Instruction::LDRSB_reg { rt: rd, rn, rm }, "LDRSB r0, [r1, r2]"),
        (Instruction::LSL_imm { rd, rm, imm5: 0, setflags: false }, "LSL r0, r2, #0"),
        (Instruction::MOV_reg { rd: Reg::PC, rm: Reg::LR, setflags: false }, "MOV pc, lr"),
        (Instruction::MOV_imm { rd, imm32: 7, setflags: true }, "MOVS r0, #7"),
        (Instruction::MRS { rd, spec_reg: SpecialReg::PRIMASK }, "MRS r0, PRIMASK"),
        (Instruction::MSR_reg { rn, spec_reg: SpecialReg::CONTROL }, "MSR CONTROL, r1"),
        (Instruction::MUL { rd, rn, rm: rd, setflags: true }, "MULS r0, r1, r0"),
        (Instruction::MVN_reg { rd, rm, setflags: true }, "MVNS r0, r2"),
        (Instruction::NOP, "NOP"),
        (Instruction::POP { registers: 0x80f0 }, "POP {r4, r5, r6, r7, pc}"),
        (Instruction::PUSH { registers: 0x4001 }, "PUSH {r0, lr}"),
        (Instruction::REV16 { rd, rm }, "REV16 r0, r2"),
        (Instruction::RSB_imm { rd, rn, imm32: 0, setflags: true }, "RSBS r0, r1, #0"),
        (
            Instruction::SMULL { rdlo: rd, rdhi: rn, rn: rm, rm: Reg::R3 },
            "SMULL r0, r1, r2, r3",
        ),
        (Instruction::STM { rn, registers: 1 }, "STM r1, {r0}"),
        (Instruction::STRB_imm { rt: rd, rn, imm32: 31 }, "STRB r0, [r1, #31]"),
        (Instruction::STRH_reg { rt: rd, rn, rm }, "STRH r0, [r1, r2]"),
        (Instruction::SUB_imm { rd, rn, imm32: 1, setflags: true }, "SUBS r0, r1, #1"),
        (Instruction::SUBS_reg { rd, rn, rm }, "SUBS r0, r1, r2"),
        (Instruction::SUB_SP_imm { imm32: 508 }, "SUB sp, sp, #508"),
        (Instruction::SVC { imm32: 5 }, "SVC #5"),
        (Instruction::SXTB { rd, rm }, "SXTB r0, r2"),
        (Instruction::TST_reg { rn, rm }, "TST r1, r2"),
        (
            Instruction::UDF { imm32: 18, opcode: ThumbCode::Thumb16 { opcode: 0xde12 } },
            "UDF #18",
        ),
        (Instruction::UXTH { rd, rm }, "UXTH r0, r2"),
        (Instruction::WFI, "WFI"),
        (Instruction::YIELD, "YIELD"),
    ];
    for (instruction, text) in cases.iter() {
        assert_eq!(instruction.to_text(), *text);
    }
}
