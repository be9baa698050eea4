use zmu_cortex_m::condition::Condition;
use zmu_cortex_m::decoder::thumb16::decode_ADR_t1;
use zmu_cortex_m::decoder::thumb32::{
    decode_ADR_t2, decode_ADR_t3, decode_MSR_reg_t1, decode_SMULL_t1,
};
use zmu_cortex_m::decoder::{decode, decode_16, decode_32, is_thumb32};
use zmu_cortex_m::instruction::{Instruction, ThumbCode};
use zmu_cortex_m::register::{Reg, SpecialReg};

#[test]
fn is_thumb32_holds_for_the_three_prefixes_only() {
    for hw in 0..=0xffffu32 {
        let hw = hw as u16;
        let top = hw >> 11;
        let expected = top == 0b11101 || top == 0b11110 || top == 0b11111;
        assert_eq!(is_thumb32(hw), expected);
    }
    assert!(!is_thumb32(0xe7ff));
    assert!(is_thumb32(0xe800));
    assert!(is_thumb32(0xf000));
    assert!(is_thumb32(0xffff));
}

#[test]
fn sixteen_bit_decoding_never_reads_a_wide_prefix() {
    for hw in 0xe800..=0xffffu32 {
        assert_eq!(decode_16(hw as u16), None);
    }
}

#[test]
fn undefined_sixteen_bit_patterns_decode_to_nothing() {
    assert_eq!(decode_16(0xb100), None);
    assert_eq!(decode_16(0xb600), None);
    assert_eq!(decode_16(0xb672), Some(Instruction::CPS { im: true }));
    assert_eq!(decode_16(0xb663), None);
    assert_eq!(decode_16(0xba80), None);
    assert_eq!(decode_16(0xbf50), None);
    assert_eq!(decode_16(0xbf01), None);
    assert_eq!(decode_16(0x4701), None);
    assert_eq!(decode_16(0x4784), None);
}

#[test]
fn shifts_moves_and_small_arithmetic() {
    assert_eq!(
        decode_16(0x0000),
        Some(Instruction::MOV_reg { rd: Reg::R0, rm: Reg::R0, setflags: true })
    );
    assert_eq!(
        decode_16(0x0011),
        Some(Instruction::MOV_reg { rd: Reg::R1, rm: Reg::R2, setflags: true })
    );
    assert_eq!(
        decode_16(0x00d1),
        Some(Instruction::LSL_imm { rd: Reg::R1, rm: Reg::R2, imm5: 3, setflags: true })
    );
    assert_eq!(
        decode_16(0x0fd1),
        Some(Instruction::LSR_imm { rd: Reg::R1, rm: Reg::R2, imm5: 31, setflags: true })
    );
    assert_eq!(
        decode_16(0x1011),
        Some(Instruction::ASR_imm { rd: Reg::R1, rm: Reg::R2, imm5: 0, setflags: true })
    );
    assert_eq!(decode_16(0x1888), Some(Instruction::ADDS { rd: Reg::R0, rn: Reg::R1, rm: Reg::R2 }));
    assert_eq!(
        decode_16(0x1a88),
        Some(Instruction::SUBS_reg { rd: Reg::R0, rn: Reg::R1, rm: Reg::R2 })
    );
    assert_eq!(
        decode_16(0x1dc8),
        Some(Instruction::ADD_imm { rd: Reg::R0, rn: Reg::R1, imm32: 7, setflags: true })
    );
    assert_eq!(
        decode_16(0x1e48),
        Some(Instruction::SUB_imm { rd: Reg::R0, rn: Reg::R1, imm32: 1, setflags: true })
    );
    assert_eq!(
        decode_16(0x20ff),
        Some(Instruction::MOV_imm { rd: Reg::R0, imm32: 255, setflags: true })
    );
    assert_eq!(decode_16(0x2f10), Some(Instruction::CMP_imm { rn: Reg::R7, imm32: 16 }));
    assert_eq!(
        decode_16(0x3380),
        Some(Instruction::ADD_imm { rd: Reg::R3, rn: Reg::R3, imm32: 128, setflags: true })
    );
    assert_eq!(
        decode_16(0x3c01),
        Some(Instruction::SUB_imm { rd: Reg::R4, rn: Reg::R4, imm32: 1, setflags: true })
    );
}

#[test]
fn data_processing() {
    let (rd, rn, rm) = (Reg::R1, Reg::R1, Reg::R2);
    let setflags = true;
    assert_eq!(decode_16(0x4011), Some(Instruction::AND_reg { rd, rn, rm, setflags }));
    assert_eq!(decode_16(0x4051), Some(Instruction::EOR_reg { rd, rn, rm, setflags }));
    assert_eq!(decode_16(0x4091), Some(Instruction::LSL_reg { rd, rn, rm, setflags }));
    assert_eq!(decode_16(0x40d1), Some(Instruction::LSR_reg { rd, rn, rm, setflags }));
    assert_eq!(decode_16(0x4111), Some(Instruction::ASR_reg { rd, rn, rm, setflags }));
    assert_eq!(decode_16(0x4151), Some(Instruction::ADC_reg { rd, rn, rm, setflags }));
    assert_eq!(decode_16(0x4191), Some(Instruction::SBC_reg { rd, rn, rm, setflags }));
    assert_eq!(decode_16(0x41d1), Some(Instruction::ROR_reg { rd, rn, rm, setflags }));
    assert_eq!(decode_16(0x4211), Some(Instruction::TST_reg { rn: Reg::R1, rm }));
    assert_eq!(
        decode_16(0x4251),
        Some(Instruction::RSB_imm { rd, rn: Reg::R2, imm32: 0, setflags })
    );
    assert_eq!(decode_16(0x4291), Some(Instruction::CMP { rn: Reg::R1, rm }));
    assert_eq!(decode_16(0x42d1), Some(Instruction::CMN_reg { rn: Reg::R1, rm }));
    assert_eq!(decode_16(0x4311), Some(Instruction::ORR_reg { rd, rn, rm, setflags }));
    assert_eq!(
        decode_16(0x4351),
        Some(Instruction::MUL { rd, rn: Reg::R2, rm: Reg::R1, setflags })
    );
    assert_eq!(decode_16(0x4391), Some(Instruction::BIC_reg { rd, rn, rm, setflags }));
    assert_eq!(decode_16(0x43d1), Some(Instruction::MVN_reg { rd, rm, setflags }));
}

#[test]
fn high_registers_and_branch_exchange() {
    assert_eq!(decode_16(0x4488), Some(Instruction::ADD { rdn: Reg::R8, rm: Reg::R1 }));
    assert_eq!(decode_16(0x44fd), Some(Instruction::ADD { rdn: Reg::SP, rm: Reg::PC }));
    assert_eq!(decode_16(0x4571), Some(Instruction::CMP { rn: Reg::R1, rm: Reg::LR }));
    assert_eq!(
        decode_16(0x46f7),
        Some(Instruction::MOV_reg { rd: Reg::PC, rm: Reg::LR, setflags: false })
    );
    assert_eq!(
        decode_16(0x4608),
        Some(Instruction::MOV_reg { rd: Reg::R0, rm: Reg::R1, setflags: false })
    );
    assert_eq!(decode_16(0x4770), Some(Instruction::BX { rm: Reg::LR }));
    assert_eq!(decode_16(0x4798), Some(Instruction::BLX { rm: Reg::R3 }));
}

#[test]
fn loads_and_stores() {
    let (rt, rn, rm) = (Reg::R0, Reg::R1, Reg::R2);
    assert_eq!(decode_16(0x4902), Some(Instruction::LDR_lit { rt: Reg::R1, imm32: 8 }));
    assert_eq!(decode_16(0x5088), Some(Instruction::STR_reg { rt, rn, rm }));
    assert_eq!(decode_16(0x5288), Some(Instruction::STRH_reg { rt, rn, rm }));
    assert_eq!(decode_16(0x5488), Some(Instruction::STRB_reg { rt, rn, rm }));
    assert_eq!(decode_16(0x5688), Some(Instruction::LDRSB_reg { rt, rn, rm }));
    assert_eq!(decode_16(0x5888), Some(Instruction::LDR_reg { rt, rn, rm }));
    assert_eq!(decode_16(0x5a88), Some(Instruction::LDRH_reg { rt, rn, rm }));
    assert_eq!(decode_16(0x5c88), Some(Instruction::LDRB_reg { rt, rn, rm }));
    assert_eq!(decode_16(0x5e88), Some(Instruction::LDRSH_reg { rt, rn, rm }));
    assert_eq!(decode_16(0x6048), Some(Instruction::STR_imm { rt, rn, imm32: 4 }));
    assert_eq!(decode_16(0x6fc8), Some(Instruction::LDR_imm { rt, rn, imm32: 124 }));
    assert_eq!(decode_16(0x7048), Some(Instruction::STRB_imm { rt, rn, imm32: 1 }));
    assert_eq!(decode_16(0x7fc8), Some(Instruction::LDRB_imm { rt, rn, imm32: 31 }));
    assert_eq!(decode_16(0x8048), Some(Instruction::STRH_imm { rt, rn, imm32: 2 }));
    assert_eq!(decode_16(0x8fc8), Some(Instruction::LDRH_imm { rt, rn, imm32: 62 }));
    assert_eq!(
        decode_16(0x9102),
        Some(Instruction::STR_imm { rt: Reg::R1, rn: Reg::SP, imm32: 8 })
    );
    assert_eq!(
        decode_16(0x9aff),
        Some(Instruction::LDR_imm { rt: Reg::R2, rn: Reg::SP, imm32: 1020 })
    );
    assert_eq!(decode_16(0xc303), Some(Instruction::STM { rn: Reg::R3, registers: 0b11 }));
    assert_eq!(decode_16(0xcb81), Some(Instruction::LDM { rn: Reg::R3, registers: 0x81 }));
}

#[test]
fn adr_in_its_sixteen_bit_encoding() {
    assert_eq!(
        decode_16(0xa002),
        Some(Instruction::ADR { rd: Reg::R0, imm32: 8, thumb32: false })
    );
    assert_eq!(
        decode_ADR_t1(0xa7ff),
        Instruction::ADR { rd: Reg::R7, imm32: 1020, thumb32: false }
    );
}

#[test]
fn stack_and_miscellaneous() {
    assert_eq!(
        decode_16(0xa901),
        Some(Instruction::ADD_imm { rd: Reg::R1, rn: Reg::SP, imm32: 4, setflags: false })
    );
    assert_eq!(
        decode_16(0xb002),
        Some(Instruction::ADD_imm { rd: Reg::SP, rn: Reg::SP, imm32: 8, setflags: false })
    );
    assert_eq!(decode_16(0xb082), Some(Instruction::SUB_SP_imm { imm32: 8 }));
    assert_eq!(decode_16(0xb0ff), Some(Instruction::SUB_SP_imm { imm32: 508 }));
    assert_eq!(decode_16(0xb211), Some(Instruction::SXTH { rd: Reg::R1, rm: Reg::R2 }));
    assert_eq!(decode_16(0xb251), Some(Instruction::SXTB { rd: Reg::R1, rm: Reg::R2 }));
    assert_eq!(decode_16(0xb291), Some(Instruction::UXTH { rd: Reg::R1, rm: Reg::R2 }));
    assert_eq!(decode_16(0xb2d1), Some(Instruction::UXTB { rd: Reg::R1, rm: Reg::R2 }));
    assert_eq!(decode_16(0xb5f0), Some(Instruction::PUSH { registers: 0x40f0 }));
    assert_eq!(decode_16(0xb401), Some(Instruction::PUSH { registers: 0x0001 }));
    assert_eq!(decode_16(0xbdf0), Some(Instruction::POP { registers: 0x80f0 }));
    assert_eq!(decode_16(0xbc02), Some(Instruction::POP { registers: 0x0002 }));
    assert_eq!(decode_16(0xb662), Some(Instruction::CPS { im: false }));
    assert_eq!(decode_16(0xba11), Some(Instruction::REV { rd: Reg::R1, rm: Reg::R2 }));
    assert_eq!(decode_16(0xba51), Some(Instruction::REV16 { rd: Reg::R1, rm: Reg::R2 }));
    assert_eq!(decode_16(0xbad1), Some(Instruction::REVSH { rd: Reg::R1, rm: Reg::R2 }));
    assert_eq!(decode_16(0xbeab), Some(Instruction::BKPT { imm32: 0xab }));
    assert_eq!(decode_16(0xbf00), Some(Instruction::NOP));
    assert_eq!(decode_16(0xbf10), Some(Instruction::YIELD));
    assert_eq!(decode_16(0xbf20), Some(Instruction::WFE));
    assert_eq!(decode_16(0xbf30), Some(Instruction::WFI));
    assert_eq!(decode_16(0xbf40), Some(Instruction::SEV));
}

#[test]
fn branches_supervisor_calls_and_the_undefined_instruction() {
    assert_eq!(decode_16(0xd001), Some(Instruction::B { cond: Condition::EQ, imm32: 2 }));
    assert_eq!(decode_16(0xd1fe), Some(Instruction::B { cond: Condition::NE, imm32: -4 }));
    assert_eq!(decode_16(0xdd80), Some(Instruction::B { cond: Condition::LE, imm32: -256 }));
    assert_eq!(decode_16(0xd07f), Some(Instruction::B { cond: Condition::EQ, imm32: 254 }));
    assert_eq!(
        decode_16(0xde12),
        Some(Instruction::UDF { imm32: 0x12, opcode: ThumbCode::Thumb16 { opcode: 0xde12 } })
    );
    assert_eq!(decode_16(0xdf05), Some(Instruction::SVC { imm32: 5 }));
    assert_eq!(decode_16(0xe001), Some(Instruction::B { cond: Condition::AL, imm32: 2 }));
    assert_eq!(decode_16(0xe7fe), Some(Instruction::B { cond: Condition::AL, imm32: -4 }));
    assert_eq!(decode_16(0xe400), Some(Instruction::B { cond: Condition::AL, imm32: -2048 }));
    assert_eq!(decode_16(0xe3ff), Some(Instruction::B { cond: Condition::AL, imm32: 2046 }));
}

#[test]
fn branch_with_link() {
    assert_eq!(decode_32(0xf000, 0xf800), Some(Instruction::BL { imm32: 0 }));
    assert_eq!(decode_32(0xf000, 0xf801), Some(Instruction::BL { imm32: 2 }));
    assert_eq!(decode_32(0xf7ff, 0xfffe), Some(Instruction::BL { imm32: -4 }));
    assert_eq!(decode_32(0xf001, 0xf800), Some(Instruction::BL { imm32: 0x1000 }));
    assert_eq!(decode_32(0xf000, 0xd000), Some(Instruction::BL { imm32: 0x00c0_0000 }));
    assert_eq!(decode_32(0xf400, 0xd000), Some(Instruction::BL { imm32: -0x0100_0000 }));
    assert_eq!(decode_32(0xf3ff, 0xffff), Some(Instruction::BL { imm32: 0x003f_fffe }));
    assert_eq!(decode_32(0xf3ff, 0xf7ff), Some(Instruction::BL { imm32: 0x007f_fffe }));
}

#[test]
fn system_instructions_in_thirty_two_bits() {
    assert_eq!(
        decode_32(0xf380, 0x8808),
        Some(Instruction::MSR_reg { rn: Reg::R0, spec_reg: SpecialReg::MSP })
    );
    assert_eq!(
        decode_MSR_reg_t1(0xf385_8814),
        Instruction::MSR_reg { rn: Reg::R5, spec_reg: SpecialReg::CONTROL }
    );
    assert_eq!(
        decode_32(0xf3ef, 0x8310),
        Some(Instruction::MRS { rd: Reg::R3, spec_reg: SpecialReg::PRIMASK })
    );
    assert_eq!(decode_32(0xf3bf, 0x8f4f), Some(Instruction::DSB));
    assert_eq!(decode_32(0xf3bf, 0x8f5f), Some(Instruction::DMB));
    assert_eq!(decode_32(0xf3bf, 0x8f6f), Some(Instruction::ISB));
    assert_eq!(
        decode_32(0xf7f1, 0xa234),
        Some(Instruction::UDF {
            imm32: 0x1234,
            opcode: ThumbCode::Thumb32 { opcode: 0xf7f1_a234 }
        })
    );
}

#[test]
fn an_unassigned_special_register_number_is_undefined() {
    let undefined = |opcode: u32| Instruction::UDF {
        imm32: 0,
        opcode: ThumbCode::Thumb32 { opcode },
    };
    assert_eq!(decode_MSR_reg_t1(0xf380_8804), undefined(0xf380_8804));
    assert_eq!(decode_MSR_reg_t1(0xf380_8828), undefined(0xf380_8828));
    assert_eq!(decode_MSR_reg_t1(0xf380_8813), undefined(0xf380_8813));
    assert_eq!(decode_MSR_reg_t1(0xf380_88ff), undefined(0xf380_88ff));
    assert_eq!(decode_32(0xf380, 0x8804), Some(undefined(0xf380_8804)));
    assert_eq!(decode_32(0xf3ef, 0x8004), Some(undefined(0xf3ef_8004)));
    assert_eq!(decode_32(0xf3ef, 0x8334), Some(undefined(0xf3ef_8334)));
    assert_eq!(decode_32(0xf3ef, 0x8015), Some(undefined(0xf3ef_8015)));
    for sysm in 0..=255u32 {
        let assigned = matches!(sysm, 0 | 1 | 2 | 3 | 5 | 6 | 7 | 8 | 9 | 16 | 20);
        let msr = decode_MSR_reg_t1(0xf383_8800 | sysm);
        let mrs = decode_32(0xf3ef, (0x8400 | sysm) as u16);
        assert_eq!(matches!(msr, Instruction::MSR_reg { rn: Reg::R3, .. }), assigned);
        assert_eq!(matches!(msr, Instruction::UDF { .. }), !assigned);
        assert_eq!(matches!(mrs, Some(Instruction::MRS { rd: Reg::R4, .. })), assigned);
        assert_eq!(matches!(mrs, Some(Instruction::UDF { .. })), !assigned);
    }
    assert_eq!(
        decode_MSR_reg_t1(0xf380_8809),
        Instruction::MSR_reg { rn: Reg::R0, spec_reg: SpecialReg::PSP }
    );
}

#[test]
fn adr_and_long_multiply_in_thirty_two_bits() {
    assert_eq!(
        decode_ADR_t3(0xf60f_71ff),
        Instruction::ADR { rd: Reg::R1, imm32: 0xfff, thumb32: true }
    );
    assert_eq!(
        decode_32(0xf20f, 0x0208),
        Some(Instruction::ADR { rd: Reg::R2, imm32: 8, thumb32: true })
    );
    assert_eq!(
        decode_32(0xf20f, 0x3104),
        Some(Instruction::ADR { rd: Reg::R1, imm32: 0x304, thumb32: true })
    );
    assert_eq!(
        decode_ADR_t2(0xf2af_0208),
        Instruction::UDF { imm32: 0, opcode: ThumbCode::Thumb32 { opcode: 0xf2af_0208 } }
    );
    assert_eq!(
        decode_32(0xf2af, 0x0208),
        Some(Instruction::UDF { imm32: 0, opcode: ThumbCode::Thumb32 { opcode: 0xf2af_0208 } })
    );
    assert_eq!(
        decode_SMULL_t1(0xfb81_2304),
        Instruction::SMULL { rdlo: Reg::R2, rdhi: Reg::R3, rn: Reg::R1, rm: Reg::R4 }
    );
    assert_eq!(
        decode_32(0xfb81, 0x2304),
        Some(Instruction::SMULL { rdlo: Reg::R2, rdhi: Reg::R3, rn: Reg::R1, rm: Reg::R4 })
    );
}

#[test]
fn undefined_thirty_two_bit_patterns_decode_to_nothing() {
    assert_eq!(decode_32(0xe800, 0x0000), None);
    assert_eq!(decode_32(0xffff, 0xffff), None);
    assert_eq!(decode_32(0xf000, 0x8000), None);
    assert_eq!(decode_32(0xfb81, 0x2314), None);
    assert_eq!(decode_32(0x4600, 0x4600), None);
    assert_eq!(decode_32(0xf3bf, 0x8f70), None);
}

#[test]
fn decode_takes_either_width() {
    assert_eq!(decode(&ThumbCode::Thumb16 { opcode: 0xbf00 }), Some(Instruction::NOP));
    assert_eq!(
        decode(&ThumbCode::Thumb32 { opcode: 0xf000_f800 }),
        Some(Instruction::BL { imm32: 0 })
    );
    assert_eq!(decode(&ThumbCode::Thumb16 { opcode: 0xb100 }), None);
}

#[test]
fn instruction_sizes() {
    assert_eq!(Instruction::NOP.size(), 2);
    assert_eq!(Instruction::BL { imm32: 0 }.size(), 4);
    assert_eq!(Instruction::DSB.size(), 4);
    assert_eq!(Instruction::ADR { rd: Reg::R0, imm32: 0, thumb32: false }.size(), 2);
    assert_eq!(Instruction::ADR { rd: Reg::R0, imm32: 0, thumb32: true }.size(), 4);
    assert_eq!(
        Instruction::UDF { imm32: 0, opcode: ThumbCode::Thumb16 { opcode: 0xde00 } }.size(),
        2
    );
    assert_eq!(
        Instruction::UDF { imm32: 0, opcode: ThumbCode::Thumb32 { opcode: 0xf7f0_a000 } }.size(),
        4
    );
}
