use zmu_cortex_m::base_reg::BaseReg;
use zmu_cortex_m::bus::Bus;
use zmu_cortex_m::condition::Condition;
use zmu_cortex_m::decoder::{decode_16, decode_32};
use zmu_cortex_m::device::cortex_m0_core;
use zmu_cortex_m::exception::{Exception, ExceptionHandling};
use zmu_cortex_m::executor::{execute, listed, listed_count, rev, rev16, revsh};
use zmu_cortex_m::fault::Fault;
use zmu_cortex_m::fetch::Fetch;
use zmu_cortex_m::instruction::{Instruction, ThumbCode};
use zmu_cortex_m::processor::{Core, ProcessorMode};
use zmu_cortex_m::psr::{Apsr, Epsr};
use zmu_cortex_m::register::{Reg, SpecialReg};
use zmu_cortex_m::semihosting::SemihostingCommand;
use zmu_cortex_m::systick::SysTick;

fn machine() -> Core {
    let mut code = Vec::new();
    code.extend_from_slice(&0x2000_1000u32.to_le_bytes());
    code.extend_from_slice(&0x0000_0101u32.to_le_bytes());
    code.resize(0x200, 0);
    cortex_m0_core(&code)
}

fn flags(core: &Core) -> (bool, bool, bool, bool) {
    (core.psr.get_n(), core.psr.get_z(), core.psr.get_c(), core.psr.get_v())
}

fn run(core: &mut Core, instruction: Instruction) {
    assert_eq!(execute(core, Some(instruction)), Ok(None));
}

#[test]
fn an_absent_instruction_is_undefined() {
    let mut core = machine();
    assert_eq!(execute(&mut core, None), Err(Fault::UndefinedInstruction));
    assert_eq!(core.pc, 0x100);
}

#[test]
fn the_undefined_instruction_is_undefined() {
    let mut core = machine();
    let udf = Instruction::UDF { imm32: 1, opcode: ThumbCode::Thumb16 { opcode: 0xde01 } };
    assert_eq!(execute(&mut core, Some(udf)), Err(Fault::UndefinedInstruction));
    assert_eq!(core.pc, 0x100);
}

#[test]
fn long_multiplication_gives_both_halves_of_the_signed_product() {
    let mut core = machine();
    let smull = Instruction::SMULL { rdlo: Reg::R0, rdhi: Reg::R1, rn: Reg::R2, rm: Reg::R3 };
    let cases: [(u32, u32, u32, u32); 7] = [
        (2, 3, 6, 0),
        (0xffff_ffff, 1, 0xffff_ffff, 0xffff_ffff),
        (0xffff_ffff, 0xffff_ffff, 1, 0),
        (0x8000_0000, 0x8000_0000, 0, 0x4000_0000),
        (0x7fff_ffff, 0x7fff_ffff, 1, 0x3fff_ffff),
        (0x8000_0000, 1, 0x8000_0000, 0xffff_ffff),
        (0, 0xffff_fffb, 0, 0),
    ];
    for (i, (x, y, low, high)) in cases.iter().enumerate() {
        core.set_r(Reg::R2, *x);
        core.set_r(Reg::R3, *y);
        core.psr.set_c(true);
        run(&mut core, smull);
        assert_eq!(core.get_r(Reg::R0), *low);
        assert_eq!(core.get_r(Reg::R1), *high);
        assert_eq!(core.pc, 0x100 + 4 * (i as u32 + 1));
        assert_eq!(flags(&core), (false, false, true, false));
    }
    core.set_r(Reg::R2, 0x0001_0000);
    core.set_r(Reg::R3, 0x0001_0000);
    run(&mut core, Instruction::SMULL { rdlo: Reg::R2, rdhi: Reg::R3, rn: Reg::R2, rm: Reg::R3 });
    assert_eq!(core.get_r(Reg::R2), 0);
    assert_eq!(core.get_r(Reg::R3), 1);
}

#[test]
fn no_decoded_instruction_is_unimplemented() {
    let mut seen = 0u32;
    let mut core = machine();
    for hw in 0..=0xffffu32 {
        if let Some(instruction) = decode_16(hw as u16) {
            let out = execute(&mut core, Some(instruction));
            assert_ne!(out, Err(Fault::UnimplementedInstruction));
            seen += 1;
        }
    }
    assert!(seen > 50000);
    let wide: [(u16, u16); 11] = [
        (0xf000, 0xf800),
        (0xf380, 0x8808),
        (0xf380, 0x8804),
        (0xf3ef, 0x8310),
        (0xf3bf, 0x8f4f),
        (0xf3bf, 0x8f5f),
        (0xf3bf, 0x8f6f),
        (0xf7f1, 0xa234),
        (0xf2af, 0x0208),
        (0xf20f, 0x0208),
        (0xfb81, 0x2304),
    ];
    for (hw1, hw2) in wide.iter() {
        let mut core = machine();
        let out = execute(&mut core, decode_32(*hw1, *hw2));
        assert_ne!(out, Err(Fault::UnimplementedInstruction));
    }
}

#[test]
fn mov_register_copies_and_advances() {
    let mut core = machine();
    core.set_r(Reg::R1, 0x8000_0000);
    run(&mut core, Instruction::MOV_reg { rd: Reg::R0, rm: Reg::R1, setflags: true });
    assert_eq!(core.get_r(Reg::R0), 0x8000_0000);
    assert_eq!(core.pc, 0x102);
    assert_eq!(flags(&core), (true, false, false, false));
    run(&mut core, Instruction::MOV_reg { rd: Reg::R2, rm: Reg::R3, setflags: false });
    assert_eq!(flags(&core), (true, false, false, false));
    run(&mut core, Instruction::MOV_reg { rd: Reg::R2, rm: Reg::R3, setflags: true });
    assert_eq!(flags(&core), (false, true, false, false));
}

#[test]
fn mov_from_the_pc_reads_four_ahead() {
    let mut core = machine();
    run(&mut core, Instruction::MOV_reg { rd: Reg::R0, rm: Reg::PC, setflags: false });
    assert_eq!(core.get_r(Reg::R0), 0x104);
}

#[test]
fn mov_to_the_pc_is_a_branch() {
    let mut core = machine();
    core.set_r(Reg::R1, 0x0000_0181);
    core.psr.set_c(true);
    run(&mut core, Instruction::MOV_reg { rd: Reg::PC, rm: Reg::R1, setflags: true });
    assert_eq!(core.pc, 0x180);
    assert_eq!(flags(&core), (false, false, true, false));
}

#[test]
fn mov_immediate_and_mvn() {
    let mut core = machine();
    run(&mut core, Instruction::MOV_imm { rd: Reg::R3, imm32: 0, setflags: true });
    assert_eq!(core.get_r(Reg::R3), 0);
    assert!(core.psr.get_z());
    run(&mut core, Instruction::MVN_reg { rd: Reg::R4, rm: Reg::R3, setflags: true });
    assert_eq!(core.get_r(Reg::R4), 0xffff_ffff);
    assert_eq!(flags(&core), (true, false, false, false));
    assert_eq!(core.pc, 0x104);
}

#[test]
fn lsl_immediate_sets_the_carry_from_the_last_bit_out() {
    let mut core = machine();
    core.set_r(Reg::R1, 0x8000_0001);
    run(&mut core, Instruction::LSL_imm { rd: Reg::R0, rm: Reg::R1, imm5: 1, setflags: true });
    assert_eq!(core.get_r(Reg::R0), 2);
    assert_eq!(flags(&core), (false, false, true, false));
    assert_eq!(core.pc, 0x102);
    run(&mut core, Instruction::LSL_imm { rd: Reg::R0, rm: Reg::R1, imm5: 0, setflags: true });
    assert_eq!(core.get_r(Reg::R0), 0x8000_0001);
    assert_eq!(flags(&core), (true, false, true, false));
    core.set_r(Reg::R1, 1);
    run(&mut core, Instruction::LSL_imm { rd: Reg::R0, rm: Reg::R1, imm5: 4, setflags: false });
    assert_eq!(core.get_r(Reg::R0), 16);
    assert_eq!(flags(&core), (true, false, true, false));
}

#[test]
fn the_other_shifts() {
    let mut core = machine();
    core.set_r(Reg::R1, 0x8000_0000);
    run(&mut core, Instruction::LSR_imm { rd: Reg::R0, rm: Reg::R1, imm5: 0, setflags: true });
    assert_eq!(core.get_r(Reg::R0), 0);
    assert_eq!(flags(&core), (false, true, true, false));
    run(&mut core, Instruction::ASR_imm { rd: Reg::R0, rm: Reg::R1, imm5: 31, setflags: true });
    assert_eq!(core.get_r(Reg::R0), 0xffff_ffff);
    assert_eq!(flags(&core), (true, false, false, false));
    core.set_r(Reg::R2, 0x0000_0104);
    core.set_r(Reg::R0, 0x0000_00f1);
    let (rd, rn, rm) = (Reg::R0, Reg::R0, Reg::R2);
    run(&mut core, Instruction::LSL_reg { rd, rn, rm, setflags: true });
    assert_eq!(core.get_r(Reg::R0), 0xf10);
    run(&mut core, Instruction::LSR_reg { rd, rn, rm, setflags: true });
    assert_eq!(core.get_r(Reg::R0), 0xf1);
    run(&mut core, Instruction::ROR_reg { rd, rn, rm, setflags: true });
    assert_eq!(core.get_r(Reg::R0), 0x1000_000f);
    core.set_r(Reg::R0, 0x8000_0000);
    run(&mut core, Instruction::ASR_reg { rd, rn, rm, setflags: true });
    assert_eq!(core.get_r(Reg::R0), 0xf800_0000);
}

#[test]
fn bl_links_and_branches() {
    let mut core = machine();
    run(&mut core, Instruction::BL { imm32: 0x20 });
    assert_eq!(core.get_r(Reg::LR), 0x105);
    assert_eq!(core.pc, 0x124);
    run(&mut core, Instruction::BL { imm32: -0x24 });
    assert_eq!(core.get_r(Reg::LR), 0x129);
    assert_eq!(core.pc, 0x104);
}

#[test]
fn bx_clears_bit_zero() {
    let mut core = machine();
    core.set_r(Reg::LR, 0x0000_0141);
    run(&mut core, Instruction::BX { rm: Reg::LR });
    assert_eq!(core.pc, 0x140);
}

#[test]
fn blx_links_to_the_next_instruction() {
    let mut core = machine();
    core.set_r(Reg::R3, 0x0000_0181);
    run(&mut core, Instruction::BLX { rm: Reg::R3 });
    assert_eq!(core.get_r(Reg::LR), 0x103);
    assert_eq!(core.pc, 0x180);
}

#[test]
fn conditional_branch_taken_and_not_taken() {
    let mut core = machine();
    core.psr.set_z(0);
    run(&mut core, Instruction::B { cond: Condition::NE, imm32: 0x40 });
    assert_eq!(core.pc, 0x102);
    run(&mut core, Instruction::B { cond: Condition::EQ, imm32: 0x40 });
    assert_eq!(core.pc, 0x102 + 4 + 0x40);
    run(&mut core, Instruction::B { cond: Condition::AL, imm32: -4 });
    assert_eq!(core.pc, 0x146);
}

#[test]
fn comparing_equal_registers() {
    let mut core = machine();
    for value in [0u32, 1, 0x7fff_ffff, 0x8000_0000, 0xffff_ffff] {
        core.set_r(Reg::R1, value);
        core.set_r(Reg::R2, value);
        core.psr.set_n(0x8000_0000);
        core.psr.set_v(true);
        run(&mut core, Instruction::CMP { rn: Reg::R1, rm: Reg::R2 });
        assert_eq!(flags(&core), (false, true, true, false));
        assert_eq!(core.get_r(Reg::R1), value);
    }
}

#[test]
fn comparisons() {
    let mut core = machine();
    core.set_r(Reg::R1, 3);
    run(&mut core, Instruction::CMP_imm { rn: Reg::R1, imm32: 5 });
    assert_eq!(flags(&core), (true, false, false, false));
    run(&mut core, Instruction::CMP_imm { rn: Reg::R1, imm32: 2 });
    assert_eq!(flags(&core), (false, false, true, false));
    core.set_r(Reg::R1, 0x8000_0000);
    run(&mut core, Instruction::CMP_imm { rn: Reg::R1, imm32: 1 });
    assert_eq!(flags(&core), (false, false, true, true));
    core.set_r(Reg::R2, 0x8000_0000);
    run(&mut core, Instruction::CMN_reg { rn: Reg::R1, rm: Reg::R2 });
    assert_eq!(flags(&core), (false, true, true, true));
    assert_eq!(core.pc, 0x108);
}

#[test]
fn additions_and_subtractions() {
    let mut core = machine();
    core.set_r(Reg::R1, 0xffff_ffff);
    core.set_r(Reg::R2, 1);
    run(&mut core, Instruction::ADD { rdn: Reg::R1, rm: Reg::R2 });
    assert_eq!(core.get_r(Reg::R1), 0);
    assert_eq!(flags(&core), (false, false, false, false));
    core.set_r(Reg::R1, 0xffff_ffff);
    run(&mut core, Instruction::ADDS { rd: Reg::R0, rn: Reg::R1, rm: Reg::R2 });
    assert_eq!(core.get_r(Reg::R0), 0);
    assert_eq!(flags(&core), (false, true, true, false));
    run(&mut core, Instruction::ADD_imm { rd: Reg::R3, rn: Reg::R2, imm32: 9, setflags: false });
    assert_eq!(core.get_r(Reg::R3), 10);
    assert_eq!(flags(&core), (false, true, true, false));
    run(&mut core, Instruction::ADD_imm {
        rd: Reg::R3,
        rn: Reg::R3,
        imm32: 0x7fff_fff6,
        setflags: true,
    });
    assert_eq!(core.get_r(Reg::R3), 0x8000_0000);
    assert_eq!(flags(&core), (true, false, false, true));
    run(&mut core, Instruction::SUB_imm { rd: Reg::R4, rn: Reg::R2, imm32: 2, setflags: true });
    assert_eq!(core.get_r(Reg::R4), 0xffff_ffff);
    assert_eq!(flags(&core), (true, false, false, false));
    run(&mut core, Instruction::SUBS_reg { rd: Reg::R5, rn: Reg::R3, rm: Reg::R2 });
    assert_eq!(core.get_r(Reg::R5), 0x7fff_ffff);
    assert_eq!(flags(&core), (false, false, true, true));
    run(&mut core, Instruction::RSB_imm { rd: Reg::R6, rn: Reg::R2, imm32: 0, setflags: true });
    assert_eq!(core.get_r(Reg::R6), 0xffff_ffff);
    core.psr.set_c(true);
    let (rd, rn, rm) = (Reg::R7, Reg::R2, Reg::R2);
    run(&mut core, Instruction::ADC_reg { rd, rn, rm, setflags: true });
    assert_eq!(core.get_r(Reg::R7), 3);
    run(&mut core, Instruction::SBC_reg { rd, rn, rm, setflags: true });
    assert_eq!(core.get_r(Reg::R7), 0xffff_ffff);
    assert_eq!(flags(&core), (true, false, false, false));
    assert_eq!(core.pc, 0x100 + 2 * 9);
}

#[test]
fn stack_pointer_arithmetic() {
    let mut core = machine();
    run(&mut core, Instruction::SUB_SP_imm { imm32: 16 });
    assert_eq!(core.msp, 0x2000_0ff0);
    run(&mut core, Instruction::ADD_imm {
        rd: Reg::SP,
        rn: Reg::SP,
        imm32: 8,
        setflags: false,
    });
    assert_eq!(core.msp, 0x2000_0ff8);
    run(&mut core, Instruction::ADD_imm { rd: Reg::R1, rn: Reg::SP, imm32: 4, setflags: false });
    assert_eq!(core.get_r(Reg::R1), 0x2000_0ffc);
}

#[test]
fn logical_operations() {
    let mut core = machine();
    core.set_r(Reg::R1, 0xf0f0_0000);
    core.set_r(Reg::R2, 0xff00_00ff);
    let (rn, rm) = (Reg::R1, Reg::R2);
    core.psr.set_c(true);
    run(&mut core, Instruction::AND_reg { rd: Reg::R0, rn, rm, setflags: true });
    assert_eq!(core.get_r(Reg::R0), 0xf000_0000);
    assert_eq!(flags(&core), (true, false, true, false));
    run(&mut core, Instruction::ORR_reg { rd: Reg::R0, rn, rm, setflags: true });
    assert_eq!(core.get_r(Reg::R0), 0xfff0_00ff);
    run(&mut core, Instruction::EOR_reg { rd: Reg::R0, rn, rm, setflags: true });
    assert_eq!(core.get_r(Reg::R0), 0x0ff0_00ff);
    assert_eq!(flags(&core), (false, false, true, false));
    run(&mut core, Instruction::BIC_reg { rd: Reg::R0, rn, rm, setflags: true });
    assert_eq!(core.get_r(Reg::R0), 0x00f0_0000);
    core.set_r(Reg::R3, 0x0f0f_0000);
    run(&mut core, Instruction::TST_reg { rn: Reg::R1, rm: Reg::R3 });
    assert_eq!(flags(&core), (false, true, true, false));
    assert_eq!(core.get_r(Reg::R1), 0xf0f0_0000);
    core.set_r(Reg::R4, 0x0001_0001);
    core.set_r(Reg::R5, 0x0001_0000);
    run(&mut core, Instruction::MUL { rd: Reg::R6, rn: Reg::R4, rm: Reg::R5, setflags: true });
    assert_eq!(core.get_r(Reg::R6), 0x0001_0000);
    assert_eq!(core.pc, 0x10c);
}

#[test]
fn extensions_and_byte_reversals() {
    let mut core = machine();
    core.set_r(Reg::R1, 0x1234_85f6);
    let (rd, rm) = (Reg::R0, Reg::R1);
    run(&mut core, Instruction::SXTB { rd, rm });
    assert_eq!(core.get_r(Reg::R0), 0xffff_fff6);
    run(&mut core, Instruction::SXTH { rd, rm });
    assert_eq!(core.get_r(Reg::R0), 0xffff_85f6);
    run(&mut core, Instruction::UXTB { rd, rm });
    assert_eq!(core.get_r(Reg::R0), 0xf6);
    run(&mut core, Instruction::UXTH { rd, rm });
    assert_eq!(core.get_r(Reg::R0), 0x85f6);
    run(&mut core, Instruction::REV { rd, rm });
    assert_eq!(core.get_r(Reg::R0), 0xf685_3412);
    run(&mut core, Instruction::REV16 { rd, rm });
    assert_eq!(core.get_r(Reg::R0), 0x3412_f685);
    run(&mut core, Instruction::REVSH { rd, rm });
    assert_eq!(core.get_r(Reg::R0), 0xffff_f685);
    assert_eq!(rev(0x0102_0304), 0x0403_0201);
    assert_eq!(rev16(0x0102_0304), 0x0201_0403);
    assert_eq!(revsh(0x0000_8001), 0x0000_0180);
    assert_eq!(flags(&core), (false, false, false, false));
}

#[test]
fn push_then_pop_restores_the_registers() {
    let mut core = machine();
    let regs = [Reg::R0, Reg::R1, Reg::R2, Reg::R3, Reg::R4, Reg::R5, Reg::R6, Reg::R7, Reg::LR];
    for (i, r) in regs.iter().enumerate() {
        core.set_r(*r, 0xa000_0000 + i as u32);
    }
    let sp = core.get_r(Reg::SP);
    let registers: u16 = 0x40ff;
    run(&mut core, Instruction::PUSH { registers });
    assert_eq!(core.get_r(Reg::SP), sp - 36);
    assert_eq!(core.pc, 0x102);
    assert_eq!(core.read32(sp - 36), Ok(0xa000_0000));
    assert_eq!(core.read32(sp - 8), Ok(0xa000_0007));
    assert_eq!(core.read32(sp - 4), Ok(0xa000_0008));
    for r in regs.iter() {
        core.set_r(*r, 0);
    }
    run(&mut core, Instruction::POP { registers });
    for (i, r) in regs.iter().enumerate() {
        assert_eq!(core.get_r(*r), 0xa000_0000 + i as u32);
    }
    assert_eq!(core.get_r(Reg::SP), sp);
    assert_eq!(core.pc, 0x104);
}

#[test]
fn push_stores_in_ascending_register_order() {
    let mut core = machine();
    core.set_r(Reg::R2, 22);
    core.set_r(Reg::R5, 55);
    run(&mut core, Instruction::PUSH { registers: 0b10_0100 });
    assert_eq!(core.get_r(Reg::SP), 0x2000_0ff8);
    assert_eq!(core.read32(0x2000_0ff8), Ok(22));
    assert_eq!(core.read32(0x2000_0ffc), Ok(55));
}

#[test]
fn pop_of_the_pc_is_a_branch() {
    let mut core = machine();
    core.write32(0x2000_0ff8, 7).unwrap();
    core.write32(0x2000_0ffc, 0x0000_0161).unwrap();
    core.set_r(Reg::SP, 0x2000_0ff8);
    run(&mut core, Instruction::POP { registers: 0x8001 });
    assert_eq!(core.get_r(Reg::R0), 7);
    assert_eq!(core.pc, 0x160);
    assert_eq!(core.get_r(Reg::SP), 0x2000_1000);
}

#[test]
fn push_outside_ram_is_a_bus_fault() {
    let mut core = machine();
    core.set_r(Reg::SP, 0x2000_0004);
    let push = Instruction::PUSH { registers: 0b111 };
    assert_eq!(execute(&mut core, Some(push)), Err(Fault::BusFault));
    assert_eq!(core.pc, 0x100);
    assert_eq!(core.get_r(Reg::SP), 0x1fff_fff8);
    core.set_r(Reg::SP, 0x2002_0000);
    let pop = Instruction::POP { registers: 1 };
    assert_eq!(execute(&mut core, Some(pop)), Err(Fault::BusFault));
    assert_eq!(core.get_r(Reg::SP), 0x2002_0000);
    assert_eq!(core.pc, 0x100);
}

#[test]
fn load_and_store_multiple() {
    let mut core = machine();
    core.set_r(Reg::R0, 0x2000_0100);
    core.set_r(Reg::R1, 11);
    core.set_r(Reg::R2, 22);
    run(&mut core, Instruction::STM { rn: Reg::R0, registers: 0b110 });
    assert_eq!(core.get_r(Reg::R0), 0x2000_0108);
    assert_eq!(core.read32(0x2000_0100), Ok(11));
    assert_eq!(core.read32(0x2000_0104), Ok(22));
    core.set_r(Reg::R0, 0x2000_0100);
    run(&mut core, Instruction::LDM { rn: Reg::R0, registers: 0b11000 });
    assert_eq!(core.get_r(Reg::R3), 11);
    assert_eq!(core.get_r(Reg::R4), 22);
    assert_eq!(core.get_r(Reg::R0), 0x2000_0108);
    core.set_r(Reg::R0, 0x2000_0100);
    run(&mut core, Instruction::LDM { rn: Reg::R0, registers: 0b1001 });
    assert_eq!(core.get_r(Reg::R0), 11);
    assert_eq!(core.get_r(Reg::R3), 22);
    assert_eq!(core.pc, 0x106);
    assert_eq!(listed_count(0b1001), 2);
    assert!(listed(0b1001, 3));
    assert!(!listed(0b1001, 1));
}

#[test]
fn word_accesses_are_forced_to_alignment() {
    let mut core = machine();
    core.set_r(Reg::R1, 0x2000_0101);
    core.set_r(Reg::R0, 0xdead_beef);
    run(&mut core, Instruction::STR_imm { rt: Reg::R0, rn: Reg::R1, imm32: 4 });
    assert_eq!(core.read32(0x2000_0104), Ok(0xdead_beef));
    core.set_r(Reg::R1, 0x2000_0103);
    run(&mut core, Instruction::LDR_imm { rt: Reg::R2, rn: Reg::R1, imm32: 2 });
    assert_eq!(core.get_r(Reg::R2), 0xdead_beef);
    core.set_r(Reg::R3, 4);
    core.set_r(Reg::R1, 0x2000_0100);
    run(&mut core, Instruction::LDR_reg { rt: Reg::R4, rn: Reg::R1, rm: Reg::R3 });
    assert_eq!(core.get_r(Reg::R4), 0xdead_beef);
    run(&mut core, Instruction::STR_reg { rt: Reg::R3, rn: Reg::R1, rm: Reg::R3 });
    assert_eq!(core.read32(0x2000_0104), Ok(4));
    assert_eq!(core.pc, 0x108);
}

#[test]
fn byte_and_halfword_accesses() {
    let mut core = machine();
    core.set_r(Reg::R1, 0x2000_0100);
    core.set_r(Reg::R0, 0x1234_85f6);
    run(&mut core, Instruction::STRB_imm { rt: Reg::R0, rn: Reg::R1, imm32: 3 });
    assert_eq!(core.read32(0x2000_0100), Ok(0xf600_0000));
    run(&mut core, Instruction::LDRB_imm { rt: Reg::R2, rn: Reg::R1, imm32: 3 });
    assert_eq!(core.get_r(Reg::R2), 0xf6);
    run(&mut core, Instruction::STRH_imm { rt: Reg::R0, rn: Reg::R1, imm32: 8 });
    assert_eq!(core.read32(0x2000_0108), Ok(0x0000_85f6));
    run(&mut core, Instruction::LDRH_imm { rt: Reg::R2, rn: Reg::R1, imm32: 9 });
    assert_eq!(core.get_r(Reg::R2), 0x85f6);
    core.set_r(Reg::R3, 8);
    let (rn, rm) = (Reg::R1, Reg::R3);
    run(&mut core, Instruction::LDRSH_reg { rt: Reg::R4, rn, rm });
    assert_eq!(core.get_r(Reg::R4), 0xffff_85f6);
    run(&mut core, Instruction::LDRSB_reg { rt: Reg::R4, rn, rm });
    assert_eq!(core.get_r(Reg::R4), 0xffff_fff6);
    run(&mut core, Instruction::LDRB_reg { rt: Reg::R4, rn, rm });
    assert_eq!(core.get_r(Reg::R4), 0xf6);
    run(&mut core, Instruction::LDRH_reg { rt: Reg::R4, rn, rm });
    assert_eq!(core.get_r(Reg::R4), 0x85f6);
    core.set_r(Reg::R3, 0x10);
    run(&mut core, Instruction::STRB_reg { rt: Reg::R0, rn, rm });
    assert_eq!(core.read32(0x2000_0110), Ok(0x0000_00f6));
    core.set_r(Reg::R3, 0x21);
    run(&mut core, Instruction::STRH_reg { rt: Reg::R0, rn, rm });
    assert_eq!(core.read32(0x2000_0120), Ok(0x0000_85f6));
    let beyond = Instruction::STRH_reg { rt: Reg::R0, rn: Reg::R1, rm: Reg::R1 };
    assert_eq!(execute(&mut core, Some(beyond)), Err(Fault::BusFault));
}

#[test]
fn literal_loads_use_the_aligned_pc() {
    let mut code = vec![0u8; 0x200];
    code[4..8].copy_from_slice(&0x0000_0103u32.to_le_bytes());
    code[0x10c..0x110].copy_from_slice(&0xcafe_f00du32.to_le_bytes());
    let mut core = cortex_m0_core(&code);
    assert_eq!(core.pc, 0x102);
    run(&mut core, Instruction::LDR_lit { rt: Reg::R0, imm32: 8 });
    assert_eq!(core.get_r(Reg::R0), 0xcafe_f00d);
    assert_eq!(core.pc, 0x104);
}

#[test]
fn a_faulting_access_changes_nothing() {
    let mut core = machine();
    core.set_r(Reg::R1, 0x4000_0000);
    core.set_r(Reg::R0, 5);
    let load = Instruction::LDR_imm { rt: Reg::R0, rn: Reg::R1, imm32: 0 };
    assert_eq!(execute(&mut core, Some(load)), Err(Fault::BusFault));
    assert_eq!(core.get_r(Reg::R0), 5);
    assert_eq!(core.pc, 0x100);
    core.set_r(Reg::R1, 0);
    let store = Instruction::STR_imm { rt: Reg::R0, rn: Reg::R1, imm32: 0 };
    assert_eq!(execute(&mut core, Some(store)), Err(Fault::BusFault));
    assert_eq!(core.read32(0), Ok(0x2000_1000));
    assert_eq!(core.pc, 0x100);
}

#[test]
fn a_load_into_the_pc_is_an_interworking_branch() {
    let mut core = machine();
    core.write32(0x2000_0100, 0x0000_0181).unwrap();
    core.set_r(Reg::R1, 0x2000_0100);
    core.psr.set_t(false);
    run(&mut core, Instruction::LDR_imm { rt: Reg::PC, rn: Reg::R1, imm32: 0 });
    assert_eq!(core.pc, 0x180);
    assert!(core.psr.get_t());
}

#[test]
fn adr_adds_to_the_aligned_pc() {
    let mut core = machine();
    core.set_pc(0x1000);
    assert_eq!(core.get_r(Reg::PC), 0x1004);
    let adr = decode_16(0xa002);
    assert_eq!(adr, Some(Instruction::ADR { rd: Reg::R0, imm32: 8, thumb32: false }));
    assert_eq!(execute(&mut core, adr), Ok(None));
    assert_eq!(core.get_r(Reg::R0), (0x1004 & !0b11) + 8);
    assert_eq!(core.pc, 0x1002);
    core.set_pc(0x1002);
    run(&mut core, Instruction::ADR { rd: Reg::R1, imm32: 0x10, thumb32: true });
    assert_eq!(core.get_r(Reg::R1), 0x1014);
    assert_eq!(core.pc, 0x1006);
}

#[test]
fn hints_and_barriers_only_advance() {
    let mut core = machine();
    for hint in [
        Instruction::NOP,
        Instruction::SEV,
        Instruction::WFE,
        Instruction::WFI,
        Instruction::YIELD,
    ] {
        run(&mut core, hint);
    }
    assert_eq!(core.pc, 0x10a);
    for barrier in [Instruction::DMB, Instruction::DSB, Instruction::ISB] {
        run(&mut core, barrier);
    }
    assert_eq!(core.pc, 0x116);
}

#[test]
fn special_registers() {
    let mut core = machine();
    core.set_r(Reg::R0, 0xffff_ffff);
    run(&mut core, Instruction::MSR_reg { rn: Reg::R0, spec_reg: SpecialReg::APSR });
    assert_eq!(core.psr.value, 0xf900_0000);
    run(&mut core, Instruction::MRS { rd: Reg::R1, spec_reg: SpecialReg::XPSR });
    assert_eq!(core.get_r(Reg::R1), 0xf800_0000);
    run(&mut core, Instruction::MSR_reg { rn: Reg::R0, spec_reg: SpecialReg::PSP });
    assert_eq!(core.psp, 0xffff_fffc);
    run(&mut core, Instruction::MSR_reg { rn: Reg::R0, spec_reg: SpecialReg::PRIMASK });
    assert!(core.primask);
    run(&mut core, Instruction::MRS { rd: Reg::R1, spec_reg: SpecialReg::PRIMASK });
    assert_eq!(core.get_r(Reg::R1), 1);
    run(&mut core, Instruction::MSR_reg { rn: Reg::R0, spec_reg: SpecialReg::CONTROL });
    assert!(core.control.n_priv && core.control.sp_sel);
    run(&mut core, Instruction::MRS { rd: Reg::R1, spec_reg: SpecialReg::CONTROL });
    assert_eq!(core.get_r(Reg::R1), 3);
    run(&mut core, Instruction::MRS { rd: Reg::R1, spec_reg: SpecialReg::MSP });
    assert_eq!(core.get_r(Reg::R1), 0x2000_1000);
    core.psr.value |= 15;
    run(&mut core, Instruction::MRS { rd: Reg::R1, spec_reg: SpecialReg::IPSR });
    assert_eq!(core.get_r(Reg::R1), 15);
    run(&mut core, Instruction::MRS { rd: Reg::R1, spec_reg: SpecialReg::EPSR });
    assert_eq!(core.get_r(Reg::R1), 0);
    core.mode = ProcessorMode::HandlerMode;
    core.set_r(Reg::R0, 0);
    run(&mut core, Instruction::MSR_reg { rn: Reg::R0, spec_reg: SpecialReg::CONTROL });
    assert!(!core.control.n_priv && core.control.sp_sel);
    run(&mut core, Instruction::CPS { im: false });
    assert!(!core.primask);
    run(&mut core, Instruction::CPS { im: true });
    assert!(core.primask);
}

#[test]
fn supervisor_call_pends_its_exception() {
    let mut core = machine();
    run(&mut core, Instruction::SVC { imm32: 3 });
    assert!(core.is_exception_pending(Exception::SVCall));
    assert_eq!(core.pc, 0x102);
}

#[test]
fn breakpoints_and_semihosting_traps() {
    let mut core = machine();
    core.set_r(Reg::R0, 0x18);
    core.set_r(Reg::R1, 0x20026);
    run(&mut core, Instruction::BKPT { imm32: 1 });
    assert_eq!(core.pc, 0x102);
    assert_eq!(
        execute(&mut core, Some(Instruction::BKPT { imm32: 0xab })),
        Ok(Some(SemihostingCommand::SysException { reason: 0x20026 }))
    );
    assert_eq!(core.pc, 0x104);
    core.set_r(Reg::R0, 0x03);
    core.set_r(Reg::R1, 0x5000_0000);
    assert_eq!(
        execute(&mut core, Some(Instruction::BKPT { imm32: 0xab })),
        Err(Fault::BusFault)
    );
    assert_eq!(core.pc, 0x104);
}

#[test]
fn fetching_one_or_two_halfwords() {
    let mut code = vec![0u8; 0x200];
    code[4..8].copy_from_slice(&0x0000_0101u32.to_le_bytes());
    code[0x100..0x102].copy_from_slice(&0xbf00u16.to_le_bytes());
    code[0x102..0x104].copy_from_slice(&0xf000u16.to_le_bytes());
    code[0x104..0x106].copy_from_slice(&0xf802u16.to_le_bytes());
    let core = cortex_m0_core(&code);
    assert_eq!(core.fetch(0x100), Ok(ThumbCode::Thumb16 { opcode: 0xbf00 }));
    assert_eq!(core.fetch(0x102), Ok(ThumbCode::Thumb32 { opcode: 0xf000_f802 }));
    assert_eq!(core.fetch(0x8000), Err(Fault::BusFault));
    assert_eq!(core.fetch(0xffff_fffe), Err(Fault::BusFault));
}

#[test]
fn stepping_through_a_program() {
    let mut code = vec![0u8; 0x200];
    code[0..4].copy_from_slice(&0x2000_1000u32.to_le_bytes());
    code[4..8].copy_from_slice(&0x0000_0101u32.to_le_bytes());
    let program: [u16; 6] = [0x2005, 0x2103, 0x1840, 0xf000, 0xf800, 0xb100];
    for (i, hw) in program.iter().enumerate() {
        code[0x100 + 2 * i..0x102 + 2 * i].copy_from_slice(&hw.to_le_bytes());
    }
    let mut core = cortex_m0_core(&code);
    let first = core.step().unwrap();
    assert_eq!(first.pc, 0x100);
    assert_eq!(
        first.instruction,
        Instruction::MOV_imm { rd: Reg::R0, imm32: 5, setflags: true }
    );
    assert_eq!(first.command, None);
    core.run().unwrap();
    let third = core.step().unwrap();
    assert_eq!(third.instruction, Instruction::ADDS { rd: Reg::R0, rn: Reg::R0, rm: Reg::R1 });
    assert_eq!(core.get_r(Reg::R0), 8);
    assert_eq!(core.pc, 0x106);
    let fourth = core.step().unwrap();
    assert_eq!(fourth.instruction, Instruction::BL { imm32: 0 });
    assert_eq!(core.pc, 0x10a);
    assert_eq!(core.get_r(Reg::LR), 0x10b);
    assert_eq!(core.step().err(), Some(Fault::UndefinedInstruction));
    assert_eq!(core.pc, 0x10a);
}

#[test]
fn a_step_ticks_the_timer_once() {
    let mut code = vec![0u8; 0x200];
    code[4..8].copy_from_slice(&0x0000_0101u32.to_le_bytes());
    for i in 0..8 {
        code[0x100 + 2 * i..0x102 + 2 * i].copy_from_slice(&0xbf00u16.to_le_bytes());
    }
    let mut core = cortex_m0_core(&code);
    core.write_syst_rvr(3);
    core.write_syst_csr(3);
    core.step().unwrap();
    assert_eq!(core.read_syst_cvr(), 2);
    core.run().unwrap();
    assert_eq!(core.read_syst_cvr(), 2);
    core.step().unwrap();
    assert!(!core.is_exception_pending(Exception::SysTick));
    core.step().unwrap();
    assert_eq!(core.read_syst_cvr(), 3);
    assert!(core.is_exception_pending(Exception::SysTick));
}
