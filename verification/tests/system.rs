use zmu_cortex_m::base_reg::BaseReg;
use zmu_cortex_m::bus::{
    AHBLite, Bus, BusMatrix, InternalBus, SYST_COUNTFLAG, SYST_ENABLE, SYST_TICKINT,
};
use zmu_cortex_m::device::cortex_m0_core;
use zmu_cortex_m::exception::{
    Exception, ExceptionHandling, EXC_RETURN_HANDLER, EXC_RETURN_THREAD_MSP,
    EXC_RETURN_THREAD_PSP,
};
use zmu_cortex_m::fault::Fault;
use zmu_cortex_m::memory::{FlashMemory, RAM};
use zmu_cortex_m::processor::{Core, ProcessorMode};
use zmu_cortex_m::psr::{Epsr, Ipsr, Profile};
use zmu_cortex_m::register::Reg;
use zmu_cortex_m::semihosting::{
    semihost_request, semihost_return, SemihostingCommand, SemihostingResponse,
};
use zmu_cortex_m::systick::SysTick;

fn image(words: &[u32]) -> Vec<u8> {
    let mut code = Vec::new();
    for word in words {
        code.extend_from_slice(&word.to_le_bytes());
    }
    code
}

#[test]
fn reset_reads_the_vector_table() {
    let core = cortex_m0_core(&image(&[0x2000_1000, 0x0000_0101]));
    assert_eq!(core.msp, 0x2000_1000);
    assert_eq!(core.pc, 0x100);
    assert!(core.psr.get_t());
    assert_eq!(core.get_r(Reg::SP), 0x2000_1000);
    assert_eq!(core.get_r(Reg::PC), 0x104);
    assert!(core.running);
    assert_eq!(core.mode, ProcessorMode::ThreadMode);
}

#[test]
fn reset_clears_the_thumb_bit_for_an_even_vector() {
    let mut core = cortex_m0_core(&image(&[0x2000_1000, 0x0000_0101]));
    core.bus = BusMatrix::new(
        InternalBus::new(),
        AHBLite::new(
            {
                let mut flash = FlashMemory::new(0, 64);
                flash.load(&image(&[0x2000_2000, 0x0000_0200]));
                flash
            },
            RAM::new(0x2000_0000, 64),
        ),
    );
    assert_eq!(core.reset(), Ok(()));
    assert_eq!(core.msp, 0x2000_2000);
    assert_eq!(core.pc, 0x200);
    assert!(!core.psr.get_t());
}

#[test]
fn reset_without_a_vector_table_is_a_bus_fault() {
    let bus = BusMatrix::new(
        InternalBus::new(),
        AHBLite::new(FlashMemory::new(0x1000, 64), RAM::new(0x2000_0000, 64)),
    );
    let mut core = Core::new(bus, Profile::ArmV7M);
    core.pc = 0x44;
    assert_eq!(core.reset(), Err(Fault::BusFault));
    assert_eq!(core.pc, 0x44);
    assert_eq!(core.msp, 0);
}

#[test]
fn every_register_reads_back_what_was_set() {
    let mut core = cortex_m0_core(&image(&[0, 0]));
    let regs = [
        Reg::R0,
        Reg::R1,
        Reg::R2,
        Reg::R3,
        Reg::R4,
        Reg::R5,
        Reg::R6,
        Reg::R7,
        Reg::R8,
        Reg::R9,
        Reg::R10,
        Reg::R11,
        Reg::R12,
        Reg::SP,
        Reg::LR,
    ];
    for (i, r) in regs.iter().enumerate() {
        core.set_r(*r, 0x1000_0000 + i as u32);
    }
    for (i, r) in regs.iter().enumerate() {
        assert_eq!(core.get_r(*r), 0x1000_0000 + i as u32);
    }
    for value in [0u32, 1, 0x7fff_ffff, 0x8000_0000, 0xffff_ffff] {
        core.set_r(Reg::R5, value);
        assert_eq!(core.get_r(Reg::R5), value);
    }
}

#[test]
fn the_stack_pointer_is_banked() {
    let mut core = cortex_m0_core(&image(&[0, 0]));
    core.set_msp(0x100);
    core.set_psp(0x200);
    assert_eq!(core.get_r(Reg::SP), 0x100);
    core.control.sp_sel = true;
    assert_eq!(core.get_r(Reg::SP), 0x200);
    core.set_r(Reg::SP, 0x300);
    assert_eq!(core.get_psp(), 0x300);
    assert_eq!(core.get_msp(), 0x100);
    core.add_r(Reg::SP, 8);
    assert_eq!(core.get_psp(), 0x308);
    core.control.sp_sel = false;
    core.sub_r(Reg::SP, 0x10);
    assert_eq!(core.get_msp(), 0xf0);
}

#[test]
fn the_pc_reads_four_ahead() {
    let mut core = cortex_m0_core(&image(&[0, 0]));
    core.branch_write_pc(0x1001);
    assert_eq!(core.get_pc(), 0x1000);
    assert_eq!(core.get_r(Reg::PC), 0x1004);
    core.set_pc(0xffff_fffe);
    assert_eq!(core.get_r(Reg::PC), 2);
    core.set_pc(0x20);
    core.add_pc(2);
    assert_eq!(core.get_pc(), 0x22);
    core.add_r(Reg::PC, 4);
    assert_eq!(core.get_pc(), 0x26);
    core.sub_r(Reg::PC, 6);
    assert_eq!(core.get_pc(), 0x20);
}

#[test]
fn add_and_subtract_wrap() {
    let mut core = cortex_m0_core(&image(&[0, 0]));
    core.set_r(Reg::R1, 0xffff_ffff);
    core.add_r(Reg::R1, 2);
    assert_eq!(core.get_r(Reg::R1), 1);
    core.sub_r(Reg::R1, 3);
    assert_eq!(core.get_r(Reg::R1), 0xffff_fffe);
    core.set_r(Reg::LR, 5);
    core.add_r(Reg::LR, 5);
    assert_eq!(core.get_r(Reg::LR), 10);
}

#[test]
fn interworking_branches_set_the_thumb_bit() {
    let mut core = cortex_m0_core(&image(&[0, 0]));
    core.blx_write_pc(0x2001);
    assert_eq!(core.get_pc(), 0x2000);
    assert!(core.psr.get_t());
    core.blx_write_pc(0x3000);
    assert_eq!(core.get_pc(), 0x3000);
    assert!(!core.psr.get_t());
    core.branch_write_pc(0x4001);
    assert_eq!(core.get_pc(), 0x4000);
    assert!(!core.psr.get_t());
    assert_eq!(core.bx_write_pc(0xffff_fff9), Ok(()));
    assert_eq!(core.get_pc(), 0xffff_fff8);
    assert_eq!(core.load_write_pc(0x5001), Ok(()));
    assert_eq!(core.get_pc(), 0x5000);
}

fn stacked_frame(core: &mut Core, at: u32) {
    let frame = [11u32, 22, 33, 44, 55, 0x66, 0x0000_0301, 0x6100_0000];
    for (i, word) in frame.iter().enumerate() {
        core.write32(at + 4 * i as u32, *word).unwrap();
    }
}

#[test]
fn exception_return_to_thread_mode_on_the_main_stack() {
    let mut core = cortex_m0_core(&image(&[0x2000_1000, 0x101]));
    stacked_frame(&mut core, 0x2000_0800);
    core.msp = 0x2000_0800;
    core.mode = ProcessorMode::HandlerMode;
    core.psr.set_isr_number(15);
    assert_eq!(core.bx_write_pc(0xffff_fff9), Ok(()));
    assert_eq!(core.mode, ProcessorMode::ThreadMode);
    assert!(!core.control.sp_sel);
    assert_eq!(core.msp, 0x2000_0820);
    assert_eq!(core.get_r(Reg::R0), 11);
    assert_eq!(core.get_r(Reg::R1), 22);
    assert_eq!(core.get_r(Reg::R2), 33);
    assert_eq!(core.get_r(Reg::R3), 44);
    assert_eq!(core.get_r(Reg::R12), 55);
    assert_eq!(core.get_r(Reg::LR), 0x66);
    assert_eq!(core.get_pc(), 0x300);
    assert_eq!(core.psr.value, 0x6100_0000);
    assert_eq!(core.psr.get_isr_number(), 0);
}

#[test]
fn exception_return_to_the_process_stack_and_to_handler_mode() {
    let mut core = cortex_m0_core(&image(&[0x2000_1000, 0x101]));
    stacked_frame(&mut core, 0x2000_0400);
    core.psp = 0x2000_0400;
    core.msp = 0x2000_0f00;
    assert_eq!(core.exception_return(EXC_RETURN_THREAD_PSP), Ok(()));
    assert!(core.control.sp_sel);
    assert_eq!(core.psp, 0x2000_0420);
    assert_eq!(core.msp, 0x2000_0f00);
    assert_eq!(core.mode, ProcessorMode::ThreadMode);

    stacked_frame(&mut core, 0x2000_0f00);
    assert_eq!(core.exception_return(EXC_RETURN_HANDLER), Ok(()));
    assert_eq!(core.mode, ProcessorMode::HandlerMode);
    assert!(!core.control.sp_sel);
    assert_eq!(core.msp, 0x2000_0f20);
    assert_eq!(EXC_RETURN_THREAD_MSP, 0x0fff_fff9);
}

#[test]
fn exception_return_with_an_unknown_payload_is_a_fault() {
    let mut core = cortex_m0_core(&image(&[0x2000_1000, 0x101]));
    core.mode = ProcessorMode::HandlerMode;
    core.pc = 0x40;
    assert_eq!(core.bx_write_pc(0xffff_fff5), Err(Fault::InvalidExceptionReturn));
    assert_eq!(core.exception_return(0), Err(Fault::InvalidExceptionReturn));
    assert_eq!(core.exception_return(0x0fff_ff09), Err(Fault::InvalidExceptionReturn));
    assert_eq!(core.pc, 0x40);
    assert_eq!(core.mode, ProcessorMode::HandlerMode);
}

#[test]
fn exception_return_with_an_unreadable_frame_is_a_bus_fault() {
    let mut core = cortex_m0_core(&image(&[0x2000_1000, 0x101]));
    core.mode = ProcessorMode::HandlerMode;
    core.msp = 0x2001_fff0;
    core.pc = 0x40;
    assert_eq!(core.bx_write_pc(0xffff_fff9), Err(Fault::BusFault));
    assert_eq!(core.pc, 0x40);
    assert_eq!(core.msp, 0x2001_fff0);
    assert_eq!(core.mode, ProcessorMode::HandlerMode);
}

#[test]
fn exceptions_have_their_numbers() {
    assert_eq!(Exception::Reset.number(), 1);
    assert_eq!(Exception::NMI.number(), 2);
    assert_eq!(Exception::HardFault.number(), 3);
    assert_eq!(Exception::SVCall.number(), 11);
    assert_eq!(Exception::PendSV.number(), 14);
    assert_eq!(Exception::SysTick.number(), 15);
    assert_eq!(Exception::Interrupt { n: 0 }.number(), 16);
    assert_eq!(Exception::Interrupt { n: 255 }.number(), 271);
    assert_eq!(Exception::from_number(15), Some(Exception::SysTick));
    assert_eq!(Exception::from_number(20), Some(Exception::Interrupt { n: 4 }));
    assert_eq!(Exception::from_number(271), Some(Exception::Interrupt { n: 255 }));
    assert_eq!(Exception::from_number(0), None);
    assert_eq!(Exception::from_number(4), None);
    assert_eq!(Exception::from_number(272), None);
}

#[test]
fn pending_marks_are_kept_for_each_exception() {
    let mut core = cortex_m0_core(&image(&[0, 0]));
    assert!(!core.is_exception_pending(Exception::SysTick));
    core.set_exception_pending(Exception::SysTick);
    core.set_exception_pending(Exception::Interrupt { n: 255 });
    assert!(core.is_exception_pending(Exception::SysTick));
    assert!(core.is_exception_pending(Exception::Interrupt { n: 255 }));
    assert!(!core.is_exception_pending(Exception::PendSV));
    core.clear_exception_pending(Exception::SysTick);
    assert!(!core.is_exception_pending(Exception::SysTick));
    assert!(core.is_exception_pending(Exception::Interrupt { n: 255 }));
}

#[test]
fn the_timer_counts_down_reloads_and_raises() {
    let mut core = cortex_m0_core(&image(&[0, 0]));
    core.write_syst_rvr(10);
    core.write_syst_csr(SYST_ENABLE | SYST_TICKINT);
    assert_eq!(core.read_syst_cvr(), 10);
    for step in 1..10u32 {
        core.syst_step();
        assert_eq!(core.read_syst_cvr(), 10 - step);
        assert_eq!(core.read_syst_csr() & SYST_COUNTFLAG, 0);
        assert!(!core.is_exception_pending(Exception::SysTick));
    }
    core.syst_step();
    assert_eq!(core.read_syst_cvr(), 10);
    assert_eq!(core.read_syst_csr() & SYST_COUNTFLAG, SYST_COUNTFLAG);
    assert!(core.is_exception_pending(Exception::SysTick));
}

#[test]
fn the_timer_without_tickint_raises_nothing() {
    let mut core = cortex_m0_core(&image(&[0, 0]));
    core.write_syst_rvr(2);
    core.write_syst_csr(SYST_ENABLE);
    core.syst_step();
    core.syst_step();
    assert_eq!(core.read_syst_cvr(), 2);
    assert_eq!(core.read_syst_csr(), SYST_ENABLE | SYST_COUNTFLAG);
    assert!(!core.is_exception_pending(Exception::SysTick));
}

#[test]
fn the_disabled_timer_stands_still() {
    let mut core = cortex_m0_core(&image(&[0, 0]));
    core.write_syst_rvr(0x0123_4567);
    assert_eq!(core.read_syst_rvr(), 0x0023_4567);
    core.syst_step();
    assert_eq!(core.read_syst_cvr(), 0);
    assert_eq!(core.read_syst_csr(), 0);
    assert_eq!(core.read_syst_calib(), 0);
}

#[test]
fn timer_register_writes() {
    let mut core = cortex_m0_core(&image(&[0, 0]));
    core.write_syst_rvr(5);
    core.write_syst_csr(0xffff_fff9);
    assert_eq!(core.read_syst_csr(), 1);
    assert_eq!(core.read_syst_cvr(), 5);
    core.syst_step();
    assert_eq!(core.read_syst_cvr(), 4);
    core.write_syst_rvr(9);
    core.write_syst_csr(1);
    assert_eq!(core.read_syst_cvr(), 4);
    core.write_syst_csr(0);
    core.write_syst_csr(3);
    assert_eq!(core.read_syst_cvr(), 9);
    assert_eq!(core.read_syst_csr(), 3);
    core.bus.internal.syst_csr |= SYST_COUNTFLAG;
    core.write_syst_cvr(1234);
    assert_eq!(core.read_syst_cvr(), 0);
    assert_eq!(core.read_syst_csr(), 3);
    core.syst_step();
    assert_eq!(core.read_syst_cvr(), 9);
    assert!(core.is_exception_pending(Exception::SysTick));
}

#[test]
fn semihosting_requests_are_decoded_from_the_guest() {
    let mut core = cortex_m0_core(&image(&[0x2000_1000, 0x101]));
    core.set_r(Reg::R0, 0x03);
    core.set_r(Reg::R1, 0x2000_0040);
    core.write8(0x2000_0040, b'x').unwrap();
    assert_eq!(semihost_request(&core), Ok(Some(SemihostingCommand::SysWritec { byte: b'x' })));

    core.write32(0x2000_0100, 2).unwrap();
    core.write32(0x2000_0104, 0x2000_0200).unwrap();
    core.write32(0x2000_0108, 5).unwrap();
    for (i, byte) in b"hello".iter().enumerate() {
        core.write8(0x2000_0200 + i as u32, *byte).unwrap();
    }
    core.set_r(Reg::R0, 0x05);
    core.set_r(Reg::R1, 0x2000_0100);
    assert_eq!(
        semihost_request(&core),
        Ok(Some(SemihostingCommand::SysWrite { handle: 2, data: b"hello".to_vec() }))
    );

    core.set_r(Reg::R0, 0x18);
    core.set_r(Reg::R1, 0x20026);
    assert_eq!(
        semihost_request(&core),
        Ok(Some(SemihostingCommand::SysException { reason: 0x20026 }))
    );

    core.set_r(Reg::R0, 0x01);
    assert_eq!(semihost_request(&core), Ok(None));

    core.set_r(Reg::R0, 0x05);
    core.set_r(Reg::R1, 0x3000_0000);
    assert_eq!(semihost_request(&core), Err(Fault::BusFault));
    core.write32(0x2000_0108, 0x0100_0000).unwrap();
    core.set_r(Reg::R1, 0x2000_0100);
    assert_eq!(semihost_request(&core), Err(Fault::BusFault));
}

#[test]
fn semihosting_responses_are_delivered_to_the_guest() {
    let mut core = cortex_m0_core(&image(&[0x2000_1000, 0x101]));
    core.set_r(Reg::R0, 77);
    semihost_return(&mut core, &SemihostingResponse::SysWritec);
    assert_eq!(core.get_r(Reg::R0), 77);
    semihost_return(&mut core, &SemihostingResponse::SysWrite { result: Ok(3) });
    assert_eq!(core.get_r(Reg::R0), 3);
    semihost_return(&mut core, &SemihostingResponse::SysWrite { result: Err(-1) });
    assert_eq!(core.get_r(Reg::R0), 0xffff_ffff);
    semihost_return(&mut core, &SemihostingResponse::SysException { success: false, stop: false });
    assert_eq!(core.get_r(Reg::R0), 0xffff_ffff);
    assert!(core.running);
    semihost_return(&mut core, &SemihostingResponse::SysException { success: true, stop: true });
    assert_eq!(core.get_r(Reg::R0), 0);
    assert!(!core.running);
}
