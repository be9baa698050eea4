//! Laws that relate the operations of the simulator to each other.

use crate::bits::lemma_low_masks;
use crate::bits::lemma_with_bits_read_back;
use crate::bits::spec_bits;
use crate::bus::lemma_block_read_back;
use crate::bus::lemma_ram_word_read_back;
use crate::decoder::spec_reg_at;
use crate::bus::BusView;
use crate::bus::InternalBus;
use crate::bus::SYST_COUNTFLAG;
use crate::bus::SYST_TICKINT;
use crate::bus::SYST_VALUE_MASK;
use crate::executor::lemma_every_instruction_is_carried_out;
use crate::executor::lemma_listed_below_bounds;
use crate::executor::lemma_listed_values_len;
use crate::executor::spec_listed;
use crate::executor::spec_listed_below;
use crate::fault::Fault;
use crate::instruction::Instruction;
use crate::operation::lemma_complement;
use crate::operation::lemma_sign_bit;
use crate::operation::spec_add_with_carry;
use crate::processor::CoreState;
use crate::psr::lemma_flag_write;
use crate::psr::PSR;
use crate::psr::PSR_C;
use crate::psr::PSR_N;
use crate::psr::PSR_V;
use crate::psr::PSR_Z;
use crate::register::Reg;
use vstd::prelude::*;

verus! {

/// A register that was set reads back as the value it was set to, and every
/// other register reads as before.
pub proof fn lemma_set_then_get(state: CoreState, r: Reg, value: u32, other: Reg)
    requires
        state.wf(),
        r != Reg::PC,
    ensures
        state.with_stored(r, value).reg(r) == value,
        state.with_stored(r, value).wf(),
        other != r ==> state.with_stored(r, value).reg(other) == state.reg(other),
{
}

/// The PC reads as the stored address plus 4, whichever operation stored
/// it: a branch, an interworking branch or a reset.
pub proof fn lemma_pc_reads_ahead(state: CoreState, address: u32, initial_sp: u32)
    ensures
        state.reg(Reg::PC) == state.pc.wrapping_add(4),
        state.pc <= 0xffff_fffb ==> state.reg(Reg::PC) == state.pc + 4,
        state.branched(address).reg(Reg::PC) == (address & 0xffff_fffe).wrapping_add(4),
        state.exchanged(address).reg(Reg::PC) == (address & 0xffff_fffe).wrapping_add(4),
        state.after_reset(initial_sp, address).reg(Reg::PC) == (address & 0xffff_fffe).wrapping_add(
            4,
        ),
{
}

/// The four condition flags after they were set from a result, a carry and
/// an overflow.
pub proof fn lemma_flags_after_nzcv(psr: PSR, result: u32, carry: bool, overflow: bool)
    ensures
        psr.with_nzcv(result, carry, overflow).flag(PSR_N as nat) == (result >= 0x8000_0000u32),
        psr.with_nzcv(result, carry, overflow).flag(PSR_Z as nat) == (result == 0),
        psr.with_nzcv(result, carry, overflow).flag(PSR_C as nat) == carry,
        psr.with_nzcv(result, carry, overflow).flag(PSR_V as nat) == overflow,
{
    lemma_sign_bit(result);
    let n = psr.with_flag(PSR_N as nat, result >= 0x8000_0000u32);
    let z = n.with_flag(PSR_Z as nat, result == 0);
    let c = z.with_flag(PSR_C as nat, carry);
    lemma_flag_write(psr, 31, result >= 0x8000_0000u32, 31);
    lemma_flag_write(n, 30, result == 0, 31);
    lemma_flag_write(n, 30, result == 0, 30);
    lemma_flag_write(z, 29, carry, 31);
    lemma_flag_write(z, 29, carry, 30);
    lemma_flag_write(z, 29, carry, 29);
    lemma_flag_write(c, 28, overflow, 31);
    lemma_flag_write(c, 28, overflow, 30);
    lemma_flag_write(c, 28, overflow, 29);
    lemma_flag_write(c, 28, overflow, 28);
}

/// Comparing two registers that hold the same value sets Z and C and clears
/// N and V, changes no register, and moves the PC past the instruction.
pub proof fn lemma_compare_of_equals(state: CoreState, rn: Reg, rm: Reg)
    requires
        state.reg(rn) == state.reg(rm),
    ensures
        ({
            let (after, done) = state.performed(Instruction::CMP { rn, rm });
            &&& done == Ok::<Option<crate::semihosting::CommandView>, Fault>(None)
            &&& after.psr.flag(PSR_Z as nat)
            &&& after.psr.flag(PSR_C as nat)
            &&& !after.psr.flag(PSR_N as nat)
            &&& !after.psr.flag(PSR_V as nat)
            &&& after == (CoreState { psr: after.psr, pc: state.pc.wrapping_add(2), ..state })
        }),
{
    let x = state.reg(rn);
    lemma_complement(x);
    let (result, carry, overflow) = spec_add_with_carry(x, !x, true);
    assert(result == 0 && carry && !overflow);
    lemma_flags_after_nzcv(state.psr, result, carry, overflow);
}

/// A write to an address that the flash owns is refused with a bus fault,
/// whatever its width, so that nothing that is read afterwards has changed.
pub proof fn lemma_flash_is_read_only(bus: BusView, addr: u32, byte: u8, half: u16, word: u32)
    requires
        bus.ahb.flash.covers(addr, 1),
        !bus.internal.covers(addr),
    ensures
        bus.write8(addr, byte) == Err::<BusView, Fault>(Fault::BusFault),
        bus.write16(addr, half) == Err::<BusView, Fault>(Fault::BusFault),
        bus.write32(addr, word) == Err::<BusView, Fault>(Fault::BusFault),
{
}

/// The timer's registers after `count` clock ticks.
pub open spec fn spec_ticks(timer: InternalBus, count: nat) -> InternalBus
    decreases count,
{
    if count == 0 {
        timer
    } else {
        spec_ticks(timer, (count - 1) as nat).ticked()
    }
}

proof fn timer_facts(count: u32, csr: u32)
    by (bit_vector)
    ensures
        count <= 0x00ff_ffffu32 ==> count & 0x00ff_ffffu32 == count,
        ((csr | 0x1_0000u32) & 2u32 == 2u32) == (csr & 2u32 == 2u32),
        (csr | 0x1_0000u32) & 1u32 == csr & 1u32,
{
}

/// While the enabled timer has not reached 1, each tick takes one off the
/// count, changes nothing else, and raises nothing.
pub proof fn lemma_timer_counts_down(timer: InternalBus, count: nat)
    requires
        timer.enabled(),
        count < timer.syst_cvr <= SYST_VALUE_MASK,
    ensures
        spec_ticks(timer, count) == (InternalBus {
            syst_cvr: (timer.syst_cvr - count) as u32,
            ..timer
        }),
        forall|earlier: nat| earlier < count ==> !(#[trigger] spec_ticks(timer, earlier)).raises(),
    decreases count,
{
    if count > 0 {
        lemma_timer_counts_down(timer, (count - 1) as nat);
        let before = spec_ticks(timer, (count - 1) as nat);
        timer_facts((before.syst_cvr - 1) as u32, timer.syst_csr);
        assert forall|earlier: nat| earlier < count implies !(#[trigger] spec_ticks(
            timer,
            earlier,
        )).raises() by {
            if earlier == count - 1 {
                assert(before.ticked_count() == before.syst_cvr - 1);
            }
        }
    }
}

/// The tick that takes the enabled timer from 1 to 0 reloads the count,
/// sets COUNTFLAG, and raises the exception exactly where TICKINT is set.
pub proof fn lemma_timer_expires(timer: InternalBus)
    requires
        timer.enabled(),
        timer.syst_cvr <= 1,
    ensures
        timer.ticked() == (InternalBus {
            syst_cvr: timer.syst_rvr & SYST_VALUE_MASK,
            syst_csr: timer.syst_csr | SYST_COUNTFLAG,
            ..timer
        }),
        timer.ticked().enabled(),
        timer.raises() == (timer.syst_csr & SYST_TICKINT == SYST_TICKINT),
{
    timer_facts(0, timer.syst_csr);
}

/// Loading listed registers changes registers only.
pub proof fn lemma_with_listed_frame(state: CoreState, registers: u16, words: Seq<u32>, upto: nat)
    requires
        state.wf(),
    ensures
        ({
            let after = state.with_listed(registers, words, upto);
            &&& after.wf()
            &&& after == (CoreState {
                r0_12: after.r0_12,
                msp: after.msp,
                psp: after.psp,
                lr: after.lr,
                pc: after.pc,
                ..state
            })
        }),
    decreases upto,
{
    if upto > 0 {
        lemma_with_listed_frame(state, registers, words, (upto - 1) as nat);
    }
}

/// After listed registers were loaded, a listed register holds the word at
/// its place in the block, the PC without bit 0, and any other register
/// holds what it held.
pub proof fn lemma_with_listed_stored(
    state: CoreState,
    registers: u16,
    words: Seq<u32>,
    upto: nat,
    r: Reg,
)
    requires
        state.wf(),
        upto <= 16,
    ensures
        state.with_listed(registers, words, upto).stored(r) == (if r.spec_value() < upto
            && spec_listed(registers, r.spec_value() as nat) {
            let word = words[spec_listed_below(registers, r.spec_value() as nat) as int];
            if r == Reg::PC {
                word & 0xffff_fffe
            } else {
                word
            }
        } else {
            state.stored(r)
        }),
    decreases upto,
{
    if upto > 0 {
        lemma_with_listed_stored(state, registers, words, (upto - 1) as nat, r);
        lemma_with_listed_frame(state, registers, words, (upto - 1) as nat);
    }
}

/// The value gathered for a listed register stands at the register's place
/// in the block: as many places in as registers below it are listed.
pub proof fn lemma_listed_values_index(state: CoreState, registers: u16, upto: nat, index: nat)
    requires
        index < upto <= 16,
        spec_listed(registers, index),
    ensures
        spec_listed_below(registers, index) < state.listed_values(registers, upto).len(),
        state.listed_values(registers, upto)[spec_listed_below(registers, index) as int]
            == state.stored(Reg::spec_from(index as int)),
    decreases upto,
{
    lemma_listed_values_len(state, registers, (upto - 1) as nat);
    lemma_listed_values_len(state, registers, upto);
    if index < upto - 1 {
        lemma_listed_values_index(state, registers, (upto - 1) as nat, index);
    }
}

/// PUSH of a register list followed by POP of the same list gives every
/// register but the PC the value it had, the stack pointer included, where
/// the block below the stack pointer lies in RAM. The PC has moved past both
/// instructions, or holds its old value without bit 0 where it was listed.
/// Nothing else has changed but the contents of the RAM.
pub proof fn lemma_push_then_pop(state: CoreState, registers: u16, size: u32, r: Reg)
    requires
        state.wf(),
        state.sp() >= 4 * spec_listed_below(registers, 16),
        state.bus.ram_block(
            (state.sp() - 4 * spec_listed_below(registers, 16)) as u32,
            spec_listed_below(registers, 16),
        ),
    ensures
        state.pushed(registers, size).1 is Ok,
        state.pushed(registers, size).0.popped(registers, size) is Ok,
        ({
            let after = state.pushed(registers, size).0.popped(registers, size)->Ok_0;
            &&& r != Reg::PC ==> after.stored(r) == state.stored(r)
            &&& after.sp() == state.sp()
            &&& after.pc == (if spec_listed(registers, 15) {
                state.pc & 0xffff_fffe
            } else {
                state.pc.wrapping_add(size).wrapping_add(size)
            })
            &&& after.psr == state.psr
            &&& after.control == state.control
            &&& after.mode == state.mode
            &&& after.primask == state.primask
            &&& after.pending == state.pending
            &&& after.running == state.running
            &&& after.bus.same_but_ram_contents(state.bus)
        }),
{
    let count = spec_listed_below(registers, 16);
    let words = state.listed_values(registers, 16);
    lemma_listed_values_len(state, registers, 16);
    let new_sp = (state.sp() - 4 * count) as u32;
    assert(state.sp().wrapping_sub((4 * words.len()) as u32) == new_sp);
    lemma_block_read_back(state.bus, new_sp, words);
    let pushed = state.pushed(registers, size).0;
    assert(pushed.wf());
    lemma_pop_restores_what_push_stored(state, pushed, registers, size, r);
}

/// ADR gives the register the PC as the instruction reads it, with its low
/// two bits cleared, plus the offset.
pub proof fn lemma_adr_adds_to_the_aligned_pc(state: CoreState, rd: Reg, imm32: u32, thumb32: bool)
    requires
        state.wf(),
        rd != Reg::PC,
    ensures
        ({
            let (after, done) = state.performed(Instruction::ADR { rd, imm32, thumb32 });
            &&& done == Ok::<Option<crate::semihosting::CommandView>, Fault>(None)
            &&& after.stored(rd) == (state.reg(Reg::PC) & 0xffff_fffc).wrapping_add(imm32)
            &&& after.psr == state.psr
            &&& after.pc == state.pc.wrapping_add(
                if thumb32 {
                    4u32
                } else {
                    2u32
                },
            )
        }),
{
}

/// The number of a register names the register, and the register that the
/// low four bits of a number name has those bits as its number.
pub proof fn lemma_register_numbers(r: Reg, n: int)
    ensures
        Reg::spec_from(r.spec_value() as int) == r,
        0 <= n < 16 ==> Reg::spec_from(n).spec_value() == n,
        r.spec_value() < 16,
{
}

/// A word that STR stored in RAM is the word that LDR loads from the same
/// address, whatever the low two bits of the address are.
pub proof fn lemma_store_then_load(state: CoreState, addr: u32, value: u32, rt: Reg, size: u32)
    requires
        state.wf(),
        state.bus.ram_word(addr & 0xffff_fffc),
        rt != Reg::PC,
    ensures
        state.store_word(addr, value, size) is Ok,
        ({
            let stored = state.store_word(addr, value, size)->Ok_0;
            &&& stored.load_word(rt, addr, size) is Ok
            &&& stored.load_word(rt, addr, size)->Ok_0.stored(rt) == value
            &&& stored.load_word(rt, addr, size)->Ok_0.pc == state.pc.wrapping_add(
                size,
            ).wrapping_add(size)
        }),
{
    lemma_ram_word_read_back(state.bus, addr & 0xffff_fffc, value);
}

/// A register field of three bits names one of R0 to R7, and a field of three
/// or four bits names the register whose number the field holds.
pub proof fn lemma_register_fields(opcode: u32, low: nat)
    requires
        low + 4 <= 32,
    ensures
        spec_reg_at(opcode, low, 3).spec_value() == spec_bits(opcode, low, low + 3),
        spec_reg_at(opcode, low, 3).spec_value() < 8,
        spec_reg_at(opcode, low, 4).spec_value() == spec_bits(opcode, low, low + 4),
{
    lemma_low_masks();
    lemma_with_bits_read_back(opcode, low, low + 3, 0);
    lemma_with_bits_read_back(opcode, low, low + 4, 0);
}

/// PUSH of a register list, then anything that leaves the stack pointer and
/// the memory as PUSH left them, then POP of the same list: every listed
/// register but the PC again holds the value it had before the PUSH, however
/// it was overwritten in between, and the stack pointer is where it was before
/// the PUSH. A register outside the list, other than the stack pointer and
/// the PC, holds what it held before the POP.
pub proof fn lemma_pop_restores_what_push_stored(
    state: CoreState,
    between: CoreState,
    registers: u16,
    size: u32,
    r: Reg,
)
    requires
        state.wf(),
        between.wf(),
        state.sp() >= 4 * spec_listed_below(registers, 16),
        state.bus.ram_block(
            (state.sp() - 4 * spec_listed_below(registers, 16)) as u32,
            spec_listed_below(registers, 16),
        ),
        between.bus == state.pushed(registers, size).0.bus,
        between.sp() == state.pushed(registers, size).0.sp(),
    ensures
        state.pushed(registers, size).1 is Ok,
        between.popped(registers, size) is Ok,
        ({
            let after = between.popped(registers, size)->Ok_0;
            &&& r != Reg::PC && spec_listed(registers, r.spec_value() as nat) ==> after.stored(r)
                == state.stored(r)
            &&& r != Reg::PC && r != Reg::SP && !spec_listed(registers, r.spec_value() as nat)
                ==> after.stored(r) == between.stored(r)
            &&& after.sp() == state.sp()
            &&& after.pc == (if spec_listed(registers, 15) {
                state.pc & 0xffff_fffe
            } else {
                between.pc.wrapping_add(size)
            })
            &&& after.psr == between.psr
            &&& after.control == between.control
            &&& after.mode == between.mode
            &&& after.primask == between.primask
            &&& after.pending == between.pending
            &&& after.running == between.running
            &&& after.bus == between.bus
        }),
{
    let count = spec_listed_below(registers, 16);
    let words = state.listed_values(registers, 16);
    lemma_listed_values_len(state, registers, 16);
    lemma_listed_below_bounds(registers, 0, 16);
    let new_sp = (state.sp() - 4 * count) as u32;
    assert(state.sp().wrapping_sub((4 * words.len()) as u32) == new_sp);
    lemma_block_read_back(state.bus, new_sp, words);
    assert(between.sp() == new_sp);
    lemma_with_listed_frame(between, registers, words, 16);
    lemma_with_listed_stored(between, registers, words, 16, r);
    lemma_with_listed_stored(between, registers, words, 16, Reg::PC);
    if spec_listed(registers, r.spec_value() as nat) {
        lemma_listed_values_index(state, registers, 16, r.spec_value() as nat);
    }
    if spec_listed(registers, 15) {
        lemma_listed_values_index(state, registers, 16, 15);
    }
    assert(new_sp.wrapping_add((4 * count) as u32) == state.sp());
}

/// A block read that fails fails with a bus fault.
pub proof fn lemma_block_read_faults(bus: BusView, addr: u32, count: nat)
    ensures
        bus.read_words(addr, count) matches Err(fault) ==> fault == Fault::BusFault,
        bus.read_bytes(addr, count) matches Err(fault) ==> fault == Fault::BusFault,
    decreases count,
{
    if count > 0 {
        lemma_block_read_faults(bus, addr, (count - 1) as nat);
    }
}

/// A block store that fails fails with a bus fault.
pub proof fn lemma_block_store_faults(bus: BusView, addr: u32, words: Seq<u32>)
    ensures
        bus.write_words(addr, words).1 matches Err(fault) ==> fault == Fault::BusFault,
    decreases words.len(),
{
    if words.len() > 0 {
        lemma_block_store_faults(bus, addr, words.drop_last());
    }
}

proof fn additions_shifts_and_moves_retire(state: CoreState, instruction: Instruction)
    ensures
        state.performed_arithmetic(instruction) matches Some(done) ==> done.1 is Ok,
        state.performed_shift(instruction) matches Some(done) ==> done.1 is Ok,
        state.performed_logical(instruction) matches Some(done) ==> done.1 is Ok,
{
}

/// Whether an outcome is anything but the fault of an unimplemented instruction.
pub open spec fn spec_carried_out(
    done: (CoreState, Result<Option<crate::semihosting::CommandView>, Fault>),
) -> bool {
    done.1 != Err::<Option<crate::semihosting::CommandView>, Fault>(
        Fault::UnimplementedInstruction,
    )
}

proof fn a_loaded_value_is_written_or_faults_otherwise(
    state: CoreState,
    rt: Reg,
    value: u32,
    size: u32,
)
    ensures
        state.loaded(rt, value, size) matches Err(fault) ==> fault
            != Fault::UnimplementedInstruction,
{
    lemma_block_read_faults(state.bus, state.msp, 8);
    lemma_block_read_faults(state.bus, state.psp, 8);
}

proof fn single_loads_fault_otherwise(
    state: CoreState,
    rt: Reg,
    addr: u32,
    signed: bool,
    size: u32,
)
    ensures
        state.load_word(rt, addr, size) matches Err(fault) ==> fault
            != Fault::UnimplementedInstruction,
        state.load_half(rt, addr, signed, size) matches Err(fault) ==> fault
            != Fault::UnimplementedInstruction,
        state.load_byte(rt, addr, signed, size) matches Err(fault) ==> fault
            != Fault::UnimplementedInstruction,
{
    match state.bus.read32(addr & 0xffff_fffc) {
        Ok(word) => {
            a_loaded_value_is_written_or_faults_otherwise(state, rt, word, size);
        },
        Err(_) => {},
    }
    match state.bus.read16(addr & 0xffff_fffe) {
        Ok(half) => {
            a_loaded_value_is_written_or_faults_otherwise(
                state,
                rt,
                crate::operation::spec_sign_extend(half as u32, 16) as u32,
                size,
            );
            a_loaded_value_is_written_or_faults_otherwise(state, rt, half as u32, size);
        },
        Err(_) => {},
    }
    match state.bus.read8(addr) {
        Ok(byte) => {
            a_loaded_value_is_written_or_faults_otherwise(
                state,
                rt,
                crate::operation::spec_sign_extend(byte as u32, 8) as u32,
                size,
            );
            a_loaded_value_is_written_or_faults_otherwise(state, rt, byte as u32, size);
        },
        Err(_) => {},
    }
}

proof fn block_transfers_fault_on_the_bus(state: CoreState, rn: Reg, registers: u16, size: u32)
    ensures
        state.popped(registers, size) matches Err(fault) ==> fault == Fault::BusFault,
        state.loaded_multiple(rn, registers, size) matches Err(fault) ==> fault == Fault::BusFault,
        state.pushed(registers, size).1 matches Err(fault) ==> fault == Fault::BusFault,
        state.stored_multiple(rn, registers, size).1 matches Err(fault) ==> fault
            == Fault::BusFault,
{
    let words = state.listed_values(registers, 16);
    lemma_block_read_faults(state.bus, state.sp(), spec_listed_below(registers, 16));
    lemma_block_read_faults(state.bus, state.reg(rn), spec_listed_below(registers, 16));
    lemma_block_store_faults(state.bus, state.sp().wrapping_sub((4 * words.len()) as u32), words);
    lemma_block_store_faults(state.bus, state.reg(rn), words);
}

#[verifier::rlimit(60)]
proof fn loads_and_stores_fault_on_the_bus(state: CoreState, instruction: Instruction)
    ensures
        state.performed_memory(instruction) matches Some(done) ==> spec_carried_out(done),
{
    let size = instruction.spec_size();
    match instruction {
        Instruction::LDM { rn, registers } => {
            block_transfers_fault_on_the_bus(state, rn, registers, size);
        },
        Instruction::STM { rn, registers } => {
            block_transfers_fault_on_the_bus(state, rn, registers, size);
        },
        Instruction::POP { registers } => {
            block_transfers_fault_on_the_bus(state, Reg::SP, registers, size);
        },
        Instruction::PUSH { registers } => {
            block_transfers_fault_on_the_bus(state, Reg::SP, registers, size);
        },
        Instruction::LDR_imm { rt, rn, imm32 } => {
            single_loads_fault_otherwise(state, rt, state.reg(rn).wrapping_add(imm32), false, size);
        },
        Instruction::LDR_lit { rt, imm32 } => {
            single_loads_fault_otherwise(
                state,
                rt,
                (state.reg(Reg::PC) & 0xffff_fffc).wrapping_add(imm32),
                false,
                size,
            );
        },
        Instruction::LDRB_imm { rt, rn, imm32 } => {
            single_loads_fault_otherwise(state, rt, state.reg(rn).wrapping_add(imm32), false, size);
        },
        Instruction::LDRH_imm { rt, rn, imm32 } => {
            single_loads_fault_otherwise(state, rt, state.reg(rn).wrapping_add(imm32), false, size);
        },
        Instruction::LDR_reg { rt, rn, rm } => {
            single_loads_fault_otherwise(
                state,
                rt,
                state.reg(rn).wrapping_add(state.reg(rm)),
                false,
                size,
            );
        },
        Instruction::LDRB_reg { rt, rn, rm } => {
            single_loads_fault_otherwise(
                state,
                rt,
                state.reg(rn).wrapping_add(state.reg(rm)),
                false,
                size,
            );
        },
        Instruction::LDRH_reg { rt, rn, rm } => {
            single_loads_fault_otherwise(
                state,
                rt,
                state.reg(rn).wrapping_add(state.reg(rm)),
                false,
                size,
            );
        },
        Instruction::LDRSB_reg { rt, rn, rm } => {
            single_loads_fault_otherwise(
                state,
                rt,
                state.reg(rn).wrapping_add(state.reg(rm)),
                true,
                size,
            );
        },
        Instruction::LDRSH_reg { rt, rn, rm } => {
            single_loads_fault_otherwise(
                state,
                rt,
                state.reg(rn).wrapping_add(state.reg(rm)),
                true,
                size,
            );
        },
        _ => {},
    }
}

#[verifier::rlimit(60)]
proof fn traps_and_system_instructions_fault_otherwise(state: CoreState, instruction: Instruction)
    ensures
        state.performed_control(instruction) matches Some(done) ==> spec_carried_out(done),
{
    let argument = state.stored(Reg::R1);
    lemma_block_read_faults(state.bus, argument, 3);
    match state.bus.read_words(argument, 3) {
        Ok(block) => {
            lemma_block_read_faults(state.bus, block[1], block[2] as nat);
        },
        Err(_) => {},
    }
}

/// No instruction ends in the fault of an unimplemented instruction: the
/// engine carries every instruction out or reports another fault.
pub proof fn lemma_no_instruction_is_unimplemented(state: CoreState, instruction: Instruction)
    ensures
        spec_carried_out(state.performed(instruction)),
{
    lemma_every_instruction_is_carried_out(state, instruction);
    additions_shifts_and_moves_retire(state, instruction);
    loads_and_stores_fault_on_the_bus(state, instruction);
    traps_and_system_instructions_fault_otherwise(state, instruction);
}

} // verus!
