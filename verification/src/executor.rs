//! The execution engine: what each instruction does to the processor.
//!
//! `CoreState::executed` is the definition; `execute` carries it out.

use crate::base_reg::BaseReg;
use crate::bits::field_bits;
use crate::bits::spec_bits;
use crate::bus::Bus;
use crate::bus::BusView;
use crate::condition::condition_passed;
use crate::condition::spec_condition_passed;
use crate::exception::lemma_read_words_len;
use crate::exception::Exception;
use crate::exception::ExceptionHandling;
use crate::fault::Fault;
use crate::instruction::Instruction;
use crate::laws::lemma_no_instruction_is_unimplemented;
use crate::operation::add_with_carry;
use crate::operation::decode_imm_shift;
use crate::operation::shift_c;
use crate::operation::sign_extend;
use crate::operation::signed_multiply_long;
use crate::operation::spec_add_with_carry;
use crate::operation::spec_decode_imm_shift;
use crate::operation::spec_shift_c;
use crate::operation::spec_signed_multiply_long;
use crate::operation::spec_sign_extend;
use crate::operation::SRType;
use crate::processor::outcome;
use crate::processor::Core;
use crate::processor::CoreState;
use crate::processor::ProcessorMode;
use crate::psr::Apsr;
use crate::psr::Control;
use crate::psr::Ipsr;
use crate::psr::PSR;
use crate::psr::PSR_C;
use crate::register::Reg;
use crate::register::SpecialReg;
use crate::semihosting::command_view;
use crate::semihosting::semihost_request;
use crate::semihosting::CommandView;
use crate::semihosting::SemihostingCommand;
use crate::semihosting::SEMIHOSTING_TRAP;
use vstd::prelude::*;

verus! {

/// Whether the register list selects the register with number `index`.
pub open spec fn spec_listed(registers: u16, index: nat) -> bool {
    (registers >> index) & 1 == 1
}

/// How many registers with a number below `upto` the list selects.
pub open spec fn spec_listed_below(registers: u16, upto: nat) -> nat
    decreases upto,
{
    if upto == 0 {
        0
    } else {
        spec_listed_below(registers, (upto - 1) as nat) + (if spec_listed(
            registers,
            (upto - 1) as nat,
        ) {
            1nat
        } else {
            0nat
        })
    }
}

/// The bytes of `value` in reverse order.
pub open spec fn spec_rev(value: u32) -> u32 {
    ((value & 0xff) << 24u32) | ((value & 0xff00) << 8u32) | ((value >> 8u32) & 0xff00) | (value
        >> 24u32)
}

/// `value` with the bytes of each halfword exchanged.
pub open spec fn spec_rev16(value: u32) -> u32 {
    ((value & 0x00ff_00ff) << 8u32) | ((value >> 8u32) & 0x00ff_00ff)
}

/// The low halfword of `value` with its bytes exchanged, sign-extended.
pub open spec fn spec_revsh(value: u32) -> u32 {
    spec_sign_extend(((value & 0xff) << 8u32) | ((value >> 8u32) & 0xff), 16) as u32
}

impl CoreState {
    /// The values stored for the listed registers with a number below
    /// `upto`, in ascending order of register number.
    pub open spec fn listed_values(self, registers: u16, upto: nat) -> Seq<u32>
        decreases upto,
    {
        if upto == 0 {
            Seq::empty()
        } else {
            let below = self.listed_values(registers, (upto - 1) as nat);
            if spec_listed(registers, (upto - 1) as nat) {
                below.push(self.stored(Reg::spec_from(upto - 1)))
            } else {
                below
            }
        }
    }

    /// The state with `word` loaded into register `r`; a word loaded into the
    /// PC loses bit 0.
    pub open spec fn with_loaded(self, r: Reg, word: u32) -> CoreState {
        if r == Reg::PC {
            self.with_stored(r, word & 0xffff_fffe)
        } else {
            self.with_stored(r, word)
        }
    }

    /// The state after the listed registers with a number below `upto` were
    /// loaded from `words`, the lowest register from the first word.
    pub open spec fn with_listed(self, registers: u16, words: Seq<u32>, upto: nat) -> CoreState
        decreases upto,
    {
        if upto == 0 {
            self
        } else {
            let below = self.with_listed(registers, words, (upto - 1) as nat);
            if spec_listed(registers, (upto - 1) as nat) {
                below.with_loaded(
                    Reg::spec_from(upto - 1),
                    words[spec_listed_below(registers, (upto - 1) as nat) as int],
                )
            } else {
                below
            }
        }
    }

    /// The state after a result was written: a result for the PC is a branch
    /// and leaves the flags alone; any other takes the new status and moves
    /// the PC past the instruction.
    pub open spec fn committed(self, rd: Option<Reg>, result: u32, psr: PSR, size: u32) -> CoreState {
        match rd {
            Some(r) => if r == Reg::PC {
                self.branched(result)
            } else {
                (CoreState { psr, ..self.with_stored(r, result) }).advanced(size)
            },
            None => (CoreState { psr, ..self }).advanced(size),
        }
    }

    /// The state after a logical operation: N and Z follow the result where
    /// flags are to be set.
    pub open spec fn logical(self, rd: Option<Reg>, result: u32, setflags: bool, size: u32) -> CoreState {
        self.committed(
            rd,
            result,
            if setflags {
                self.psr.with_nz(result)
            } else {
                self.psr
            },
            size,
        )
    }

    /// The state after an addition of `x`, `y` and the carry: N, Z, C and V
    /// follow it where flags are to be set.
    pub open spec fn arithmetic(
        self,
        rd: Option<Reg>,
        x: u32,
        y: u32,
        carry_in: bool,
        setflags: bool,
        size: u32,
    ) -> CoreState {
        let (result, carry, overflow) = spec_add_with_carry(x, y, carry_in);
        self.committed(
            rd,
            result,
            if setflags {
                self.psr.with_nzcv(result, carry, overflow)
            } else {
                self.psr
            },
            size,
        )
    }

    /// The state after a shift: N, Z and C follow it where flags are to be set.
    pub open spec fn shifted(
        self,
        rd: Option<Reg>,
        value: u32,
        shift_t: SRType,
        amount: nat,
        setflags: bool,
        size: u32,
    ) -> CoreState {
        let (result, carry) = spec_shift_c(value, shift_t, amount, self.psr.flag(PSR_C as nat));
        self.committed(
            rd,
            result,
            if setflags {
                self.psr.with_nzc(result, carry)
            } else {
                self.psr
            },
            size,
        )
    }

    /// The state after a shift by an immediate of the given type.
    pub open spec fn shifted_by_immediate(
        self,
        rd: Reg,
        rm: Reg,
        type_bits: u8,
        imm5: u8,
        setflags: bool,
        size: u32,
    ) -> CoreState {
        let (shift_t, amount) = spec_decode_imm_shift(type_bits, imm5);
        self.shifted(Some(rd), self.reg(rm), shift_t, amount as nat, setflags, size)
    }

    /// The state after a shift by the low byte of a register.
    pub open spec fn shifted_by_register(
        self,
        rd: Reg,
        rn: Reg,
        rm: Reg,
        shift_t: SRType,
        setflags: bool,
        size: u32,
    ) -> CoreState {
        self.shifted(
            Some(rd),
            self.reg(rn),
            shift_t,
            spec_bits(self.reg(rm), 0, 8) as nat,
            setflags,
            size,
        )
    }

    /// The state after a value from memory was written to `rt`: an
    /// interworking branch or exception return for the PC.
    pub open spec fn loaded(self, rt: Reg, value: u32, size: u32) -> Result<CoreState, Fault> {
        if rt == Reg::PC {
            self.bx_written(value)
        } else {
            Ok(self.with_stored(rt, value).advanced(size))
        }
    }

    /// The state after a word load from `addr` with its low two bits cleared.
    pub open spec fn load_word(self, rt: Reg, addr: u32, size: u32) -> Result<CoreState, Fault> {
        match self.bus.read32(addr & 0xffff_fffc) {
            Err(fault) => Err(fault),
            Ok(word) => self.loaded(rt, word, size),
        }
    }

    /// The state after a halfword load from `addr` with its low bit cleared.
    pub open spec fn load_half(self, rt: Reg, addr: u32, signed: bool, size: u32) -> Result<
        CoreState,
        Fault,
    > {
        match self.bus.read16(addr & 0xffff_fffe) {
            Err(fault) => Err(fault),
            Ok(half) => self.loaded(
                rt,
                if signed {
                    spec_sign_extend(half as u32, 16) as u32
                } else {
                    half as u32
                },
                size,
            ),
        }
    }

    /// The state after a byte load from `addr`.
    pub open spec fn load_byte(self, rt: Reg, addr: u32, signed: bool, size: u32) -> Result<
        CoreState,
        Fault,
    > {
        match self.bus.read8(addr) {
            Err(fault) => Err(fault),
            Ok(byte) => self.loaded(
                rt,
                if signed {
                    spec_sign_extend(byte as u32, 8) as u32
                } else {
                    byte as u32
                },
                size,
            ),
        }
    }

    /// The state after a store changed the bus to `bus`, or the store's fault.
    pub open spec fn stored_through(self, bus: Result<BusView, Fault>, size: u32) -> Result<
        CoreState,
        Fault,
    > {
        match bus {
            Err(fault) => Err(fault),
            Ok(after) => Ok((CoreState { bus: after, ..self }).advanced(size)),
        }
    }

    /// The state after a word store to `addr` with its low two bits cleared.
    pub open spec fn store_word(self, addr: u32, value: u32, size: u32) -> Result<CoreState, Fault> {
        self.stored_through(self.bus.write32(addr & 0xffff_fffc, value), size)
    }

    /// The state after a store of the low halfword of `value` to `addr` with
    /// its low bit cleared.
    pub open spec fn store_half(self, addr: u32, value: u32, size: u32) -> Result<CoreState, Fault> {
        self.stored_through(
            self.bus.write16(addr & 0xffff_fffe, spec_bits(value, 0, 16) as u16),
            size,
        )
    }

    /// The state after a store of the low byte of `value` to `addr`.
    pub open spec fn store_byte(self, addr: u32, value: u32, size: u32) -> Result<CoreState, Fault> {
        self.stored_through(self.bus.write8(addr, spec_bits(value, 0, 8) as u8), size)
    }

    /// The state after PUSH: the stack pointer goes down by four bytes for
    /// each listed register, then the registers are stored from the new stack
    /// pointer up, the lowest register first. A fault leaves the stack pointer
    /// lowered and the PC where it was.
    pub open spec fn pushed(self, registers: u16, size: u32) -> (CoreState, Result<(), Fault>) {
        let words = self.listed_values(registers, 16);
        let new_sp = self.sp().wrapping_sub((4 * words.len()) as u32);
        let (bus, done) = self.bus.write_words(new_sp, words);
        let stored = CoreState { bus, ..self.with_sp(new_sp) };
        if done is Ok {
            (stored.advanced(size), done)
        } else {
            (stored, done)
        }
    }

    /// The state after PUSH's counterpart: the listed registers are loaded
    /// from the stack pointer up, the lowest register first, then the stack
    /// pointer goes up by four bytes for each. A popped PC is a branch.
    pub open spec fn popped(self, registers: u16, size: u32) -> Result<CoreState, Fault> {
        let count = spec_listed_below(registers, 16);
        match self.bus.read_words(self.sp(), count) {
            Err(fault) => Err(fault),
            Ok(words) => {
                let loaded = self.with_listed(registers, words, 16).with_sp(
                    self.sp().wrapping_add((4 * count) as u32),
                );
                Ok(
                    if spec_listed(registers, 15) {
                        loaded
                    } else {
                        loaded.advanced(size)
                    },
                )
            },
        }
    }

    /// The state after LDM: the listed registers are loaded from the address
    /// in `rn` up; `rn` moves past the block unless it was loaded itself.
    pub open spec fn loaded_multiple(self, rn: Reg, registers: u16, size: u32) -> Result<
        CoreState,
        Fault,
    > {
        let count = spec_listed_below(registers, 16);
        let base = self.reg(rn);
        match self.bus.read_words(base, count) {
            Err(fault) => Err(fault),
            Ok(words) => {
                let loaded = self.with_listed(registers, words, 16);
                let written = if spec_listed(registers, rn.spec_value() as nat) || rn == Reg::PC {
                    loaded
                } else {
                    loaded.with_stored(rn, base.wrapping_add((4 * count) as u32))
                };
                Ok(
                    if spec_listed(registers, 15) {
                        written
                    } else {
                        written.advanced(size)
                    },
                )
            },
        }
    }

    /// The state after STM: the listed registers are stored from the address
    /// in `rn` up, and `rn` moves past the block. A fault leaves `rn` and the
    /// PC where they were.
    pub open spec fn stored_multiple(self, rn: Reg, registers: u16, size: u32) -> (
        CoreState,
        Result<(), Fault>,
    ) {
        let words = self.listed_values(registers, 16);
        let base = self.reg(rn);
        let (bus, done) = self.bus.write_words(base, words);
        let stored = CoreState { bus, ..self };
        if done is Ok {
            (
                (if rn == Reg::PC {
                    stored
                } else {
                    stored.with_stored(rn, base.wrapping_add((4 * words.len()) as u32))
                }).advanced(size),
                done,
            )
        } else {
            (stored, done)
        }
    }

    /// What MRS reads from a special register. The execution status reads as
    /// zero and FAULTMASK is not modelled.
    pub open spec fn special(self, spec_reg: SpecialReg) -> u32 {
        let flags = self.psr.value & 0xf800_0000;
        let number = spec_bits(self.psr.value, 0, self.psr.profile.spec_isr_bits());
        match spec_reg {
            SpecialReg::APSR => flags,
            SpecialReg::IAPSR => flags | number,
            SpecialReg::EAPSR => flags,
            SpecialReg::XPSR => flags | number,
            SpecialReg::IPSR => number,
            SpecialReg::EPSR => 0,
            SpecialReg::IEPSR => number,
            SpecialReg::MSP => self.msp,
            SpecialReg::PSP => self.psp,
            SpecialReg::PRIMASK => if self.primask {
                1
            } else {
                0
            },
            SpecialReg::FAULTMASK => 0,
            SpecialReg::CONTROL => self.control.spec_packed() as u32,
        }
    }

    /// The state after MSR wrote `value` to a special register. Only the five
    /// flag bits of the status word can be written; the stack selection
    /// changes in thread mode only.
    pub open spec fn with_special(self, spec_reg: SpecialReg, value: u32) -> CoreState {
        let flags_written = CoreState {
            psr: PSR {
                value: (self.psr.value & 0x07ff_ffff) | (value & 0xf800_0000),
                profile: self.psr.profile,
            },
            ..self
        };
        match spec_reg {
            SpecialReg::APSR => flags_written,
            SpecialReg::IAPSR => flags_written,
            SpecialReg::EAPSR => flags_written,
            SpecialReg::XPSR => flags_written,
            SpecialReg::IPSR => self,
            SpecialReg::EPSR => self,
            SpecialReg::IEPSR => self,
            SpecialReg::MSP => CoreState { msp: value & 0xffff_fffc, ..self },
            SpecialReg::PSP => CoreState { psp: value & 0xffff_fffc, ..self },
            SpecialReg::PRIMASK => CoreState { primask: value & 1 == 1, ..self },
            SpecialReg::FAULTMASK => self,
            SpecialReg::CONTROL => CoreState {
                control: Control {
                    n_priv: value & 1 == 1,
                    sp_sel: if self.mode == ProcessorMode::ThreadMode {
                        value & 2 == 2
                    } else {
                        self.control.sp_sel
                    },
                },
                ..self
            },
        }
    }

    /// The state and the request after a breakpoint: a semihosting trap hands
    /// the guest's request to the host; any other breakpoint only retires.
    pub open spec fn trapped(self, imm32: u32, size: u32) -> (
        CoreState,
        Result<Option<CommandView>, Fault>,
    ) {
        if imm32 == SEMIHOSTING_TRAP {
            match self.semihost_request() {
                Err(fault) => (self, Err(fault)),
                Ok(command) => (self.advanced(size), Ok(command)),
            }
        } else {
            (self.advanced(size), Ok(None))
        }
    }

    /// The state after SMULL: `rdhi` takes the high word and then `rdlo` the
    /// low word of the signed 64-bit product of `rn` and `rm`. A word written
    /// to the PC loses bit 0.
    pub open spec fn long_multiplied(
        self,
        rdlo: Reg,
        rdhi: Reg,
        rn: Reg,
        rm: Reg,
        size: u32,
    ) -> CoreState {
        let (low, high) = spec_signed_multiply_long(self.reg(rn), self.reg(rm));
        self.with_loaded(rdhi, high).with_loaded(rdlo, low).advanced(size)
    }

    /// The state after BL: the link register takes the return address with
    /// bit 0 set, and the PC the target.
    pub open spec fn linked_branch(self, imm32: i32) -> CoreState {
        let pc = self.reg(Reg::PC);
        (CoreState { lr: pc | 1, ..self }).branched(pc.wrapping_add_signed(imm32))
    }

    /// The state after BLX: the link register takes the address of the next
    /// instruction with bit 0 set; then the PC takes the value of `rm`, read
    /// after the link register was written, without bit 0.
    pub open spec fn linked_exchange(self, rm: Reg) -> CoreState {
        let pc = self.reg(Reg::PC);
        let linked = CoreState { lr: ((pc.wrapping_sub(2) >> 1u32) << 1u32) | 1, ..self };
        linked.branched(linked.reg(rm))
    }

    /// The state after a conditional branch.
    pub open spec fn conditional_branch(
        self,
        passed: bool,
        imm32: i32,
        size: u32,
    ) -> CoreState {
        if passed {
            self.branched(self.reg(Reg::PC).wrapping_add_signed(imm32))
        } else {
            self.advanced(size)
        }
    }
}

/// A state that was reached without a fault and without a request.
pub open spec fn retired(state: CoreState) -> (CoreState, Result<Option<CommandView>, Fault>) {
    (state, Ok(None))
}

/// The state that an operation reached, or the untouched state with the
/// operation's fault.
pub open spec fn attempted(before: CoreState, after: Result<CoreState, Fault>) -> (
    CoreState,
    Result<Option<CommandView>, Fault>,
) {
    match after {
        Ok(state) => (state, Ok(None)),
        Err(fault) => (before, Err(fault)),
    }
}

/// The state that a block store left, with its fault if it had one.
pub open spec fn block_stored(after: (CoreState, Result<(), Fault>)) -> (
    CoreState,
    Result<Option<CommandView>, Fault>,
) {
    match after.1 {
        Ok(_) => (after.0, Ok(None)),
        Err(fault) => (after.0, Err(fault)),
    }
}

/// Whether what `execute` returned is what the definition says.
pub open spec fn reported(
    out: Result<Option<SemihostingCommand>, Fault>,
    expected: Result<Option<CommandView>, Fault>,
) -> bool {
    match expected {
        Ok(command) => out is Ok && command_view(out->Ok_0) == command,
        Err(fault) => out is Err && out->Err_0 == fault,
    }
}

impl CoreState {
    /// What `instruction` does where it is an addition, subtraction or comparison,
    /// and nothing where it is of another kind.
    pub open spec fn performed_arithmetic(self, instruction: Instruction) -> Option<
        (CoreState, Result<Option<CommandView>, Fault>),
    > {
        let size = instruction.spec_size();
        match instruction {
            Instruction::ADC_reg { rd, rn, rm, setflags } => Some(
                retired(
                    self.arithmetic(
                        Some(rd),
                        self.reg(rn),
                        self.reg(rm),
                        self.psr.flag(PSR_C as nat),
                        setflags,
                        size,
                    ),
                ),
            ),
            Instruction::ADD { rdn, rm } => Some(
                retired(
                    self.arithmetic(Some(rdn), self.reg(rdn), self.reg(rm), false, false, size),
                ),
            ),
            Instruction::ADDS { rd, rn, rm } => Some(
                retired(self.arithmetic(Some(rd), self.reg(rn), self.reg(rm), false, true, size)),
            ),
            Instruction::ADD_imm { rd, rn, imm32, setflags } => Some(
                retired(self.arithmetic(Some(rd), self.reg(rn), imm32, false, setflags, size)),
            ),
            Instruction::CMN_reg { rn, rm } => Some(
                retired(self.arithmetic(None, self.reg(rn), self.reg(rm), false, true, size)),
            ),
            Instruction::CMP_imm { rn, imm32 } => Some(
                retired(self.arithmetic(None, self.reg(rn), !imm32, true, true, size)),
            ),
            Instruction::CMP { rn, rm } => Some(
                retired(self.arithmetic(None, self.reg(rn), !self.reg(rm), true, true, size)),
            ),
            Instruction::RSB_imm { rd, rn, imm32, setflags } => Some(
                retired(self.arithmetic(Some(rd), !self.reg(rn), imm32, true, setflags, size)),
            ),
            Instruction::SBC_reg { rd, rn, rm, setflags } => Some(
                retired(
                    self.arithmetic(
                        Some(rd),
                        self.reg(rn),
                        !self.reg(rm),
                        self.psr.flag(PSR_C as nat),
                        setflags,
                        size,
                    ),
                ),
            ),
            Instruction::SUB_imm { rd, rn, imm32, setflags } => Some(
                retired(self.arithmetic(Some(rd), self.reg(rn), !imm32, true, setflags, size)),
            ),
            Instruction::SUBS_reg { rd, rn, rm } => Some(
                retired(self.arithmetic(Some(rd), self.reg(rn), !self.reg(rm), true, true, size)),
            ),
            Instruction::SUB_SP_imm { imm32 } => Some(
                retired(
                    self.arithmetic(Some(Reg::SP), self.reg(Reg::SP), !imm32, true, false, size),
                ),
            ),
            _ => None,
        }
    }

    /// What `instruction` does where it is a shift or rotation,
    /// and nothing where it is of another kind.
    pub open spec fn performed_shift(self, instruction: Instruction) -> Option<
        (CoreState, Result<Option<CommandView>, Fault>),
    > {
        let size = instruction.spec_size();
        match instruction {
            Instruction::ASR_imm { rd, rm, imm5, setflags } => Some(
                retired(self.shifted_by_immediate(rd, rm, 2, imm5, setflags, size)),
            ),
            Instruction::ASR_reg { rd, rn, rm, setflags } => Some(
                retired(self.shifted_by_register(rd, rn, rm, SRType::ASR, setflags, size)),
            ),
            Instruction::LSL_imm { rd, rm, imm5, setflags } => Some(
                retired(self.shifted_by_immediate(rd, rm, 0, imm5, setflags, size)),
            ),
            Instruction::LSL_reg { rd, rn, rm, setflags } => Some(
                retired(self.shifted_by_register(rd, rn, rm, SRType::LSL, setflags, size)),
            ),
            Instruction::LSR_imm { rd, rm, imm5, setflags } => Some(
                retired(self.shifted_by_immediate(rd, rm, 1, imm5, setflags, size)),
            ),
            Instruction::LSR_reg { rd, rn, rm, setflags } => Some(
                retired(self.shifted_by_register(rd, rn, rm, SRType::LSR, setflags, size)),
            ),
            Instruction::ROR_reg { rd, rn, rm, setflags } => Some(
                retired(self.shifted_by_register(rd, rn, rm, SRType::ROR, setflags, size)),
            ),
            _ => None,
        }
    }

    /// What `instruction` does where it is a move, a logical operation, a multiplication, a
    /// byte reversal or an extension,
    /// and nothing where it is of another kind.
    pub open spec fn performed_logical(self, instruction: Instruction) -> Option<
        (CoreState, Result<Option<CommandView>, Fault>),
    > {
        let size = instruction.spec_size();
        match instruction {
            Instruction::ADR { rd, imm32, thumb32: _ } => Some(
                retired(
                    self.logical(
                        Some(rd),
                        (self.reg(Reg::PC) & 0xffff_fffc).wrapping_add(imm32),
                        false,
                        size,
                    ),
                ),
            ),
            Instruction::AND_reg { rd, rn, rm, setflags } => Some(
                retired(self.logical(Some(rd), self.reg(rn) & self.reg(rm), setflags, size)),
            ),
            Instruction::BIC_reg { rd, rn, rm, setflags } => Some(
                retired(self.logical(Some(rd), self.reg(rn) & !self.reg(rm), setflags, size)),
            ),
            Instruction::EOR_reg { rd, rn, rm, setflags } => Some(
                retired(self.logical(Some(rd), self.reg(rn) ^ self.reg(rm), setflags, size)),
            ),
            Instruction::MOV_reg { rd, rm, setflags } => Some(
                retired(self.logical(Some(rd), self.reg(rm), setflags, size)),
            ),
            Instruction::MOV_imm { rd, imm32, setflags } => Some(
                retired(self.logical(Some(rd), imm32, setflags, size)),
            ),
            Instruction::MUL { rd, rn, rm, setflags } => Some(
                retired(
                    self.logical(Some(rd), self.reg(rn).wrapping_mul(self.reg(rm)), setflags, size),
                ),
            ),
            Instruction::MVN_reg { rd, rm, setflags } => Some(
                retired(self.logical(Some(rd), !self.reg(rm), setflags, size)),
            ),
            Instruction::ORR_reg { rd, rn, rm, setflags } => Some(
                retired(self.logical(Some(rd), self.reg(rn) | self.reg(rm), setflags, size)),
            ),
            Instruction::REV { rd, rm } => Some(
                retired(self.logical(Some(rd), spec_rev(self.reg(rm)), false, size)),
            ),
            Instruction::REV16 { rd, rm } => Some(
                retired(self.logical(Some(rd), spec_rev16(self.reg(rm)), false, size)),
            ),
            Instruction::REVSH { rd, rm } => Some(
                retired(self.logical(Some(rd), spec_revsh(self.reg(rm)), false, size)),
            ),
            Instruction::SMULL { rdlo, rdhi, rn, rm } => Some(
                retired(self.long_multiplied(rdlo, rdhi, rn, rm, size)),
            ),
            Instruction::SXTB { rd, rm } => Some(
                retired(
                    self.logical(Some(rd), spec_sign_extend(self.reg(rm), 8) as u32, false, size),
                ),
            ),
            Instruction::SXTH { rd, rm } => Some(
                retired(
                    self.logical(Some(rd), spec_sign_extend(self.reg(rm), 16) as u32, false, size),
                ),
            ),
            Instruction::TST_reg { rn, rm } => Some(
                retired(self.logical(None, self.reg(rn) & self.reg(rm), true, size)),
            ),
            Instruction::UXTB { rd, rm } => Some(
                retired(self.logical(Some(rd), spec_bits(self.reg(rm), 0, 8), false, size)),
            ),
            Instruction::UXTH { rd, rm } => Some(
                retired(self.logical(Some(rd), spec_bits(self.reg(rm), 0, 16), false, size)),
            ),
            _ => None,
        }
    }

    /// What `instruction` does where it is a load or a store,
    /// and nothing where it is of another kind.
    pub open spec fn performed_memory(self, instruction: Instruction) -> Option<
        (CoreState, Result<Option<CommandView>, Fault>),
    > {
        let size = instruction.spec_size();
        match instruction {
            Instruction::LDM { rn, registers } => Some(
                attempted(self, self.loaded_multiple(rn, registers, size)),
            ),
            Instruction::LDR_imm { rt, rn, imm32 } => Some(
                attempted(self, self.load_word(rt, self.reg(rn).wrapping_add(imm32), size)),
            ),
            Instruction::LDR_lit { rt, imm32 } => Some(
                attempted(
                    self,
                    self.load_word(rt, (self.reg(Reg::PC) & 0xffff_fffc).wrapping_add(imm32), size),
                ),
            ),
            Instruction::LDR_reg { rt, rn, rm } => Some(
                attempted(self, self.load_word(rt, self.reg(rn).wrapping_add(self.reg(rm)), size)),
            ),
            Instruction::LDRB_imm { rt, rn, imm32 } => Some(
                attempted(self, self.load_byte(rt, self.reg(rn).wrapping_add(imm32), false, size)),
            ),
            Instruction::LDRB_reg { rt, rn, rm } => Some(
                attempted(
                    self,
                    self.load_byte(rt, self.reg(rn).wrapping_add(self.reg(rm)), false, size),
                ),
            ),
            Instruction::LDRH_imm { rt, rn, imm32 } => Some(
                attempted(self, self.load_half(rt, self.reg(rn).wrapping_add(imm32), false, size)),
            ),
            Instruction::LDRH_reg { rt, rn, rm } => Some(
                attempted(
                    self,
                    self.load_half(rt, self.reg(rn).wrapping_add(self.reg(rm)), false, size),
                ),
            ),
            Instruction::LDRSB_reg { rt, rn, rm } => Some(
                attempted(
                    self,
                    self.load_byte(rt, self.reg(rn).wrapping_add(self.reg(rm)), true, size),
                ),
            ),
            Instruction::LDRSH_reg { rt, rn, rm } => Some(
                attempted(
                    self,
                    self.load_half(rt, self.reg(rn).wrapping_add(self.reg(rm)), true, size),
                ),
            ),
            Instruction::POP { registers } => Some(attempted(self, self.popped(registers, size))),
            Instruction::PUSH { registers } => Some(block_stored(self.pushed(registers, size))),
            Instruction::STM { rn, registers } => Some(
                block_stored(self.stored_multiple(rn, registers, size)),
            ),
            Instruction::STR_imm { rt, rn, imm32 } => Some(
                attempted(
                    self,
                    self.store_word(self.reg(rn).wrapping_add(imm32), self.reg(rt), size),
                ),
            ),
            Instruction::STR_reg { rt, rn, rm } => Some(
                attempted(
                    self,
                    self.store_word(self.reg(rn).wrapping_add(self.reg(rm)), self.reg(rt), size),
                ),
            ),
            Instruction::STRB_imm { rt, rn, imm32 } => Some(
                attempted(
                    self,
                    self.store_byte(self.reg(rn).wrapping_add(imm32), self.reg(rt), size),
                ),
            ),
            Instruction::STRB_reg { rt, rn, rm } => Some(
                attempted(
                    self,
                    self.store_byte(self.reg(rn).wrapping_add(self.reg(rm)), self.reg(rt), size),
                ),
            ),
            Instruction::STRH_imm { rt, rn, imm32 } => Some(
                attempted(
                    self,
                    self.store_half(self.reg(rn).wrapping_add(imm32), self.reg(rt), size),
                ),
            ),
            Instruction::STRH_reg { rt, rn, rm } => Some(
                attempted(
                    self,
                    self.store_half(self.reg(rn).wrapping_add(self.reg(rm)), self.reg(rt), size),
                ),
            ),
            _ => None,
        }
    }

    /// What `instruction` does where it is a branch, a hint, a trap or a system instruction,
    /// and nothing where it is of another kind.
    pub open spec fn performed_control(self, instruction: Instruction) -> Option<
        (CoreState, Result<Option<CommandView>, Fault>),
    > {
        let size = instruction.spec_size();
        match instruction {
            Instruction::B { cond, imm32 } => Some(
                retired(
                    self.conditional_branch(spec_condition_passed(cond, self.psr), imm32, size),
                ),
            ),
            Instruction::BKPT { imm32 } => Some(self.trapped(imm32, size)),
            Instruction::BL { imm32 } => Some(retired(self.linked_branch(imm32))),
            Instruction::BLX { rm } => Some(retired(self.linked_exchange(rm))),
            Instruction::BX { rm } => Some(retired(self.branched(self.reg(rm)))),
            Instruction::CPS { im } => Some(
                retired((CoreState { primask: im, ..self }).advanced(size)),
            ),
            Instruction::DMB => Some(retired(self.advanced(size))),
            Instruction::DSB => Some(retired(self.advanced(size))),
            Instruction::ISB => Some(retired(self.advanced(size))),
            Instruction::MRS { rd, spec_reg } => Some(
                retired(self.logical(Some(rd), self.special(spec_reg), false, size)),
            ),
            Instruction::MSR_reg { rn, spec_reg } => Some(
                retired(self.with_special(spec_reg, self.reg(rn)).advanced(size)),
            ),
            Instruction::NOP => Some(retired(self.advanced(size))),
            Instruction::SEV => Some(retired(self.advanced(size))),
            Instruction::SVC { imm32: _ } => Some(
                retired(self.with_pending(Exception::SVCall, true).advanced(size)),
            ),
            Instruction::UDF { imm32: _, opcode: _ } => Some(
                (self, Err(Fault::UndefinedInstruction)),
            ),
            Instruction::WFE => Some(retired(self.advanced(size))),
            Instruction::WFI => Some(retired(self.advanced(size))),
            Instruction::YIELD => Some(retired(self.advanced(size))),
            _ => None,
        }
    }

    /// The state after `instruction` was carried out, with the request for
    /// the host or the fault that it ended in.
    ///
    /// Operands are read as `reg` says, so the PC reads as its stored value
    /// plus 4. Results are written as `committed` says. An instruction of
    /// none of the five kinds would be unimplemented; there is none, as
    /// `lemma_every_instruction_is_carried_out` shows.
    pub open spec fn performed(self, instruction: Instruction) -> (
        CoreState,
        Result<Option<CommandView>, Fault>,
    ) {
        match self.performed_arithmetic(instruction) {
            Some(done) => done,
            None => match self.performed_shift(instruction) {
                Some(done) => done,
                None => match self.performed_logical(instruction) {
                    Some(done) => done,
                    None => match self.performed_memory(instruction) {
                        Some(done) => done,
                        None => match self.performed_control(instruction) {
                            Some(done) => done,
                            None => (self, Err(Fault::UnimplementedInstruction)),
                        },
                    },
                },
            },
        }
    }

    /// The state after one step of the engine: an absent instruction is an
    /// undefined one and changes nothing.
    pub open spec fn executed(self, op: Option<Instruction>) -> (
        CoreState,
        Result<Option<CommandView>, Fault>,
    ) {
        match op {
            None => (self, Err(Fault::UndefinedInstruction)),
            Some(instruction) => self.performed(instruction),
        }
    }
}

/// Whether a part of the engine did what its definition says: it carried the
/// instruction out, or it left the processor alone.
pub open spec fn performed_as(
    before: CoreState,
    after: CoreState,
    out: Option<Result<Option<SemihostingCommand>, Fault>>,
    expected: Option<(CoreState, Result<Option<CommandView>, Fault>)>,
) -> bool {
    match expected {
        Some(done) => out is Some && after == done.0 && reported(out->Some_0, done.1),
        None => out is None && after == before,
    }
}

/// Every instruction is of one of the five kinds that the engine carries
/// out, so that none is left unimplemented.
pub proof fn lemma_every_instruction_is_carried_out(state: CoreState, instruction: Instruction)
    ensures
        state.performed_arithmetic(instruction) is Some || state.performed_shift(instruction)
            is Some || state.performed_logical(instruction) is Some || state.performed_memory(
            instruction,
        ) is Some || state.performed_control(instruction) is Some,
{
}

/// The count of listed registers grows with the bound and never exceeds it.
pub proof fn lemma_listed_below_bounds(registers: u16, low: nat, high: nat)
    requires
        low <= high,
    ensures
        spec_listed_below(registers, low) <= spec_listed_below(registers, high),
        spec_listed_below(registers, high) <= high,
        spec_listed_below(registers, high) - spec_listed_below(registers, low) <= high - low,
    decreases high,
{
    if low < high {
        lemma_listed_below_bounds(registers, low, (high - 1) as nat);
    } else if high > 0 {
        lemma_listed_below_bounds(registers, (high - 1) as nat, (high - 1) as nat);
    }
}

/// As many values are gathered as registers are listed.
pub proof fn lemma_listed_values_len(state: CoreState, registers: u16, upto: nat)
    ensures
        state.listed_values(registers, upto).len() == spec_listed_below(registers, upto),
    decreases upto,
{
    if upto > 0 {
        lemma_listed_values_len(state, registers, (upto - 1) as nat);
    }
}

/// Whether the register list selects the register with number `index`.
pub fn listed(registers: u16, index: u16) -> (selected: bool)
    requires
        index < 16,
    ensures
        selected == spec_listed(registers, index as nat),
{
    (registers >> index) & 1 == 1
}

/// The number of registers that the list selects.
pub fn listed_count(registers: u16) -> (count: usize)
    ensures
        count == spec_listed_below(registers, 16),
        count <= 16,
{
    let mut count: usize = 0;
    let mut i: u16 = 0;
    while i < 16
        invariant
            i <= 16,
            count == spec_listed_below(registers, i as nat),
            count <= i,
        decreases 16 - i,
    {
        if listed(registers, i) {
            count = count + 1;
        }
        i = i + 1;
    }
    count
}

proof fn reversal_facts(value: u32)
    by (bit_vector)
    ensures
        ({
            let once = ((value & 0xff) << 24u32) | ((value & 0xff00) << 8u32) | ((value >> 8u32)
                & 0xff00) | (value >> 24u32);
            ((once & 0xff) << 24u32) | ((once & 0xff00) << 8u32) | ((once >> 8u32) & 0xff00) | (once
                >> 24u32) == value
        }),
        ({
            let once = ((value & 0x00ff_00ff) << 8u32) | ((value >> 8u32) & 0x00ff_00ff);
            ((once & 0x00ff_00ff) << 8u32) | ((once >> 8u32) & 0x00ff_00ff) == value
        }),
{
}

/// Reversing the bytes twice gives the word back, in a word and in each of
/// its halfwords.
pub proof fn lemma_reversals_undo_themselves(value: u32)
    ensures
        spec_rev(spec_rev(value)) == value,
        spec_rev16(spec_rev16(value)) == value,
{
    reversal_facts(value);
}

/// The bytes of `value` in reverse order.
pub fn rev(value: u32) -> (out: u32)
    ensures
        out == spec_rev(value),
{
    ((value & 0xff) << 24u32) | ((value & 0xff00) << 8u32) | ((value >> 8u32) & 0xff00) | (value
        >> 24u32)
}

/// `value` with the bytes of each halfword exchanged.
pub fn rev16(value: u32) -> (out: u32)
    ensures
        out == spec_rev16(value),
{
    ((value & 0x00ff_00ff) << 8u32) | ((value >> 8u32) & 0x00ff_00ff)
}

/// The low halfword of `value` with its bytes exchanged, sign-extended.
pub fn revsh(value: u32) -> (out: u32)
    ensures
        out == spec_revsh(value),
{
    sign_extend(((value & 0xff) << 8u32) | ((value >> 8u32) & 0xff), 16) as u32
}

/// Reads a register as an instruction does: the PC reads as its stored
/// value plus 4, every other register as what is stored for it.
pub fn read_reg(core: &Core, r: Reg) -> (value: u32)
    ensures
        value == core@.reg(r),
{
    core.get_r(r)
}

fn finish(done: Result<(), Fault>) -> (out: Result<Option<SemihostingCommand>, Fault>)
    ensures
        match done {
            Ok(_) => out is Ok && out->Ok_0 is None,
            Err(fault) => out is Err && out->Err_0 == fault,
        },
{
    match done {
        Ok(()) => Ok(None),
        Err(fault) => Err(fault),
    }
}

impl Core {
    /// Writes a result: a branch for the PC, else the register, the status
    /// and the PC's advance.
    pub fn commit(&mut self, rd: Option<Reg>, result: u32, psr: PSR, size: u32)
        ensures
            final(self)@ == old(self)@.committed(rd, result, psr, size),
    {
        match rd {
            Some(r) => {
                if r == Reg::PC {
                    self.branch_write_pc(result);
                } else {
                    self.store_r(r, result);
                    self.psr = psr;
                    self.add_pc(size);
                }
            },
            None => {
                self.psr = psr;
                self.add_pc(size);
            },
        }
    }

    /// Completes a logical operation.
    pub fn logical(&mut self, rd: Option<Reg>, result: u32, setflags: bool, size: u32)
        ensures
            final(self)@ == old(self)@.logical(rd, result, setflags, size),
    {
        let psr: PSR = if setflags {
            self.psr.updated_nz(result)
        } else {
            self.psr
        };
        self.commit(rd, result, psr, size);
    }

    /// Adds with carry and completes the operation.
    pub fn arithmetic(
        &mut self,
        rd: Option<Reg>,
        x: u32,
        y: u32,
        carry_in: bool,
        setflags: bool,
        size: u32,
    )
        ensures
            final(self)@ == old(self)@.arithmetic(rd, x, y, carry_in, setflags, size),
    {
        let (result, carry, overflow): (u32, bool, bool) = add_with_carry(x, y, carry_in);
        let psr: PSR = if setflags {
            self.psr.updated_nzcv(result, carry, overflow)
        } else {
            self.psr
        };
        self.commit(rd, result, psr, size);
    }

    /// SMULL.
    pub fn long_multiply(&mut self, rdlo: Reg, rdhi: Reg, rn: Reg, rm: Reg, size: u32)
        ensures
            final(self)@ == old(self)@.long_multiplied(rdlo, rdhi, rn, rm, size),
    {
        let (low, high): (u32, u32) = signed_multiply_long(self.get_r(rn), self.get_r(rm));
        if rdhi == Reg::PC {
            self.store_r(rdhi, high & 0xffff_fffe);
        } else {
            self.store_r(rdhi, high);
        }
        if rdlo == Reg::PC {
            self.store_r(rdlo, low & 0xffff_fffe);
        } else {
            self.store_r(rdlo, low);
        }
        self.add_pc(size);
    }

    /// Shifts and completes the operation.
    pub fn shifted(
        &mut self,
        rd: Option<Reg>,
        value: u32,
        shift_t: SRType,
        amount: u32,
        setflags: bool,
        size: u32,
    )
        ensures
            final(self)@ == old(self)@.shifted(rd, value, shift_t, amount as nat, setflags, size),
    {
        let (result, carry): (u32, bool) = shift_c(value, shift_t, amount, self.psr.get_c());
        let psr: PSR = if setflags {
            self.psr.updated_nzc(result, carry)
        } else {
            self.psr
        };
        self.commit(rd, result, psr, size);
    }

    /// Shifts a register by an immediate of the given type.
    pub fn shift_by_immediate(
        &mut self,
        rd: Reg,
        rm: Reg,
        type_bits: u8,
        imm5: u8,
        setflags: bool,
        size: u32,
    )
        ensures
            final(self)@ == old(self)@.shifted_by_immediate(rd, rm, type_bits, imm5, setflags, size),
    {
        let (shift_t, amount): (SRType, u8) = decode_imm_shift(type_bits, imm5);
        let value: u32 = self.get_r(rm);
        self.shifted(Some(rd), value, shift_t, amount as u32, setflags, size);
    }

    /// Shifts a register by the low byte of another.
    pub fn shift_by_register(
        &mut self,
        rd: Reg,
        rn: Reg,
        rm: Reg,
        shift_t: SRType,
        setflags: bool,
        size: u32,
    )
        ensures
            final(self)@ == old(self)@.shifted_by_register(rd, rn, rm, shift_t, setflags, size),
    {
        let value: u32 = self.get_r(rn);
        let amount: u32 = field_bits(self.get_r(rm), 0, 8);
        self.shifted(Some(rd), value, shift_t, amount, setflags, size);
    }

    /// Writes a value that came from memory to `rt`.
    pub fn loaded(&mut self, rt: Reg, value: u32, size: u32) -> (out: Result<(), Fault>)
        ensures
            outcome(old(self)@, final(self)@, out, old(self)@.loaded(rt, value, size)),
    {
        if rt == Reg::PC {
            self.load_write_pc(value)
        } else {
            self.store_r(rt, value);
            self.add_pc(size);
            Ok(())
        }
    }

    /// Loads a word.
    pub fn load_word(&mut self, rt: Reg, addr: u32, size: u32) -> (out: Result<(), Fault>)
        ensures
            outcome(old(self)@, final(self)@, out, old(self)@.load_word(rt, addr, size)),
    {
        match self.bus.read32(addr & 0xffff_fffc) {
            Err(fault) => Err(fault),
            Ok(word) => self.loaded(rt, word, size),
        }
    }

    /// Loads a halfword and extends it.
    pub fn load_half(&mut self, rt: Reg, addr: u32, signed: bool, size: u32) -> (out: Result<
        (),
        Fault,
    >)
        ensures
            outcome(old(self)@, final(self)@, out, old(self)@.load_half(rt, addr, signed, size)),
    {
        match self.bus.read16(addr & 0xffff_fffe) {
            Err(fault) => Err(fault),
            Ok(half) => {
                let value: u32 = if signed {
                    sign_extend(half as u32, 16) as u32
                } else {
                    half as u32
                };
                self.loaded(rt, value, size)
            },
        }
    }

    /// Loads a byte and extends it.
    pub fn load_byte(&mut self, rt: Reg, addr: u32, signed: bool, size: u32) -> (out: Result<
        (),
        Fault,
    >)
        ensures
            outcome(old(self)@, final(self)@, out, old(self)@.load_byte(rt, addr, signed, size)),
    {
        match self.bus.read8(addr) {
            Err(fault) => Err(fault),
            Ok(byte) => {
                let value: u32 = if signed {
                    sign_extend(byte as u32, 8) as u32
                } else {
                    byte as u32
                };
                self.loaded(rt, value, size)
            },
        }
    }

    /// Stores a word.
    pub fn store_word(&mut self, addr: u32, value: u32, size: u32) -> (out: Result<(), Fault>)
        ensures
            outcome(old(self)@, final(self)@, out, old(self)@.store_word(addr, value, size)),
    {
        match self.bus.write32(addr & 0xffff_fffc, value) {
            Err(fault) => Err(fault),
            Ok(()) => {
                self.add_pc(size);
                Ok(())
            },
        }
    }

    /// Stores the low halfword of `value`.
    pub fn store_half(&mut self, addr: u32, value: u32, size: u32) -> (out: Result<(), Fault>)
        ensures
            outcome(old(self)@, final(self)@, out, old(self)@.store_half(addr, value, size)),
    {
        let half: u16 = field_bits(value, 0, 16) as u16;
        match self.bus.write16(addr & 0xffff_fffe, half) {
            Err(fault) => Err(fault),
            Ok(()) => {
                self.add_pc(size);
                Ok(())
            },
        }
    }

    /// Stores the low byte of `value`.
    pub fn store_byte(&mut self, addr: u32, value: u32, size: u32) -> (out: Result<(), Fault>)
        ensures
            outcome(old(self)@, final(self)@, out, old(self)@.store_byte(addr, value, size)),
    {
        let byte: u8 = field_bits(value, 0, 8) as u8;
        match self.bus.write8(addr, byte) {
            Err(fault) => Err(fault),
            Ok(()) => {
                self.add_pc(size);
                Ok(())
            },
        }
    }

    /// Gathers what is stored for the listed registers, lowest first.
    pub fn listed_values(&self, registers: u16) -> (words: Vec<u32>)
        ensures
            words@ == self@.listed_values(registers, 16),
            words@.len() == spec_listed_below(registers, 16),
            words@.len() <= 16,
    {
        let mut words: Vec<u32> = Vec::new();
        let mut i: u16 = 0;
        while i < 16
            invariant
                i <= 16,
                words@ == self@.listed_values(registers, i as nat),
                words@.len() <= i,
            decreases 16 - i,
        {
            if listed(registers, i) {
                match Reg::from_u16(i) {
                    Some(r) => {
                        words.push(self.stored_r(r));
                    },
                    None => {},
                }
            }
            i = i + 1;
        }
        proof {
            lemma_listed_values_len(self@, registers, 16);
        }
        words
    }

    /// Loads the listed registers from `words`, lowest first.
    pub fn load_listed(&mut self, registers: u16, words: &Vec<u32>)
        requires
            words@.len() == spec_listed_below(registers, 16),
        ensures
            final(self)@ == old(self)@.with_listed(registers, words@, 16),
    {
        let mut next: usize = 0;
        let mut i: u16 = 0;
        while i < 16
            invariant
                i <= 16,
                words@.len() == spec_listed_below(registers, 16),
                next == spec_listed_below(registers, i as nat),
                self@ == old(self)@.with_listed(registers, words@, i as nat),
            decreases 16 - i,
        {
            if listed(registers, i) {
                proof {
                    lemma_listed_below_bounds(registers, (i + 1) as nat, 16);
                }
                let word: u32 = words[next];
                match Reg::from_u16(i) {
                    Some(r) => {
                        if r == Reg::PC {
                            self.store_r(r, word & 0xffff_fffe);
                        } else {
                            self.store_r(r, word);
                        }
                    },
                    None => {},
                }
                next = next + 1;
            }
            i = i + 1;
        }
    }

    /// PUSH.
    pub fn push(&mut self, registers: u16, size: u32) -> (out: Result<(), Fault>)
        ensures
            final(self)@ == old(self)@.pushed(registers, size).0,
            out == old(self)@.pushed(registers, size).1,
    {
        let words: Vec<u32> = self.listed_values(registers);
        let sp: u32 = self.stored_r(Reg::SP);
        let new_sp: u32 = sp.wrapping_sub(4 * (words.len() as u32));
        self.store_r(Reg::SP, new_sp);
        match self.bus.write_words(new_sp, &words) {
            Err(fault) => Err(fault),
            Ok(()) => {
                self.add_pc(size);
                Ok(())
            },
        }
    }

    /// POP.
    pub fn pop(&mut self, registers: u16, size: u32) -> (out: Result<(), Fault>)
        ensures
            outcome(old(self)@, final(self)@, out, old(self)@.popped(registers, size)),
    {
        let count: usize = listed_count(registers);
        let sp: u32 = self.stored_r(Reg::SP);
        let words: Vec<u32> = match self.bus.read_words(sp, count) {
            Ok(words) => words,
            Err(fault) => {
                return Err(fault);
            },
        };
        proof {
            lemma_read_words_len(self.bus@, sp, count as nat);
        }
        self.load_listed(registers, &words);
        self.store_r(Reg::SP, sp.wrapping_add(4 * (count as u32)));
        if !listed(registers, 15) {
            self.add_pc(size);
        }
        Ok(())
    }

    /// LDM.
    pub fn load_multiple(&mut self, rn: Reg, registers: u16, size: u32) -> (out: Result<(), Fault>)
        ensures
            outcome(old(self)@, final(self)@, out, old(self)@.loaded_multiple(rn, registers, size)),
    {
        let count: usize = listed_count(registers);
        let base: u32 = self.get_r(rn);
        let words: Vec<u32> = match self.bus.read_words(base, count) {
            Ok(words) => words,
            Err(fault) => {
                return Err(fault);
            },
        };
        proof {
            lemma_read_words_len(self.bus@, base, count as nat);
        }
        self.load_listed(registers, &words);
        let index: usize = rn.value();
        if !(listed(registers, index as u16) || rn == Reg::PC) {
            self.store_r(rn, base.wrapping_add(4 * (count as u32)));
        }
        if !listed(registers, 15) {
            self.add_pc(size);
        }
        Ok(())
    }

    /// STM.
    pub fn store_multiple(&mut self, rn: Reg, registers: u16, size: u32) -> (out: Result<(), Fault>)
        ensures
            final(self)@ == old(self)@.stored_multiple(rn, registers, size).0,
            out == old(self)@.stored_multiple(rn, registers, size).1,
    {
        let words: Vec<u32> = self.listed_values(registers);
        let base: u32 = self.get_r(rn);
        match self.bus.write_words(base, &words) {
            Err(fault) => Err(fault),
            Ok(()) => {
                if rn != Reg::PC {
                    self.store_r(rn, base.wrapping_add(4 * (words.len() as u32)));
                }
                self.add_pc(size);
                Ok(())
            },
        }
    }

    /// What MRS reads from a special register.
    pub fn special(&self, spec_reg: SpecialReg) -> (value: u32)
        ensures
            value == self@.special(spec_reg),
    {
        let flags: u32 = self.psr.value & 0xf800_0000;
        let number: u32 = self.psr.get_isr_number() as u32;
        match spec_reg {
            SpecialReg::APSR => flags,
            SpecialReg::IAPSR => flags | number,
            SpecialReg::EAPSR => flags,
            SpecialReg::XPSR => flags | number,
            SpecialReg::IPSR => number,
            SpecialReg::EPSR => 0,
            SpecialReg::IEPSR => number,
            SpecialReg::MSP => self.msp,
            SpecialReg::PSP => self.psp,
            SpecialReg::PRIMASK => if self.primask {
                1
            } else {
                0
            },
            SpecialReg::FAULTMASK => 0,
            SpecialReg::CONTROL => u8::from(self.control) as u32,
        }
    }

    /// Writes a special register as MSR does.
    pub fn write_special(&mut self, spec_reg: SpecialReg, value: u32)
        ensures
            final(self)@ == old(self)@.with_special(spec_reg, value),
    {
        match spec_reg {
            SpecialReg::APSR | SpecialReg::IAPSR | SpecialReg::EAPSR | SpecialReg::XPSR => {
                self.psr.value = (self.psr.value & 0x07ff_ffff) | (value & 0xf800_0000);
            },
            SpecialReg::IPSR | SpecialReg::EPSR | SpecialReg::IEPSR | SpecialReg::FAULTMASK => {},
            SpecialReg::MSP => {
                self.msp = value & 0xffff_fffc;
            },
            SpecialReg::PSP => {
                self.psp = value & 0xffff_fffc;
            },
            SpecialReg::PRIMASK => {
                self.primask = value & 1 == 1;
            },
            SpecialReg::CONTROL => {
                self.control.n_priv = value & 1 == 1;
                if self.mode == ProcessorMode::ThreadMode {
                    self.control.sp_sel = value & 2 == 2;
                }
            },
        }
    }

    /// A breakpoint: decodes the guest's request where it is a semihosting trap.
    pub fn trap(&mut self, imm32: u32, size: u32) -> (out: Result<
        Option<SemihostingCommand>,
        Fault,
    >)
        ensures
            final(self)@ == old(self)@.trapped(imm32, size).0,
            reported(out, old(self)@.trapped(imm32, size).1),
    {
        if imm32 == SEMIHOSTING_TRAP {
            match semihost_request(self) {
                Err(fault) => Err(fault),
                Ok(command) => {
                    self.add_pc(size);
                    Ok(command)
                },
            }
        } else {
            self.add_pc(size);
            Ok(None)
        }
    }

    /// BL.
    pub fn linked_branch(&mut self, imm32: i32)
        ensures
            final(self)@ == old(self)@.linked_branch(imm32),
    {
        let pc: u32 = self.get_r(Reg::PC);
        self.lr = pc | 1;
        self.branch_write_pc(pc.wrapping_add_signed(imm32));
    }

    /// BLX.
    pub fn linked_exchange(&mut self, rm: Reg)
        ensures
            final(self)@ == old(self)@.linked_exchange(rm),
    {
        let pc: u32 = self.get_r(Reg::PC);
        self.lr = ((pc.wrapping_sub(2) >> 1u32) << 1u32) | 1;
        let target: u32 = self.get_r(rm);
        self.branch_write_pc(target);
    }

    /// B.
    pub fn conditional_branch(&mut self, passed: bool, imm32: i32, size: u32)
        ensures
            final(self)@ == old(self)@.conditional_branch(passed, imm32, size),
    {
        if passed {
            let pc: u32 = self.get_r(Reg::PC);
            self.branch_write_pc(pc.wrapping_add_signed(imm32));
        } else {
            self.add_pc(size);
        }
    }
}

fn perform_arithmetic(core: &mut Core, instruction: Instruction) -> (out: Option<
    Result<Option<SemihostingCommand>, Fault>,
>)
    ensures
        performed_as(old(core)@, final(core)@, out, old(core)@.performed_arithmetic(instruction)),
{
    let size: u32 = instruction.size();
    match instruction {
        Instruction::ADC_reg { rd, rn, rm, setflags } => {
            let x: u32 = read_reg(core, rn);
            let y: u32 = read_reg(core, rm);
            let carry_in: bool = core.psr.get_c();
            core.arithmetic(Some(rd), x, y, carry_in, setflags, size);
            Some(Ok(None))
        },
        Instruction::ADD { rdn, rm } => {
            let x: u32 = read_reg(core, rdn);
            let y: u32 = read_reg(core, rm);
            let carry_in: bool = false;
            core.arithmetic(Some(rdn), x, y, carry_in, false, size);
            Some(Ok(None))
        },
        Instruction::ADDS { rd, rn, rm } => {
            let x: u32 = read_reg(core, rn);
            let y: u32 = read_reg(core, rm);
            let carry_in: bool = false;
            core.arithmetic(Some(rd), x, y, carry_in, true, size);
            Some(Ok(None))
        },
        Instruction::ADD_imm { rd, rn, imm32, setflags } => {
            let x: u32 = read_reg(core, rn);
            let y: u32 = imm32;
            let carry_in: bool = false;
            core.arithmetic(Some(rd), x, y, carry_in, setflags, size);
            Some(Ok(None))
        },
        Instruction::CMN_reg { rn, rm } => {
            let x: u32 = read_reg(core, rn);
            let y: u32 = read_reg(core, rm);
            let carry_in: bool = false;
            core.arithmetic(None, x, y, carry_in, true, size);
            Some(Ok(None))
        },
        Instruction::CMP_imm { rn, imm32 } => {
            let x: u32 = read_reg(core, rn);
            let y: u32 = !imm32;
            let carry_in: bool = true;
            core.arithmetic(None, x, y, carry_in, true, size);
            Some(Ok(None))
        },
        Instruction::CMP { rn, rm } => {
            let x: u32 = read_reg(core, rn);
            let y: u32 = !read_reg(core, rm);
            let carry_in: bool = true;
            core.arithmetic(None, x, y, carry_in, true, size);
            Some(Ok(None))
        },
        Instruction::RSB_imm { rd, rn, imm32, setflags } => {
            let x: u32 = !read_reg(core, rn);
            let y: u32 = imm32;
            let carry_in: bool = true;
            core.arithmetic(Some(rd), x, y, carry_in, setflags, size);
            Some(Ok(None))
        },
        Instruction::SBC_reg { rd, rn, rm, setflags } => {
            let x: u32 = read_reg(core, rn);
            let y: u32 = !read_reg(core, rm);
            let carry_in: bool = core.psr.get_c();
            core.arithmetic(Some(rd), x, y, carry_in, setflags, size);
            Some(Ok(None))
        },
        Instruction::SUB_imm { rd, rn, imm32, setflags } => {
            let x: u32 = read_reg(core, rn);
            let y: u32 = !imm32;
            let carry_in: bool = true;
            core.arithmetic(Some(rd), x, y, carry_in, setflags, size);
            Some(Ok(None))
        },
        Instruction::SUBS_reg { rd, rn, rm } => {
            let x: u32 = read_reg(core, rn);
            let y: u32 = !read_reg(core, rm);
            let carry_in: bool = true;
            core.arithmetic(Some(rd), x, y, carry_in, true, size);
            Some(Ok(None))
        },
        Instruction::SUB_SP_imm { imm32 } => {
            let x: u32 = read_reg(core, Reg::SP);
            let y: u32 = !imm32;
            let carry_in: bool = true;
            core.arithmetic(Some(Reg::SP), x, y, carry_in, false, size);
            Some(Ok(None))
        },
        _ => None,
    }
}

fn perform_shift(core: &mut Core, instruction: Instruction) -> (out: Option<
    Result<Option<SemihostingCommand>, Fault>,
>)
    ensures
        performed_as(old(core)@, final(core)@, out, old(core)@.performed_shift(instruction)),
{
    let size: u32 = instruction.size();
    match instruction {
        Instruction::ASR_imm { rd, rm, imm5, setflags } => {
            core.shift_by_immediate(rd, rm, 2, imm5, setflags, size);
            Some(Ok(None))
        },
        Instruction::ASR_reg { rd, rn, rm, setflags } => {
            core.shift_by_register(rd, rn, rm, SRType::ASR, setflags, size);
            Some(Ok(None))
        },
        Instruction::LSL_imm { rd, rm, imm5, setflags } => {
            core.shift_by_immediate(rd, rm, 0, imm5, setflags, size);
            Some(Ok(None))
        },
        Instruction::LSL_reg { rd, rn, rm, setflags } => {
            core.shift_by_register(rd, rn, rm, SRType::LSL, setflags, size);
            Some(Ok(None))
        },
        Instruction::LSR_imm { rd, rm, imm5, setflags } => {
            core.shift_by_immediate(rd, rm, 1, imm5, setflags, size);
            Some(Ok(None))
        },
        Instruction::LSR_reg { rd, rn, rm, setflags } => {
            core.shift_by_register(rd, rn, rm, SRType::LSR, setflags, size);
            Some(Ok(None))
        },
        Instruction::ROR_reg { rd, rn, rm, setflags } => {
            core.shift_by_register(rd, rn, rm, SRType::ROR, setflags, size);
            Some(Ok(None))
        },
        _ => None,
    }
}

fn perform_logical(core: &mut Core, instruction: Instruction) -> (out: Option<
    Result<Option<SemihostingCommand>, Fault>,
>)
    ensures
        performed_as(old(core)@, final(core)@, out, old(core)@.performed_logical(instruction)),
{
    let size: u32 = instruction.size();
    match instruction {
        Instruction::ADR { rd, imm32, thumb32: _ } => {
            let result: u32 = (read_reg(core, Reg::PC) & 0xffff_fffc).wrapping_add(imm32);
            core.logical(Some(rd), result, false, size);
            Some(Ok(None))
        },
        Instruction::AND_reg { rd, rn, rm, setflags } => {
            let result: u32 = read_reg(core, rn) & read_reg(core, rm);
            core.logical(Some(rd), result, setflags, size);
            Some(Ok(None))
        },
        Instruction::BIC_reg { rd, rn, rm, setflags } => {
            let result: u32 = read_reg(core, rn) & !read_reg(core, rm);
            core.logical(Some(rd), result, setflags, size);
            Some(Ok(None))
        },
        Instruction::EOR_reg { rd, rn, rm, setflags } => {
            let result: u32 = read_reg(core, rn) ^ read_reg(core, rm);
            core.logical(Some(rd), result, setflags, size);
            Some(Ok(None))
        },
        Instruction::MOV_reg { rd, rm, setflags } => {
            let result: u32 = read_reg(core, rm);
            core.logical(Some(rd), result, setflags, size);
            Some(Ok(None))
        },
        Instruction::MOV_imm { rd, imm32, setflags } => {
            let result: u32 = imm32;
            core.logical(Some(rd), result, setflags, size);
            Some(Ok(None))
        },
        Instruction::MUL { rd, rn, rm, setflags } => {
            let result: u32 = read_reg(core, rn).wrapping_mul(read_reg(core, rm));
            core.logical(Some(rd), result, setflags, size);
            Some(Ok(None))
        },
        Instruction::MVN_reg { rd, rm, setflags } => {
            let result: u32 = !read_reg(core, rm);
            core.logical(Some(rd), result, setflags, size);
            Some(Ok(None))
        },
        Instruction::ORR_reg { rd, rn, rm, setflags } => {
            let result: u32 = read_reg(core, rn) | read_reg(core, rm);
            core.logical(Some(rd), result, setflags, size);
            Some(Ok(None))
        },
        Instruction::REV { rd, rm } => {
            let result: u32 = rev(read_reg(core, rm));
            core.logical(Some(rd), result, false, size);
            Some(Ok(None))
        },
        Instruction::REV16 { rd, rm } => {
            let result: u32 = rev16(read_reg(core, rm));
            core.logical(Some(rd), result, false, size);
            Some(Ok(None))
        },
        Instruction::REVSH { rd, rm } => {
            let result: u32 = revsh(read_reg(core, rm));
            core.logical(Some(rd), result, false, size);
            Some(Ok(None))
        },
        Instruction::SMULL { rdlo, rdhi, rn, rm } => {
            core.long_multiply(rdlo, rdhi, rn, rm, size);
            Some(Ok(None))
        },
        Instruction::SXTB { rd, rm } => {
            let result: u32 = sign_extend(read_reg(core, rm), 8) as u32;
            core.logical(Some(rd), result, false, size);
            Some(Ok(None))
        },
        Instruction::SXTH { rd, rm } => {
            let result: u32 = sign_extend(read_reg(core, rm), 16) as u32;
            core.logical(Some(rd), result, false, size);
            Some(Ok(None))
        },
        Instruction::TST_reg { rn, rm } => {
            let result: u32 = read_reg(core, rn) & read_reg(core, rm);
            core.logical(None, result, true, size);
            Some(Ok(None))
        },
        Instruction::UXTB { rd, rm } => {
            let result: u32 = field_bits(read_reg(core, rm), 0, 8);
            core.logical(Some(rd), result, false, size);
            Some(Ok(None))
        },
        Instruction::UXTH { rd, rm } => {
            let result: u32 = field_bits(read_reg(core, rm), 0, 16);
            core.logical(Some(rd), result, false, size);
            Some(Ok(None))
        },
        _ => None,
    }
}

fn perform_memory(core: &mut Core, instruction: Instruction) -> (out: Option<
    Result<Option<SemihostingCommand>, Fault>,
>)
    ensures
        performed_as(old(core)@, final(core)@, out, old(core)@.performed_memory(instruction)),
{
    let size: u32 = instruction.size();
    match instruction {
        Instruction::LDM { rn, registers } => {
            Some(finish(core.load_multiple(rn, registers, size)))
        },
        Instruction::LDR_imm { rt, rn, imm32 } => {
            let addr: u32 = read_reg(core, rn).wrapping_add(imm32);
            Some(finish(core.load_word(rt, addr, size)))
        },
        Instruction::LDR_lit { rt, imm32 } => {
            let addr: u32 = (read_reg(core, Reg::PC) & 0xffff_fffc).wrapping_add(imm32);
            Some(finish(core.load_word(rt, addr, size)))
        },
        Instruction::LDR_reg { rt, rn, rm } => {
            let addr: u32 = read_reg(core, rn).wrapping_add(read_reg(core, rm));
            Some(finish(core.load_word(rt, addr, size)))
        },
        Instruction::LDRB_imm { rt, rn, imm32 } => {
            let addr: u32 = read_reg(core, rn).wrapping_add(imm32);
            Some(finish(core.load_byte(rt, addr, false, size)))
        },
        Instruction::LDRB_reg { rt, rn, rm } => {
            let addr: u32 = read_reg(core, rn).wrapping_add(read_reg(core, rm));
            Some(finish(core.load_byte(rt, addr, false, size)))
        },
        Instruction::LDRH_imm { rt, rn, imm32 } => {
            let addr: u32 = read_reg(core, rn).wrapping_add(imm32);
            Some(finish(core.load_half(rt, addr, false, size)))
        },
        Instruction::LDRH_reg { rt, rn, rm } => {
            let addr: u32 = read_reg(core, rn).wrapping_add(read_reg(core, rm));
            Some(finish(core.load_half(rt, addr, false, size)))
        },
        Instruction::LDRSB_reg { rt, rn, rm } => {
            let addr: u32 = read_reg(core, rn).wrapping_add(read_reg(core, rm));
            Some(finish(core.load_byte(rt, addr, true, size)))
        },
        Instruction::LDRSH_reg { rt, rn, rm } => {
            let addr: u32 = read_reg(core, rn).wrapping_add(read_reg(core, rm));
            Some(finish(core.load_half(rt, addr, true, size)))
        },
        Instruction::POP { registers } => {
            Some(finish(core.pop(registers, size)))
        },
        Instruction::PUSH { registers } => {
            Some(finish(core.push(registers, size)))
        },
        Instruction::STM { rn, registers } => {
            Some(finish(core.store_multiple(rn, registers, size)))
        },
        Instruction::STR_imm { rt, rn, imm32 } => {
            let addr: u32 = read_reg(core, rn).wrapping_add(imm32);
            let value: u32 = read_reg(core, rt);
            Some(finish(core.store_word(addr, value, size)))
        },
        Instruction::STR_reg { rt, rn, rm } => {
            let addr: u32 = read_reg(core, rn).wrapping_add(read_reg(core, rm));
            let value: u32 = read_reg(core, rt);
            Some(finish(core.store_word(addr, value, size)))
        },
        Instruction::STRB_imm { rt, rn, imm32 } => {
            let addr: u32 = read_reg(core, rn).wrapping_add(imm32);
            let value: u32 = read_reg(core, rt);
            Some(finish(core.store_byte(addr, value, size)))
        },
        Instruction::STRB_reg { rt, rn, rm } => {
            let addr: u32 = read_reg(core, rn).wrapping_add(read_reg(core, rm));
            let value: u32 = read_reg(core, rt);
            Some(finish(core.store_byte(addr, value, size)))
        },
        Instruction::STRH_imm { rt, rn, imm32 } => {
            let addr: u32 = read_reg(core, rn).wrapping_add(imm32);
            let value: u32 = read_reg(core, rt);
            Some(finish(core.store_half(addr, value, size)))
        },
        Instruction::STRH_reg { rt, rn, rm } => {
            let addr: u32 = read_reg(core, rn).wrapping_add(read_reg(core, rm));
            let value: u32 = read_reg(core, rt);
            Some(finish(core.store_half(addr, value, size)))
        },
        _ => None,
    }
}

fn perform_control(core: &mut Core, instruction: Instruction) -> (out: Option<
    Result<Option<SemihostingCommand>, Fault>,
>)
    ensures
        performed_as(old(core)@, final(core)@, out, old(core)@.performed_control(instruction)),
{
    let size: u32 = instruction.size();
    match instruction {
        Instruction::B { cond, imm32 } => {
            let passed: bool = condition_passed(cond, &core.psr);
            core.conditional_branch(passed, imm32, size);
            Some(Ok(None))
        },
        Instruction::BKPT { imm32 } => {
            Some(core.trap(imm32, size))
        },
        Instruction::BL { imm32 } => {
            core.linked_branch(imm32);
            Some(Ok(None))
        },
        Instruction::BLX { rm } => {
            core.linked_exchange(rm);
            Some(Ok(None))
        },
        Instruction::BX { rm } => {
            let target: u32 = read_reg(core, rm);
            core.branch_write_pc(target);
            Some(Ok(None))
        },
        Instruction::CPS { im } => {
            core.primask = im;
            core.add_pc(size);
            Some(Ok(None))
        },
        Instruction::DMB => {
            core.add_pc(size);
            Some(Ok(None))
        },
        Instruction::DSB => {
            core.add_pc(size);
            Some(Ok(None))
        },
        Instruction::ISB => {
            core.add_pc(size);
            Some(Ok(None))
        },
        Instruction::MRS { rd, spec_reg } => {
            let result: u32 = core.special(spec_reg);
            core.logical(Some(rd), result, false, size);
            Some(Ok(None))
        },
        Instruction::MSR_reg { rn, spec_reg } => {
            let value: u32 = read_reg(core, rn);
            core.write_special(spec_reg, value);
            core.add_pc(size);
            Some(Ok(None))
        },
        Instruction::NOP => {
            core.add_pc(size);
            Some(Ok(None))
        },
        Instruction::SEV => {
            core.add_pc(size);
            Some(Ok(None))
        },
        Instruction::SVC { imm32: _ } => {
            core.set_exception_pending(Exception::SVCall);
            core.add_pc(size);
            Some(Ok(None))
        },
        Instruction::UDF { imm32: _, opcode: _ } => {
            Some(Err(Fault::UndefinedInstruction))
        },
        Instruction::WFE => {
            core.add_pc(size);
            Some(Ok(None))
        },
        Instruction::WFI => {
            core.add_pc(size);
            Some(Ok(None))
        },
        Instruction::YIELD => {
            core.add_pc(size);
            Some(Ok(None))
        },
        _ => None,
    }
}

/// Carries out one decoded instruction on the processor.
///
/// An absent instruction is reported as undefined and leaves the processor
/// untouched. Every instruction is carried out: none is unimplemented.
/// A semihosting trap returns the guest's request, for the host to serve
/// before `semihost_return` delivers the answer.
pub fn execute(core: &mut Core, op: Option<Instruction>) -> (out: Result<
    Option<SemihostingCommand>,
    Fault,
>)
    ensures
        final(core)@ == old(core)@.executed(op).0,
        reported(out, old(core)@.executed(op).1),
        !(out matches Err(fault) && fault == Fault::UnimplementedInstruction),
{
    let instruction: Instruction = match op {
        Some(instruction) => instruction,
        None => {
            return Err(Fault::UndefinedInstruction);
        },
    };
    proof {
        lemma_no_instruction_is_unimplemented(core@, instruction);
    }
    if let Some(out) = perform_arithmetic(core, instruction) {
        return out;
    }
    if let Some(out) = perform_shift(core, instruction) {
        return out;
    }
    if let Some(out) = perform_logical(core, instruction) {
        return out;
    }
    if let Some(out) = perform_memory(core, instruction) {
        return out;
    }
    match perform_control(core, instruction) {
        Some(out) => out,
        None => Err(Fault::UnimplementedInstruction),
    }
}

} // verus!
