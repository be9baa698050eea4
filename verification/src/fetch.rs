//! Fetching instructions, and one step of the fetch-decode-execute cycle.

use crate::bus::Bus;
use crate::decoder::decode;
use crate::decoder::is_thumb32;
use crate::decoder::spec_decode;
use crate::decoder::spec_is_thumb32;
use crate::decoder::spec_opcode_32;
use crate::executor::execute;
use crate::fault::Fault;
use crate::instruction::Instruction;
use crate::instruction::ThumbCode;
use crate::processor::Core;
use crate::processor::CoreState;
use crate::semihosting::command_view;
use crate::semihosting::CommandView;
use crate::semihosting::SemihostingCommand;
use crate::systick::SysTick;
use vstd::prelude::*;

verus! {

/// Fetching instructions.
pub trait Fetch {
    /// Fetches the opcode at `pc`: one halfword, or two where the first
    /// starts a 32-bit instruction.
    fn fetch(&self, pc: u32) -> Result<ThumbCode, Fault>;
}

/// What one step retired.
#[derive(Clone, Debug, PartialEq, Eq)]
pub struct Step {
    /// Address of the instruction.
    pub pc: u32,
    /// The instruction.
    pub instruction: Instruction,
    /// The guest's request where the instruction was a semihosting trap.
    pub command: Option<SemihostingCommand>,
}

/// What one step retired, as a mathematical value.
pub struct StepView {
    /// Address of the instruction.
    pub pc: u32,
    /// The instruction.
    pub instruction: Instruction,
    /// The guest's request where the instruction was a semihosting trap.
    pub command: Option<CommandView>,
}

impl View for Step {
    type V = StepView;

    open spec fn view(&self) -> StepView {
        StepView {
            pc: self.pc,
            instruction: self.instruction,
            command: command_view(self.command),
        }
    }
}

impl CoreState {
    /// The opcode at `pc`, or the fault of the read that fails.
    pub open spec fn fetched(self, pc: u32) -> Result<ThumbCode, Fault> {
        match self.bus.read16(pc) {
            Err(fault) => Err(fault),
            Ok(hw) => if spec_is_thumb32(hw) {
                match self.bus.read16(pc.wrapping_add(2)) {
                    Err(fault) => Err(fault),
                    Ok(hw2) => Ok(ThumbCode::Thumb32 { opcode: spec_opcode_32(hw, hw2) }),
                }
            } else {
                Ok(ThumbCode::Thumb16 { opcode: hw })
            },
        }
    }

    /// The state after the instruction at the PC was fetched, decoded and
    /// carried out, with what was retired or the fault. A fault of the fetch
    /// or an opcode that encodes nothing leaves the state untouched.
    pub open spec fn ran(self) -> (CoreState, Result<StepView, Fault>) {
        match self.fetched(self.pc) {
            Err(fault) => (self, Err(fault)),
            Ok(code) => match spec_decode(code) {
                None => (self, Err(Fault::UndefinedInstruction)),
                Some(instruction) => {
                    let (after, done) = self.performed(instruction);
                    (
                        after,
                        match done {
                            Err(fault) => Err(fault),
                            Ok(command) => Ok(StepView { pc: self.pc, instruction, command }),
                        },
                    )
                },
            },
        }
    }

    /// The state after one instruction and one tick of the system timer. The
    /// timer does not tick where the instruction faulted.
    pub open spec fn stepped(self) -> (CoreState, Result<StepView, Fault>) {
        let (after, done) = self.ran();
        if done is Ok {
            (after.ticked(), done)
        } else {
            (after, done)
        }
    }
}

/// Whether what a step returned is what the definition says.
pub open spec fn step_reported(out: Result<Step, Fault>, expected: Result<StepView, Fault>) -> bool {
    match expected {
        Ok(step) => out is Ok && out->Ok_0@ == step,
        Err(fault) => out is Err && out->Err_0 == fault,
    }
}

impl Fetch for Core {
    fn fetch(&self, pc: u32) -> (out: Result<ThumbCode, Fault>)
        ensures
            out == self@.fetched(pc),
    {
        let hw: u16 = match self.read16(pc) {
            Ok(hw) => hw,
            Err(fault) => {
                return Err(fault);
            },
        };
        if is_thumb32(hw) {
            match self.read16(pc.wrapping_add(2)) {
                Err(fault) => Err(fault),
                Ok(hw2) => Ok(ThumbCode::Thumb32 { opcode: ((hw as u32) << 16u32) | (hw2 as u32) }),
            }
        } else {
            Ok(ThumbCode::Thumb16 { opcode: hw })
        }
    }
}

/// The processor reaches memory and peripherals through its bus matrix.
impl Bus for Core {
    fn read8(&self, addr: u32) -> (out: Result<u8, Fault>)
        ensures
            out == self@.bus.read8(addr),
    {
        self.bus.read8(addr)
    }

    fn read16(&self, addr: u32) -> (out: Result<u16, Fault>)
        ensures
            out == self@.bus.read16(addr),
    {
        self.bus.read16(addr)
    }

    fn read32(&self, addr: u32) -> (out: Result<u32, Fault>)
        ensures
            out == self@.bus.read32(addr),
    {
        self.bus.read32(addr)
    }

    fn write8(&mut self, addr: u32, value: u8) -> (out: Result<(), Fault>)
        ensures
            match old(self)@.bus.write8(addr, value) {
                Ok(bus) => out is Ok && final(self)@ == (CoreState { bus, ..old(self)@ }),
                Err(fault) => out == Err::<(), Fault>(fault) && final(self)@ == old(self)@,
            },
    {
        self.bus.write8(addr, value)
    }

    fn write16(&mut self, addr: u32, value: u16) -> (out: Result<(), Fault>)
        ensures
            match old(self)@.bus.write16(addr, value) {
                Ok(bus) => out is Ok && final(self)@ == (CoreState { bus, ..old(self)@ }),
                Err(fault) => out == Err::<(), Fault>(fault) && final(self)@ == old(self)@,
            },
    {
        self.bus.write16(addr, value)
    }

    fn write32(&mut self, addr: u32, value: u32) -> (out: Result<(), Fault>)
        ensures
            match old(self)@.bus.write32(addr, value) {
                Ok(bus) => out is Ok && final(self)@ == (CoreState { bus, ..old(self)@ }),
                Err(fault) => out == Err::<(), Fault>(fault) && final(self)@ == old(self)@,
            },
    {
        self.bus.write32(addr, value)
    }

    fn in_range(&self, addr: u32) -> (inside: bool)
        ensures
            inside == self@.bus.covers(addr),
    {
        self.bus.in_range(addr)
    }
}

impl Core {
    /// Fetches, decodes and carries out the instruction at the PC.
    pub fn run(&mut self) -> (out: Result<Step, Fault>)
        ensures
            final(self)@ == old(self)@.ran().0,
            step_reported(out, old(self)@.ran().1),
    {
        let pc: u32 = self.pc;
        let code: ThumbCode = match self.fetch(pc) {
            Ok(code) => code,
            Err(fault) => {
                return Err(fault);
            },
        };
        let instruction: Instruction = match decode(&code) {
            Some(instruction) => instruction,
            None => {
                return Err(Fault::UndefinedInstruction);
            },
        };
        match execute(self, Some(instruction)) {
            Err(fault) => Err(fault),
            Ok(command) => Ok(Step { pc, instruction, command }),
        }
    }

    /// Carries out one instruction and, where it retired, one tick of the
    /// system timer.
    pub fn step(&mut self) -> (out: Result<Step, Fault>)
        ensures
            final(self)@ == old(self)@.stepped().0,
            step_reported(out, old(self)@.stepped().1),
    {
        let out = self.run();
        if out.is_ok() {
            self.syst_step();
        }
        out
    }
}

} // verus!
