//! Reading and writing the registers of the processor.

use crate::bits::get_bits;
use crate::bits::spec_bits;
use crate::exception::ExceptionHandling;
use crate::fault::Fault;
use crate::processor::outcome;
use crate::processor::Core;
use crate::processor::CoreState;
use crate::processor::ProcessorMode;
use crate::psr::Epsr;
use crate::register::Reg;
use vstd::prelude::*;

verus! {

/// Base register manipulation.
pub trait BaseReg {
    /// Sets the PC without touching the Thumb state bit.
    fn branch_write_pc(&mut self, address: u32);

    /// Interworking branch: bit 0 of the address becomes the Thumb state bit.
    fn blx_write_pc(&mut self, address: u32);

    /// Interworking branch that is an exception return in handler mode when
    /// the top four bits of the address are all set.
    fn bx_write_pc(&mut self, address: u32) -> Result<(), Fault>;

    /// Alias for `bx_write_pc`, for instructions that load the PC from memory.
    fn load_write_pc(&mut self, address: u32) -> Result<(), Fault>;

    /// Reads a register; the PC reads as its stored value plus 4.
    fn get_r(&self, r: Reg) -> u32;

    /// Writes a register other than the PC.
    fn set_r(&mut self, r: Reg, value: u32)
        requires
            r != Reg::PC,
    ;

    /// Sets the main stack pointer.
    fn set_msp(&mut self, value: u32);

    /// Sets the process stack pointer.
    fn set_psp(&mut self, value: u32);

    /// The main stack pointer.
    fn get_msp(&self) -> u32;

    /// The process stack pointer.
    fn get_psp(&self) -> u32;

    /// Moves the PC forward by `value`.
    fn add_pc(&mut self, value: u32);

    /// The stored PC: the address of the current instruction.
    fn get_pc(&mut self) -> u32;

    /// Sets the stored PC with no side effect.
    fn set_pc(&mut self, value: u32);

    /// Adds `value` to what is stored for a register, modulo 2^32.
    fn add_r(&mut self, r: Reg, value: u32);

    /// Subtracts `value` from what is stored for a register, modulo 2^32.
    fn sub_r(&mut self, r: Reg, value: u32);
}

impl CoreState {
    /// The state after `bx_write_pc`: an exception return in handler mode for
    /// an address whose top four bits are set, else an interworking branch.
    pub open spec fn bx_written(self, address: u32) -> Result<CoreState, Fault> {
        if self.mode == ProcessorMode::HandlerMode && spec_bits(address, 28, 32) == 0b1111 {
            self.exception_return(spec_bits(address, 0, 28))
        } else {
            Ok(self.exchanged(address))
        }
    }
}

impl Core {
    /// Stores `value` for register `r`, the PC included.
    pub fn store_r(&mut self, r: Reg, value: u32)
        ensures
            final(self)@ == old(self)@.with_stored(r, value),
    {
        match r {
            Reg::SP => {
                if self.control.sp_sel {
                    self.psp = value;
                } else {
                    self.msp = value;
                }
            },
            Reg::LR => {
                self.lr = value;
            },
            Reg::PC => {
                self.pc = value;
            },
            _ => {
                let index: usize = r.value();
                self.r0_12[index] = value;
            },
        }
    }

    /// What is stored for register `r`; for the PC, the address of the
    /// current instruction.
    pub fn stored_r(&self, r: Reg) -> (value: u32)
        ensures
            value == self@.stored(r),
    {
        match r {
            Reg::SP => {
                if self.control.sp_sel {
                    self.psp
                } else {
                    self.msp
                }
            },
            Reg::LR => self.lr,
            Reg::PC => self.pc,
            _ => {
                let index: usize = r.value();
                self.r0_12[index]
            },
        }
    }
}

impl BaseReg for Core {
    fn branch_write_pc(&mut self, address: u32)
        ensures
            final(self)@ == old(self)@.branched(address),
    {
        self.set_pc(address & 0xffff_fffe);
    }

    fn blx_write_pc(&mut self, address: u32)
        ensures
            final(self)@ == old(self)@.exchanged(address),
    {
        self.psr.set_t((address & 1) == 1);
        self.branch_write_pc(address);
    }

    fn bx_write_pc(&mut self, address: u32) -> (out: Result<(), Fault>)
        ensures
            outcome(old(self)@, final(self)@, out, old(self)@.bx_written(address)),
    {
        if self.mode == ProcessorMode::HandlerMode && get_bits(address, 28, 32) == 0b1111 {
            self.exception_return(get_bits(address, 0, 28))
        } else {
            self.blx_write_pc(address);
            Ok(())
        }
    }

    fn load_write_pc(&mut self, address: u32) -> (out: Result<(), Fault>)
        ensures
            outcome(old(self)@, final(self)@, out, old(self)@.bx_written(address)),
    {
        self.bx_write_pc(address)
    }

    fn get_r(&self, r: Reg) -> (value: u32)
        ensures
            value == self@.reg(r),
    {
        match r {
            Reg::PC => self.pc.wrapping_add(4),
            _ => self.stored_r(r),
        }
    }

    fn set_r(&mut self, r: Reg, value: u32)
        ensures
            final(self)@ == old(self)@.with_stored(r, value),
            final(self)@.reg(r) == value,
    {
        self.store_r(r, value);
    }

    fn set_msp(&mut self, value: u32)
        ensures
            final(self)@ == (CoreState { msp: value, ..old(self)@ }),
    {
        self.msp = value;
    }

    fn set_psp(&mut self, value: u32)
        ensures
            final(self)@ == (CoreState { psp: value, ..old(self)@ }),
    {
        self.psp = value;
    }

    fn get_msp(&self) -> (value: u32)
        ensures
            value == self@.msp,
    {
        self.msp
    }

    fn get_psp(&self) -> (value: u32)
        ensures
            value == self@.psp,
    {
        self.psp
    }

    fn add_pc(&mut self, value: u32)
        ensures
            final(self)@ == old(self)@.advanced(value),
    {
        self.pc = self.pc.wrapping_add(value);
    }

    fn get_pc(&mut self) -> (value: u32)
        ensures
            value == old(self)@.pc,
            final(self)@ == old(self)@,
    {
        self.pc
    }

    fn set_pc(&mut self, value: u32)
        ensures
            final(self)@ == (CoreState { pc: value, ..old(self)@ }),
    {
        self.pc = value;
    }

    fn add_r(&mut self, r: Reg, value: u32)
        ensures
            final(self)@ == old(self)@.with_stored(r, old(self)@.stored(r).wrapping_add(value)),
    {
        let sum: u32 = self.stored_r(r).wrapping_add(value);
        self.store_r(r, sum);
    }

    fn sub_r(&mut self, r: Reg, value: u32)
        ensures
            final(self)@ == old(self)@.with_stored(r, old(self)@.stored(r).wrapping_sub(value)),
    {
        let difference: u32 = self.stored_r(r).wrapping_sub(value);
        self.store_r(r, difference);
    }
}

} // verus!
