//! The processor aggregate: registers, status, pending exceptions and the bus.

use crate::bus::Bus;
use crate::bus::BusMatrix;
use crate::bus::BusView;
use crate::exception::EXCEPTION_COUNT;
use crate::fault::Fault;
use crate::psr::Control;
use crate::psr::Epsr;
use crate::psr::Profile;
use crate::psr::PSR;
use crate::psr::PSR_T;
use crate::register::Reg;
use vstd::prelude::*;

verus! {

/// The mode in which the processor executes.
#[derive(Copy, Clone, Debug, PartialEq, Eq, Structural)]
pub enum ProcessorMode {
    /// Normal program execution.
    ThreadMode,
    /// Execution of an exception handler.
    HandlerMode,
}

/// The simulated processor with everything it owns.
pub struct Core {
    /// The general registers R0 to R12.
    pub r0_12: [u32; 13],
    /// Main stack pointer.
    pub msp: u32,
    /// Process stack pointer.
    pub psp: u32,
    /// Link register.
    pub lr: u32,
    /// Address of the instruction that executes next.
    pub pc: u32,
    /// Program status: APSR, IPSR and EPSR.
    pub psr: PSR,
    /// Whether PRIMASK masks the configurable exceptions.
    pub primask: bool,
    /// The CONTROL register.
    pub control: Control,
    /// Thread or handler mode.
    pub mode: ProcessorMode,
    /// For each exception number, whether that exception is pending.
    pub pending: [bool; 272],
    /// Cleared when the guest asks to stop.
    pub running: bool,
    /// The memories and peripherals.
    pub bus: BusMatrix,
}

/// The state of the processor as a mathematical value.
pub struct CoreState {
    /// The general registers R0 to R12.
    pub r0_12: Seq<u32>,
    /// Main stack pointer.
    pub msp: u32,
    /// Process stack pointer.
    pub psp: u32,
    /// Link register.
    pub lr: u32,
    /// Address of the instruction that executes next.
    pub pc: u32,
    /// Program status: APSR, IPSR and EPSR.
    pub psr: PSR,
    /// Whether PRIMASK masks the configurable exceptions.
    pub primask: bool,
    /// The CONTROL register.
    pub control: Control,
    /// Thread or handler mode.
    pub mode: ProcessorMode,
    /// For each exception number, whether that exception is pending.
    pub pending: Seq<bool>,
    /// Cleared when the guest asks to stop.
    pub running: bool,
    /// The memories and peripherals.
    pub bus: BusView,
}

impl View for Core {
    type V = CoreState;

    open spec fn view(&self) -> CoreState {
        CoreState {
            r0_12: self.r0_12@,
            msp: self.msp,
            psp: self.psp,
            lr: self.lr,
            pc: self.pc,
            psr: self.psr,
            primask: self.primask,
            control: self.control,
            mode: self.mode,
            pending: self.pending@,
            running: self.running,
            bus: self.bus@,
        }
    }
}

impl CoreState {
    /// The register file and the pending table have their sizes, and the
    /// memories end within the address space.
    pub open spec fn wf(self) -> bool {
        &&& self.r0_12.len() == 13
        &&& self.pending.len() == EXCEPTION_COUNT
        &&& self.bus.wf()
    }

    /// The state of a processor that was just made over `bus`: thread mode,
    /// every register zero, nothing pending, running.
    pub open spec fn fresh(bus: BusView, profile: Profile) -> CoreState {
        CoreState {
            r0_12: Seq::new(13, |i: int| 0u32),
            msp: 0,
            psp: 0,
            lr: 0,
            pc: 0,
            psr: PSR { value: 0, profile },
            primask: false,
            control: Control { n_priv: false, sp_sel: false },
            mode: ProcessorMode::ThreadMode,
            pending: Seq::new(EXCEPTION_COUNT as nat, |i: int| false),
            running: true,
            bus,
        }
    }

    /// The active stack pointer: PSP where CONTROL selects it, else MSP.
    pub open spec fn sp(self) -> u32 {
        if self.control.sp_sel {
            self.psp
        } else {
            self.msp
        }
    }

    /// The state with the active stack pointer replaced.
    pub open spec fn with_sp(self, value: u32) -> CoreState {
        if self.control.sp_sel {
            CoreState { psp: value, ..self }
        } else {
            CoreState { msp: value, ..self }
        }
    }

    /// The value stored for register `r`; for the PC, the address of the
    /// current instruction.
    pub open spec fn stored(self, r: Reg) -> u32 {
        match r {
            Reg::SP => self.sp(),
            Reg::LR => self.lr,
            Reg::PC => self.pc,
            _ => self.r0_12[r.spec_value() as int],
        }
    }

    /// The state with `value` stored for register `r`.
    pub open spec fn with_stored(self, r: Reg, value: u32) -> CoreState {
        match r {
            Reg::SP => self.with_sp(value),
            Reg::LR => CoreState { lr: value, ..self },
            Reg::PC => CoreState { pc: value, ..self },
            _ => CoreState { r0_12: self.r0_12.update(r.spec_value() as int, value), ..self },
        }
    }

    /// What an instruction reads from register `r`: the stored value, and for
    /// the PC the stored value plus 4.
    pub open spec fn reg(self, r: Reg) -> u32 {
        if r == Reg::PC {
            self.pc.wrapping_add(4)
        } else {
            self.stored(r)
        }
    }

    /// The state after a plain branch: bit 0 of the address is cleared.
    pub open spec fn branched(self, address: u32) -> CoreState {
        CoreState { pc: address & 0xffff_fffe, ..self }
    }

    /// The state after an interworking branch: bit 0 of the address becomes
    /// the Thumb state bit.
    pub open spec fn exchanged(self, address: u32) -> CoreState {
        CoreState {
            psr: self.psr.with_flag(PSR_T as nat, address & 1 == 1),
            pc: address & 0xffff_fffe,
            ..self
        }
    }

    /// The state with the PC moved past an instruction of `bytes` bytes.
    pub open spec fn advanced(self, bytes: u32) -> CoreState {
        CoreState { pc: self.pc.wrapping_add(bytes), ..self }
    }

    /// The state after reset, given the first two words of the vector table.
    pub open spec fn after_reset(self, initial_sp: u32, reset_vector: u32) -> CoreState {
        CoreState {
            msp: initial_sp,
            pc: reset_vector & 0xffff_fffe,
            psr: self.psr.with_flag(PSR_T as nat, reset_vector & 1 == 1),
            ..self
        }
    }

    /// The state after reset, or the fault that reading the vector table gives.
    pub open spec fn reset(self) -> Result<CoreState, Fault> {
        match self.bus.read32(4) {
            Err(fault) => Err(fault),
            Ok(reset_vector) => match self.bus.read32(0) {
                Err(fault) => Err(fault),
                Ok(initial_sp) => Ok(self.after_reset(initial_sp, reset_vector)),
            },
        }
    }
}

/// What an operation leaves behind: the expected state and success, or the
/// fault and the state untouched.
pub open spec fn outcome(
    before: CoreState,
    after: CoreState,
    out: Result<(), Fault>,
    expected: Result<CoreState, Fault>,
) -> bool {
    match expected {
        Ok(state) => out is Ok && after == state,
        Err(fault) => out == Err::<(), Fault>(fault) && after == before,
    }
}

impl Core {
    /// A processor over `bus` in thread mode, with every register zero, no
    /// exception pending, and the running flag set.
    pub fn new(bus: BusMatrix, profile: Profile) -> (core: Core)
        ensures
            core@ == CoreState::fresh(bus@, profile),
    {
        let core = Core {
            r0_12: [0u32; 13],
            msp: 0,
            psp: 0,
            lr: 0,
            pc: 0,
            psr: PSR::new(profile),
            primask: false,
            control: Control { n_priv: false, sp_sel: false },
            mode: ProcessorMode::ThreadMode,
            pending: [false; 272],
            running: true,
            bus,
        };
        proof {
            assert(core.r0_12@ =~= Seq::new(13, |i: int| 0u32));
            assert(core.pending@ =~= Seq::new(EXCEPTION_COUNT as nat, |i: int| false));
        }
        core
    }

    /// Resets the processor from the vector table: MSP from the word at
    /// address 0, PC from the word at address 4 with bit 0 cleared, and the
    /// Thumb state from that bit 0.
    pub fn reset(&mut self) -> (out: Result<(), Fault>)
        ensures
            outcome(old(self)@, final(self)@, out, old(self)@.reset()),
    {
        let reset_vector: u32 = match self.bus.read32(4) {
            Ok(word) => word,
            Err(fault) => {
                return Err(fault);
            },
        };
        let initial_sp: u32 = match self.bus.read32(0) {
            Ok(word) => word,
            Err(fault) => {
                return Err(fault);
            },
        };
        self.pc = reset_vector & 0xffff_fffe;
        self.psr.set_t((reset_vector & 1) == 1);
        self.msp = initial_sp;
        Ok(())
    }

    /// Tells that the state is well formed; the sizes of the memories are
    /// what their devices were made with.
    pub fn check_well_formed(&self)
        ensures
            self@.wf(),
    {
        let _ = self.bus.ahb.flash.size();
        let _ = self.bus.ahb.ram.size();
    }
}

} // verus!
