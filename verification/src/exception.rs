//! Exception identities, pending bookkeeping and exception return.

use crate::bus::BusView;
use crate::fault::Fault;
use crate::processor::outcome;
use crate::processor::Core;
use crate::processor::CoreState;
use crate::processor::ProcessorMode;
use crate::psr::Control;
use crate::psr::PSR;
use vstd::prelude::*;

verus! {

/// A source of exceptions.
#[derive(Copy, Clone, Debug, PartialEq, Eq, Structural)]
pub enum Exception {
    /// Reset
    Reset,
    /// Non-maskable interrupt
    NMI,
    /// Hard fault
    HardFault,
    /// Supervisor call
    SVCall,
    /// Pendable request for system service
    PendSV,
    /// System timer tick
    SysTick,
    /// External interrupt `n`
    Interrupt {
        /// Number of the interrupt line.
        n: u8,
    },
}

/// One more than the largest exception number.
pub const EXCEPTION_COUNT: usize = 272;

impl Exception {
    /// The exception number, as the IPSR holds it.
    pub open spec fn spec_number(self) -> usize {
        match self {
            Exception::Reset => 1,
            Exception::NMI => 2,
            Exception::HardFault => 3,
            Exception::SVCall => 11,
            Exception::PendSV => 14,
            Exception::SysTick => 15,
            Exception::Interrupt { n } => (16 + n) as usize,
        }
    }

    /// The exception number, as the IPSR holds it.
    pub fn number(self) -> (number: usize)
        ensures
            number == self.spec_number(),
            1 <= number < EXCEPTION_COUNT,
    {
        match self {
            Exception::Reset => 1,
            Exception::NMI => 2,
            Exception::HardFault => 3,
            Exception::SVCall => 11,
            Exception::PendSV => 14,
            Exception::SysTick => 15,
            Exception::Interrupt { n } => 16 + n as usize,
        }
    }

    /// The exception with the given number, if the number names one.
    pub fn from_number(number: usize) -> (exception: Option<Exception>)
        ensures
            exception matches Some(e) ==> e.spec_number() == number,
            exception is None <==> !(number == 1 || number == 2 || number == 3 || number == 11
                || number == 14 || number == 15 || 16 <= number < EXCEPTION_COUNT),
    {
        if number == 1 {
            Some(Exception::Reset)
        } else if number == 2 {
            Some(Exception::NMI)
        } else if number == 3 {
            Some(Exception::HardFault)
        } else if number == 11 {
            Some(Exception::SVCall)
        } else if number == 14 {
            Some(Exception::PendSV)
        } else if number == 15 {
            Some(Exception::SysTick)
        } else if 16 <= number && number < EXCEPTION_COUNT {
            Some(Exception::Interrupt { n: (number - 16) as u8 })
        } else {
            None
        }
    }
}

/// Return to handler mode on the main stack.
pub const EXC_RETURN_HANDLER: u32 = 0x0fff_fff1;

/// Return to thread mode on the main stack.
pub const EXC_RETURN_THREAD_MSP: u32 = 0x0fff_fff9;

/// Return to thread mode on the process stack.
pub const EXC_RETURN_THREAD_PSP: u32 = 0x0fff_fffd;

/// Pending bookkeeping and return from exceptions.
pub trait ExceptionHandling {
    /// Marks the exception pending.
    fn set_exception_pending(&mut self, exception: Exception);

    /// Marks the exception no longer pending.
    fn clear_exception_pending(&mut self, exception: Exception);

    /// Whether the exception is pending.
    fn is_exception_pending(&self, exception: Exception) -> bool;

    /// Returns from an exception as the payload of the return address says.
    fn exception_return(&mut self, exc_return: u32) -> Result<(), Fault>;
}

impl CoreState {
    /// Whether the exception is pending.
    pub open spec fn is_pending(self, exception: Exception) -> bool {
        self.pending[exception.spec_number() as int]
    }

    /// The state with the pending mark of the exception replaced.
    pub open spec fn with_pending(self, exception: Exception, pending: bool) -> CoreState {
        CoreState { pending: self.pending.update(exception.spec_number() as int, pending), ..self }
    }

    /// The mode and stack selection that a return payload names, if it names any.
    pub open spec fn return_target(payload: u32) -> Option<(ProcessorMode, bool)> {
        if payload == EXC_RETURN_HANDLER {
            Some((ProcessorMode::HandlerMode, false))
        } else if payload == EXC_RETURN_THREAD_MSP {
            Some((ProcessorMode::ThreadMode, false))
        } else if payload == EXC_RETURN_THREAD_PSP {
            Some((ProcessorMode::ThreadMode, true))
        } else {
            None
        }
    }

    /// The state after the eight words of an exception frame were taken from
    /// the stack that the return selects: R0 to R3, R12, LR, the return
    /// address and the status word. The stack pointer moves past the frame.
    pub open spec fn unstacked(self, mode: ProcessorMode, sp_sel: bool, frame: Seq<u32>) -> CoreState {
        let control = Control { n_priv: self.control.n_priv, sp_sel };
        let base = if sp_sel {
            self.psp
        } else {
            self.msp
        };
        CoreState {
            r0_12: self.r0_12.update(0, frame[0]).update(1, frame[1]).update(2, frame[2]).update(
                3,
                frame[3],
            ).update(12, frame[4]),
            lr: frame[5],
            pc: frame[6] & 0xffff_fffe,
            psr: PSR { value: frame[7], profile: self.psr.profile },
            mode,
            control,
            msp: if sp_sel {
                self.msp
            } else {
                base.wrapping_add(32)
            },
            psp: if sp_sel {
                base.wrapping_add(32)
            } else {
                self.psp
            },
            ..self
        }
    }

    /// The state after an exception return with the given payload: a fault
    /// where the payload names no target or the frame cannot be read.
    pub open spec fn exception_return(self, payload: u32) -> Result<CoreState, Fault> {
        match CoreState::return_target(payload) {
            None => Err(Fault::InvalidExceptionReturn),
            Some((mode, sp_sel)) => match self.bus.read_words(
                if sp_sel {
                    self.psp
                } else {
                    self.msp
                },
                8,
            ) {
                Err(fault) => Err(fault),
                Ok(frame) => Ok(self.unstacked(mode, sp_sel, frame)),
            },
        }
    }
}

impl ExceptionHandling for Core {
    fn set_exception_pending(&mut self, exception: Exception)
        ensures
            final(self)@ == old(self)@.with_pending(exception, true),
    {
        let number: usize = exception.number();
        self.pending[number] = true;
    }

    fn clear_exception_pending(&mut self, exception: Exception)
        ensures
            final(self)@ == old(self)@.with_pending(exception, false),
    {
        let number: usize = exception.number();
        self.pending[number] = false;
    }

    fn is_exception_pending(&self, exception: Exception) -> (pending: bool)
        ensures
            pending == self@.is_pending(exception),
    {
        let number: usize = exception.number();
        self.pending[number]
    }

    fn exception_return(&mut self, exc_return: u32) -> (out: Result<(), Fault>)
        ensures
            outcome(old(self)@, final(self)@, out, old(self)@.exception_return(exc_return)),
    {
        let (mode, sp_sel): (ProcessorMode, bool) = if exc_return == EXC_RETURN_HANDLER {
            (ProcessorMode::HandlerMode, false)
        } else if exc_return == EXC_RETURN_THREAD_MSP {
            (ProcessorMode::ThreadMode, false)
        } else if exc_return == EXC_RETURN_THREAD_PSP {
            (ProcessorMode::ThreadMode, true)
        } else {
            return Err(Fault::InvalidExceptionReturn);
        };
        let base: u32 = if sp_sel {
            self.psp
        } else {
            self.msp
        };
        let frame: Vec<u32> = match self.bus.read_words(base, 8) {
            Ok(words) => words,
            Err(fault) => {
                return Err(fault);
            },
        };
        proof {
            lemma_read_words_len(self.bus@, base, 8);
        }
        self.r0_12[0] = frame[0];
        self.r0_12[1] = frame[1];
        self.r0_12[2] = frame[2];
        self.r0_12[3] = frame[3];
        self.r0_12[12] = frame[4];
        self.lr = frame[5];
        self.pc = frame[6] & 0xffff_fffe;
        self.psr.value = frame[7];
        self.mode = mode;
        self.control.sp_sel = sp_sel;
        if sp_sel {
            self.psp = base.wrapping_add(32);
        } else {
            self.msp = base.wrapping_add(32);
        }
        proof {
            assert(self@.r0_12 =~= old(self)@.unstacked(mode, sp_sel, frame@).r0_12);
        }
        Ok(())
    }
}

/// A block of words that was read has as many words as were asked for.
pub proof fn lemma_read_words_len(bus: BusView, addr: u32, count: nat)
    ensures
        bus.read_words(addr, count) matches Ok(words) ==> words.len() == count,
    decreases count,
{
    if count > 0 {
        lemma_read_words_len(bus, addr, (count - 1) as nat);
    }
}

} // verus!
