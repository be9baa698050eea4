//! The semihosting bridge: a debug trap of the guest becomes a command for
//! the host, and the host's response goes back into the guest's registers.
//!
//! The library only decodes and delivers. The host runs between the two.

use crate::bus::Bus;
use crate::bus::BusMatrix;
use crate::bus::BusView;
use crate::fault::Fault;
use crate::processor::Core;
use crate::processor::CoreState;
use crate::register::Reg;
use vstd::prelude::*;

verus! {

/// Immediate of the breakpoint that carries a semihosting request.
pub const SEMIHOSTING_TRAP: u32 = 0xab;

/// Operation number of SYS_WRITEC.
pub const SYS_WRITEC: u32 = 0x03;

/// Operation number of SYS_WRITE.
pub const SYS_WRITE: u32 = 0x05;

/// Operation number of the exit report.
pub const SYS_EXCEPTION: u32 = 0x18;

/// A service that the guest requests from the host.
#[derive(Clone, Debug, PartialEq, Eq)]
pub enum SemihostingCommand {
    /// Write one byte to the debug console.
    SysWritec {
        /// The byte.
        byte: u8,
    },
    /// Write bytes to an open file handle.
    SysWrite {
        /// The handle to write to.
        handle: u32,
        /// The bytes to write.
        data: Vec<u8>,
    },
    /// The program reports an exception or its exit.
    SysException {
        /// The reason code.
        reason: u32,
    },
}

/// The host's answer to a command.
#[derive(Copy, Clone, Debug, PartialEq, Eq)]
pub enum SemihostingResponse {
    /// The byte was written.
    SysWritec,
    /// The number of bytes that were not written, or an error code.
    SysWrite {
        /// Bytes left unwritten, or the error.
        result: Result<u32, i32>,
    },
    /// The report was taken.
    SysException {
        /// Whether the host handled the report.
        success: bool,
        /// Whether the simulation is to stop.
        stop: bool,
    },
}

/// A command as a mathematical value.
pub enum CommandView {
    /// Write one byte to the debug console.
    SysWritec {
        /// The byte.
        byte: u8,
    },
    /// Write bytes to an open file handle.
    SysWrite {
        /// The handle to write to.
        handle: u32,
        /// The bytes to write.
        data: Seq<u8>,
    },
    /// The program reports an exception or its exit.
    SysException {
        /// The reason code.
        reason: u32,
    },
}

impl View for SemihostingCommand {
    type V = CommandView;

    open spec fn view(&self) -> CommandView {
        match *self {
            SemihostingCommand::SysWritec { byte } => CommandView::SysWritec { byte },
            SemihostingCommand::SysWrite { handle, data } => CommandView::SysWrite {
                handle,
                data: data@,
            },
            SemihostingCommand::SysException { reason } => CommandView::SysException { reason },
        }
    }
}

/// The view of a decoded request, where there is one.
pub open spec fn command_view(command: Option<SemihostingCommand>) -> Option<CommandView> {
    match command {
        Some(c) => Some(c@),
        None => None,
    }
}

impl BusView {
    /// The `count` consecutive bytes from `addr`, or the fault of the first
    /// read that fails.
    pub open spec fn read_bytes(self, addr: u32, count: nat) -> Result<Seq<u8>, Fault>
        decreases count,
    {
        if count == 0 {
            Ok(Seq::empty())
        } else {
            match self.read_bytes(addr, (count - 1) as nat) {
                Err(fault) => Err(fault),
                Ok(bytes) => match self.read8(addr.wrapping_add((count - 1) as u32)) {
                    Err(fault) => Err(fault),
                    Ok(byte) => Ok(bytes.push(byte)),
                },
            }
        }
    }
}

/// Once a block of bytes fails to be read, every longer block from the same
/// address fails with the same fault.
pub proof fn lemma_read_bytes_fails_on(bus: BusView, addr: u32, failing: nat, count: nat)
    requires
        failing <= count,
        bus.read_bytes(addr, failing) is Err,
    ensures
        bus.read_bytes(addr, count) == bus.read_bytes(addr, failing),
    decreases count,
{
    if failing < count {
        lemma_read_bytes_fails_on(bus, addr, failing, (count - 1) as nat);
    }
}

impl BusMatrix {
    /// Reads `count` consecutive bytes from `addr`, stopping at the first fault.
    pub fn read_bytes(&self, addr: u32, count: u32) -> (out: Result<Vec<u8>, Fault>)
        ensures
            match self@.read_bytes(addr, count as nat) {
                Ok(bytes) => out is Ok && out->Ok_0@ == bytes,
                Err(fault) => out is Err && out->Err_0 == fault,
            },
    {
        let mut bytes: Vec<u8> = Vec::new();
        let mut i: u32 = 0;
        while i < count
            invariant
                i <= count,
                self@.read_bytes(addr, i as nat) == Ok::<Seq<u8>, Fault>(bytes@),
            decreases count - i,
        {
            match self.read8(addr.wrapping_add(i)) {
                Ok(byte) => {
                    bytes.push(byte);
                },
                Err(fault) => {
                    proof {
                        lemma_read_bytes_fails_on(self@, addr, (i + 1) as nat, count as nat);
                    }
                    return Err(fault);
                },
            }
            i = i + 1;
        }
        Ok(bytes)
    }
}

impl CoreState {
    /// The command that the guest requests with R0 and R1: R0 holds the
    /// operation number and R1 the argument or the address of the argument
    /// block. No command where the operation is none of those the bridge knows.
    pub open spec fn semihost_request(self) -> Result<Option<CommandView>, Fault> {
        let operation = self.stored(Reg::R0);
        let argument = self.stored(Reg::R1);
        if operation == SYS_WRITEC {
            match self.bus.read8(argument) {
                Err(fault) => Err(fault),
                Ok(byte) => Ok(Some(CommandView::SysWritec { byte })),
            }
        } else if operation == SYS_WRITE {
            match self.bus.read_words(argument, 3) {
                Err(fault) => Err(fault),
                Ok(block) => match self.bus.read_bytes(block[1], block[2] as nat) {
                    Err(fault) => Err(fault),
                    Ok(data) => Ok(Some(CommandView::SysWrite { handle: block[0], data })),
                },
            }
        } else if operation == SYS_EXCEPTION {
            Ok(Some(CommandView::SysException { reason: argument }))
        } else {
            Ok(None)
        }
    }

    /// The state after the host's response was delivered: R0 takes the
    /// result, and a stop request clears the running flag.
    pub open spec fn semihost_returned(self, response: SemihostingResponse) -> CoreState {
        match response {
            SemihostingResponse::SysWritec => self,
            SemihostingResponse::SysWrite { result } => match result {
                Ok(unwritten) => self.with_stored(Reg::R0, unwritten),
                Err(code) => self.with_stored(Reg::R0, code as u32),
            },
            SemihostingResponse::SysException { success, stop } => {
                let answered = if success {
                    self.with_stored(Reg::R0, 0)
                } else {
                    self
                };
                if stop {
                    CoreState { running: false, ..answered }
                } else {
                    answered
                }
            },
        }
    }
}

/// Decodes the request that the guest makes with a semihosting trap.
pub fn semihost_request(core: &Core) -> (out: Result<Option<SemihostingCommand>, Fault>)
    ensures
        match core@.semihost_request() {
            Ok(command) => out is Ok && command_view(out->Ok_0) == command,
            Err(fault) => out is Err && out->Err_0 == fault,
        },
{
    let operation: u32 = core.stored_r(Reg::R0);
    let argument: u32 = core.stored_r(Reg::R1);
    if operation == SYS_WRITEC {
        match core.bus.read8(argument) {
            Err(fault) => Err(fault),
            Ok(byte) => Ok(Some(SemihostingCommand::SysWritec { byte })),
        }
    } else if operation == SYS_WRITE {
        let block: Vec<u32> = match core.bus.read_words(argument, 3) {
            Ok(words) => words,
            Err(fault) => {
                return Err(fault);
            },
        };
        proof {
            crate::exception::lemma_read_words_len(core.bus@, argument, 3);
        }
        match core.bus.read_bytes(block[1], block[2]) {
            Err(fault) => Err(fault),
            Ok(data) => Ok(Some(SemihostingCommand::SysWrite { handle: block[0], data })),
        }
    } else if operation == SYS_EXCEPTION {
        Ok(Some(SemihostingCommand::SysException { reason: argument }))
    } else {
        Ok(None)
    }
}

/// Delivers the host's response into the guest's state.
pub fn semihost_return(core: &mut Core, response: &SemihostingResponse)
    ensures
        final(core)@ == old(core)@.semihost_returned(*response),
{
    match *response {
        SemihostingResponse::SysWritec => {},
        SemihostingResponse::SysWrite { result } => {
            match result {
                Ok(unwritten) => {
                    core.store_r(Reg::R0, unwritten);
                },
                Err(code) => {
                    core.store_r(Reg::R0, code as u32);
                },
            }
        },
        SemihostingResponse::SysException { success, stop } => {
            if success {
                core.store_r(Reg::R0, 0);
            }
            if stop {
                core.running = false;
            }
        },
    }
}

} // verus!
