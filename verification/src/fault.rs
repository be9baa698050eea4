//! Errors that the simulator detects and reports instead of aborting.

use vstd::prelude::*;

verus! {

/// A condition that stops the current instruction.
#[derive(Copy, Clone, Debug, PartialEq, Eq, Structural)]
pub enum Fault {
    /// The fetched bit pattern matches no documented encoding.
    UndefinedInstruction,
    /// The opcode was recognised but the engine has no behaviour for it. The
    /// engine carries out every instruction of the set, so that it never
    /// reports this fault itself.
    UnimplementedInstruction,
    /// An access addressed no device, or tried to write a read-only device.
    BusFault,
    /// An exception return carried a payload that names no return target.
    InvalidExceptionReturn,
}

} // verus!
