//! An instruction-accurate simulator core for a small microcontroller with
//! the Thumb and Thumb-2 instruction encodings.
//!
//! The crate models the processor's registers and status, its memories and
//! buses, the system timer and a semihosting bridge; it decodes opcodes and
//! carries instructions out. Every function is verified against a contract
//! that says what it returns or changes, over the mathematical state that
//! `processor::CoreState` holds.
//!
//! - `bits`, `operation`, `condition`: bit fields, arithmetic, shifts and
//!   condition codes.
//! - `register`, `psr`, `base_reg`: register identifiers, the status word,
//!   and access to the registers.
//! - `memory`, `bus`: flash, RAM, and the buses that route each address.
//! - `instruction`, `decoder`: the instruction set and the tables of encodings.
//! - `executor`, `fetch`: what each instruction does, and one step of the
//!   fetch-decode-execute cycle.
//! - `exception`, `systick`, `semihosting`: exceptions, the system timer and
//!   the bridge to host services.
//! - `device`: the memories of a device profile.
//! - `laws`: properties that hold across operations, such as a PUSH followed
//!   by a POP restoring the registers.
//!
//! The loop that drives a simulation, with the host's callbacks, is left to
//! the host: `Core::step` returns what it needs after every instruction.

pub mod base_reg;
pub mod bits;
pub mod bus;
pub mod condition;
pub mod decoder;
pub mod device;
pub mod exception;
pub mod executor;
pub mod fault;
pub mod fetch;
pub mod instruction;
pub mod laws;
pub mod memory;
pub mod operation;
pub mod processor;
pub mod psr;
pub mod register;
pub mod semihosting;
pub mod systick;
pub mod text;
