//! The fatal error conditions of the interpreter. Every one of them ends
//! execution; the host turns the variant and its offending value into a
//! diagnostic.

use vstd::prelude::*;

verus! {

#[derive(Debug, Clone, Copy, PartialEq, Eq, Structural)]
pub enum VmError {
    /// The instruction word's opcode field belongs to no known format family.
    UnknownOpcode { opcode: u32 },
    /// A known family, but no variant matches its func3/func7 refinement.
    UnknownInstruction { opcode: u32, func3: u32, func7: u32 },
    /// A load, store or fetch touches an address outside flash and stack.
    InvalidAccess { address: usize, nb_bytes: usize },
    /// An environment call with a syscall code the interpreter does not know.
    UnknownSyscall { syscall_id: u32 },
    /// A read-input environment call asking for more bytes than memory holds.
    ReadTooLarge { size: u32 },
}

} // verus!
