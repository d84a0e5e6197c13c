//! The environment-call interface: the three host services a guest program
//! can request, selected by the syscall code it puts in `x10`.

use vstd::prelude::*;

use crate::errors::VmError;

verus! {

#[derive(Debug, Clone, Copy, PartialEq, Eq, Structural)]
pub enum Syscalls {
    /// Read bytes from host standard input into guest memory.
    ReadInput,
    /// Terminate the machine with the guest's exit code.
    Exit,
    /// Write bytes from guest memory to host standard output.
    Puts,
}

impl Syscalls {
    pub fn from_u32(syscall_id: u32) -> (r: Result<Syscalls, VmError>)
        ensures
            r == Syscalls::from_u32_spec(syscall_id),
    {
        match syscall_id {
            0 => Ok(Syscalls::ReadInput),
            1 => Ok(Syscalls::Exit),
            2 => Ok(Syscalls::Puts),
            _ => Err(VmError::UnknownSyscall { syscall_id }),
        }
    }

    /// Codes 0, 1 and 2 name the three services; every other code is fatal.
    pub open spec fn from_u32_spec(syscall_id: u32) -> Result<Syscalls, VmError> {
        if syscall_id == 0 {
            Ok(Syscalls::ReadInput)
        } else if syscall_id == 1 {
            Ok(Syscalls::Exit)
        } else if syscall_id == 2 {
            Ok(Syscalls::Puts)
        } else {
            Err(VmError::UnknownSyscall { syscall_id })
        }
    }
}

} // verus!
