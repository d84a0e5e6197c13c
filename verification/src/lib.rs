//! An interpreter for the base integer subset of the 32-bit RISC-V
//! architecture (RV32I).
//!
//! The crate models the architectural state of a small firmware-style
//! machine — thirty-two general-purpose registers with `x0` hardwired to
//! zero, a program counter, a flash region holding the program image and a
//! stack region — and implements the instruction decoder, the execution
//! semantics of every RV32I instruction, and the environment-call interface.
//! Host input and output (loading the image, standard input and output for
//! the environment calls, the trace stream) live outside this crate; the
//! run loop is exposed as a single `step` that reports the effect the host
//! must perform.

pub mod errors;
pub mod instruction_decoder;
pub mod instructions;
pub mod memory;
pub mod register;
pub mod syscalls;
pub mod utils;
pub mod vm;
