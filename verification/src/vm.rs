//! The virtual machine: architectural state (register file, program counter,
//! flash and stack regions), the execution semantics of every decoded
//! instruction, the environment-call interface, and the run-loop step.
//!
//! All arithmetic is modulo 2^32. The host performs the input/output an
//! environment call asks for: `step` returns a [`StepEffect`] naming the
//! request, and the host hands read bytes back through [`VM::write_n`].

use vstd::prelude::*;

use crate::errors::VmError;
use crate::instruction_decoder::{decode, decode_spec};
use crate::instructions::{
    BOpcode, IOpcode, InstructionFormat, JOpcode, JOpcodeHelper, ROpcode, SOpcode, UOpcode,
};
use crate::memory::{
    mem_belongs, mem_byte, mem_read_bytes, mem_read_u16, mem_read_u32, mem_store_byte,
    mem_store_bytes, mem_store_u16, mem_store_u32, MemView, Memory,
};
use crate::register::Register;
use crate::syscalls::Syscalls;
use crate::utils::{sign_extend_number, sign_extend_spec};

verus! {

/// The length of each memory region: the stack's size, and the bound the
/// flash image must stay under.
pub const MEMORY_SIZE: usize = 0x4000;

/// The base address of the flash region.
pub const FLASH_ADDRESS: usize = 0x40000;

/// The interrupt table sits at the very start of flash.
pub const FLASH_INTERRUPT_TABLE_ADDRESS: usize = FLASH_ADDRESS;

/// The reset vector is the first entry of the interrupt table.
pub const FLASH_INTERRUPT_TABLE_RESET_ADDRESS: usize = FLASH_INTERRUPT_TABLE_ADDRESS;

/// The initial stack pointer, 16-byte aligned; the stack region lies just
/// below it.
pub const STACK_ADDRESS: usize = 0xfffffff0;

/// The base address of the stack region.
pub const STACK_BASE: usize = STACK_ADDRESS - MEMORY_SIZE;

/// 32-bit addition, wrapping modulo 2^32.
pub open spec fn wrap_add(a: u32, b: u32) -> u32 {
    if a + b > u32::MAX {
        (a + b - 0x1_0000_0000) as u32
    } else {
        (a + b) as u32
    }
}

/// 32-bit subtraction, wrapping modulo 2^32.
pub open spec fn wrap_sub(a: u32, b: u32) -> u32 {
    if a - b < 0 {
        (a - b + 0x1_0000_0000) as u32
    } else {
        (a - b) as u32
    }
}

/// The two's-complement reading of a 32-bit register value.
pub open spec fn as_signed(v: u32) -> int {
    if v < 0x8000_0000 {
        v as int
    } else {
        v - 0x1_0000_0000
    }
}

/// Arithmetic right shift: the sign bit is replicated into the vacated
/// high bits.
pub open spec fn sra32(value: u32, shift: u32) -> u32
    recommends
        shift < 32,
{
    if shift == 0 {
        value
    } else if value >> 31u32 == 1u32 {
        (value >> shift) | (0xffff_ffffu32 << ((32 - shift) as u32))
    } else {
        value >> shift
    }
}

/// Wrapping addition and subtraction are reduction modulo 2^32: every
/// register value an instruction produces stays within 32 bits.
pub proof fn lemma_wrap_arithmetic_is_mod(a: u32, b: u32)
    ensures
        wrap_add(a, b) == (a + b) % 0x1_0000_0000,
        wrap_sub(a, b) == (a - b) % 0x1_0000_0000,
{
}

fn signed_lt(a: u32, b: u32) -> (r: bool)
    ensures
        r == (as_signed(a) < as_signed(b)),
{
    if a >= 0x8000_0000 && b < 0x8000_0000 {
        true
    } else if a < 0x8000_0000 && b >= 0x8000_0000 {
        false
    } else {
        a < b
    }
}

fn shift_right_arithmetic(value: u32, shift: u32) -> (r: u32)
    requires
        shift < 32,
    ensures
        r == sra32(value, shift),
{
    proof {
        assert((value >> 31u32 == 1u32) == (value >= 0x8000_0000)) by (bit_vector);
    }
    if shift == 0 {
        value
    } else if value >= 0x8000_0000 {
        (value >> shift) | (0xffff_ffffu32 << (32 - shift))
    } else {
        value >> shift
    }
}

/// The mathematical model of the whole machine: the 32 register values, the
/// program counter, and the two memory regions.
#[verifier::ext_equal]
pub struct VmView {
    pub regs: Seq<u32>,
    pub pc: u32,
    pub flash: MemView,
    pub stack: MemView,
}

/// The register file after writing `value` to register `index`: a write to
/// index 0 is dropped, the register file is unchanged by it.
pub open spec fn reg_write(regs: Seq<u32>, index: u32, value: u32) -> Seq<u32> {
    if index == 0 {
        regs
    } else {
        regs.update(index as int, value)
    }
}

/// Whether one of the two regions covers the whole access.
pub open spec fn vm_covers(v: VmView, address: int, nb_bytes: int) -> bool {
    mem_belongs(v.flash, address, nb_bytes) || mem_belongs(v.stack, address, nb_bytes)
}

/// The byte at `address`, routed to whichever region covers it.
pub open spec fn vm_byte(v: VmView, address: int) -> u8 {
    if mem_belongs(v.flash, address, 1) {
        mem_byte(v.flash, address)
    } else {
        mem_byte(v.stack, address)
    }
}

/// The little-endian 16-bit value at `address`, routed by coverage.
pub open spec fn vm_read_u16(v: VmView, address: int) -> u16 {
    if mem_belongs(v.flash, address, 2) {
        mem_read_u16(v.flash, address)
    } else {
        mem_read_u16(v.stack, address)
    }
}

/// The little-endian 32-bit value at `address`, routed by coverage.
pub open spec fn vm_read_u32(v: VmView, address: int) -> u32 {
    if mem_belongs(v.flash, address, 4) {
        mem_read_u32(v.flash, address)
    } else {
        mem_read_u32(v.stack, address)
    }
}

/// The `size` bytes starting at `address`, routed by coverage.
pub open spec fn vm_read_bytes(v: VmView, address: int, size: int) -> Seq<u8> {
    if mem_belongs(v.flash, address, size) {
        mem_read_bytes(v.flash, address, size)
    } else {
        mem_read_bytes(v.stack, address, size)
    }
}

/// The machine after a byte store at `address`, routed by coverage.
pub open spec fn vm_store_byte(v: VmView, address: int, value: u8) -> VmView {
    if mem_belongs(v.flash, address, 1) {
        VmView { flash: mem_store_byte(v.flash, address, value), ..v }
    } else {
        VmView { stack: mem_store_byte(v.stack, address, value), ..v }
    }
}

/// The machine after a little-endian 16-bit store, routed by coverage.
pub open spec fn vm_store_u16(v: VmView, address: int, value: u16) -> VmView {
    if mem_belongs(v.flash, address, 2) {
        VmView { flash: mem_store_u16(v.flash, address, value), ..v }
    } else {
        VmView { stack: mem_store_u16(v.stack, address, value), ..v }
    }
}

/// The machine after a little-endian 32-bit store, routed by coverage.
pub open spec fn vm_store_u32(v: VmView, address: int, value: u32) -> VmView {
    if mem_belongs(v.flash, address, 4) {
        VmView { flash: mem_store_u32(v.flash, address, value), ..v }
    } else {
        VmView { stack: mem_store_u32(v.stack, address, value), ..v }
    }
}

/// The machine after a bulk store of `bytes` at `address`, routed by
/// coverage.
pub open spec fn vm_store_bytes(v: VmView, address: int, bytes: Seq<u8>) -> VmView {
    if mem_belongs(v.flash, address, bytes.len() as int) {
        VmView { flash: mem_store_bytes(v.flash, address, bytes), ..v }
    } else {
        VmView { stack: mem_store_bytes(v.stack, address, bytes), ..v }
    }
}

/// What the host must do after a step: nothing, perform one of the three
/// environment calls' input/output halves, or terminate with the guest's
/// exit code.
#[derive(Debug, Clone, PartialEq, Eq)]
pub enum StepEffect {
    /// No host work: keep stepping.
    Continue,
    /// Read up to `size` bytes from host standard input and hand them back
    /// through [`VM::write_n`] at `address`; fewer on early end-of-input.
    ReadInput { address: u32, size: u32 },
    /// Write `bytes` to host standard output, followed by a newline.
    Output { bytes: Vec<u8> },
    /// Terminate the machine with exit code `code as i32`.
    Exit { code: u32 },
}

/// The mathematical model of a [`StepEffect`].
pub enum EffectView {
    Continue,
    ReadInput { address: u32, size: u32 },
    Output { bytes: Seq<u8> },
    Exit { code: u32 },
}

impl View for StepEffect {
    type V = EffectView;

    open spec fn view(&self) -> EffectView {
        match self {
            StepEffect::Continue => EffectView::Continue,
            StepEffect::ReadInput { address, size } => EffectView::ReadInput {
                address: *address,
                size: *size,
            },
            StepEffect::Output { bytes } => EffectView::Output { bytes: bytes@ },
            StepEffect::Exit { code } => EffectView::Exit { code: *code },
        }
    }
}

/// The value an R-format instruction writes to its destination register.
pub open spec fn r_value(regs: Seq<u32>, op: ROpcode) -> u32
    recommends
        op.wf(),
        regs.len() == 32,
{
    match op {
        ROpcode::Add(h) => wrap_add(regs[h.src as int], regs[h.value.value as int]),
        ROpcode::Sub(h) => wrap_sub(regs[h.src as int], regs[h.value.value as int]),
        ROpcode::Slti(h) => if as_signed(regs[h.src as int]) < as_signed(
            regs[h.value.value as int],
        ) {
            1u32
        } else {
            0u32
        },
        ROpcode::Sltu(h) => if regs[h.src as int] < regs[h.value.value as int] {
            1u32
        } else {
            0u32
        },
        ROpcode::Xor(h) => regs[h.src as int] ^ regs[h.value.value as int],
        ROpcode::Or(h) => regs[h.src as int] | regs[h.value.value as int],
        ROpcode::And(h) => regs[h.src as int] & regs[h.value.value as int],
        ROpcode::Sll(h) => regs[h.src as int] << ((regs[h.value.value as int] % 32u32) as u32),
        ROpcode::Srl(h) => regs[h.src as int] >> ((regs[h.value.value as int] % 32u32) as u32),
        ROpcode::Sra(h) => sra32(regs[h.src as int], (regs[h.value.value as int] % 32u32) as u32),
        ROpcode::Slli(h) => regs[h.src as int] << ((h.value.value % 32u32) as u32),
        ROpcode::Srli(h) => regs[h.src as int] >> ((h.value.value % 32u32) as u32),
        ROpcode::Srai(h) => sra32(regs[h.src as int], (h.value.value % 32u32) as u32),
    }
}

/// The machine after an R-format instruction: the computed value lands in
/// the destination register; nothing else moves.
pub open spec fn r_step(v: VmView, op: ROpcode) -> VmView {
    VmView { regs: reg_write(v.regs, op.helper().dest, r_value(v.regs, op)), ..v }
}

/// The machine after an I-format instruction: immediate arithmetic writes
/// the destination; a load reads memory at `rs1 + imm` (wrapping) and fails
/// on an uncovered address; Jalr writes the return address and takes the PC.
pub open spec fn i_step(v: VmView, op: IOpcode) -> Result<(VmView, bool), VmError> {
    match op {
        IOpcode::Addi(h) => Ok(
            (
                VmView {
                    regs: reg_write(v.regs, h.dst, wrap_add(v.regs[h.src as int], h.imm)),
                    ..v
                },
                false,
            ),
        ),
        IOpcode::Andi(h) => Ok(
            (VmView { regs: reg_write(v.regs, h.dst, v.regs[h.src as int] & h.imm), ..v }, false),
        ),
        IOpcode::Xori(h) => Ok(
            (VmView { regs: reg_write(v.regs, h.dst, v.regs[h.src as int] ^ h.imm), ..v }, false),
        ),
        IOpcode::Ori(h) => Ok(
            (VmView { regs: reg_write(v.regs, h.dst, v.regs[h.src as int] | h.imm), ..v }, false),
        ),
        IOpcode::Slti(h) => Ok(
            (
                VmView {
                    regs: reg_write(
                        v.regs,
                        h.dst,
                        if as_signed(v.regs[h.src as int]) < as_signed(h.imm) {
                            1u32
                        } else {
                            0u32
                        },
                    ),
                    ..v
                },
                false,
            ),
        ),
        IOpcode::Sltiu(h) => Ok(
            (
                VmView {
                    regs: reg_write(
                        v.regs,
                        h.dst,
                        if v.regs[h.src as int] < h.imm {
                            1u32
                        } else {
                            0u32
                        },
                    ),
                    ..v
                },
                false,
            ),
        ),
        IOpcode::Lw(h) => {
            let address = wrap_add(v.regs[h.src as int], h.imm);
            if vm_covers(v, address as int, 4) {
                Ok(
                    (
                        VmView {
                            regs: reg_write(v.regs, h.dst, vm_read_u32(v, address as int)),
                            ..v
                        },
                        false,
                    ),
                )
            } else {
                Err(VmError::InvalidAccess { address: address as usize, nb_bytes: 4 })
            }
        },
        IOpcode::Lh(h) => {
            let address = wrap_add(v.regs[h.src as int], h.imm);
            if vm_covers(v, address as int, 2) {
                Ok(
                    (
                        VmView {
                            regs: reg_write(
                                v.regs,
                                h.dst,
                                sign_extend_spec(vm_read_u16(v, address as int) as u32, 16),
                            ),
                            ..v
                        },
                        false,
                    ),
                )
            } else {
                Err(VmError::InvalidAccess { address: address as usize, nb_bytes: 2 })
            }
        },
        IOpcode::Lhu(h) => {
            let address = wrap_add(v.regs[h.src as int], h.imm);
            if vm_covers(v, address as int, 2) {
                Ok(
                    (
                        VmView {
                            regs: reg_write(v.regs, h.dst, vm_read_u16(v, address as int) as u32),
                            ..v
                        },
                        false,
                    ),
                )
            } else {
                Err(VmError::InvalidAccess { address: address as usize, nb_bytes: 2 })
            }
        },
        IOpcode::Lb(h) => {
            let address = wrap_add(v.regs[h.src as int], h.imm);
            if vm_covers(v, address as int, 1) {
                Ok(
                    (
                        VmView {
                            regs: reg_write(
                                v.regs,
                                h.dst,
                                sign_extend_spec(vm_byte(v, address as int) as u32, 8),
                            ),
                            ..v
                        },
                        false,
                    ),
                )
            } else {
                Err(VmError::InvalidAccess { address: address as usize, nb_bytes: 1 })
            }
        },
        IOpcode::Lbu(h) => {
            let address = wrap_add(v.regs[h.src as int], h.imm);
            if vm_covers(v, address as int, 1) {
                Ok(
                    (
                        VmView {
                            regs: reg_write(v.regs, h.dst, vm_byte(v, address as int) as u32),
                            ..v
                        },
                        false,
                    ),
                )
            } else {
                Err(VmError::InvalidAccess { address: address as usize, nb_bytes: 1 })
            }
        },
        IOpcode::Jalr(h) => Ok(
            (
                VmView {
                    regs: reg_write(v.regs, h.dst, wrap_add(v.pc, 4)),
                    pc: wrap_add(v.regs[h.src as int], h.imm) & 0xffff_fffeu32,
                    ..v
                },
                true,
            ),
        ),
    }
}

/// The machine after an S-format instruction: the low 8, 16 or 32 bits of
/// the source register stored little-endian at `base + offset` (wrapping),
/// failing on an uncovered address.
pub open spec fn s_step(v: VmView, op: SOpcode) -> Result<VmView, VmError> {
    match op {
        SOpcode::Sw(h) => {
            let address = wrap_add(v.regs[h.base as int], h.offset);
            if vm_covers(v, address as int, 4) {
                Ok(vm_store_u32(v, address as int, v.regs[h.src as int]))
            } else {
                Err(VmError::InvalidAccess { address: address as usize, nb_bytes: 4 })
            }
        },
        SOpcode::Sh(h) => {
            let address = wrap_add(v.regs[h.base as int], h.offset);
            if vm_covers(v, address as int, 2) {
                Ok(vm_store_u16(v, address as int, (v.regs[h.src as int] & 0xffff) as u16))
            } else {
                Err(VmError::InvalidAccess { address: address as usize, nb_bytes: 2 })
            }
        },
        SOpcode::Sb(h) => {
            let address = wrap_add(v.regs[h.base as int], h.offset);
            if vm_covers(v, address as int, 1) {
                Ok(vm_store_byte(v, address as int, (v.regs[h.src as int] & 0xff) as u8))
            } else {
                Err(VmError::InvalidAccess { address: address as usize, nb_bytes: 1 })
            }
        },
    }
}

/// Whether a branch's predicate holds of the two source registers.
pub open spec fn b_taken(regs: Seq<u32>, op: BOpcode) -> bool {
    match op {
        BOpcode::Beq(h) => regs[h.src1 as int] == regs[h.src2 as int],
        BOpcode::Bne(h) => regs[h.src1 as int] != regs[h.src2 as int],
        BOpcode::Blt(h) => as_signed(regs[h.src1 as int]) < as_signed(regs[h.src2 as int]),
        BOpcode::Bge(h) => as_signed(regs[h.src1 as int]) >= as_signed(regs[h.src2 as int]),
        BOpcode::Bltu(h) => regs[h.src1 as int] < regs[h.src2 as int],
        BOpcode::Bgeu(h) => regs[h.src1 as int] >= regs[h.src2 as int],
    }
}

/// The machine after a B-format instruction, and whether the branch took
/// the PC: taken means PC + offset (wrapping); not taken means fall through.
pub open spec fn b_step(v: VmView, op: BOpcode) -> (VmView, bool) {
    if b_taken(v.regs, op) {
        (VmView { pc: wrap_add(v.pc, op.helper().offset), ..v }, true)
    } else {
        (v, false)
    }
}

/// The machine after a U-format instruction: Lui writes the immediate, Auipc
/// the immediate plus the PC (wrapping).
pub open spec fn u_step(v: VmView, op: UOpcode) -> VmView {
    match op {
        UOpcode::Lui(h) => VmView { regs: reg_write(v.regs, h.dest, h.imm), ..v },
        UOpcode::Auipc(h) => VmView { regs: reg_write(v.regs, h.dest, wrap_add(v.pc, h.imm)), ..v },
    }
}

/// The machine after Jal: the return address PC + 4 lands in the destination
/// register and the PC moves by the offset (both wrapping).
pub open spec fn j_step(v: VmView, op: JOpcode) -> VmView {
    match op {
        JOpcode::Jal(h) => VmView {
            regs: reg_write(v.regs, h.dest, wrap_add(v.pc, 4)),
            pc: wrap_add(v.pc, h.offset),
            ..v
        },
    }
}

/// The machine and host effect after an environment call, dispatched by the
/// syscall code in `x10` with arguments in `x11` and `x12`.
pub open spec fn ecall_step(v: VmView) -> Result<(VmView, EffectView), VmError> {
    let syscall_id = v.regs[10];
    if syscall_id == 0 {
        let size = v.regs[12];
        if size > MEMORY_SIZE as u32 {
            Err(VmError::ReadTooLarge { size })
        } else {
            Ok((v, EffectView::ReadInput { address: v.regs[11], size }))
        }
    } else if syscall_id == 1 {
        Ok((v, EffectView::Exit { code: v.regs[11] }))
    } else if syscall_id == 2 {
        let address = v.regs[11];
        let size = v.regs[12];
        if vm_covers(v, address as int, size as int) {
            Ok((v, EffectView::Output { bytes: vm_read_bytes(v, address as int, size as int) }))
        } else {
            Err(
                VmError::InvalidAccess { address: address as usize, nb_bytes: size as usize },
            )
        }
    } else {
        Err(VmError::UnknownSyscall { syscall_id })
    }
}

/// The machine, the PC-changed flag and the host effect after one decoded
/// instruction, or the fatal error it raises.
pub open spec fn instr_step(v: VmView, instruction: InstructionFormat) -> Result<
    (VmView, bool, EffectView),
    VmError,
> {
    match instruction {
        InstructionFormat::R(op) => Ok((r_step(v, op), false, EffectView::Continue)),
        InstructionFormat::I(op) => match i_step(v, op) {
            Ok(o) => Ok((o.0, o.1, EffectView::Continue)),
            Err(e) => Err(e),
        },
        InstructionFormat::S(op) => match s_step(v, op) {
            Ok(v2) => Ok((v2, false, EffectView::Continue)),
            Err(e) => Err(e),
        },
        InstructionFormat::B(op) => Ok(
            (b_step(v, op).0, b_step(v, op).1, EffectView::Continue),
        ),
        InstructionFormat::U(op) => Ok((u_step(v, op), false, EffectView::Continue)),
        InstructionFormat::J(op) => Ok((j_step(v, op), true, EffectView::Continue)),
        InstructionFormat::ECALL => match ecall_step(v) {
            Ok(o) => Ok((o.0, false, o.1)),
            Err(e) => Err(e),
        },
    }
}

/// The run loop's PC rule: when the instruction did not take the PC, it
/// advances by exactly 4 (wrapping); when it did, it stays where the
/// instruction put it.
pub open spec fn advance_pc(v: VmView, pc_changed: bool) -> VmView {
    if pc_changed {
        v
    } else {
        VmView { pc: wrap_add(v.pc, 4), ..v }
    }
}

/// One iteration of the run loop: fetch the word at the PC from flash,
/// decode it, execute it, and apply the PC rule.
pub open spec fn step_spec(v: VmView) -> Result<(VmView, EffectView), VmError> {
    if !mem_belongs(v.flash, v.pc as int, 4) {
        Err(VmError::InvalidAccess { address: v.pc as usize, nb_bytes: 4 })
    } else {
        match decode_spec(mem_read_u32(v.flash, v.pc as int)) {
            Err(e) => Err(e),
            Ok(instruction) => match instr_step(v, instruction) {
                Err(e) => Err(e),
                Ok(o) => Ok((advance_pc(o.0, o.1), o.2)),
            },
        }
    }
}

pub struct VM {
    regs: Vec<Register>,
    pc: Register,
    flash: Memory,
    stack: Memory,
}

impl View for VM {
    type V = VmView;

    closed spec fn view(&self) -> VmView {
        VmView {
            regs: Seq::new(self.regs@.len(), |i: int| self.regs@[i].value_spec()),
            pc: self.pc.value_spec(),
            flash: self.flash@,
            stack: self.stack@,
        }
    }
}

impl VM {
    /// Field-level bookkeeping: each register carries its own architectural
    /// index, and the program counter is not tagged as `x0`, so writing it
    /// is never dropped.
    pub closed spec fn regs_tagged(&self) -> bool {
        &&& self.regs@.len() == 32
        &&& forall|i: int| 0 <= i < 32 ==> (#[trigger] self.regs@[i]).index_spec() == i
        &&& self.pc.index_spec() != 0
    }

    /// Well-formedness of the machine: 32 registers with `x0` reading zero,
    /// flash mapped at its fixed base and shorter than `MEMORY_SIZE`, the
    /// stack mapped just below the initial stack pointer with exactly
    /// `MEMORY_SIZE` bytes.
    pub open spec fn wf(&self) -> bool {
        &&& self.regs_tagged()
        &&& self@.regs.len() == 32
        &&& self@.regs[0] == 0
        &&& self@.flash.start == FLASH_ADDRESS as int
        &&& self@.flash.data.len() < MEMORY_SIZE as int
        &&& self@.stack.start == STACK_BASE as int
        &&& self@.stack.data.len() == MEMORY_SIZE as int
    }

    pub fn new(flash_data: Vec<u8>) -> (r: Self)
        requires
            flash_data@.len() < MEMORY_SIZE as int,
        ensures
            r.wf(),
            r@.regs == Seq::new(32, |i: int| 0u32),
            r@.pc == 0,
            r@.flash == (MemView { start: FLASH_ADDRESS as int, data: flash_data@ }),
            r@.stack == (MemView {
                start: STACK_BASE as int,
                data: Seq::new(MEMORY_SIZE as nat, |i: int| 0u8),
            }),
    {
        let mut registers: Vec<Register> = Vec::new();
        let mut i: usize = 0;
        while i < 32
            invariant
                i <= 32,
                registers@.len() == i,
                forall|j: int|
                    0 <= j < i ==> (#[trigger] registers@[j]).index_spec() == j && registers@[
                        j].value_spec() == 0,
            decreases 32 - i,
        {
            registers.push(Register::new(0, i as u8));
            i = i + 1;
        }

        let mut stack_bytes: Vec<u8> = Vec::new();
        let mut k: usize = 0;
        while k < MEMORY_SIZE
            invariant
                k <= MEMORY_SIZE,
                stack_bytes@.len() == k,
                forall|j: int| 0 <= j < k ==> stack_bytes@[j] == 0u8,
            decreases MEMORY_SIZE - k,
        {
            stack_bytes.push(0);
            k = k + 1;
        }

        let r = Self {
            regs: registers,
            pc: Register::new(0, 90),
            flash: Memory::new(FLASH_ADDRESS, flash_data),
            stack: Memory::new(STACK_ADDRESS - MEMORY_SIZE, stack_bytes),
        };
        proof {
            assert(r@.regs =~= Seq::new(32, |i: int| 0u32));
            assert(r@.stack.data =~= Seq::new(MEMORY_SIZE as nat, |i: int| 0u8));
        }
        r
    }

    pub fn get_register_value(&self, register_index: u32) -> (r: u32)
        requires
            self.wf(),
            register_index < 32,
        ensures
            r == self@.regs[register_index as int],
    {
        self.regs[register_index as usize].get_value()
    }

    /// The x0 drop rule lives here: writing register 0 leaves the register
    /// file unchanged.
    pub fn set_register_value(&mut self, register_index: u32, value: u32)
        requires
            old(self).wf(),
            register_index < 32,
        ensures
            final(self).wf(),
            final(self)@ == (VmView {
                regs: reg_write(old(self)@.regs, register_index, value),
                ..old(self)@
            }),
    {
        let reg = &mut self.regs[register_index as usize];
        reg.set_value(value);
        proof {
            assert(self@.regs =~= reg_write(old(self)@.regs, register_index, value));
            assert(self@ =~= (VmView {
                regs: reg_write(old(self)@.regs, register_index, value),
                ..old(self)@
            }));
        }
    }

    /// The current program counter.
    pub fn get_pc(&self) -> (r: u32)
        ensures
            r == self@.pc,
    {
        self.pc.get_value()
    }

    pub fn write_u8(&mut self, address: usize, value: u8) -> (r: Result<(), VmError>)
        requires
            old(self).wf(),
        ensures
            final(self).wf(),
            vm_covers(old(self)@, address as int, 1) ==> r == Ok::<(), VmError>(()) && final(self)@ == vm_store_byte(old(self)@, address as int, value),
            !vm_covers(old(self)@, address as int, 1) ==> r == Err::<(), VmError>(
                VmError::InvalidAccess { address, nb_bytes: 1 },
            ) && final(self)@ == old(self)@,
    {
        if self.flash.belongs(address, 1) {
            self.flash.write_8(address, value);
            Ok(())
        } else if self.stack.belongs(address, 1) {
            self.stack.write_8(address, value);
            Ok(())
        } else {
            Err(VmError::InvalidAccess { address, nb_bytes: 1 })
        }
    }

    pub fn read_u8(&self, address: usize) -> (r: Result<u8, VmError>)
        requires
            self.wf(),
        ensures
            vm_covers(self@, address as int, 1) ==> r == Ok::<u8, VmError>(
                vm_byte(self@, address as int),
            ),
            !vm_covers(self@, address as int, 1) ==> r == Err::<u8, VmError>(
                VmError::InvalidAccess { address, nb_bytes: 1 },
            ),
    {
        if self.flash.belongs(address, 1) {
            Ok(self.flash.read_u8(address))
        } else if self.stack.belongs(address, 1) {
            Ok(self.stack.read_u8(address))
        } else {
            Err(VmError::InvalidAccess { address, nb_bytes: 1 })
        }
    }

    pub fn write_u16(&mut self, address: usize, value: u16) -> (r: Result<(), VmError>)
        requires
            old(self).wf(),
        ensures
            final(self).wf(),
            vm_covers(old(self)@, address as int, 2) ==> r == Ok::<(), VmError>(()) && final(self)@ == vm_store_u16(old(self)@, address as int, value),
            !vm_covers(old(self)@, address as int, 2) ==> r == Err::<(), VmError>(
                VmError::InvalidAccess { address, nb_bytes: 2 },
            ) && final(self)@ == old(self)@,
    {
        if self.flash.belongs(address, 2) {
            self.flash.write_16(address, value);
            Ok(())
        } else if self.stack.belongs(address, 2) {
            self.stack.write_16(address, value);
            Ok(())
        } else {
            Err(VmError::InvalidAccess { address, nb_bytes: 2 })
        }
    }

    pub fn read_u16(&self, address: usize) -> (r: Result<u16, VmError>)
        requires
            self.wf(),
        ensures
            vm_covers(self@, address as int, 2) ==> r == Ok::<u16, VmError>(
                vm_read_u16(self@, address as int),
            ),
            !vm_covers(self@, address as int, 2) ==> r == Err::<u16, VmError>(
                VmError::InvalidAccess { address, nb_bytes: 2 },
            ),
    {
        if self.flash.belongs(address, 2) {
            Ok(self.flash.read_u16(address))
        } else if self.stack.belongs(address, 2) {
            Ok(self.stack.read_u16(address))
        } else {
            Err(VmError::InvalidAccess { address, nb_bytes: 2 })
        }
    }

    pub fn write_u32(&mut self, address: usize, value: u32) -> (r: Result<(), VmError>)
        requires
            old(self).wf(),
        ensures
            final(self).wf(),
            vm_covers(old(self)@, address as int, 4) ==> r == Ok::<(), VmError>(()) && final(self)@ == vm_store_u32(old(self)@, address as int, value),
            !vm_covers(old(self)@, address as int, 4) ==> r == Err::<(), VmError>(
                VmError::InvalidAccess { address, nb_bytes: 4 },
            ) && final(self)@ == old(self)@,
    {
        if self.flash.belongs(address, 4) {
            self.flash.write_u32(address, value);
            Ok(())
        } else if self.stack.belongs(address, 4) {
            self.stack.write_u32(address, value);
            Ok(())
        } else {
            Err(VmError::InvalidAccess { address, nb_bytes: 4 })
        }
    }

    pub fn read_u32(&self, address: usize) -> (r: Result<u32, VmError>)
        requires
            self.wf(),
        ensures
            vm_covers(self@, address as int, 4) ==> r == Ok::<u32, VmError>(
                vm_read_u32(self@, address as int),
            ),
            !vm_covers(self@, address as int, 4) ==> r == Err::<u32, VmError>(
                VmError::InvalidAccess { address, nb_bytes: 4 },
            ),
    {
        if self.flash.belongs(address, 4) {
            Ok(self.flash.read_u32(address))
        } else if self.stack.belongs(address, 4) {
            Ok(self.stack.read_u32(address))
        } else {
            Err(VmError::InvalidAccess { address, nb_bytes: 4 })
        }
    }

    /// Bulk store, as the read-input environment call needs it: the host
    /// hands the bytes it read here.
    pub fn write_n(&mut self, address: usize, data: Vec<u8>) -> (r: Result<(), VmError>)
        requires
            old(self).wf(),
        ensures
            final(self).wf(),
            vm_covers(old(self)@, address as int, data@.len() as int) ==> r == Ok::<(), VmError>(
                (),
            ) && final(self)@ == vm_store_bytes(old(self)@, address as int, data@),
            !vm_covers(old(self)@, address as int, data@.len() as int) ==> r == Err::<(), VmError>(
                VmError::InvalidAccess { address, nb_bytes: data@.len() as usize },
            ) && final(self)@ == old(self)@,
    {
        let nb_bytes = data.len();
        if self.flash.belongs(address, nb_bytes) {
            self.flash.write_n(address, data);
            Ok(())
        } else if self.stack.belongs(address, nb_bytes) {
            self.stack.write_n(address, data);
            Ok(())
        } else {
            Err(VmError::InvalidAccess { address, nb_bytes })
        }
    }

    pub fn read_n(&self, address: usize, size: usize) -> (r: Result<Vec<u8>, VmError>)
        requires
            self.wf(),
        ensures
            vm_covers(self@, address as int, size as int) ==> (r matches Ok(bytes) && bytes@
                == vm_read_bytes(self@, address as int, size as int)),
            !vm_covers(self@, address as int, size as int) ==> r == Err::<Vec<u8>, VmError>(
                VmError::InvalidAccess { address, nb_bytes: size },
            ),
    {
        if self.flash.belongs(address, size) {
            Ok(self.flash.read_n(address, size))
        } else if self.stack.belongs(address, size) {
            Ok(self.stack.read_n(address, size))
        } else {
            Err(VmError::InvalidAccess { address, nb_bytes: size })
        }
    }

    /// Bootstrap: the first flash word is the reset vector and becomes the
    /// initial PC; `x2`, the stack pointer, is seeded with the stack top.
    pub fn init_execution(&mut self)
        requires
            old(self).wf(),
            old(self)@.flash.data.len() >= 4,
        ensures
            final(self).wf(),
            final(self)@.pc == mem_read_u32(old(self)@.flash, FLASH_ADDRESS as int),
            final(self)@.regs == reg_write(old(self)@.regs, 2, STACK_ADDRESS as u32),
            final(self)@.flash == old(self)@.flash,
            final(self)@.stack == old(self)@.stack,
    {
        let reset_handler = self.flash.read_u32(FLASH_INTERRUPT_TABLE_RESET_ADDRESS);
        self.pc.set_value(reset_handler);
        let reg = &mut self.regs[2];
        reg.set_value(STACK_ADDRESS as u32);
        proof {
            assert(self@.regs =~= reg_write(old(self)@.regs, 2, STACK_ADDRESS as u32));
        }
    }

    fn execute_instruction_r(&mut self, opcode: ROpcode) -> (r: bool)
        requires
            old(self).wf(),
            opcode.wf(),
        ensures
            final(self).wf(),
            final(self)@ == r_step(old(self)@, opcode),
            r == false,
    {
        match opcode {
            ROpcode::Add(helper) => {
                let src1_value = self.get_register_value(helper.src);
                let src2_value = self.get_register_value(helper.value.value);
                self.set_register_value(helper.dest, src1_value.wrapping_add(src2_value));
            },
            ROpcode::Sub(helper) => {
                let src1_value = self.get_register_value(helper.src);
                let src2_value = self.get_register_value(helper.value.value);
                self.set_register_value(helper.dest, src1_value.wrapping_sub(src2_value));
            },
            ROpcode::Slti(helper) => {
                let src1_value = self.get_register_value(helper.src);
                let src2_value = self.get_register_value(helper.value.value);
                let result: u32 = if signed_lt(src1_value, src2_value) {
                    1
                } else {
                    0
                };
                self.set_register_value(helper.dest, result);
            },
            ROpcode::Sltu(helper) => {
                let src1_value = self.get_register_value(helper.src);
                let src2_value = self.get_register_value(helper.value.value);
                let result: u32 = if src1_value < src2_value {
                    1
                } else {
                    0
                };
                self.set_register_value(helper.dest, result);
            },
            ROpcode::Xor(helper) => {
                let src1_value = self.get_register_value(helper.src);
                let src2_value = self.get_register_value(helper.value.value);
                self.set_register_value(helper.dest, src1_value ^ src2_value);
            },
            ROpcode::Or(helper) => {
                let src1_value = self.get_register_value(helper.src);
                let src2_value = self.get_register_value(helper.value.value);
                self.set_register_value(helper.dest, src1_value | src2_value);
            },
            ROpcode::And(helper) => {
                let src1_value = self.get_register_value(helper.src);
                let src2_value = self.get_register_value(helper.value.value);
                self.set_register_value(helper.dest, src1_value & src2_value);
            },
            ROpcode::Sll(helper) => {
                let src1_value = self.get_register_value(helper.src);
                let src2_value = self.get_register_value(helper.value.value);
                self.set_register_value(helper.dest, src1_value << (src2_value % 32));
            },
            ROpcode::Srl(helper) => {
                let src1_value = self.get_register_value(helper.src);
                let src2_value = self.get_register_value(helper.value.value);
                self.set_register_value(helper.dest, src1_value >> (src2_value % 32));
            },
            ROpcode::Sra(helper) => {
                let src1_value = self.get_register_value(helper.src);
                let src2_value = self.get_register_value(helper.value.value);
                let result = shift_right_arithmetic(src1_value, src2_value % 32);
                self.set_register_value(helper.dest, result);
            },
            ROpcode::Slli(helper) => {
                let src1_value = self.get_register_value(helper.src);
                let shift_value = helper.value.value;
                self.set_register_value(helper.dest, src1_value << (shift_value % 32));
            },
            ROpcode::Srli(helper) => {
                let src1_value = self.get_register_value(helper.src);
                let shift_value = helper.value.value;
                self.set_register_value(helper.dest, src1_value >> (shift_value % 32));
            },
            ROpcode::Srai(helper) => {
                let src1_value = self.get_register_value(helper.src);
                let shift_value = helper.value.value;
                let result = shift_right_arithmetic(src1_value, shift_value % 32);
                self.set_register_value(helper.dest, result);
            },
        }
        false
    }

    fn execute_instruction_i(&mut self, opcode: IOpcode) -> (r: Result<bool, VmError>)
        requires
            old(self).wf(),
            opcode.wf(),
        ensures
            final(self).wf(),
            match i_step(old(self)@, opcode) {
                Ok(o) => r == Ok::<bool, VmError>(o.1) && final(self)@ == o.0,
                Err(e) => r == Err::<bool, VmError>(e) && final(self)@ == old(self)@,
            },
    {
        match opcode {
            IOpcode::Addi(helper) => {
                let src_value = self.get_register_value(helper.src);
                self.set_register_value(helper.dst, src_value.wrapping_add(helper.imm));
                Ok(false)
            },
            IOpcode::Andi(helper) => {
                let src_value = self.get_register_value(helper.src);
                self.set_register_value(helper.dst, src_value & helper.imm);
                Ok(false)
            },
            IOpcode::Xori(helper) => {
                let src_value = self.get_register_value(helper.src);
                self.set_register_value(helper.dst, src_value ^ helper.imm);
                Ok(false)
            },
            IOpcode::Ori(helper) => {
                let src_value = self.get_register_value(helper.src);
                self.set_register_value(helper.dst, src_value | helper.imm);
                Ok(false)
            },
            IOpcode::Slti(helper) => {
                let src_value = self.get_register_value(helper.src);
                let result: u32 = if signed_lt(src_value, helper.imm) {
                    1
                } else {
                    0
                };
                self.set_register_value(helper.dst, result);
                Ok(false)
            },
            IOpcode::Sltiu(helper) => {
                let src_value = self.get_register_value(helper.src);
                let result: u32 = if src_value < helper.imm {
                    1
                } else {
                    0
                };
                self.set_register_value(helper.dst, result);
                Ok(false)
            },
            IOpcode::Lw(helper) => {
                let src_value = self.get_register_value(helper.src);
                let address = src_value.wrapping_add(helper.imm);
                match self.read_u32(address as usize) {
                    Ok(result) => {
                        self.set_register_value(helper.dst, result);
                        Ok(false)
                    },
                    Err(e) => Err(e),
                }
            },
            IOpcode::Lh(helper) => {
                let src_value = self.get_register_value(helper.src);
                let address = src_value.wrapping_add(helper.imm);
                match self.read_u16(address as usize) {
                    Ok(value) => {
                        let result = sign_extend_number(value as u32, 16);
                        self.set_register_value(helper.dst, result);
                        Ok(false)
                    },
                    Err(e) => Err(e),
                }
            },
            IOpcode::Lhu(helper) => {
                let src_value = self.get_register_value(helper.src);
                let address = src_value.wrapping_add(helper.imm);
                match self.read_u16(address as usize) {
                    Ok(value) => {
                        self.set_register_value(helper.dst, value as u32);
                        Ok(false)
                    },
                    Err(e) => Err(e),
                }
            },
            IOpcode::Lb(helper) => {
                let src_value = self.get_register_value(helper.src);
                let address = src_value.wrapping_add(helper.imm);
                match self.read_u8(address as usize) {
                    Ok(value) => {
                        let result = sign_extend_number(value as u32, 8);
                        self.set_register_value(helper.dst, result);
                        Ok(false)
                    },
                    Err(e) => Err(e),
                }
            },
            IOpcode::Lbu(helper) => {
                let src_value = self.get_register_value(helper.src);
                let address = src_value.wrapping_add(helper.imm);
                match self.read_u8(address as usize) {
                    Ok(value) => {
                        self.set_register_value(helper.dst, value as u32);
                        Ok(false)
                    },
                    Err(e) => Err(e),
                }
            },
            IOpcode::Jalr(helper) => {
                // The target is computed from the source register before the
                // return address lands in the destination: they may coincide.
                let src_value = self.get_register_value(helper.src);
                let return_address = self.pc.get_value().wrapping_add(4);
                self.set_register_value(helper.dst, return_address);
                let target = src_value.wrapping_add(helper.imm) & 0xffff_fffe;
                self.pc.set_value(target);
                proof {
                    assert(self@ =~= (VmView {
                        regs: reg_write(old(self)@.regs, helper.dst, wrap_add(old(self)@.pc, 4)),
                        pc: wrap_add(old(self)@.regs[helper.src as int], helper.imm)
                            & 0xffff_fffeu32,
                        ..old(self)@
                    }));
                }
                Ok(true)
            },
        }
    }

    fn execute_instruction_s(&mut self, opcode: SOpcode) -> (r: Result<bool, VmError>)
        requires
            old(self).wf(),
            opcode.wf(),
        ensures
            final(self).wf(),
            match s_step(old(self)@, opcode) {
                Ok(v2) => r == Ok::<bool, VmError>(false) && final(self)@ == v2,
                Err(e) => r == Err::<bool, VmError>(e) && final(self)@ == old(self)@,
            },
    {
        match opcode {
            SOpcode::Sw(helper) => {
                let src_value = self.get_register_value(helper.src);
                let base_value = self.get_register_value(helper.base);
                let address = base_value.wrapping_add(helper.offset);
                match self.write_u32(address as usize, src_value) {
                    Ok(()) => Ok(false),
                    Err(e) => Err(e),
                }
            },
            SOpcode::Sh(helper) => {
                let src_value = self.get_register_value(helper.src) & 0xffff;
                let base_value = self.get_register_value(helper.base);
                let address = base_value.wrapping_add(helper.offset);
                match self.write_u16(address as usize, src_value as u16) {
                    Ok(()) => Ok(false),
                    Err(e) => Err(e),
                }
            },
            SOpcode::Sb(helper) => {
                let src_value = self.get_register_value(helper.src) & 0xff;
                let base_value = self.get_register_value(helper.base);
                let address = base_value.wrapping_add(helper.offset);
                match self.write_u8(address as usize, src_value as u8) {
                    Ok(()) => Ok(false),
                    Err(e) => Err(e),
                }
            },
        }
    }

    fn execute_instruction_b(&mut self, opcode: BOpcode) -> (r: bool)
        requires
            old(self).wf(),
            opcode.wf(),
        ensures
            final(self).wf(),
            final(self)@ == b_step(old(self)@, opcode).0,
            r == b_step(old(self)@, opcode).1,
    {
        match opcode {
            BOpcode::Beq(helper) => {
                let src1_value = self.get_register_value(helper.src1);
                let src2_value = self.get_register_value(helper.src2);
                if src1_value == src2_value {
                    let target = self.pc.get_value().wrapping_add(helper.offset);
                    self.pc.set_value(target);
                    true
                } else {
                    false
                }
            },
            BOpcode::Bne(helper) => {
                let src1_value = self.get_register_value(helper.src1);
                let src2_value = self.get_register_value(helper.src2);
                if src1_value != src2_value {
                    let target = self.pc.get_value().wrapping_add(helper.offset);
                    self.pc.set_value(target);
                    true
                } else {
                    false
                }
            },
            BOpcode::Blt(helper) => {
                let src1_value = self.get_register_value(helper.src1);
                let src2_value = self.get_register_value(helper.src2);
                if signed_lt(src1_value, src2_value) {
                    let target = self.pc.get_value().wrapping_add(helper.offset);
                    self.pc.set_value(target);
                    true
                } else {
                    false
                }
            },
            BOpcode::Bge(helper) => {
                let src1_value = self.get_register_value(helper.src1);
                let src2_value = self.get_register_value(helper.src2);
                if !signed_lt(src1_value, src2_value) {
                    let target = self.pc.get_value().wrapping_add(helper.offset);
                    self.pc.set_value(target);
                    true
                } else {
                    false
                }
            },
            BOpcode::Bltu(helper) => {
                let src1_value = self.get_register_value(helper.src1);
                let src2_value = self.get_register_value(helper.src2);
                if src1_value < src2_value {
                    let target = self.pc.get_value().wrapping_add(helper.offset);
                    self.pc.set_value(target);
                    true
                } else {
                    false
                }
            },
            BOpcode::Bgeu(helper) => {
                let src1_value = self.get_register_value(helper.src1);
                let src2_value = self.get_register_value(helper.src2);
                if src1_value >= src2_value {
                    let target = self.pc.get_value().wrapping_add(helper.offset);
                    self.pc.set_value(target);
                    true
                } else {
                    false
                }
            },
        }
    }

    fn execute_instruction_u(&mut self, opcode: UOpcode) -> (r: bool)
        requires
            old(self).wf(),
            opcode.wf(),
        ensures
            final(self).wf(),
            final(self)@ == u_step(old(self)@, opcode),
            r == false,
    {
        match opcode {
            UOpcode::Auipc(helper) => {
                let target = self.pc.get_value().wrapping_add(helper.imm);
                self.set_register_value(helper.dest, target);
            },
            UOpcode::Lui(helper) => {
                self.set_register_value(helper.dest, helper.imm);
            },
        }
        false
    }

    fn execute_instruction_j(&mut self, opcode: JOpcode) -> (r: bool)
        requires
            old(self).wf(),
            opcode.wf(),
        ensures
            final(self).wf(),
            final(self)@ == j_step(old(self)@, opcode),
            r == true,
    {
        match opcode {
            JOpcode::Jal(helper) => {
                let return_address = self.pc.get_value().wrapping_add(4);
                self.set_register_value(helper.dest, return_address);
                let target = self.pc.get_value().wrapping_add(helper.offset);
                self.pc.set_value(target);
                true
            },
        }
    }

    fn execute_ecall(&mut self) -> (r: Result<StepEffect, VmError>)
        requires
            old(self).wf(),
        ensures
            final(self).wf(),
            match ecall_step(old(self)@) {
                Ok(o) => (r matches Ok(e) && e@ == o.1) && final(self)@ == o.0,
                Err(e) => r == Err::<StepEffect, VmError>(e) && final(self)@ == old(self)@,
            },
    {
        let syscall_id = self.get_register_value(10);
        match Syscalls::from_u32(syscall_id) {
            Err(e) => Err(e),
            Ok(Syscalls::ReadInput) => {
                let address = self.get_register_value(11);
                let size = self.get_register_value(12);
                if size > MEMORY_SIZE as u32 {
                    Err(VmError::ReadTooLarge { size })
                } else {
                    Ok(StepEffect::ReadInput { address, size })
                }
            },
            Ok(Syscalls::Exit) => {
                let code = self.get_register_value(11);
                Ok(StepEffect::Exit { code })
            },
            Ok(Syscalls::Puts) => {
                let address = self.get_register_value(11);
                let size = self.get_register_value(12);
                match self.read_n(address as usize, size as usize) {
                    Ok(bytes) => Ok(StepEffect::Output { bytes }),
                    Err(e) => Err(e),
                }
            },
        }
    }

    /// Applies one decoded instruction to the machine. The boolean of the
    /// result says whether the instruction took the program counter itself;
    /// when it is false the run loop advances the PC by 4.
    pub fn execute_instruction(&mut self, instruction: InstructionFormat) -> (r: Result<
        (bool, StepEffect),
        VmError,
    >)
        requires
            old(self).wf(),
            instruction.wf(),
        ensures
            final(self).wf(),
            match instr_step(old(self)@, instruction) {
                Ok(o) => (r matches Ok(p) && p.0 == o.1 && p.1@ == o.2) && final(self)@ == o.0,
                Err(e) => r == Err::<(bool, StepEffect), VmError>(e) && final(self)@ == old(
                    self,
                )@,
            },
    {
        match instruction {
            InstructionFormat::R(opcode) => {
                let pc_changed = self.execute_instruction_r(opcode);
                Ok((pc_changed, StepEffect::Continue))
            },
            InstructionFormat::I(opcode) => {
                match self.execute_instruction_i(opcode) {
                    Ok(pc_changed) => Ok((pc_changed, StepEffect::Continue)),
                    Err(e) => Err(e),
                }
            },
            InstructionFormat::S(opcode) => {
                match self.execute_instruction_s(opcode) {
                    Ok(pc_changed) => Ok((pc_changed, StepEffect::Continue)),
                    Err(e) => Err(e),
                }
            },
            InstructionFormat::B(opcode) => {
                let pc_changed = self.execute_instruction_b(opcode);
                Ok((pc_changed, StepEffect::Continue))
            },
            InstructionFormat::U(opcode) => {
                let pc_changed = self.execute_instruction_u(opcode);
                Ok((pc_changed, StepEffect::Continue))
            },
            InstructionFormat::J(opcode) => {
                let pc_changed = self.execute_instruction_j(opcode);
                Ok((pc_changed, StepEffect::Continue))
            },
            InstructionFormat::ECALL => {
                match self.execute_ecall() {
                    Ok(effect) => Ok((false, effect)),
                    Err(e) => Err(e),
                }
            },
        }
    }

    /// One iteration of the run loop: fetch at the PC, decode, execute, and
    /// advance the PC by 4 unless the instruction took it. The host performs
    /// the returned effect; any error is fatal.
    pub fn step(&mut self) -> (r: Result<StepEffect, VmError>)
        requires
            old(self).wf(),
        ensures
            final(self).wf(),
            match step_spec(old(self)@) {
                Ok(o) => (r matches Ok(e) && e@ == o.1) && final(self)@ == o.0,
                Err(e) => r == Err::<StepEffect, VmError>(e) && final(self)@ == old(self)@,
            },
    {
        let pc = self.pc.get_value();
        if !self.flash.belongs(pc as usize, 4) {
            return Err(VmError::InvalidAccess { address: pc as usize, nb_bytes: 4 });
        }
        let instruction_word = self.flash.read_u32(pc as usize);
        let decoded = match decode(instruction_word) {
            Ok(instruction) => instruction,
            Err(e) => {
                return Err(e);
            },
        };
        match self.execute_instruction(decoded) {
            Err(e) => Err(e),
            Ok((pc_changed, effect)) => {
                if !pc_changed {
                    let next = self.pc.get_value().wrapping_add(4);
                    self.pc.set_value(next);
                }
                Ok(effect)
            },
        }
    }
}

/// Writes to register index 0 never change the register file; by the
/// machine's well-formedness, reads of `x0` always return 0.
pub proof fn lemma_x0_write_dropped(regs: Seq<u32>, value: u32)
    ensures
        reg_write(regs, 0, value) == regs,
{
}

/// After an instruction that does not take control of the program counter —
/// any non-control instruction, or a branch whose predicate fails — the
/// instruction leaves the PC alone and the run loop then advances it by
/// exactly 4 (modulo 2^32).
pub proof fn lemma_pc_advances_by_4(
    v: VmView,
    instruction: InstructionFormat,
    v2: VmView,
    eff: EffectView,
)
    requires
        instr_step(v, instruction) == Ok::<(VmView, bool, EffectView), VmError>((v2, false, eff)),
    ensures
        v2.pc == v.pc,
        advance_pc(v2, false).pc == wrap_add(v.pc, 4),
{
}

/// The store/load round trip holds through the machine's routing too: a
/// 32-bit store at any covered address is returned unchanged by a 32-bit
/// load at that address.
pub proof fn lemma_vm_read_u32_after_write_u32(v: VmView, address: int, value: u32)
    requires
        vm_covers(v, address, 4),
    ensures
        vm_read_u32(vm_store_u32(v, address, value), address) == value,
{
    if mem_belongs(v.flash, address, 4) {
        crate::memory::lemma_read_u32_after_write_u32(v.flash, address, value);
    } else {
        crate::memory::lemma_read_u32_after_write_u32(v.stack, address, value);
    }
}

/// `Jal rd, 0` writes the return address PC + 4 to `rd` and sets the PC to
/// itself: the same instruction executes again, an infinite self-loop.
pub proof fn lemma_jal_zero_loops(v: VmView, h: JOpcodeHelper)
    requires
        h.offset == 0,
    ensures
        instr_step(v, InstructionFormat::J(JOpcode::Jal(h))) == Ok::<
            (VmView, bool, EffectView),
            VmError,
        >((VmView { regs: reg_write(v.regs, h.dest, wrap_add(v.pc, 4)), ..v }, true,
        EffectView::Continue)),
{
    assert(wrap_add(v.pc, 0) == v.pc);
}

} // verus!
