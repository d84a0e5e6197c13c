//! The decoded-instruction model: one helper struct of operand fields per
//! format family, an opcode enum per family, and the tagged sum of all
//! families. Register fields hold architectural indices in `0..32`.

use vstd::prelude::*;

verus! {

/// The second operand slot of an R-format instruction: either a source
/// register index or a 5-bit shift amount, tagged by `is_register`.
#[derive(Debug, Clone, Copy, PartialEq, Eq, Structural)]
pub struct ShamtOrRegister {
    pub value: u32,
    pub is_register: bool,
}

impl ShamtOrRegister {
    pub fn new(value: u32, is_register: bool) -> (r: Self)
        ensures
            r == (ShamtOrRegister { value, is_register }),
    {
        Self { value, is_register }
    }

    pub fn get_register(&self) -> (r: u32)
        requires
            self.is_register,
        ensures
            r == self.value,
    {
        self.value
    }

    pub fn get_shamt(&self) -> (r: u32)
        requires
            !self.is_register,
        ensures
            r == self.value,
    {
        self.value
    }
}

#[derive(Debug, Clone, Copy, PartialEq, Eq, Structural)]
pub struct ROpcodeHelper {
    pub src: u32,
    pub dest: u32,
    pub value: ShamtOrRegister,
}

impl ROpcodeHelper {
    pub fn new(src: u32, dest: u32, value: ShamtOrRegister) -> (r: Self)
        ensures
            r == (ROpcodeHelper { src, dest, value }),
    {
        Self { src, dest, value }
    }

    pub fn set_is_register(&mut self, is_register: bool)
        ensures
            *final(self) == (ROpcodeHelper {
                value: ShamtOrRegister { value: old(self).value.value, is_register },
                ..*old(self)
            }),
    {
        self.value.is_register = is_register;
    }

    pub fn get_src1(&self) -> (r: u32)
        ensures
            r == self.src,
    {
        self.src
    }

    pub fn get_dest(&self) -> (r: u32)
        ensures
            r == self.dest,
    {
        self.dest
    }

    pub fn get_shamt(&self) -> (r: u32)
        requires
            !self.value.is_register,
        ensures
            r == self.value.value,
    {
        self.value.get_shamt()
    }

    pub fn get_src2(&self) -> (r: u32)
        requires
            self.value.is_register,
        ensures
            r == self.value.value,
    {
        self.value.get_register()
    }
}

#[derive(Debug, Clone, Copy, PartialEq, Eq, Structural)]
pub enum ROpcode {
    Slli(ROpcodeHelper),
    Srli(ROpcodeHelper),
    Srai(ROpcodeHelper),
    Add(ROpcodeHelper),
    Sub(ROpcodeHelper),
    Sll(ROpcodeHelper),
    Slti(ROpcodeHelper),
    Sltu(ROpcodeHelper),
    Xor(ROpcodeHelper),
    Srl(ROpcodeHelper),
    Sra(ROpcodeHelper),
    Or(ROpcodeHelper),
    And(ROpcodeHelper),
}

impl ROpcode {
    /// The operand fields of the variant.
    pub open spec fn helper(self) -> ROpcodeHelper {
        match self {
            ROpcode::Slli(h) => h,
            ROpcode::Srli(h) => h,
            ROpcode::Srai(h) => h,
            ROpcode::Add(h) => h,
            ROpcode::Sub(h) => h,
            ROpcode::Sll(h) => h,
            ROpcode::Slti(h) => h,
            ROpcode::Sltu(h) => h,
            ROpcode::Xor(h) => h,
            ROpcode::Srl(h) => h,
            ROpcode::Sra(h) => h,
            ROpcode::Or(h) => h,
            ROpcode::And(h) => h,
        }
    }

    /// Whether the variant takes a shift amount (true) or a second source
    /// register (false) in its second operand slot.
    pub open spec fn uses_shamt(self) -> bool {
        match self {
            ROpcode::Slli(_) | ROpcode::Srli(_) | ROpcode::Srai(_) => true,
            _ => false,
        }
    }

    /// Register indices are architectural, and the second operand slot is
    /// tagged as the variant expects it.
    pub open spec fn wf(self) -> bool {
        &&& self.helper().src < 32
        &&& self.helper().dest < 32
        &&& self.helper().value.is_register == !self.uses_shamt()
        &&& !self.uses_shamt() ==> self.helper().value.value < 32
    }
}

#[derive(Debug, Clone, Copy, PartialEq, Eq, Structural)]
pub struct IOpcodeHelper {
    pub src: u32,
    pub dst: u32,
    pub imm: u32,
}

impl IOpcodeHelper {
    pub fn new(src: u32, dst: u32, imm: u32) -> (r: Self)
        ensures
            r == (IOpcodeHelper { src, dst, imm }),
    {
        Self { src, dst, imm }
    }

    pub fn get_src(&self) -> (r: u32)
        ensures
            r == self.src,
    {
        self.src
    }

    pub fn get_dst(&self) -> (r: u32)
        ensures
            r == self.dst,
    {
        self.dst
    }

    pub fn get_imm(&self) -> (r: u32)
        ensures
            r == self.imm,
    {
        self.imm
    }
}

#[derive(Debug, Clone, Copy, PartialEq, Eq, Structural)]
pub enum IOpcode {
    Jalr(IOpcodeHelper),
    Lb(IOpcodeHelper),
    Lh(IOpcodeHelper),
    Lw(IOpcodeHelper),
    Lbu(IOpcodeHelper),
    Lhu(IOpcodeHelper),
    Addi(IOpcodeHelper),
    Slti(IOpcodeHelper),
    Sltiu(IOpcodeHelper),
    Xori(IOpcodeHelper),
    Ori(IOpcodeHelper),
    Andi(IOpcodeHelper),
}

impl IOpcode {
    /// The operand fields of the variant.
    pub open spec fn helper(self) -> IOpcodeHelper {
        match self {
            IOpcode::Jalr(h) => h,
            IOpcode::Lb(h) => h,
            IOpcode::Lh(h) => h,
            IOpcode::Lw(h) => h,
            IOpcode::Lbu(h) => h,
            IOpcode::Lhu(h) => h,
            IOpcode::Addi(h) => h,
            IOpcode::Slti(h) => h,
            IOpcode::Sltiu(h) => h,
            IOpcode::Xori(h) => h,
            IOpcode::Ori(h) => h,
            IOpcode::Andi(h) => h,
        }
    }

    /// Register indices are architectural.
    pub open spec fn wf(self) -> bool {
        &&& self.helper().src < 32
        &&& self.helper().dst < 32
    }
}

#[derive(Debug, Clone, Copy, PartialEq, Eq, Structural)]
pub struct SOpcodeHelper {
    pub src: u32,
    pub base: u32,
    pub offset: u32,
}

impl SOpcodeHelper {
    pub fn new(src: u32, base: u32, offset: u32) -> (r: Self)
        ensures
            r == (SOpcodeHelper { src, base, offset }),
    {
        Self { src, base, offset }
    }

    pub fn get_src(&self) -> (r: u32)
        ensures
            r == self.src,
    {
        self.src
    }

    pub fn get_base(&self) -> (r: u32)
        ensures
            r == self.base,
    {
        self.base
    }

    pub fn get_offset(&self) -> (r: u32)
        ensures
            r == self.offset,
    {
        self.offset
    }
}

#[derive(Debug, Clone, Copy, PartialEq, Eq, Structural)]
pub enum SOpcode {
    Sb(SOpcodeHelper),
    Sh(SOpcodeHelper),
    Sw(SOpcodeHelper),
}

impl SOpcode {
    /// The operand fields of the variant.
    pub open spec fn helper(self) -> SOpcodeHelper {
        match self {
            SOpcode::Sb(h) => h,
            SOpcode::Sh(h) => h,
            SOpcode::Sw(h) => h,
        }
    }

    /// Register indices are architectural.
    pub open spec fn wf(self) -> bool {
        &&& self.helper().src < 32
        &&& self.helper().base < 32
    }
}

#[derive(Debug, Clone, Copy, PartialEq, Eq, Structural)]
pub struct BOpcodeHelper {
    pub src1: u32,
    pub src2: u32,
    pub offset: u32,
}

impl BOpcodeHelper {
    pub fn new(src1: u32, src2: u32, offset: u32) -> (r: Self)
        ensures
            r == (BOpcodeHelper { src1, src2, offset }),
    {
        Self { src1, src2, offset }
    }

    pub fn get_src1(&self) -> (r: u32)
        ensures
            r == self.src1,
    {
        self.src1
    }

    pub fn get_src2(&self) -> (r: u32)
        ensures
            r == self.src2,
    {
        self.src2
    }

    pub fn get_offset(&self) -> (r: u32)
        ensures
            r == self.offset,
    {
        self.offset
    }
}

#[derive(Debug, Clone, Copy, PartialEq, Eq, Structural)]
pub enum BOpcode {
    Beq(BOpcodeHelper),
    Bne(BOpcodeHelper),
    Blt(BOpcodeHelper),
    Bge(BOpcodeHelper),
    Bltu(BOpcodeHelper),
    Bgeu(BOpcodeHelper),
}

impl BOpcode {
    /// The operand fields of the variant.
    pub open spec fn helper(self) -> BOpcodeHelper {
        match self {
            BOpcode::Beq(h) => h,
            BOpcode::Bne(h) => h,
            BOpcode::Blt(h) => h,
            BOpcode::Bge(h) => h,
            BOpcode::Bltu(h) => h,
            BOpcode::Bgeu(h) => h,
        }
    }

    /// Register indices are architectural.
    pub open spec fn wf(self) -> bool {
        &&& self.helper().src1 < 32
        &&& self.helper().src2 < 32
    }
}

#[derive(Debug, Clone, Copy, PartialEq, Eq, Structural)]
pub struct UOpcodeHelper {
    pub dest: u32,
    pub imm: u32,
}

impl UOpcodeHelper {
    pub fn new(dest: u32, imm: u32) -> (r: Self)
        ensures
            r == (UOpcodeHelper { dest, imm }),
    {
        Self { dest, imm }
    }

    pub fn get_dest(&self) -> (r: u32)
        ensures
            r == self.dest,
    {
        self.dest
    }

    pub fn get_imm(&self) -> (r: u32)
        ensures
            r == self.imm,
    {
        self.imm
    }
}

#[derive(Debug, Clone, Copy, PartialEq, Eq, Structural)]
pub enum UOpcode {
    Lui(UOpcodeHelper),
    Auipc(UOpcodeHelper),
}

impl UOpcode {
    /// The operand fields of the variant.
    pub open spec fn helper(self) -> UOpcodeHelper {
        match self {
            UOpcode::Lui(h) => h,
            UOpcode::Auipc(h) => h,
        }
    }

    /// Register indices are architectural.
    pub open spec fn wf(self) -> bool {
        self.helper().dest < 32
    }
}

#[derive(Debug, Clone, Copy, PartialEq, Eq, Structural)]
pub struct JOpcodeHelper {
    pub dest: u32,
    pub offset: u32,
}

impl JOpcodeHelper {
    pub fn new(dest: u32, offset: u32) -> (r: Self)
        ensures
            r == (JOpcodeHelper { dest, offset }),
    {
        Self { dest, offset }
    }

    pub fn get_dest(&self) -> (r: u32)
        ensures
            r == self.dest,
    {
        self.dest
    }

    pub fn get_offset(&self) -> (r: u32)
        ensures
            r == self.offset,
    {
        self.offset
    }
}

#[derive(Debug, Clone, Copy, PartialEq, Eq, Structural)]
pub enum JOpcode {
    Jal(JOpcodeHelper),
}

impl JOpcode {
    /// The operand fields of the variant.
    pub open spec fn helper(self) -> JOpcodeHelper {
        match self {
            JOpcode::Jal(h) => h,
        }
    }

    /// Register indices are architectural.
    pub open spec fn wf(self) -> bool {
        self.helper().dest < 32
    }
}

/// A decoded instruction: one of the six format families, or the
/// environment-call terminal.
#[derive(Debug, Clone, Copy, PartialEq, Eq, Structural)]
pub enum InstructionFormat {
    R(ROpcode),
    I(IOpcode),
    S(SOpcode),
    B(BOpcode),
    U(UOpcode),
    J(JOpcode),
    ECALL,
}

impl InstructionFormat {
    /// Every register index carried by the instruction is in `0..32`, and
    /// R-format second operands are tagged as their variant expects.
    pub open spec fn wf(self) -> bool {
        match self {
            InstructionFormat::R(op) => op.wf(),
            InstructionFormat::I(op) => op.wf(),
            InstructionFormat::S(op) => op.wf(),
            InstructionFormat::B(op) => op.wf(),
            InstructionFormat::U(op) => op.wf(),
            InstructionFormat::J(op) => op.wf(),
            InstructionFormat::ECALL => true,
        }
    }
}

} // verus!
