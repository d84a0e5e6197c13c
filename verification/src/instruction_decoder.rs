//! The instruction decoder: maps a 32-bit instruction word to a decoded
//! instruction. Dispatch is by the opcode field (bits 0..=6), refined by
//! func3 (bits 12..=14) and, for register-register and shift-immediate
//! instructions, func7 (bits 25..=31).

use vstd::prelude::*;

use crate::errors::VmError;
use crate::instructions::{
    BOpcode, BOpcodeHelper, IOpcode, IOpcodeHelper, InstructionFormat, JOpcode, JOpcodeHelper,
    ROpcode, ROpcodeHelper, SOpcode, SOpcodeHelper, ShamtOrRegister, UOpcode, UOpcodeHelper,
};
use crate::utils::{bits_of, get_bits, lemma_bits_of_bound, sign_extend_number, sign_extend_spec};

verus! {

/// The I-format immediate: bits 31..=20, sign-extended from 12 bits.
pub open spec fn i_imm(w: u32) -> u32 {
    sign_extend_spec(bits_of(w, 20, 31), 12)
}

/// The S-format immediate: bits 31..=25 over bits 11..=7, sign-extended
/// from 12 bits.
pub open spec fn s_imm(w: u32) -> u32 {
    sign_extend_spec((bits_of(w, 25, 31) << 5u32) | bits_of(w, 7, 11), 12)
}

/// The B-format immediate: bit 31, bit 7, bits 30..=25, bits 11..=8,
/// assembled over an always-zero low bit and sign-extended from 13 bits.
pub open spec fn b_imm(w: u32) -> u32 {
    sign_extend_spec(
        (bits_of(w, 31, 31) << 12u32) | (bits_of(w, 7, 7) << 11u32) | (bits_of(w, 25, 30) << 5u32)
            | (bits_of(w, 8, 11) << 1u32),
        13,
    )
}

/// The U-format immediate: bits 31..=12 placed into the top 20 bits, the low
/// 12 bits zero; no sign extension.
pub open spec fn u_imm(w: u32) -> u32 {
    bits_of(w, 12, 31) << 12u32
}

/// The J-format immediate: bit 31, bits 19..=12, bit 20, bits 30..=21,
/// assembled over an always-zero low bit and sign-extended from 21 bits.
pub open spec fn j_imm(w: u32) -> u32 {
    sign_extend_spec(
        (bits_of(w, 31, 31) << 20u32) | (bits_of(w, 12, 19) << 12u32) | (bits_of(w, 20, 20)
            << 11u32) | (bits_of(w, 21, 30) << 1u32),
        21,
    )
}

/// Shift-immediate dispatch: func3 001 with func7 0 is Slli; func3 101 is
/// Srli with func7 0 and Srai with func7 0100000.
pub open spec fn decode_r_shift_spec(func3: u32, func7: u32, h: ROpcodeHelper) -> Result<
    ROpcode,
    VmError,
> {
    if func3 == 0b001 && func7 == 0 {
        Ok(ROpcode::Slli(h))
    } else if func3 == 0b101 && func7 == 0 {
        Ok(ROpcode::Srli(h))
    } else if func3 == 0b101 && func7 == 0b0100000 {
        Ok(ROpcode::Srai(h))
    } else {
        Err(VmError::UnknownInstruction { opcode: 0b0010011, func3, func7 })
    }
}

/// Register-register dispatch by func3 and func7.
pub open spec fn decode_r_others_spec(func3: u32, func7: u32, h: ROpcodeHelper) -> Result<
    ROpcode,
    VmError,
> {
    if func3 == 0 && func7 == 0 {
        Ok(ROpcode::Add(h))
    } else if func3 == 0 && func7 == 0b0100000 {
        Ok(ROpcode::Sub(h))
    } else if func3 == 1 && func7 == 0 {
        Ok(ROpcode::Sll(h))
    } else if func3 == 2 && func7 == 0 {
        Ok(ROpcode::Slti(h))
    } else if func3 == 3 && func7 == 0 {
        Ok(ROpcode::Sltu(h))
    } else if func3 == 4 && func7 == 0 {
        Ok(ROpcode::Xor(h))
    } else if func3 == 5 && func7 == 0 {
        Ok(ROpcode::Srl(h))
    } else if func3 == 5 && func7 == 0b0100000 {
        Ok(ROpcode::Sra(h))
    } else if func3 == 6 && func7 == 0 {
        Ok(ROpcode::Or(h))
    } else if func3 == 7 && func7 == 0 {
        Ok(ROpcode::And(h))
    } else {
        Err(VmError::UnknownInstruction { opcode: 0b0110011, func3, func7 })
    }
}

/// R-format decoding: operand registers from bits 19..=15 and 11..=7, second
/// operand from bits 24..=20 (a register, or a shift amount for the
/// shift-immediate opcodes).
pub open spec fn decode_r_spec(w: u32) -> Result<ROpcode, VmError> {
    let h = ROpcodeHelper {
        src: bits_of(w, 15, 19),
        dest: bits_of(w, 7, 11),
        value: ShamtOrRegister { value: bits_of(w, 20, 24), is_register: true },
    };
    let func3 = bits_of(w, 12, 14);
    let func7 = bits_of(w, 25, 31);
    if bits_of(w, 0, 6) == 0b0010011 {
        decode_r_shift_spec(
            func3,
            func7,
            ROpcodeHelper {
                value: ShamtOrRegister { value: h.value.value, is_register: false },
                ..h
            },
        )
    } else if bits_of(w, 0, 6) == 0b0110011 {
        decode_r_others_spec(func3, func7, h)
    } else {
        Err(VmError::UnknownInstruction { opcode: bits_of(w, 0, 6), func3, func7 })
    }
}

/// I-format decoding, covering Jalr, the loads and the immediate-arithmetic
/// opcodes.
pub open spec fn decode_i_spec(w: u32) -> Result<IOpcode, VmError> {
    let h = IOpcodeHelper { src: bits_of(w, 15, 19), dst: bits_of(w, 7, 11), imm: i_imm(w) };
    let opcode = bits_of(w, 0, 6);
    let func3 = bits_of(w, 12, 14);
    if opcode == 0b1100111 {
        Ok(IOpcode::Jalr(h))
    } else if opcode == 0b0000011 && func3 == 0 {
        Ok(IOpcode::Lb(h))
    } else if opcode == 0b0000011 && func3 == 1 {
        Ok(IOpcode::Lh(h))
    } else if opcode == 0b0000011 && func3 == 2 {
        Ok(IOpcode::Lw(h))
    } else if opcode == 0b0000011 && func3 == 4 {
        Ok(IOpcode::Lbu(h))
    } else if opcode == 0b0000011 && func3 == 5 {
        Ok(IOpcode::Lhu(h))
    } else if opcode == 0b0010011 && func3 == 0 {
        Ok(IOpcode::Addi(h))
    } else if opcode == 0b0010011 && func3 == 2 {
        Ok(IOpcode::Slti(h))
    } else if opcode == 0b0010011 && func3 == 3 {
        Ok(IOpcode::Sltiu(h))
    } else if opcode == 0b0010011 && func3 == 4 {
        Ok(IOpcode::Xori(h))
    } else if opcode == 0b0010011 && func3 == 6 {
        Ok(IOpcode::Ori(h))
    } else if opcode == 0b0010011 && func3 == 7 {
        Ok(IOpcode::Andi(h))
    } else {
        Err(VmError::UnknownInstruction { opcode, func3, func7: bits_of(w, 25, 31) })
    }
}

/// S-format decoding: the stores, dispatched by func3.
pub open spec fn decode_s_spec(w: u32) -> Result<SOpcode, VmError> {
    let h = SOpcodeHelper { src: bits_of(w, 20, 24), base: bits_of(w, 15, 19), offset: s_imm(w) };
    let func3 = bits_of(w, 12, 14);
    if func3 == 0 {
        Ok(SOpcode::Sb(h))
    } else if func3 == 1 {
        Ok(SOpcode::Sh(h))
    } else if func3 == 2 {
        Ok(SOpcode::Sw(h))
    } else {
        Err(VmError::UnknownInstruction { opcode: 0b0100011, func3, func7: bits_of(w, 25, 31) })
    }
}

/// B-format decoding: the branches, dispatched by func3.
pub open spec fn decode_b_spec(w: u32) -> Result<BOpcode, VmError> {
    let h = BOpcodeHelper { src1: bits_of(w, 15, 19), src2: bits_of(w, 20, 24), offset: b_imm(w) };
    let func3 = bits_of(w, 12, 14);
    if func3 == 0 {
        Ok(BOpcode::Beq(h))
    } else if func3 == 1 {
        Ok(BOpcode::Bne(h))
    } else if func3 == 4 {
        Ok(BOpcode::Blt(h))
    } else if func3 == 5 {
        Ok(BOpcode::Bge(h))
    } else if func3 == 6 {
        Ok(BOpcode::Bltu(h))
    } else if func3 == 7 {
        Ok(BOpcode::Bgeu(h))
    } else {
        Err(VmError::UnknownInstruction { opcode: 0b1100011, func3, func7: bits_of(w, 25, 31) })
    }
}

/// U-format decoding: Lui and Auipc, dispatched by the opcode field itself.
pub open spec fn decode_u_spec(w: u32) -> Result<UOpcode, VmError> {
    let h = UOpcodeHelper { dest: bits_of(w, 7, 11), imm: u_imm(w) };
    if bits_of(w, 0, 6) == 0b0110111 {
        Ok(UOpcode::Lui(h))
    } else {
        Ok(UOpcode::Auipc(h))
    }
}

/// J-format decoding: Jal.
pub open spec fn decode_j_spec(w: u32) -> JOpcode {
    JOpcode::Jal(JOpcodeHelper { dest: bits_of(w, 7, 11), offset: j_imm(w) })
}

/// The full RV32I decode table: the opcode field selects the family, func3
/// and func7 the variant; any other opcode is a decode error.
pub open spec fn decode_spec(w: u32) -> Result<InstructionFormat, VmError> {
    let opcode = bits_of(w, 0, 6);
    let func3 = bits_of(w, 12, 14);
    if opcode == 0b0010011 && (func3 == 1 || func3 == 5) || opcode == 0b0110011 {
        match decode_r_spec(w) {
            Ok(op) => Ok(InstructionFormat::R(op)),
            Err(e) => Err(e),
        }
    } else if opcode == 0b1100111 || opcode == 0b0000011 || opcode == 0b0010011 {
        match decode_i_spec(w) {
            Ok(op) => Ok(InstructionFormat::I(op)),
            Err(e) => Err(e),
        }
    } else if opcode == 0b0100011 {
        match decode_s_spec(w) {
            Ok(op) => Ok(InstructionFormat::S(op)),
            Err(e) => Err(e),
        }
    } else if opcode == 0b1100011 {
        match decode_b_spec(w) {
            Ok(op) => Ok(InstructionFormat::B(op)),
            Err(e) => Err(e),
        }
    } else if opcode == 0b0110111 || opcode == 0b0010111 {
        match decode_u_spec(w) {
            Ok(op) => Ok(InstructionFormat::U(op)),
            Err(e) => Err(e),
        }
    } else if opcode == 0b1101111 {
        Ok(InstructionFormat::J(decode_j_spec(w)))
    } else if opcode == 0b1110011 {
        Ok(InstructionFormat::ECALL)
    } else {
        Err(VmError::UnknownOpcode { opcode })
    }
}

/// The register and shift-amount fields a word can carry are 5 bits wide,
/// hence architectural indices below 32.
proof fn lemma_register_fields_bounded(w: u32)
    ensures
        bits_of(w, 15, 19) < 32,
        bits_of(w, 7, 11) < 32,
        bits_of(w, 20, 24) < 32,
{
    lemma_bits_of_bound(w, 15, 19);
    lemma_bits_of_bound(w, 7, 11);
    lemma_bits_of_bound(w, 20, 24);
    assert(1u32 << 5u32 == 32) by (bit_vector);
}

/// A successfully decoded instruction is well-formed: its register fields
/// are in `0..32` and its second R-format operand is tagged as the variant
/// expects.
pub proof fn lemma_decode_spec_wf(w: u32)
    ensures
        decode_spec(w) matches Ok(i) ==> i.wf(),
{
    lemma_register_fields_bounded(w);
}

fn decode_r_shift(func3: u32, func7: u32, opcode_helper: ROpcodeHelper) -> (r: Result<
    ROpcode,
    VmError,
>)
    ensures
        r == decode_r_shift_spec(func3, func7, opcode_helper),
{
    if func3 == 0b001 && func7 == 0 {
        Ok(ROpcode::Slli(opcode_helper))
    } else if func3 == 0b101 {
        if func7 == 0 {
            Ok(ROpcode::Srli(opcode_helper))
        } else if func7 == 0b0100000 {
            Ok(ROpcode::Srai(opcode_helper))
        } else {
            Err(VmError::UnknownInstruction { opcode: 0b0010011, func3, func7 })
        }
    } else {
        Err(VmError::UnknownInstruction { opcode: 0b0010011, func3, func7 })
    }
}

fn decode_r_others(func3: u32, func7: u32, opcode_helper: ROpcodeHelper) -> (r: Result<
    ROpcode,
    VmError,
>)
    ensures
        r == decode_r_others_spec(func3, func7, opcode_helper),
{
    if func3 == 0 && func7 == 0 {
        Ok(ROpcode::Add(opcode_helper))
    } else if func3 == 0 && func7 == 0b0100000 {
        Ok(ROpcode::Sub(opcode_helper))
    } else if func3 == 1 && func7 == 0 {
        Ok(ROpcode::Sll(opcode_helper))
    } else if func3 == 2 && func7 == 0 {
        Ok(ROpcode::Slti(opcode_helper))
    } else if func3 == 3 && func7 == 0 {
        Ok(ROpcode::Sltu(opcode_helper))
    } else if func3 == 4 && func7 == 0 {
        Ok(ROpcode::Xor(opcode_helper))
    } else if func3 == 5 && func7 == 0 {
        Ok(ROpcode::Srl(opcode_helper))
    } else if func3 == 5 && func7 == 0b0100000 {
        Ok(ROpcode::Sra(opcode_helper))
    } else if func3 == 6 && func7 == 0 {
        Ok(ROpcode::Or(opcode_helper))
    } else if func3 == 7 && func7 == 0 {
        Ok(ROpcode::And(opcode_helper))
    } else {
        Err(VmError::UnknownInstruction { opcode: 0b0110011, func3, func7 })
    }
}

fn decode_r(instruction: u32) -> (r: Result<ROpcode, VmError>)
    ensures
        r == decode_r_spec(instruction),
{
    let opcode = get_bits(instruction, 0, 6);

    let mut opcode_helper = ROpcodeHelper::new(
        get_bits(instruction, 15, 19),
        get_bits(instruction, 7, 11),
        ShamtOrRegister::new(get_bits(instruction, 20, 24), true),
    );

    let func3 = get_bits(instruction, 12, 14);
    let func7 = get_bits(instruction, 25, 31);

    if opcode == 0b0010011 {
        opcode_helper.set_is_register(false);
        decode_r_shift(func3, func7, opcode_helper)
    } else if opcode == 0b0110011 {
        decode_r_others(func3, func7, opcode_helper)
    } else {
        Err(VmError::UnknownInstruction { opcode, func3, func7 })
    }
}

fn decode_b(instruction: u32) -> (r: Result<BOpcode, VmError>)
    ensures
        r == decode_b_spec(instruction),
{
    let opcode_helper = BOpcodeHelper::new(
        get_bits(instruction, 15, 19),
        get_bits(instruction, 20, 24),
        sign_extend_number(
            get_bits(instruction, 31, 31) << 12 | get_bits(instruction, 7, 7) << 11 | get_bits(
                instruction,
                25,
                30,
            ) << 5 | get_bits(instruction, 8, 11) << 1,
            13,
        ),
    );

    let func3 = get_bits(instruction, 12, 14);

    match func3 {
        0 => Ok(BOpcode::Beq(opcode_helper)),
        1 => Ok(BOpcode::Bne(opcode_helper)),
        4 => Ok(BOpcode::Blt(opcode_helper)),
        5 => Ok(BOpcode::Bge(opcode_helper)),
        6 => Ok(BOpcode::Bltu(opcode_helper)),
        7 => Ok(BOpcode::Bgeu(opcode_helper)),
        _ => Err(
            VmError::UnknownInstruction {
                opcode: 0b1100011,
                func3,
                func7: get_bits(instruction, 25, 31),
            },
        ),
    }
}

fn decode_s(instruction: u32) -> (r: Result<SOpcode, VmError>)
    ensures
        r == decode_s_spec(instruction),
{
    let opcode_helper = SOpcodeHelper::new(
        get_bits(instruction, 20, 24),
        get_bits(instruction, 15, 19),
        sign_extend_number(
            get_bits(instruction, 25, 31) << 5 | get_bits(instruction, 7, 11),
            12,
        ),
    );

    let func3 = get_bits(instruction, 12, 14);

    match func3 {
        0 => Ok(SOpcode::Sb(opcode_helper)),
        1 => Ok(SOpcode::Sh(opcode_helper)),
        2 => Ok(SOpcode::Sw(opcode_helper)),
        _ => Err(
            VmError::UnknownInstruction {
                opcode: 0b0100011,
                func3,
                func7: get_bits(instruction, 25, 31),
            },
        ),
    }
}

fn decode_u(instruction: u32) -> (r: Result<UOpcode, VmError>)
    requires
        bits_of(instruction, 0, 6) == 0b0110111 || bits_of(instruction, 0, 6) == 0b0010111,
    ensures
        r == decode_u_spec(instruction),
{
    let opcode = get_bits(instruction, 0, 6);

    let opcode_helper = UOpcodeHelper::new(
        get_bits(instruction, 7, 11),
        get_bits(instruction, 12, 31) << 12,
    );

    if opcode == 0b0110111 {
        Ok(UOpcode::Lui(opcode_helper))
    } else {
        Ok(UOpcode::Auipc(opcode_helper))
    }
}

fn decode_j(instruction: u32) -> (r: JOpcode)
    ensures
        r == decode_j_spec(instruction),
{
    let opcode_helper = JOpcodeHelper::new(
        get_bits(instruction, 7, 11),
        sign_extend_number(
            get_bits(instruction, 31, 31) << 20 | get_bits(instruction, 12, 19) << 12 | get_bits(
                instruction,
                20,
                20,
            ) << 11 | get_bits(instruction, 21, 30) << 1,
            21,
        ),
    );
    JOpcode::Jal(opcode_helper)
}

fn decode_i(instruction: u32) -> (r: Result<IOpcode, VmError>)
    ensures
        r == decode_i_spec(instruction),
{
    let opcode = get_bits(instruction, 0, 6);

    let opcode_helper = IOpcodeHelper::new(
        get_bits(instruction, 15, 19),
        get_bits(instruction, 7, 11),
        sign_extend_number(get_bits(instruction, 20, 31), 12),
    );

    let func3 = get_bits(instruction, 12, 14);

    if opcode == 0b1100111 {
        Ok(IOpcode::Jalr(opcode_helper))
    } else if opcode == 0b0000011 && func3 == 0 {
        Ok(IOpcode::Lb(opcode_helper))
    } else if opcode == 0b0000011 && func3 == 1 {
        Ok(IOpcode::Lh(opcode_helper))
    } else if opcode == 0b0000011 && func3 == 2 {
        Ok(IOpcode::Lw(opcode_helper))
    } else if opcode == 0b0000011 && func3 == 4 {
        Ok(IOpcode::Lbu(opcode_helper))
    } else if opcode == 0b0000011 && func3 == 5 {
        Ok(IOpcode::Lhu(opcode_helper))
    } else if opcode == 0b0010011 && func3 == 0 {
        Ok(IOpcode::Addi(opcode_helper))
    } else if opcode == 0b0010011 && func3 == 2 {
        Ok(IOpcode::Slti(opcode_helper))
    } else if opcode == 0b0010011 && func3 == 3 {
        Ok(IOpcode::Sltiu(opcode_helper))
    } else if opcode == 0b0010011 && func3 == 4 {
        Ok(IOpcode::Xori(opcode_helper))
    } else if opcode == 0b0010011 && func3 == 6 {
        Ok(IOpcode::Ori(opcode_helper))
    } else if opcode == 0b0010011 && func3 == 7 {
        Ok(IOpcode::Andi(opcode_helper))
    } else {
        Err(
            VmError::UnknownInstruction { opcode, func3, func7: get_bits(instruction, 25, 31) },
        )
    }
}

pub fn decode(instruction: u32) -> (r: Result<InstructionFormat, VmError>)
    ensures
        r == decode_spec(instruction),
        r matches Ok(i) ==> i.wf(),
{
    proof {
        lemma_decode_spec_wf(instruction);
    }
    let opcode = get_bits(instruction, 0, 6);
    let func3 = get_bits(instruction, 12, 14);

    if opcode == 0b0010011 && (func3 == 1 || func3 == 5) || opcode == 0b0110011 {
        match decode_r(instruction) {
            Ok(op) => Ok(InstructionFormat::R(op)),
            Err(e) => Err(e),
        }
    } else if opcode == 0b1100111 || opcode == 0b0000011 || opcode == 0b0010011 {
        match decode_i(instruction) {
            Ok(op) => Ok(InstructionFormat::I(op)),
            Err(e) => Err(e),
        }
    } else if opcode == 0b0100011 {
        match decode_s(instruction) {
            Ok(op) => Ok(InstructionFormat::S(op)),
            Err(e) => Err(e),
        }
    } else if opcode == 0b1100011 {
        match decode_b(instruction) {
            Ok(op) => Ok(InstructionFormat::B(op)),
            Err(e) => Err(e),
        }
    } else if opcode == 0b0110111 || opcode == 0b0010111 {
        match decode_u(instruction) {
            Ok(op) => Ok(InstructionFormat::U(op)),
            Err(e) => Err(e),
        }
    } else if opcode == 0b1101111 {
        Ok(InstructionFormat::J(decode_j(instruction)))
    } else if opcode == 0b1110011 {
        Ok(InstructionFormat::ECALL)
    } else {
        Err(VmError::UnknownOpcode { opcode })
    }
}

} // verus!
