use rv32i_vm::errors::VmError;
use rv32i_vm::instruction_decoder::decode;
use rv32i_vm::instructions::{BOpcode, IOpcode, InstructionFormat, JOpcode, ROpcode, SOpcode, UOpcode};

fn enc_r(func7: u32, rs2: u32, rs1: u32, func3: u32, rd: u32, opcode: u32) -> u32 {
    func7 << 25 | rs2 << 20 | rs1 << 15 | func3 << 12 | rd << 7 | opcode
}

fn enc_i(imm12: u32, rs1: u32, func3: u32, rd: u32, opcode: u32) -> u32 {
    (imm12 & 0xFFF) << 20 | rs1 << 15 | func3 << 12 | rd << 7 | opcode
}

fn enc_s(imm12: u32, rs2: u32, rs1: u32, func3: u32, opcode: u32) -> u32 {
    ((imm12 >> 5) & 0x7F) << 25 | rs2 << 20 | rs1 << 15 | func3 << 12 | (imm12 & 0x1F) << 7
        | opcode
}

fn enc_b(offset13: u32, rs2: u32, rs1: u32, func3: u32) -> u32 {
    ((offset13 >> 12) & 1) << 31 | ((offset13 >> 5) & 0x3F) << 25 | rs2 << 20 | rs1 << 15 | func3
        << 12 | ((offset13 >> 1) & 0xF) << 8 | ((offset13 >> 11) & 1) << 7 | 0b1100011
}

fn enc_j(offset21: u32, rd: u32) -> u32 {
    ((offset21 >> 20) & 1) << 31 | ((offset21 >> 1) & 0x3FF) << 21 | ((offset21 >> 11) & 1) << 20
        | ((offset21 >> 12) & 0xFF) << 12 | rd << 7 | 0b1101111
}

#[test]
fn decode_addi_with_positive_immediate() {
    match decode(0x7FF00013) {
        Ok(InstructionFormat::I(IOpcode::Addi(h))) => {
            assert_eq!(h.src, 0);
            assert_eq!(h.dst, 0);
            assert_eq!(h.imm, 0x7FF);
        }
        other => panic!("unexpected decoding {:?}", other),
    }
}

#[test]
fn decode_addi_sign_extends_the_immediate() {
    match decode(enc_i(0xFFF, 5, 0, 1, 0b0010011)) {
        Ok(InstructionFormat::I(IOpcode::Addi(h))) => {
            assert_eq!(h.src, 5);
            assert_eq!(h.dst, 1);
            assert_eq!(h.imm, 0xFFFFFFFF);
        }
        other => panic!("unexpected decoding {:?}", other),
    }
}

#[test]
fn decode_register_register_variants() {
    match decode(enc_r(0, 2, 1, 0, 3, 0b0110011)) {
        Ok(InstructionFormat::R(ROpcode::Add(h))) => {
            assert_eq!(h.src, 1);
            assert_eq!(h.dest, 3);
            assert_eq!(h.get_src2(), 2);
        }
        other => panic!("unexpected decoding {:?}", other),
    }
    assert!(matches!(
        decode(enc_r(0b0100000, 2, 1, 0, 3, 0b0110011)),
        Ok(InstructionFormat::R(ROpcode::Sub(_)))
    ));
    assert!(matches!(
        decode(enc_r(0, 2, 1, 2, 3, 0b0110011)),
        Ok(InstructionFormat::R(ROpcode::Slti(_)))
    ));
    assert!(matches!(
        decode(enc_r(0, 2, 1, 3, 3, 0b0110011)),
        Ok(InstructionFormat::R(ROpcode::Sltu(_)))
    ));
    assert!(matches!(
        decode(enc_r(0b0100000, 2, 1, 5, 3, 0b0110011)),
        Ok(InstructionFormat::R(ROpcode::Sra(_)))
    ));
}

#[test]
fn decode_shift_immediate_takes_a_shamt() {
    match decode(enc_r(0, 4, 1, 0b001, 2, 0b0010011)) {
        Ok(InstructionFormat::R(ROpcode::Slli(h))) => {
            assert_eq!(h.src, 1);
            assert_eq!(h.dest, 2);
            assert_eq!(h.get_shamt(), 4);
        }
        other => panic!("unexpected decoding {:?}", other),
    }
    assert!(matches!(
        decode(enc_r(0, 4, 1, 0b101, 2, 0b0010011)),
        Ok(InstructionFormat::R(ROpcode::Srli(_)))
    ));
    assert!(matches!(
        decode(enc_r(0b0100000, 4, 1, 0b101, 2, 0b0010011)),
        Ok(InstructionFormat::R(ROpcode::Srai(_)))
    ));
}

#[test]
fn decode_load_fields() {
    match decode(enc_i(8, 10, 2, 2, 0b0000011)) {
        Ok(InstructionFormat::I(IOpcode::Lw(h))) => {
            assert_eq!(h.src, 10);
            assert_eq!(h.dst, 2);
            assert_eq!(h.imm, 8);
        }
        other => panic!("unexpected decoding {:?}", other),
    }
    assert!(matches!(decode(enc_i(0, 10, 0, 2, 0b0000011)), Ok(InstructionFormat::I(IOpcode::Lb(_)))));
    assert!(matches!(decode(enc_i(0, 10, 4, 2, 0b0000011)), Ok(InstructionFormat::I(IOpcode::Lbu(_)))));
    assert!(matches!(decode(enc_i(0, 10, 5, 2, 0b0000011)), Ok(InstructionFormat::I(IOpcode::Lhu(_)))));
}

#[test]
fn decode_store_reassembles_the_split_offset() {
    match decode(enc_s(0xFE0, 1, 10, 2, 0b0100011)) {
        Ok(InstructionFormat::S(SOpcode::Sw(h))) => {
            assert_eq!(h.src, 1);
            assert_eq!(h.base, 10);
            assert_eq!(h.offset, 0xFFFFFFE0);
        }
        other => panic!("unexpected decoding {:?}", other),
    }
    assert!(matches!(decode(enc_s(4, 1, 10, 0, 0b0100011)), Ok(InstructionFormat::S(SOpcode::Sb(_)))));
    assert!(matches!(decode(enc_s(4, 1, 10, 1, 0b0100011)), Ok(InstructionFormat::S(SOpcode::Sh(_)))));
}

#[test]
fn decode_branch_offset_is_sign_extended() {
    match decode(enc_b(8, 0, 0, 0)) {
        Ok(InstructionFormat::B(BOpcode::Beq(h))) => {
            assert_eq!(h.src1, 0);
            assert_eq!(h.src2, 0);
            assert_eq!(h.offset, 8);
        }
        other => panic!("unexpected decoding {:?}", other),
    }
    match decode(enc_b(0x1FF8, 1, 2, 1)) {
        Ok(InstructionFormat::B(BOpcode::Bne(h))) => {
            assert_eq!(h.src1, 2);
            assert_eq!(h.src2, 1);
            assert_eq!(h.offset, 0xFFFFFFF8);
        }
        other => panic!("unexpected decoding {:?}", other),
    }
}

#[test]
fn decode_upper_immediates() {
    match decode(0x12345 << 12 | 1 << 7 | 0b0110111) {
        Ok(InstructionFormat::U(UOpcode::Lui(h))) => {
            assert_eq!(h.dest, 1);
            assert_eq!(h.imm, 0x12345000);
        }
        other => panic!("unexpected decoding {:?}", other),
    }
    assert!(matches!(
        decode(0x12345 << 12 | 1 << 7 | 0b0010111),
        Ok(InstructionFormat::U(UOpcode::Auipc(_)))
    ));
}

#[test]
fn decode_jal_offsets() {
    match decode(enc_j(16, 1)) {
        Ok(InstructionFormat::J(JOpcode::Jal(h))) => {
            assert_eq!(h.dest, 1);
            assert_eq!(h.offset, 16);
        }
        other => panic!("unexpected decoding {:?}", other),
    }
    match decode(enc_j(0x1FFFF8, 0)) {
        Ok(InstructionFormat::J(JOpcode::Jal(h))) => {
            assert_eq!(h.dest, 0);
            assert_eq!(h.offset, 0xFFFFFFF8);
        }
        other => panic!("unexpected decoding {:?}", other),
    }
}

#[test]
fn decode_ecall_word() {
    assert_eq!(decode(0x00000073), Ok(InstructionFormat::ECALL));
}

#[test]
fn decode_rejects_unknown_opcodes() {
    assert_eq!(decode(0), Err(VmError::UnknownOpcode { opcode: 0 }));
    assert_eq!(decode(0b1111111), Err(VmError::UnknownOpcode { opcode: 0b1111111 }));
}

#[test]
fn decode_rejects_unknown_function_fields() {
    assert_eq!(
        decode(enc_r(0x55, 2, 1, 0, 3, 0b0110011)),
        Err(VmError::UnknownInstruction { opcode: 0b0110011, func3: 0, func7: 0x55 })
    );
    assert_eq!(
        decode(enc_b(8, 0, 0, 2)),
        Err(VmError::UnknownInstruction { opcode: 0b1100011, func3: 2, func7: 0 })
    );
    assert_eq!(
        decode(enc_s(4, 1, 10, 3, 0b0100011)),
        Err(VmError::UnknownInstruction { opcode: 0b0100011, func3: 3, func7: 0 })
    );
}
