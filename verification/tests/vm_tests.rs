use rv32i_vm::errors::VmError;
use rv32i_vm::instruction_decoder::decode;
use rv32i_vm::vm::{StepEffect, VM};

fn enc_r(func7: u32, rs2: u32, rs1: u32, func3: u32, rd: u32, opcode: u32) -> u32 {
    func7 << 25 | rs2 << 20 | rs1 << 15 | func3 << 12 | rd << 7 | opcode
}

fn enc_i(imm12: u32, rs1: u32, func3: u32, rd: u32, opcode: u32) -> u32 {
    (imm12 & 0xFFF) << 20 | rs1 << 15 | func3 << 12 | rd << 7 | opcode
}

fn enc_s(imm12: u32, rs2: u32, rs1: u32, func3: u32) -> u32 {
    ((imm12 >> 5) & 0x7F) << 25 | rs2 << 20 | rs1 << 15 | func3 << 12 | (imm12 & 0x1F) << 7
        | 0b0100011
}

fn enc_b(offset13: u32, rs2: u32, rs1: u32, func3: u32) -> u32 {
    ((offset13 >> 12) & 1) << 31 | ((offset13 >> 5) & 0x3F) << 25 | rs2 << 20 | rs1 << 15 | func3
        << 12 | ((offset13 >> 1) & 0xF) << 8 | ((offset13 >> 11) & 1) << 7 | 0b1100011
}

fn enc_j(offset21: u32, rd: u32) -> u32 {
    ((offset21 >> 20) & 1) << 31 | ((offset21 >> 1) & 0x3FF) << 21 | ((offset21 >> 11) & 1) << 20
        | ((offset21 >> 12) & 0xFF) << 12 | rd << 7 | 0b1101111
}

/// A flash image whose reset vector points at `code_offset`, with `words`
/// laid out there little-endian.
fn image(code_offset: usize, words: &[u32]) -> Vec<u8> {
    let start_pc = 0x40000u32 + code_offset as u32;
    let mut img = vec![0u8; code_offset];
    img[0..4].copy_from_slice(&start_pc.to_le_bytes());
    for w in words {
        img.extend_from_slice(&w.to_le_bytes());
    }
    img
}

fn boot(code_offset: usize, words: &[u32]) -> VM {
    let mut vm = VM::new(image(code_offset, words));
    vm.init_execution();
    vm
}

#[test]
fn writes_to_x0_are_dropped() {
    // addi x0, x0, 0x7FF
    let mut vm = boot(4, &[0x7FF00013]);
    assert_eq!(vm.step(), Ok(StepEffect::Continue));
    assert_eq!(vm.get_register_value(0), 0);
    assert_eq!(vm.get_pc(), 0x40008);
}

#[test]
fn addition_wraps_modulo_two_to_the_32() {
    let program = [
        enc_i(0xFFF, 0, 0, 1, 0b0010011),  // addi x1, x0, -1
        enc_i(1, 0, 0, 2, 0b0010011),  // addi x2, x0, 1
        enc_r(0, 2, 1, 0, 3, 0b0110011),  // add x3, x1, x2
    ];
    let mut vm = boot(4, &program);
    for _ in 0..3 {
        assert_eq!(vm.step(), Ok(StepEffect::Continue));
    }
    assert_eq!(vm.get_register_value(1), 0xFFFFFFFF);
    assert_eq!(vm.get_register_value(2), 1);
    assert_eq!(vm.get_register_value(3), 0);
}

#[test]
fn lui_places_the_immediate_high() {
    let mut vm = boot(4, &[0x12345 << 12 | 1 << 7 | 0b0110111]);
    assert_eq!(vm.step(), Ok(StepEffect::Continue));
    assert_eq!(vm.get_register_value(1), 0x12345000);
}

#[test]
fn signed_and_unsigned_comparisons_differ() {
    let mut vm = boot(4, &[]);
    vm.set_register_value(1, 0xFFFFFFFF);
    vm.set_register_value(2, 1);

    // slt x3, x1, x0: -1 < 0 signed
    let slt = decode(enc_r(0, 0, 1, 2, 3, 0b0110011)).unwrap();
    vm.execute_instruction(slt).unwrap();
    assert_eq!(vm.get_register_value(3), 1);

    // sltiu x4, x1, 0: 0xFFFFFFFF < 0 unsigned is false
    let sltiu = decode(enc_i(0, 1, 3, 4, 0b0010011)).unwrap();
    vm.execute_instruction(sltiu).unwrap();
    assert_eq!(vm.get_register_value(4), 0);

    // sltu x5, x1, x2: 0xFFFFFFFF < 1 unsigned is false
    let sltu = decode(enc_r(0, 2, 1, 3, 5, 0b0110011)).unwrap();
    vm.execute_instruction(sltu).unwrap();
    assert_eq!(vm.get_register_value(5), 0);
}

#[test]
fn arithmetic_and_logical_right_shifts_differ() {
    let mut vm = boot(4, &[]);
    vm.set_register_value(1, 0x80000000);

    // srai x2, x1, 4
    let srai = decode(enc_r(0b0100000, 4, 1, 0b101, 2, 0b0010011)).unwrap();
    vm.execute_instruction(srai).unwrap();
    assert_eq!(vm.get_register_value(2), 0xF8000000);

    // srli x3, x1, 4
    let srli = decode(enc_r(0, 4, 1, 0b101, 3, 0b0010011)).unwrap();
    vm.execute_instruction(srli).unwrap();
    assert_eq!(vm.get_register_value(3), 0x08000000);
}

#[test]
fn stores_and_loads_roundtrip_through_the_stack() {
    let mut vm = boot(4, &[]);
    let address = 0xFFFFC000u32;
    vm.set_register_value(10, address);
    vm.set_register_value(1, 0xDEADBEEF);

    // sw x1, 0(x10)
    let sw = decode(enc_s(0, 1, 10, 2)).unwrap();
    vm.execute_instruction(sw).unwrap();

    // lw x2, 0(x10)
    let lw = decode(enc_i(0, 10, 2, 2, 0b0000011)).unwrap();
    vm.execute_instruction(lw).unwrap();
    assert_eq!(vm.get_register_value(2), 0xDEADBEEF);

    // lb x3, 0(x10): 0xEF sign-extended
    let lb = decode(enc_i(0, 10, 0, 3, 0b0000011)).unwrap();
    vm.execute_instruction(lb).unwrap();
    assert_eq!(vm.get_register_value(3), 0xFFFFFFEF);

    // lbu x4, 0(x10): 0xEF zero-extended
    let lbu = decode(enc_i(0, 10, 4, 4, 0b0000011)).unwrap();
    vm.execute_instruction(lbu).unwrap();
    assert_eq!(vm.get_register_value(4), 0x000000EF);
}

#[test]
fn taken_branch_jumps_by_its_offset() {
    // at PC = 0x40010: beq x0, x0, 8
    let mut vm = boot(0x10, &[enc_b(8, 0, 0, 0)]);
    assert_eq!(vm.get_pc(), 0x40010);
    assert_eq!(vm.step(), Ok(StepEffect::Continue));
    assert_eq!(vm.get_pc(), 0x40018);
}

#[test]
fn untaken_branch_falls_through_by_4() {
    // at PC = 0x40010: bne x0, x0, 8 (operands equal, not taken)
    let mut vm = boot(0x10, &[enc_b(8, 0, 0, 1)]);
    assert_eq!(vm.step(), Ok(StepEffect::Continue));
    assert_eq!(vm.get_pc(), 0x40014);
}

#[test]
fn jal_links_and_jalr_returns() {
    // at 0x40020: jal x1, 16; at 0x40030: jalr x0, x1, 0
    let mut img = image(0x20, &[enc_j(16, 1)]);
    img.resize(0x30, 0);
    img.extend_from_slice(&enc_i(0, 1, 0, 0, 0b1100111).to_le_bytes());
    let mut vm = VM::new(img);
    vm.init_execution();

    assert_eq!(vm.step(), Ok(StepEffect::Continue));
    assert_eq!(vm.get_register_value(1), 0x40024);
    assert_eq!(vm.get_pc(), 0x40030);

    assert_eq!(vm.step(), Ok(StepEffect::Continue));
    assert_eq!(vm.get_pc(), 0x40024);
    assert_eq!(vm.get_register_value(1), 0x40024);
    assert_eq!(vm.get_register_value(0), 0);
}

#[test]
fn jal_with_zero_offset_loops_on_itself() {
    let mut vm = boot(4, &[enc_j(0, 5)]);
    assert_eq!(vm.step(), Ok(StepEffect::Continue));
    assert_eq!(vm.get_register_value(5), 0x40008);
    assert_eq!(vm.get_pc(), 0x40004);
    assert_eq!(vm.step(), Ok(StepEffect::Continue));
    assert_eq!(vm.get_pc(), 0x40004);
}

#[test]
fn ecall_exit_reports_the_guest_code() {
    let mut vm = boot(4, &[0x00000073]);
    vm.set_register_value(10, 1);
    vm.set_register_value(11, 7);
    assert_eq!(vm.step(), Ok(StepEffect::Exit { code: 7 }));
}

#[test]
fn ecall_read_input_hands_back_an_effect_and_memory_takes_the_bytes() {
    let mut vm = boot(4, &[0x00000073]);
    vm.set_register_value(10, 0);
    vm.set_register_value(11, 0xFFFFC100);
    vm.set_register_value(12, 8);
    assert_eq!(vm.step(), Ok(StepEffect::ReadInput { address: 0xFFFFC100, size: 8 }));

    // the host read fewer bytes than asked: they land at the address
    assert_eq!(vm.write_n(0xFFFFC100, vec![1, 2, 3]), Ok(()));
    assert_eq!(vm.read_n(0xFFFFC100, 3), Ok(vec![1, 2, 3]));
}

#[test]
fn ecall_read_input_rejects_oversized_requests() {
    let mut vm = boot(4, &[0x00000073]);
    vm.set_register_value(10, 0);
    vm.set_register_value(11, 0xFFFFC100);
    vm.set_register_value(12, 0x4001);
    assert_eq!(vm.step(), Err(VmError::ReadTooLarge { size: 0x4001 }));
}

#[test]
fn ecall_puts_carries_the_bytes_out() {
    let mut vm = boot(4, &[0x00000073]);
    assert_eq!(vm.write_n(0xFFFFC200, vec![b'h', b'i']), Ok(()));
    vm.set_register_value(10, 2);
    vm.set_register_value(11, 0xFFFFC200);
    vm.set_register_value(12, 2);
    assert_eq!(vm.step(), Ok(StepEffect::Output { bytes: vec![b'h', b'i'] }));
}

#[test]
fn ecall_unknown_code_is_fatal() {
    let mut vm = boot(4, &[0x00000073]);
    vm.set_register_value(10, 3);
    assert_eq!(vm.step(), Err(VmError::UnknownSyscall { syscall_id: 3 }));
}

#[test]
fn memory_accesses_outside_the_ranges_are_rejected() {
    let mut vm = boot(4, &[]);
    assert_eq!(
        vm.read_u32(0x1000),
        Err(VmError::InvalidAccess { address: 0x1000, nb_bytes: 4 })
    );
    assert_eq!(
        vm.write_u8(0xFFFFFFF0, 1),
        Err(VmError::InvalidAccess { address: 0xFFFFFFF0, nb_bytes: 1 })
    );

    // lw x2, 0(x0): address 0 lies in neither region
    let lw = decode(enc_i(0, 0, 2, 2, 0b0000011)).unwrap();
    assert_eq!(
        vm.execute_instruction(lw),
        Err(VmError::InvalidAccess { address: 0, nb_bytes: 4 })
    );
}

#[test]
fn fetch_outside_flash_is_rejected() {
    // reset vector 0: the PC lands outside flash and the fetch fails
    let mut vm = VM::new(vec![0, 0, 0, 0]);
    vm.init_execution();
    assert_eq!(vm.step(), Err(VmError::InvalidAccess { address: 0, nb_bytes: 4 }));
}

#[test]
fn undecodable_word_stops_the_machine() {
    let mut vm = boot(4, &[0]);
    assert_eq!(vm.step(), Err(VmError::UnknownOpcode { opcode: 0 }));
}

#[test]
fn bootstrap_seeds_pc_and_stack_pointer() {
    let vm = boot(4, &[]);
    assert_eq!(vm.get_pc(), 0x40004);
    assert_eq!(vm.get_register_value(2), 0xFFFFFFF0);
}

#[test]
fn logic_and_shift_instructions() {
    let mut vm = boot(4, &[]);
    vm.set_register_value(1, 0b1100);
    vm.set_register_value(2, 0b1010);

    let xor = decode(enc_r(0, 2, 1, 4, 3, 0b0110011)).unwrap();
    vm.execute_instruction(xor).unwrap();
    assert_eq!(vm.get_register_value(3), 0b0110);

    let or = decode(enc_r(0, 2, 1, 6, 4, 0b0110011)).unwrap();
    vm.execute_instruction(or).unwrap();
    assert_eq!(vm.get_register_value(4), 0b1110);

    let and = decode(enc_r(0, 2, 1, 7, 5, 0b0110011)).unwrap();
    vm.execute_instruction(and).unwrap();
    assert_eq!(vm.get_register_value(5), 0b1000);

    // sll x6, x1, x2: shift amount is x2 mod 32
    vm.set_register_value(2, 33);
    let sll = decode(enc_r(0, 2, 1, 1, 6, 0b0110011)).unwrap();
    vm.execute_instruction(sll).unwrap();
    assert_eq!(vm.get_register_value(6), 0b11000);

    let xori = decode(enc_i(0xFF, 1, 4, 7, 0b0010011)).unwrap();
    vm.execute_instruction(xori).unwrap();
    assert_eq!(vm.get_register_value(7), 0xF3);

    let andi = decode(enc_i(0b0110, 1, 7, 8, 0b0010011)).unwrap();
    vm.execute_instruction(andi).unwrap();
    assert_eq!(vm.get_register_value(8), 0b0100);

    let ori = decode(enc_i(0b0011, 1, 6, 9, 0b0010011)).unwrap();
    vm.execute_instruction(ori).unwrap();
    assert_eq!(vm.get_register_value(9), 0b1111);
}

#[test]
fn halfword_store_and_loads() {
    let mut vm = boot(4, &[]);
    vm.set_register_value(10, 0xFFFFC010);
    vm.set_register_value(1, 0x1234ABCD);

    // sh x1, 0(x10): only the low 16 bits land
    let sh = decode(enc_s(0, 1, 10, 1)).unwrap();
    vm.execute_instruction(sh).unwrap();

    let lhu = decode(enc_i(0, 10, 5, 2, 0b0000011)).unwrap();
    vm.execute_instruction(lhu).unwrap();
    assert_eq!(vm.get_register_value(2), 0x0000ABCD);

    let lh = decode(enc_i(0, 10, 1, 3, 0b0000011)).unwrap();
    vm.execute_instruction(lh).unwrap();
    assert_eq!(vm.get_register_value(3), 0xFFFFABCD);
}

#[test]
fn signed_and_unsigned_branches_differ() {
    let mut vm = boot(4, &[]);
    vm.set_register_value(1, 0xFFFFFFFF);  // -1 signed, huge unsigned
    vm.set_register_value(2, 1);

    // blt x1, x2: -1 < 1 signed, taken
    let blt = decode(enc_b(8, 2, 1, 4)).unwrap();
    assert_eq!(vm.execute_instruction(blt).unwrap().0, true);

    // bltu x1, x2: 0xFFFFFFFF < 1 unsigned is false, not taken
    let bltu = decode(enc_b(8, 2, 1, 6)).unwrap();
    assert_eq!(vm.execute_instruction(bltu).unwrap().0, false);

    // bge x1, x2: -1 >= 1 signed is false, not taken
    let bge = decode(enc_b(8, 2, 1, 5)).unwrap();
    assert_eq!(vm.execute_instruction(bge).unwrap().0, false);

    // bgeu x1, x2: 0xFFFFFFFF >= 1 unsigned, taken
    let bgeu = decode(enc_b(8, 2, 1, 7)).unwrap();
    assert_eq!(vm.execute_instruction(bgeu).unwrap().0, true);
}

#[test]
fn auipc_adds_to_the_pc() {
    // at 0x40004: auipc x1, 0x1000
    let mut vm = boot(4, &[0x12345 << 12 | 1 << 7 | 0b0010111]);
    assert_eq!(vm.step(), Ok(StepEffect::Continue));
    assert_eq!(vm.get_register_value(1), 0x12345000 + 0x40004);
}

#[test]
fn jalr_clears_the_low_target_bit() {
    let mut vm = boot(4, &[enc_i(0, 1, 0, 5, 0b1100111)]);
    vm.set_register_value(1, 0x40011);
    assert_eq!(vm.step(), Ok(StepEffect::Continue));
    assert_eq!(vm.get_pc(), 0x40010);
    assert_eq!(vm.get_register_value(5), 0x40008);
}

#[test]
fn countdown_loop_program_runs_to_exit() {
    // sum 4 + 3 + 2 + 1 in x11, then exit with the sum as the code
    let program = [
        enc_i(4, 0, 0, 1, 0b0010011),  // addi x1, x0, 4
        enc_i(0, 0, 0, 11, 0b0010011),  // addi x11, x0, 0
        enc_r(0, 1, 11, 0, 11, 0b0110011),  // add x11, x11, x1
        enc_i(0xFFF, 1, 0, 1, 0b0010011),  // addi x1, x1, -1
        enc_b(0x1FF8, 0, 1, 1),  // bne x1, x0, -8
        enc_i(1, 0, 0, 10, 0b0010011),  // addi x10, x0, 1
        0x00000073,  // ecall
    ];
    let mut vm = boot(4, &program);
    let mut effect = vm.step().unwrap();
    let mut steps = 0;
    while effect == StepEffect::Continue {
        effect = vm.step().unwrap();
        steps += 1;
        assert!(steps < 100, "the program should reach its exit quickly");
    }
    assert_eq!(effect, StepEffect::Exit { code: 10 });
}

#[test]
fn flash_is_writable_too() {
    let mut img = image(4, &[]);
    img.resize(0x200, 0);
    let mut vm = VM::new(img);
    vm.init_execution();
    vm.set_register_value(10, 0x40100);
    vm.set_register_value(1, 0xCAFEBABE);
    let sw = decode(enc_s(0, 1, 10, 2)).unwrap();
    vm.execute_instruction(sw).unwrap();
    assert_eq!(vm.read_u32(0x40100), Ok(0xCAFEBABE));
}
