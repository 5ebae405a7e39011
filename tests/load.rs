use i8080::{decode, AluOp, I8080Core, Instruction, LoadRomResult, Operand, RegPair, MEMORY_SIZE};

#[test]
fn new_core_is_zeroed() {
    let core = I8080Core::new();
    assert!(core.memory.iter().all(|&b| b == 0));
    assert_eq!(core.memory.len(), MEMORY_SIZE);
    assert_eq!((core.a, core.b, core.c, core.d, core.e, core.h, core.l), (0, 0, 0, 0, 0, 0, 0));
    assert_eq!((core.program_counter, core.stack_pointer), (0, 0));
    assert!(!(core.sign || core.zero || core.auxiliary_carry || core.parity || core.carry));
}

#[test]
fn load_keeps_the_rest_of_memory() {
    let mut core = I8080Core::new();
    core.memory[5] = 0xAA;
    core.a = 7;
    assert_eq!(core.i8080_load_rom(&[1, 2, 3]), LoadRomResult::Success);
    assert_eq!(&core.memory[0..6], &[1, 2, 3, 0, 0, 0xAA]);
    assert_eq!(core.a, 7);
}

#[test]
fn load_of_full_memory_succeeds() {
    let mut core = I8080Core::new();
    let image = vec![0x5Au8; MEMORY_SIZE];
    assert_eq!(core.i8080_load_rom(&image), LoadRomResult::Success);
    assert_eq!(core.memory[MEMORY_SIZE - 1], 0x5A);
}

#[test]
fn oversized_load_is_refused() {
    let mut core = I8080Core::new();
    let image = vec![0x5Au8; MEMORY_SIZE + 1];
    assert_eq!(core.i8080_load_rom(&image), LoadRomResult::Error);
    assert_eq!(core.memory[0], 0);
}

#[test]
fn decode_table_entries() {
    assert_eq!(decode(0x76), Instruction::Halt);
    assert_eq!(decode(0x00), Instruction::Nop);
    assert_eq!(decode(0x34), Instruction::Inr(Operand::M));
    assert_eq!(decode(0x80), Instruction::Alu(AluOp::Add, Operand::B));
    assert_eq!(decode(0xBE), Instruction::Alu(AluOp::Cmp, Operand::M));
    assert_eq!(decode(0x31), Instruction::Lxi(RegPair::SP));
    assert_eq!(decode(0x41), Instruction::Mov(Operand::B, Operand::C));
    assert_eq!(decode(0x27), Instruction::Daa);
    assert_eq!(decode(0xC9), Instruction::Unimplemented);
    assert_eq!(decode(0x76).length(), 1);
    assert_eq!(decode(0x3A).length(), 3);
    assert_eq!(decode(0x0E).length(), 2);
}
