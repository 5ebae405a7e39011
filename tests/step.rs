use i8080::{I8080Core, LoadRomResult, StepInstructionResult};

fn core_with(program: &[u8]) -> I8080Core {
    let mut core = I8080Core::new();
    assert_eq!(core.i8080_load_rom(program), LoadRomResult::Success);
    core
}

#[test]
fn inx_bc_wraps_to_zero() {
    let mut core = core_with(&[0x03]);
    core.b = 0xFF;
    core.c = 0xFF;
    assert_eq!(core.i8080_step(), StepInstructionResult::Success);
    assert_eq!((core.b, core.c), (0x00, 0x00));
    assert_eq!(core.program_counter, 1);
}

#[test]
fn dcx_bc_wraps_to_ffff() {
    let mut core = core_with(&[0x0B]);
    assert_eq!(core.i8080_step(), StepInstructionResult::Success);
    assert_eq!((core.b, core.c), (0xFF, 0xFF));
}

#[test]
fn inx_then_dcx_restores_pair() {
    let mut core = core_with(&[0x13, 0x1B]);
    core.d = 0x12;
    core.e = 0xFF;
    core.i8080_step();
    assert_eq!((core.d, core.e), (0x13, 0x00));
    core.i8080_step();
    assert_eq!((core.d, core.e), (0x12, 0xFF));
}

#[test]
fn parity_of_accumulator_after_ora() {
    let mut core = core_with(&[0xB7, 0x3C, 0xB7]);
    core.i8080_step();
    assert!(core.parity);
    core.i8080_step();
    assert_eq!(core.a, 0x01);
    core.i8080_step();
    assert!(!core.parity);
}

#[test]
fn dcr_b_from_one_and_from_zero() {
    let mut core = core_with(&[0x05, 0x05]);
    core.b = 0x01;
    core.carry = true;
    core.i8080_step();
    assert_eq!(core.b, 0x00);
    assert!(core.zero);
    assert!(!core.sign);
    assert!(core.carry);
    core.i8080_step();
    assert_eq!(core.b, 0xFF);
    assert!(!core.zero);
    assert!(core.sign);
    assert!(core.carry);
    assert!(!core.auxiliary_carry);
}

#[test]
fn inr_leaves_carry_and_sets_auxiliary_carry() {
    let mut core = core_with(&[0x04, 0x04]);
    core.b = 0x0F;
    core.i8080_step();
    assert_eq!(core.b, 0x10);
    assert!(core.auxiliary_carry);
    assert!(!core.carry);
    core.b = 0xFF;
    core.carry = true;
    core.i8080_step();
    assert_eq!(core.b, 0x00);
    assert!(core.zero);
    assert!(core.carry);
    assert!(core.auxiliary_carry);
}

#[test]
fn inr_m_increments_memory_at_hl() {
    let mut core = core_with(&[0x34]);
    core.h = 0x20;
    core.l = 0x00;
    core.memory[0x2000] = 0x7F;
    core.i8080_step();
    assert_eq!(core.memory[0x2000], 0x80);
    assert_eq!(core.h, 0x20);
    assert!(core.sign);
}

#[test]
fn add_b_auxiliary_carry() {
    let mut core = core_with(&[0x80]);
    core.a = 0x0F;
    core.b = 0x01;
    core.i8080_step();
    assert_eq!(core.a, 0x10);
    assert!(core.auxiliary_carry);

    let mut core = core_with(&[0x80]);
    core.a = 0x0E;
    core.b = 0x01;
    core.i8080_step();
    assert_eq!(core.a, 0x0F);
    assert!(!core.auxiliary_carry);
}

#[test]
fn add_a_overflow_sets_carry_and_zero() {
    let mut core = core_with(&[0x87]);
    core.a = 0x80;
    core.i8080_step();
    assert_eq!(core.a, 0x00);
    assert!(core.carry);
    assert!(core.zero);
}

#[test]
fn sub_b_borrows() {
    let mut core = core_with(&[0x90]);
    core.a = 0x00;
    core.b = 0x01;
    core.i8080_step();
    assert_eq!(core.a, 0xFF);
    assert!(core.carry);
    assert!(core.auxiliary_carry);
    assert!(core.sign);
}

#[test]
fn adc_and_sbb_use_carry_in() {
    let mut core = core_with(&[0x88]);
    core.a = 0x10;
    core.b = 0x0F;
    core.carry = true;
    core.i8080_step();
    assert_eq!(core.a, 0x20);
    assert!(!core.carry);

    let mut core = core_with(&[0x98]);
    core.a = 0x10;
    core.b = 0x0F;
    core.carry = true;
    core.i8080_step();
    assert_eq!(core.a, 0x00);
    assert!(core.zero);
    assert!(!core.carry);
}

#[test]
fn logical_ops_clear_carries() {
    let mut core = core_with(&[0xA0, 0xA9, 0xB2]);
    core.a = 0xF0;
    core.b = 0x3C;
    core.c = 0xFF;
    core.d = 0x01;
    core.carry = true;
    core.auxiliary_carry = true;
    core.i8080_step();
    assert_eq!(core.a, 0x30);
    assert!(!core.carry && !core.auxiliary_carry);
    core.carry = true;
    core.i8080_step();
    assert_eq!(core.a, 0xCF);
    assert!(!core.carry);
    core.i8080_step();
    assert_eq!(core.a, 0xCF);
    assert!(core.sign);
}

#[test]
fn cmp_keeps_accumulator() {
    let mut core = core_with(&[0xB8]);
    core.a = 0x05;
    core.b = 0x05;
    core.i8080_step();
    assert_eq!(core.a, 0x05);
    assert!(core.zero);
    assert!(!core.carry);
}

#[test]
fn daa_after_bcd_add() {
    let mut core = core_with(&[0x80, 0x27]);
    core.a = 0x09;
    core.b = 0x08;
    core.i8080_step();
    assert_eq!(core.a, 0x11);
    core.i8080_step();
    assert_eq!(core.a, 0x17);
    assert!(!core.carry);
    assert_eq!(core.program_counter, 2);
}

#[test]
fn daa_reaching_one_hundred() {
    let mut core = core_with(&[0x80, 0x27]);
    core.a = 0x50;
    core.b = 0x50;
    core.i8080_step();
    core.i8080_step();
    assert_eq!(core.a, 0x00);
    assert!(core.carry);
    assert!(core.zero);
}

#[test]
fn load_then_run() {
    let mut core = core_with(&[0x3E, 0x42, 0x76]);
    assert_eq!(core.i8080_step(), StepInstructionResult::Success);
    assert_eq!(core.a, 0x42);
    assert_eq!(core.i8080_step(), StepInstructionResult::Halt);
    assert_eq!(core.program_counter, 3);
}

#[test]
fn nop_reports_no_operation() {
    let mut core = core_with(&[0x00, 0x08]);
    assert_eq!(core.i8080_step(), StepInstructionResult::NoOperation);
    assert_eq!(core.i8080_step(), StepInstructionResult::NoOperation);
    assert_eq!(core.program_counter, 2);
}

#[test]
fn unmodelled_opcode_changes_nothing() {
    let mut core = core_with(&[0xC3, 0x00, 0x10]);
    core.a = 0x11;
    assert_eq!(core.i8080_step(), StepInstructionResult::NotKnownOpcode);
    assert_eq!(core.program_counter, 0);
    assert_eq!(core.a, 0x11);
}

#[test]
fn lxi_reads_little_endian() {
    let mut core = core_with(&[0x21, 0x34, 0x12, 0x31, 0xCD, 0xAB, 0x01, 0x02, 0x01]);
    core.i8080_step();
    assert_eq!((core.h, core.l), (0x12, 0x34));
    core.i8080_step();
    assert_eq!(core.stack_pointer, 0xABCD);
    core.i8080_step();
    assert_eq!((core.b, core.c), (0x01, 0x02));
    assert_eq!(core.program_counter, 9);
}

#[test]
fn shld_and_lhld_round_trip() {
    let mut core = core_with(&[0x22, 0x00, 0x30, 0x2A, 0x00, 0x30]);
    core.h = 0xBE;
    core.l = 0xEF;
    core.i8080_step();
    assert_eq!(core.memory[0x3000], 0xEF);
    assert_eq!(core.memory[0x3001], 0xBE);
    core.h = 0;
    core.l = 0;
    core.i8080_step();
    assert_eq!((core.h, core.l), (0xBE, 0xEF));
}

#[test]
fn shld_at_top_of_memory_wraps() {
    let mut core = core_with(&[0x22, 0xFF, 0xFF]);
    core.h = 0x11;
    core.l = 0x22;
    core.i8080_step();
    assert_eq!(core.memory[0xFFFF], 0x22);
    assert_eq!(core.memory[0x0000], 0x11);
}

#[test]
fn operand_fetch_wraps_at_top_of_memory() {
    let mut core = I8080Core::new();
    core.memory[0xFFFF] = 0x06;
    core.memory[0x0000] = 0x5A;
    core.program_counter = 0xFFFF;
    assert_eq!(core.i8080_step(), StepInstructionResult::Success);
    assert_eq!(core.b, 0x5A);
    assert_eq!(core.program_counter, 0x0001);
}

#[test]
fn sta_lda_stax_ldax_mov() {
    let mut core = core_with(&[0x32, 0x00, 0x40, 0x3A, 0x01, 0x40, 0x02, 0x0A, 0x77, 0x46]);
    core.a = 0x99;
    core.b = 0x50;
    core.c = 0x00;
    core.h = 0x60;
    core.l = 0x00;
    core.memory[0x4001] = 0x44;
    core.i8080_step();
    assert_eq!(core.memory[0x4000], 0x99);
    core.i8080_step();
    assert_eq!(core.a, 0x44);
    core.i8080_step();
    assert_eq!(core.memory[0x5000], 0x44);
    core.a = 0;
    core.i8080_step();
    assert_eq!(core.a, 0x44);
    core.i8080_step();
    assert_eq!(core.memory[0x6000], 0x44);
    core.i8080_step();
    assert_eq!(core.b, 0x44);
}

#[test]
fn rotations() {
    let mut core = core_with(&[0x07, 0x0F, 0x17, 0x1F]);
    core.a = 0x81;
    core.i8080_step();
    assert_eq!(core.a, 0x03);
    assert!(core.carry);
    core.i8080_step();
    assert_eq!(core.a, 0x81);
    assert!(core.carry);
    core.a = 0x40;
    core.carry = true;
    core.i8080_step();
    assert_eq!(core.a, 0x81);
    assert!(!core.carry);
    core.i8080_step();
    assert_eq!(core.a, 0x40);
    assert!(core.carry);
}

#[test]
fn dad_adds_into_hl() {
    let mut core = core_with(&[0x09, 0x29]);
    core.h = 0x80;
    core.l = 0x01;
    core.b = 0x80;
    core.c = 0x00;
    core.i8080_step();
    assert_eq!((core.h, core.l), (0x00, 0x01));
    assert!(core.carry);
    assert_eq!(core.program_counter, 1);
    core.i8080_step();
    assert_eq!((core.h, core.l), (0x00, 0x02));
    assert!(!core.carry);
}

#[test]
fn complement_and_carry_control() {
    let mut core = core_with(&[0x2F, 0x37, 0x3F]);
    core.a = 0x5A;
    core.i8080_step();
    assert_eq!(core.a, 0xA5);
    core.i8080_step();
    assert!(core.carry);
    core.i8080_step();
    assert!(!core.carry);
}
