use i8080::{get_twos_compliment, I8080Core};

fn flag_snapshot(core: &I8080Core) -> (bool, bool, bool, bool, bool) {
    (core.sign, core.zero, core.auxiliary_carry, core.parity, core.carry)
}

#[test]
fn twos_complement_of_small_values() {
    assert_eq!(get_twos_compliment(1), 0xFF);
    assert_eq!(get_twos_compliment(0), 0x00);
    assert_eq!(get_twos_compliment(0x80), 0x80);
    assert_eq!(get_twos_compliment(0x10), 0xF0);
}

#[test]
fn parity_of_zero_and_one() {
    let mut core = I8080Core::new();
    core.set_parity_flag(0x00);
    assert!(core.parity);
    core.set_parity_flag(0x01);
    assert!(!core.parity);
    core.set_parity_flag(0x03);
    assert!(core.parity);
    core.set_parity_flag(0xFF);
    assert!(core.parity);
    core.set_parity_flag(0x7F);
    assert!(!core.parity);
}

#[test]
fn parity_reads_only_the_low_byte() {
    let mut core = I8080Core::new();
    core.set_parity_flag(0x0100);
    assert!(core.parity);
    core.set_parity_flag(0x0101);
    assert!(!core.parity);
}

#[test]
fn zero_and_sign_helpers() {
    let mut core = I8080Core::new();
    core.set_zero_flag(0);
    assert!(core.zero);
    core.set_zero_flag(5);
    assert!(!core.zero);
    core.set_sign_flag(0x80);
    assert!(core.sign);
    core.set_sign_flag(0x7F);
    assert!(!core.sign);
}

#[test]
fn auxiliary_carry_helpers() {
    let mut core = I8080Core::new();
    core.set_auxiliary_carry_addition_flag(0x0F, 0x01, 0x10);
    assert!(core.auxiliary_carry);
    core.set_auxiliary_carry_addition_flag(0x0E, 0x01, 0x0F);
    assert!(!core.auxiliary_carry);
    core.set_auxiliary_carry_subtraction_flag(0x10, 0x01);
    assert!(core.auxiliary_carry);
    core.set_auxiliary_carry_subtraction_flag(0x1F, 0x0E);
    assert!(!core.auxiliary_carry);
}

#[test]
fn carry_helpers() {
    let mut core = I8080Core::new();
    core.set_carry_flag_rotate(0x80);
    assert!(core.carry);
    core.set_carry_flag_rotate(0x7F);
    assert!(!core.carry);
    core.set_carry_flag_arithmetic_addition(0x0100);
    assert!(core.carry);
    core.set_carry_flag_arithmetic_addition(0x00FF);
    assert!(!core.carry);
    core.set_carry_flag_arithmetic_addition(0x0200);
    assert!(!core.carry);
    core.set_carry_flag_arithmetic_subtraction(0x00, 0x01);
    assert!(core.carry);
    core.set_carry_flag_arithmetic_subtraction(0x01, 0x01);
    assert!(!core.carry);
}

#[test]
fn helpers_touch_only_their_flag() {
    let mut core = I8080Core::new();
    core.sign = true;
    core.auxiliary_carry = true;
    core.carry = true;
    core.set_zero_flag(0);
    assert_eq!(flag_snapshot(&core), (true, true, true, false, true));
    core.set_parity_flag(0);
    assert_eq!(flag_snapshot(&core), (true, true, true, true, true));
    core.set_sign_flag(0);
    assert_eq!(flag_snapshot(&core), (false, true, true, true, true));
    assert_eq!(core.a, 0);
    assert_eq!(core.program_counter, 0);
}

#[test]
fn flag_helpers_are_idempotent() {
    let mut once = I8080Core::new();
    let mut twice = I8080Core::new();
    for value in [0x00u8, 0x01, 0x80, 0x81, 0xFF] {
        once.set_zero_flag(value);
        twice.set_zero_flag(value);
        twice.set_zero_flag(value);
        once.set_sign_flag(value);
        twice.set_sign_flag(value);
        twice.set_sign_flag(value);
        once.set_parity_flag(value as u16);
        twice.set_parity_flag(value as u16);
        twice.set_parity_flag(value as u16);
        assert_eq!(flag_snapshot(&once), flag_snapshot(&twice));
    }
}
