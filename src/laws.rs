use vstd::prelude::*;
use crate::cpu::{wrap16, wrap8, CpuState};
use crate::decode::{instruction_of, AluOp, Instruction, Operand, RegPair};
use crate::engine::{alu_model, decimal_adjust_model, execute_model, step_model};
use crate::flags::aux_carry_add;
use vstd::arithmetic::div_mod::lemma_fundamental_div_mod_converse;

verus! {

/// A byte holding two decimal digits, one per nibble.
pub open spec fn is_packed_bcd(v: u8) -> bool {
    v % 16 <= 9 && v / 16 <= 9
}

/// The number 0..=99 that a packed-BCD byte stands for.
pub open spec fn bcd_value(v: u8) -> int {
    (v / 16) * 10 + v % 16
}

/// The packed-BCD byte of a number 0..=99.
pub open spec fn bcd_byte(n: int) -> u8 {
    ((n / 10) * 16 + n % 10) as u8
}

/// The auxiliary carry of a byte addition is the carry out of the low
/// nibbles.
proof fn lemma_aux_carry_of_sum(x: u8, y: u8)
    ensures
        aux_carry_add(x, y, wrap8(x + y)) == (x % 16 + y % 16 >= 16),
{
    let r: u8 = wrap8(x + y);
    assert(r == ((x as u16 + y as u16) % 256) as u8);
    assert(((x ^ y ^ ((x as u16 + y as u16) % 256) as u8) & 0x10 != 0) == (x % 16 + y % 16
        >= 16)) by (bit_vector);
}

/// Second stage of the adjustment: the accumulator reads `h` tens and `d`
/// units in its two nibbles, with `d` a decimal digit.
proof fn lemma_tens_adjust(h: int, d: int)
    requires
        0 <= d <= 9,
        0 <= h,
        16 * h + d < 256,
    ensures
        (16 * h + d) / 16 == h,
        h > 9 ==> (16 * h + d + 0x60) % 256 == (((10 * h + d) % 100) / 10) * 16 + ((10 * h + d)
            % 100) % 10,
        h > 9 ==> 16 * h + d + 0x60 >= 256 && 10 * h + d >= 100,
        h <= 9 ==> 16 * h + d == (((10 * h + d) % 100) / 10) * 16 + ((10 * h + d) % 100) % 10,
        h <= 9 ==> 10 * h + d < 100,
{
    lemma_fundamental_div_mod_converse(16 * h + d, 16, h, d);
    if h > 9 {
        lemma_fundamental_div_mod_converse(10 * h + d, 100, 1, 10 * (h - 10) + d);
        lemma_fundamental_div_mod_converse(10 * (h - 10) + d, 10, h - 10, d);
        lemma_fundamental_div_mod_converse(16 * h + d + 0x60, 256, 1, 16 * (h - 10) + d);
    } else {
        lemma_fundamental_div_mod_converse(10 * h + d, 100, 0, 10 * h + d);
        lemma_fundamental_div_mod_converse(10 * h + d, 10, h, d);
    }
}

/// The arithmetic of decimal adjustment after adding two packed-BCD bytes
/// whose binary sum is below 0xFA, with the low-nibble carry of that
/// addition as the auxiliary carry and no carry.
proof fn lemma_adjusted_bcd_sum(x: u8, y: u8)
    requires
        is_packed_bcd(x),
        is_packed_bcd(y),
        x + y < 0xFA,
    ensures
        ({
            let r = x + y;
            let low = r % 16 > 9 || x % 16 + y % 16 >= 16;
            let a1 = if low {
                r + 6
            } else {
                r
            };
            let high = a1 / 16 > 9;
            let sum = bcd_value(x) + bcd_value(y);
            &&& high ==> (a1 + 0x60) % 256 == bcd_byte(sum % 100)
            &&& !high ==> a1 == bcd_byte(sum % 100)
            &&& (high && a1 + 0x60 >= 256) == (sum >= 100)
        }),
{
    let xh = x / 16;
    let xl = x % 16;
    let yh = y / 16;
    let yl = y % 16;
    let d = xl + yl;
    let h = xh + yh;
    let r = x + y;
    assert(r == 16 * h + d);
    assert(bcd_value(x) + bcd_value(y) == 10 * h + d);
    if d <= 9 {
        lemma_fundamental_div_mod_converse(r, 16, h, d);
        lemma_tens_adjust(h, d);
    } else if d <= 15 {
        lemma_fundamental_div_mod_converse(r, 16, h, d);
        assert(r + 6 == 16 * (h + 1) + (d - 10));
        lemma_tens_adjust(h + 1, d - 10);
    } else {
        lemma_fundamental_div_mod_converse(r, 16, h + 1, d - 16);
        assert(r + 6 == 16 * (h + 1) + (d - 10));
        lemma_tens_adjust(h + 1, d - 10);
    }
    let sum = 10 * h + d;
    assert(bcd_byte(sum % 100) == (((sum % 100) / 10) * 16 + (sum % 100) % 10) as u8);
}

/// `DCX` undoes `INX` on every register pair, including across the wrap
/// from 0xFFFF to 0x0000.
pub proof fn lemma_decrement_undoes_increment(s: CpuState, p: RegPair)
    ensures
        execute_model(execute_model(s, Instruction::Inx(p)), Instruction::Dcx(p)) == s,
{
    reveal(execute_model);
    let v = s.pair(p);
    let up = wrap16(v + 1);
    let t = s.with_pair(p, up);
    assert(t.pair(p) == up);
    assert(wrap16(up - 1) == v);
}

/// Setting the zero, sign or parity flag a second time from the same value
/// changes nothing: each setter writes its one flag as a function of the
/// value alone.
pub proof fn lemma_flag_setters_idempotent(s: CpuState, value: u8, result: u16)
    ensures
        s.with_zero_flag(value).with_zero_flag(value) == s.with_zero_flag(value),
        s.with_sign_flag(value).with_sign_flag(value) == s.with_sign_flag(value),
        s.with_parity_flag(result).with_parity_flag(result) == s.with_parity_flag(result),
{
}

proof fn lemma_step_add_b(s: CpuState)
    requires
        s.read(s.program_counter) == 0x80,
    ensures
        step_model(s).0 == alu_model(s, AluOp::Add, s.b).advanced(1),
{
    reveal(execute_model);
    assert(instruction_of(0x80) == Instruction::Alu(AluOp::Add, Operand::B));
}

proof fn lemma_step_daa(s: CpuState)
    requires
        s.read(s.program_counter) == 0x27,
    ensures
        step_model(s).0 == decimal_adjust_model(s).advanced(1),
{
    reveal(execute_model);
    assert(instruction_of(0x27) == Instruction::Daa);
}

/// Decimal addition: with two packed-BCD bytes in A and B, `ADD B` followed
/// by `DAA` leaves in A the packed-BCD form of the decimal sum modulo 100,
/// with carry set exactly when that sum reaches 100. This holds when the
/// binary sum of the two bytes is below 0xFA; from there on the first
/// adjustment wraps past 0xFF.
pub proof fn lemma_decimal_add(s: CpuState)
    requires
        is_packed_bcd(s.a),
        is_packed_bcd(s.b),
        s.a + s.b < 0xFA,
        s.read(s.program_counter) == 0x80,
        s.read(wrap16(s.program_counter + 1)) == 0x27,
    ensures
        ({
            let t = step_model(step_model(s).0).0;
            let sum = bcd_value(s.a) + bcd_value(s.b);
            t.a == bcd_byte(sum % 100) && t.carry == (sum >= 100)
        }),
{
    lemma_step_add_b(s);
    let s1 = step_model(s).0;
    lemma_step_daa(s1);
    lemma_aux_carry_of_sum(s.a, s.b);
    assert(s1.a == s.a + s.b);
    assert(s1.auxiliary_carry == (s.a % 16 + s.b % 16 >= 16));
    assert(!s1.carry);
    lemma_adjusted_bcd_sum(s.a, s.b);
}

} // verus!
