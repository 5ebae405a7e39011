use vstd::prelude::*;
use crate::cpu::{
    high_byte, join, low_byte, wrap16, wrap8, CpuState, I8080Core, StepInstructionResult,
};
use crate::decode::{decode, instruction_of, AluOp, Instruction, Operand, RegPair};
use crate::flags::{aux_carry_add, aux_carry_sub, carry_add, carry_rotate, carry_sub};

verus! {

impl CpuState {
    pub open spec fn read(self, addr: u16) -> u8 {
        self.memory[addr as int]
    }

    pub open spec fn write(self, addr: u16, value: u8) -> CpuState {
        CpuState { memory: self.memory.update(addr as int, value), ..self }
    }

    pub open spec fn hl(self) -> u16 {
        join(self.h, self.l)
    }

    pub open spec fn pair(self, p: RegPair) -> u16 {
        match p {
            RegPair::BC => join(self.b, self.c),
            RegPair::DE => join(self.d, self.e),
            RegPair::HL => join(self.h, self.l),
            RegPair::SP => self.stack_pointer,
        }
    }

    pub open spec fn with_pair(self, p: RegPair, value: u16) -> CpuState {
        match p {
            RegPair::BC => CpuState { b: high_byte(value), c: low_byte(value), ..self },
            RegPair::DE => CpuState { d: high_byte(value), e: low_byte(value), ..self },
            RegPair::HL => CpuState { h: high_byte(value), l: low_byte(value), ..self },
            RegPair::SP => CpuState { stack_pointer: value, ..self },
        }
    }

    pub open spec fn operand(self, r: Operand) -> u8 {
        match r {
            Operand::B => self.b,
            Operand::C => self.c,
            Operand::D => self.d,
            Operand::E => self.e,
            Operand::H => self.h,
            Operand::L => self.l,
            Operand::M => self.read(self.hl()),
            Operand::A => self.a,
        }
    }

    pub open spec fn with_operand(self, r: Operand, value: u8) -> CpuState {
        match r {
            Operand::B => CpuState { b: value, ..self },
            Operand::C => CpuState { c: value, ..self },
            Operand::D => CpuState { d: value, ..self },
            Operand::E => CpuState { e: value, ..self },
            Operand::H => CpuState { h: value, ..self },
            Operand::L => CpuState { l: value, ..self },
            Operand::M => self.write(self.hl(), value),
            Operand::A => CpuState { a: value, ..self },
        }
    }

    /// The byte after the opcode.
    pub open spec fn immediate8(self) -> u8 {
        self.read(wrap16(self.program_counter + 1))
    }

    /// The little-endian word after the opcode.
    pub open spec fn immediate16(self) -> u16 {
        join(
            self.read(wrap16(self.program_counter + 2)),
            self.read(wrap16(self.program_counter + 1)),
        )
    }

    /// Sign, zero and parity set from `value`.
    pub open spec fn with_result_flags(self, value: u8) -> CpuState {
        self.with_sign_flag(value).with_zero_flag(value).with_parity_flag(value as u16)
    }

    pub open spec fn advanced(self, n: u16) -> CpuState {
        CpuState { program_counter: wrap16(self.program_counter + n), ..self }
    }
}

/// `INR`: the operand plus one; carry is left alone, the auxiliary carry
/// tells whether the low nibble carried, i.e. whether the result's low
/// nibble is zero.
pub open spec fn increment_model(s: CpuState, r: Operand) -> CpuState {
    let v = wrap8(s.operand(r) + 1);
    CpuState { auxiliary_carry: v % 16 == 0, ..s.with_operand(r, v) }.with_result_flags(v)
}

/// `DCR`: the operand minus one; carry is left alone, the auxiliary carry is
/// that of adding 0xFF, set unless the result's low nibble is 0xF.
pub open spec fn decrement_model(s: CpuState, r: Operand) -> CpuState {
    let v = wrap8(s.operand(r) - 1);
    CpuState { auxiliary_carry: v % 16 != 15, ..s.with_operand(r, v) }.with_result_flags(v)
}

/// The accumulator takes `result`; both carries are set as given, and sign,
/// zero and parity follow the result.
pub open spec fn accumulate(s: CpuState, result: u8, aux: bool, carry: bool) -> CpuState {
    CpuState { a: result, auxiliary_carry: aux, carry: carry, ..s }.with_result_flags(result)
}

/// The carry flag as the number 0 or 1.
pub open spec fn carry_in(s: CpuState) -> int {
    if s.carry {
        1
    } else {
        0
    }
}

/// One accumulator operation with the 8-bit operand `v`. The carry-in of
/// `ADC` and `SBB` is folded into the second operand (modulo 256) before the
/// flag rules are applied.
pub open spec fn alu_model(s: CpuState, op: AluOp, v: u8) -> CpuState {
    let a = s.a;
    let folded = wrap8(v + carry_in(s));
    match op {
        AluOp::Add => accumulate(
            s,
            wrap8(a + v),
            aux_carry_add(a, v, wrap8(a + v)),
            carry_add((a + v) as u16),
        ),
        AluOp::Adc => accumulate(
            s,
            wrap8(a + v + carry_in(s)),
            aux_carry_add(a, folded, wrap8(a + v + carry_in(s))),
            carry_add((a + v + carry_in(s)) as u16),
        ),
        AluOp::Sub => accumulate(s, wrap8(a - v), aux_carry_sub(a, v), carry_sub(a, v)),
        AluOp::Sbb => accumulate(
            s,
            wrap8(a - v - carry_in(s)),
            aux_carry_sub(a, folded),
            carry_sub(a, folded),
        ),
        AluOp::Ana => accumulate(s, a & v, false, false),
        AluOp::Xra => accumulate(s, a ^ v, false, false),
        AluOp::Ora => accumulate(s, a | v, false, false),
        AluOp::Cmp => CpuState {
            a: a,
            ..accumulate(s, wrap8(a - v), aux_carry_sub(a, v), carry_sub(a, v))
        },
    }
}

/// `DAD`: HL plus a register pair modulo 65536; carry tells whether the sum
/// overflowed 16 bits. No other flag changes.
pub open spec fn add_to_hl_model(s: CpuState, p: RegPair) -> CpuState {
    let sum = s.hl() + s.pair(p);
    CpuState { carry: sum > 0xFFFF, ..s.with_pair(RegPair::HL, wrap16(sum)) }
}

/// `DAA`: first, if the low nibble exceeds 9 or the auxiliary carry is set,
/// add 6 and take the auxiliary carry of that addition; then, if the high
/// nibble of that result exceeds 9 or carry is set, add 0x60. Carry is bit 8
/// of the last sum formed (the accumulator itself if neither step applied).
pub open spec fn decimal_adjust_model(s: CpuState) -> CpuState {
    let a0 = s.a;
    let low = a0 % 16 > 9 || s.auxiliary_carry;
    let a1: u8 = if low {
        wrap8(a0 + 6)
    } else {
        a0
    };
    let aux = if low {
        aux_carry_add(a0, 6, a1)
    } else {
        s.auxiliary_carry
    };
    let high = a1 / 16 > 9 || s.carry;
    let wide: int = if high {
        a1 + 0x60
    } else if low {
        a0 + 6
    } else {
        a0 as int
    };
    let a2: u8 = if high {
        wrap8(a1 + 0x60)
    } else {
        a1
    };
    CpuState { a: a2, auxiliary_carry: aux, carry: carry_add(wide as u16), ..s }.with_result_flags(
        a2,
    )
}

/// What an instruction does to the registers, flags and memory; the program
/// counter is advanced separately. Immediates and embedded addresses are read
/// little-endian after the opcode, and a 16-bit address plus one wraps. The
/// left rotations take carry from bit 7 and the right ones from bit 0; `RLC`
/// and `RRC` rotate that bit back in, `RAL` and `RAR` rotate the previous
/// carry in.
#[verifier::opaque]
pub open spec fn execute_model(s: CpuState, i: Instruction) -> CpuState {
    let a = s.a;
    match i {
        Instruction::Lxi(p) => s.with_pair(p, s.immediate16()),
        Instruction::Stax(p) => s.write(s.pair(p), a),
        Instruction::Ldax(p) => CpuState { a: s.read(s.pair(p)), ..s },
        Instruction::Shld => s.write(s.immediate16(), s.l).write(
            wrap16(s.immediate16() + 1),
            s.h,
        ),
        Instruction::Lhld => CpuState {
            l: s.read(s.immediate16()),
            h: s.read(wrap16(s.immediate16() + 1)),
            ..s
        },
        Instruction::Sta => s.write(s.immediate16(), a),
        Instruction::Lda => CpuState { a: s.read(s.immediate16()), ..s },
        Instruction::Inx(p) => s.with_pair(p, wrap16(s.pair(p) + 1)),
        Instruction::Dcx(p) => s.with_pair(p, wrap16(s.pair(p) - 1)),
        Instruction::Dad(p) => add_to_hl_model(s, p),
        Instruction::Inr(r) => increment_model(s, r),
        Instruction::Dcr(r) => decrement_model(s, r),
        Instruction::Mvi(r) => s.with_operand(r, s.immediate8()),
        Instruction::Rlc => CpuState { a: wrap8(a * 2 + a / 128), carry: carry_rotate(a), ..s },
        Instruction::Rrc => CpuState { a: (a / 2 + (a % 2) * 128) as u8, carry: a % 2 == 1, ..s },
        Instruction::Ral => CpuState { a: wrap8(a * 2 + carry_in(s)), carry: carry_rotate(a), ..s },
        Instruction::Rar => CpuState {
            a: (a / 2 + carry_in(s) * 128) as u8,
            carry: a % 2 == 1,
            ..s
        },
        Instruction::Daa => decimal_adjust_model(s),
        Instruction::Cma => CpuState { a: (255 - a) as u8, ..s },
        Instruction::Stc => CpuState { carry: true, ..s },
        Instruction::Cmc => CpuState { carry: !s.carry, ..s },
        Instruction::Mov(dst, src) => s.with_operand(dst, s.operand(src)),
        Instruction::Alu(op, r) => alu_model(s, op, s.operand(r)),
        Instruction::Nop | Instruction::Halt | Instruction::Unimplemented => s,
    }
}

/// One fetch-decode-execute step: the new state and the outcome. `NOP` (and
/// the other `00yyy000` opcodes) and `HLT` only advance the program counter;
/// an opcode outside the modelled set changes nothing and is reported as
/// `NotKnownOpcode`.
pub open spec fn step_model(s: CpuState) -> (CpuState, StepInstructionResult) {
    let i = instruction_of(s.read(s.program_counter));
    match i {
        Instruction::Nop => (s.advanced(1), StepInstructionResult::NoOperation),
        Instruction::Halt => (s.advanced(1), StepInstructionResult::Halt),
        Instruction::Unimplemented => (s, StepInstructionResult::NotKnownOpcode),
        _ => (execute_model(s, i).advanced(i.encoded_length()), StepInstructionResult::Success),
    }
}

impl I8080Core {
    fn read_byte(&self, addr: u16) -> (r: u8)
        ensures
            r == self@.read(addr),
    {
        self.memory[addr as usize]
    }

    fn write_byte(&mut self, addr: u16, value: u8)
        ensures
            final(self)@ == old(self)@.write(addr, value),
    {
        self.memory[addr as usize] = value;
    }

    fn hl(&self) -> (r: u16)
        ensures
            r == self@.hl(),
    {
        self.h as u16 * 256 + self.l as u16
    }

    fn get_pair(&self, p: RegPair) -> (r: u16)
        ensures
            r == self@.pair(p),
    {
        match p {
            RegPair::BC => self.b as u16 * 256 + self.c as u16,
            RegPair::DE => self.d as u16 * 256 + self.e as u16,
            RegPair::HL => self.h as u16 * 256 + self.l as u16,
            RegPair::SP => self.stack_pointer,
        }
    }

    fn set_pair(&mut self, p: RegPair, value: u16)
        ensures
            final(self)@ == old(self)@.with_pair(p, value),
    {
        let high = (value / 256) as u8;
        let low = (value % 256) as u8;
        match p {
            RegPair::BC => {
                self.b = high;
                self.c = low;
            },
            RegPair::DE => {
                self.d = high;
                self.e = low;
            },
            RegPair::HL => {
                self.h = high;
                self.l = low;
            },
            RegPair::SP => {
                self.stack_pointer = value;
            },
        }
    }

    fn get_operand(&self, r: Operand) -> (v: u8)
        ensures
            v == self@.operand(r),
    {
        match r {
            Operand::B => self.b,
            Operand::C => self.c,
            Operand::D => self.d,
            Operand::E => self.e,
            Operand::H => self.h,
            Operand::L => self.l,
            Operand::M => self.read_byte(self.hl()),
            Operand::A => self.a,
        }
    }

    fn set_operand(&mut self, r: Operand, value: u8)
        ensures
            final(self)@ == old(self)@.with_operand(r, value),
    {
        match r {
            Operand::B => self.b = value,
            Operand::C => self.c = value,
            Operand::D => self.d = value,
            Operand::E => self.e = value,
            Operand::H => self.h = value,
            Operand::L => self.l = value,
            Operand::M => {
                let addr = self.hl();
                self.write_byte(addr, value);
            },
            Operand::A => self.a = value,
        }
    }

    fn immediate8(&self) -> (r: u8)
        ensures
            r == self@.immediate8(),
    {
        self.read_byte(self.program_counter.wrapping_add(1))
    }

    fn immediate16(&self) -> (r: u16)
        ensures
            r == self@.immediate16(),
    {
        let low = self.read_byte(self.program_counter.wrapping_add(1));
        let high = self.read_byte(self.program_counter.wrapping_add(2));
        high as u16 * 256 + low as u16
    }

    fn set_result_flags(&mut self, value: u8)
        ensures
            final(self)@ == old(self)@.with_result_flags(value),
    {
        self.set_sign_flag(value);
        self.set_zero_flag(value);
        self.set_parity_flag(value as u16);
    }

    fn advance(&mut self, n: u16)
        ensures
            final(self)@ == old(self)@.advanced(n),
    {
        self.program_counter = self.program_counter.wrapping_add(n);
    }
    /// `INR`: adds one to the operand; see [`increment_model`].
    fn increment(&mut self, r: Operand)
        ensures
            final(self)@ == increment_model(old(self)@, r),
    {
        let v = self.get_operand(r).wrapping_add(1);
        self.set_operand(r, v);
        self.auxiliary_carry = v % 16 == 0;
        self.set_result_flags(v);
    }

    /// `DCR`: subtracts one from the operand; see [`decrement_model`].
    fn decrement(&mut self, r: Operand)
        ensures
            final(self)@ == decrement_model(old(self)@, r),
    {
        let v = self.get_operand(r).wrapping_sub(1);
        self.set_operand(r, v);
        self.auxiliary_carry = v % 16 != 15;
        self.set_result_flags(v);
    }

    /// Accumulator plus `v` plus `carry_in`, with the auxiliary carry taken
    /// against `second`.
    fn add_to_accumulator(&mut self, v: u8, carry_in: u8, second: u8)
        requires
            carry_in <= 1,
        ensures
            final(self)@ == accumulate(
                old(self)@,
                wrap8(old(self).a + v + carry_in),
                aux_carry_add(old(self).a, second, wrap8(old(self).a + v + carry_in)),
                carry_add((old(self).a + v + carry_in) as u16),
            ),
    {
        let a = self.a;
        let sum: u16 = a as u16 + v as u16 + carry_in as u16;
        let result = (sum % 256) as u8;
        self.set_auxiliary_carry_addition_flag(a, second, result);
        self.set_carry_flag_arithmetic_addition(sum);
        self.a = result;
        self.set_result_flags(result);
    }

    /// Accumulator minus `second`, with the borrow rules of subtraction.
    fn subtract_from_accumulator(&mut self, second: u8)
        ensures
            final(self)@ == accumulate(
                old(self)@,
                wrap8(old(self).a - second),
                aux_carry_sub(old(self).a, second),
                carry_sub(old(self).a, second),
            ),
    {
        let a = self.a;
        let result = a.wrapping_sub(second);
        self.set_auxiliary_carry_subtraction_flag(a, second);
        self.set_carry_flag_arithmetic_subtraction(a, second);
        self.a = result;
        self.set_result_flags(result);
    }

    /// A logical result into the accumulator; both carries cleared.
    fn logical_result(&mut self, result: u8)
        ensures
            final(self)@ == accumulate(old(self)@, result, false, false),
    {
        self.a = result;
        self.auxiliary_carry = false;
        self.carry = false;
        self.set_result_flags(result);
    }

    /// One accumulator operation; see [`alu_model`].
    fn alu(&mut self, op: AluOp, v: u8)
        ensures
            final(self)@ == alu_model(old(self)@, op, v),
    {
        let a = self.a;
        let carry_in: u8 = if self.carry {
            1
        } else {
            0
        };
        let folded = v.wrapping_add(carry_in);
        match op {
            AluOp::Add => self.add_to_accumulator(v, 0, v),
            AluOp::Adc => self.add_to_accumulator(v, carry_in, folded),
            AluOp::Sub => self.subtract_from_accumulator(v),
            AluOp::Sbb => {
                assert(wrap8(a - v - carry_in) == wrap8(a - folded));
                self.subtract_from_accumulator(folded);
            },
            AluOp::Ana => self.logical_result(a & v),
            AluOp::Xra => self.logical_result(a ^ v),
            AluOp::Ora => self.logical_result(a | v),
            AluOp::Cmp => {
                self.subtract_from_accumulator(v);
                self.a = a;
            },
        }
    }

    /// `DAD`: adds a register pair to HL; see [`add_to_hl_model`].
    fn add_to_hl(&mut self, p: RegPair)
        ensures
            final(self)@ == add_to_hl_model(old(self)@, p),
    {
        let hl = self.hl();
        let sum = hl.wrapping_add(self.get_pair(p));
        self.carry = sum < hl;
        self.set_pair(RegPair::HL, sum);
    }

    /// `DAA`: decimal adjustment of the accumulator; see
    /// [`decimal_adjust_model`].
    fn decimal_adjust(&mut self)
        ensures
            final(self)@ == decimal_adjust_model(old(self)@),
    {
        let a0 = self.a;
        let mut wide: u16 = a0 as u16;
        if a0 % 16 > 9 || self.auxiliary_carry {
            wide = a0 as u16 + 6;
            let a1 = (wide % 256) as u8;
            self.set_auxiliary_carry_addition_flag(a0, 6, a1);
            self.a = a1;
        }
        if self.a / 16 > 9 || self.carry {
            wide = self.a as u16 + 0x60;
            self.a = (wide % 256) as u8;
        }
        self.set_carry_flag_arithmetic_addition(wide);
        let result = self.a;
        self.set_result_flags(result);
    }
    /// The data-transfer instructions: immediates, loads, stores and moves.
    fn transfer(&mut self, i: Instruction)
        requires
            i is Lxi || i is Stax || i is Ldax || i is Shld || i is Lhld || i is Sta || i is Lda
                || i is Mvi || i is Mov,
        ensures
            final(self)@ == execute_model(old(self)@, i),
    {
        proof {
            reveal(execute_model);
        }
        let a = self.a;
        match i {
            Instruction::Lxi(p) => {
                let v = self.immediate16();
                self.set_pair(p, v);
            },
            Instruction::Stax(p) => {
                let addr = self.get_pair(p);
                self.write_byte(addr, a);
            },
            Instruction::Ldax(p) => {
                let addr = self.get_pair(p);
                self.a = self.read_byte(addr);
            },
            Instruction::Shld => {
                let addr = self.immediate16();
                let (l, h) = (self.l, self.h);
                self.write_byte(addr, l);
                self.write_byte(addr.wrapping_add(1), h);
            },
            Instruction::Lhld => {
                let addr = self.immediate16();
                self.l = self.read_byte(addr);
                self.h = self.read_byte(addr.wrapping_add(1));
            },
            Instruction::Sta => {
                let addr = self.immediate16();
                self.write_byte(addr, a);
            },
            Instruction::Lda => {
                let addr = self.immediate16();
                self.a = self.read_byte(addr);
            },
            Instruction::Mvi(r) => {
                let v = self.immediate8();
                self.set_operand(r, v);
            },
            Instruction::Mov(dst, src) => {
                let v = self.get_operand(src);
                self.set_operand(dst, v);
            },
            _ => {},
        }
    }

    /// The rotations of the accumulator and the complement and carry
    /// instructions.
    fn rotate_or_complement(&mut self, i: Instruction)
        requires
            i is Rlc || i is Rrc || i is Ral || i is Rar || i is Cma || i is Stc || i is Cmc,
        ensures
            final(self)@ == execute_model(old(self)@, i),
    {
        proof {
            reveal(execute_model);
        }
        let a = self.a;
        let carry_in: u16 = if self.carry {
            1
        } else {
            0
        };
        match i {
            Instruction::Rlc => {
                self.set_carry_flag_rotate(a);
                self.a = ((a as u16 * 2 + a as u16 / 128) % 256) as u8;
            },
            Instruction::Rrc => {
                self.carry = a % 2 == 1;
                self.a = a / 2 + (a % 2) * 128;
            },
            Instruction::Ral => {
                self.set_carry_flag_rotate(a);
                self.a = ((a as u16 * 2 + carry_in) % 256) as u8;
            },
            Instruction::Rar => {
                self.carry = a % 2 == 1;
                self.a = (a as u16 / 2 + carry_in * 128) as u8;
            },
            Instruction::Cma => {
                assert(!a == 255 - a) by (bit_vector);
                self.a = !a;
            },
            Instruction::Stc => self.carry = true,
            Instruction::Cmc => self.carry = !self.carry,
            _ => {},
        }
    }

    /// Register-pair increment, decrement and addition into HL.
    fn pair_arithmetic(&mut self, i: Instruction)
        requires
            i is Inx || i is Dcx || i is Dad,
        ensures
            final(self)@ == execute_model(old(self)@, i),
    {
        proof {
            reveal(execute_model);
        }
        match i {
            Instruction::Inx(p) => {
                let v = self.get_pair(p).wrapping_add(1);
                assert(v == wrap16(self@.pair(p) + 1));
                self.set_pair(p, v);
            },
            Instruction::Dcx(p) => {
                let v = self.get_pair(p).wrapping_sub(1);
                assert(v == wrap16(self@.pair(p) - 1));
                self.set_pair(p, v);
            },
            Instruction::Dad(p) => self.add_to_hl(p),
            _ => {},
        }
    }

    /// The 8-bit arithmetic and logic: increments, decrements, accumulator
    /// operations and decimal adjustment.
    fn arithmetic(&mut self, i: Instruction)
        requires
            i is Inr || i is Dcr || i is Alu || i is Daa,
        ensures
            final(self)@ == execute_model(old(self)@, i),
    {
        proof {
            reveal(execute_model);
        }
        match i {
            Instruction::Inr(r) => self.increment(r),
            Instruction::Dcr(r) => self.decrement(r),
            Instruction::Daa => self.decimal_adjust(),
            Instruction::Alu(op, r) => {
                let v = self.get_operand(r);
                self.alu(op, v);
            },
            _ => {},
        }
    }

    /// Carries out a decoded instruction, leaving the program counter alone;
    /// see [`execute_model`].
    fn execute(&mut self, i: Instruction)
        ensures
            final(self)@ == execute_model(old(self)@, i),
    {
        match i {
            Instruction::Lxi(_) | Instruction::Stax(_) | Instruction::Ldax(_) | Instruction::Shld
            | Instruction::Lhld | Instruction::Sta | Instruction::Lda | Instruction::Mvi(_)
            | Instruction::Mov(_, _) => self.transfer(i),
            Instruction::Inx(_) | Instruction::Dcx(_) | Instruction::Dad(_) => self.pair_arithmetic(
                i,
            ),
            Instruction::Inr(_) | Instruction::Dcr(_) | Instruction::Alu(_, _)
            | Instruction::Daa => self.arithmetic(i),
            Instruction::Rlc | Instruction::Rrc | Instruction::Ral | Instruction::Rar
            | Instruction::Cma | Instruction::Stc | Instruction::Cmc => self.rotate_or_complement(i),
            Instruction::Nop | Instruction::Halt | Instruction::Unimplemented => {
                proof {
                    reveal(execute_model);
                }
            },
        }
    }

    /// Executes the instruction at the program counter and advances the
    /// counter past it (modulo 65536). The new state and the outcome are those
    /// of [`step_model`]: every documented opcode of the `00`, `01` and `10`
    /// blocks is carried out; an opcode of the `11` block is not modelled and
    /// leaves the state untouched with `NotKnownOpcode`. No opcode panics.
    pub fn i8080_step(&mut self) -> (r: StepInstructionResult)
        ensures
            (final(self)@, r) == step_model(old(self)@),
    {
        let opcode = self.read_byte(self.program_counter);
        let instruction = decode(opcode);
        match instruction {
            Instruction::Nop => {
                self.advance(1);
                StepInstructionResult::NoOperation
            },
            Instruction::Halt => {
                self.advance(1);
                StepInstructionResult::Halt
            },
            Instruction::Unimplemented => StepInstructionResult::NotKnownOpcode,
            _ => {
                self.execute(instruction);
                self.advance(instruction.length());
                StepInstructionResult::Success
            },
        }
    }
}

} // verus!
