use vstd::prelude::*;
use crate::flags::{
    aux_carry_add, aux_carry_sub, carry_add, carry_rotate, carry_sub, ones, parity_of, sign_of,
    zero_of,
};

verus! {

/// Number of bytes in the address space.
pub const MEMORY_SIZE: usize = 65536;

/// Outcome of copying a program image into memory.
#[derive(Debug, Clone, Copy, PartialEq, Eq, Structural)]
pub enum LoadRomResult {
    Success,
    Error,
    NotFound,
}

/// Outcome of executing one instruction.
#[derive(Debug, Clone, Copy, PartialEq, Eq, Structural)]
pub enum StepInstructionResult {
    Success,
    Error,
    NotKnownOpcode,
    NoOperation,
    Halt,
}

/// The mathematical state of a processor: memory as a sequence of bytes and
/// every register and flag as a plain value.
pub ghost struct CpuState {
    pub memory: Seq<u8>,
    pub a: u8,
    pub b: u8,
    pub c: u8,
    pub d: u8,
    pub e: u8,
    pub h: u8,
    pub l: u8,
    pub program_counter: u16,
    pub stack_pointer: u16,
    pub sign: bool,
    pub zero: bool,
    pub auxiliary_carry: bool,
    pub parity: bool,
    pub carry: bool,
}

/// An integer reduced modulo 65536, as 16-bit arithmetic wraps.
pub open spec fn wrap16(v: int) -> u16 {
    (v % 0x10000) as u16
}

/// An integer reduced modulo 256, as 8-bit arithmetic wraps.
pub open spec fn wrap8(v: int) -> u8 {
    (v % 0x100) as u8
}

/// The 16-bit value whose high byte is `high` and low byte is `low`.
pub open spec fn join(high: u8, low: u8) -> u16 {
    (high * 256 + low) as u16
}

/// The high byte of a 16-bit value.
pub open spec fn high_byte(v: u16) -> u8 {
    (v / 256) as u8
}

/// The low byte of a 16-bit value.
pub open spec fn low_byte(v: u16) -> u8 {
    (v % 256) as u8
}

impl CpuState {
    /// A fresh processor: zeroed memory, registers and flags.
    pub open spec fn initial() -> CpuState {
        CpuState {
            memory: Seq::new(MEMORY_SIZE as nat, |i: int| 0u8),
            a: 0,
            b: 0,
            c: 0,
            d: 0,
            e: 0,
            h: 0,
            l: 0,
            program_counter: 0,
            stack_pointer: 0,
            sign: false,
            zero: false,
            auxiliary_carry: false,
            parity: false,
            carry: false,
        }
    }

    /// Only the zero flag changes, to [`zero_of`] of `value`.
    pub open spec fn with_zero_flag(self, value: u8) -> CpuState {
        CpuState { zero: zero_of(value), ..self }
    }

    /// Only the sign flag changes, to [`sign_of`] of `value`.
    pub open spec fn with_sign_flag(self, value: u8) -> CpuState {
        CpuState { sign: sign_of(value), ..self }
    }

    /// Only the parity flag changes, to [`parity_of`] of `value`.
    pub open spec fn with_parity_flag(self, value: u16) -> CpuState {
        CpuState { parity: parity_of(value), ..self }
    }

    /// Only the auxiliary carry changes, to [`aux_carry_add`] of the
    /// operands and result.
    pub open spec fn with_aux_carry_add(self, first: u8, second: u8, result: u8) -> CpuState {
        CpuState { auxiliary_carry: aux_carry_add(first, second, result), ..self }
    }

    /// Only the auxiliary carry changes, to [`aux_carry_sub`] of the
    /// operands.
    pub open spec fn with_aux_carry_sub(self, first: u8, second: u8) -> CpuState {
        CpuState { auxiliary_carry: aux_carry_sub(first, second), ..self }
    }

    /// Only the carry changes, to [`carry_rotate`] of `value`.
    pub open spec fn with_carry_rotate(self, value: u8) -> CpuState {
        CpuState { carry: carry_rotate(value), ..self }
    }

    /// Only the carry changes, to [`carry_add`] of `sum`.
    pub open spec fn with_carry_add(self, sum: u16) -> CpuState {
        CpuState { carry: carry_add(sum), ..self }
    }

    /// Only the carry changes, to [`carry_sub`] of the operands.
    pub open spec fn with_carry_sub(self, first: u8, second: u8) -> CpuState {
        CpuState { carry: carry_sub(first, second), ..self }
    }
}

/// An 8080-class processor: 64 KiB of memory, seven 8-bit registers, stack
/// pointer, program counter and five status flags.
pub struct I8080Core {
    pub memory: [u8; MEMORY_SIZE],
    pub a: u8,
    pub b: u8,
    pub c: u8,
    pub d: u8,
    pub e: u8,
    pub h: u8,
    pub l: u8,
    pub program_counter: u16,
    pub stack_pointer: u16,
    pub sign: bool,
    pub zero: bool,
    pub auxiliary_carry: bool,
    pub parity: bool,
    pub carry: bool,
}

impl View for I8080Core {
    type V = CpuState;

    open spec fn view(&self) -> CpuState {
        CpuState {
            memory: self.memory@,
            a: self.a,
            b: self.b,
            c: self.c,
            d: self.d,
            e: self.e,
            h: self.h,
            l: self.l,
            program_counter: self.program_counter,
            stack_pointer: self.stack_pointer,
            sign: self.sign,
            zero: self.zero,
            auxiliary_carry: self.auxiliary_carry,
            parity: self.parity,
            carry: self.carry,
        }
    }
}

impl I8080Core {
    /// A processor with every byte of memory, every register and every flag
    /// zero.
    pub fn new() -> (r: I8080Core)
        ensures
            r@ == CpuState::initial(),
    {
        let r = I8080Core {
            memory: [0u8; MEMORY_SIZE],
            a: 0,
            b: 0,
            c: 0,
            d: 0,
            e: 0,
            h: 0,
            l: 0,
            program_counter: 0,
            stack_pointer: 0,
            sign: false,
            zero: false,
            auxiliary_carry: false,
            parity: false,
            carry: false,
        };
        assert(r.memory@ =~= CpuState::initial().memory);
        r
    }

    /// Sets the zero flag from `value`; nothing else changes.
    pub fn set_zero_flag(&mut self, value: u8)
        ensures
            final(self)@ == old(self)@.with_zero_flag(value),
    {
        self.zero = value == 0;
    }

    /// Sets the sign flag from bit 7 of `value`; nothing else changes.
    pub fn set_sign_flag(&mut self, value: u8)
        ensures
            final(self)@ == old(self)@.with_sign_flag(value),
    {
        self.sign = (value / 128) == 1;
    }

    /// Sets the auxiliary carry flag from the operands and result of an
    /// addition; nothing else changes.
    pub fn set_auxiliary_carry_addition_flag(&mut self, first: u8, second: u8, result: u8)
        ensures
            final(self)@ == old(self)@.with_aux_carry_add(first, second, result),
    {
        self.auxiliary_carry = ((first ^ second ^ result) & 0x10) != 0;
    }

    /// Sets the auxiliary carry flag when the low nibble of `first` is below
    /// that of `second`; nothing else changes.
    pub fn set_auxiliary_carry_subtraction_flag(&mut self, first: u8, second: u8)
        ensures
            final(self)@ == old(self)@.with_aux_carry_sub(first, second),
    {
        self.auxiliary_carry = (first % 16) < (second % 16);
    }

    /// Sets the parity flag when the low eight bits of `result` hold an even
    /// number of ones; nothing else changes.
    pub fn set_parity_flag(&mut self, result: u16)
        ensures
            final(self)@ == old(self)@.with_parity_flag(result),
    {
        let low_eight: u16 = result % 256;
        let mut rest: u16 = low_eight;
        let mut count: u16 = 0;
        let mut i: u16 = 0;
        while i < 8
            invariant
                i <= 8,
                count <= i,
                count + ones(rest as nat, (8 - i) as nat) == ones(low_eight as nat, 8),
            decreases 8 - i,
        {
            if rest % 2 == 1 {
                count = count + 1;
            }
            rest = rest / 2;
            i = i + 1;
        }
        self.parity = (count % 2) == 0;
    }

    /// Sets the carry flag from bit 7 of `value`; nothing else changes.
    pub fn set_carry_flag_rotate(&mut self, value: u8)
        ensures
            final(self)@ == old(self)@.with_carry_rotate(value),
    {
        self.carry = value >= 0x80;
    }

    /// Sets the carry flag from bit 8 of a 16-bit sum; nothing else changes.
    pub fn set_carry_flag_arithmetic_addition(&mut self, value: u16)
        ensures
            final(self)@ == old(self)@.with_carry_add(value),
    {
        self.carry = (value / 256) % 2 == 1;
    }

    /// Sets the carry flag when `first < second`; nothing else changes.
    pub fn set_carry_flag_arithmetic_subtraction(&mut self, first: u8, second: u8)
        ensures
            final(self)@ == old(self)@.with_carry_sub(first, second),
    {
        self.carry = first < second;
    }
    /// Copies a program image into memory from address 0. An image longer
    /// than memory is refused with `Error` and nothing changes; otherwise
    /// memory begins with the image, the bytes after it and every register and
    /// flag stay as they were, and the result is `Success`.
    pub fn i8080_load_rom(&mut self, image: &[u8]) -> (r: LoadRomResult)
        ensures
            image@.len() > MEMORY_SIZE ==> r == LoadRomResult::Error && final(self)@ == old(
                self,
            )@,
            image@.len() <= MEMORY_SIZE ==> r == LoadRomResult::Success && final(self)@ == (
            CpuState { memory: image@ + old(self)@.memory.skip(image@.len() as int), ..old(self)@ }),
    {
        if image.len() > MEMORY_SIZE {
            return LoadRomResult::Error;
        }
        let mut i: usize = 0;
        while i < image.len()
            invariant
                i <= image@.len() <= MEMORY_SIZE,
                self@.memory =~= image@.take(i as int) + old(self)@.memory.skip(i as int),
                self@ == (CpuState { memory: self@.memory, ..old(self)@ }),
            decreases image@.len() - i,
        {
            self.memory[i] = image[i];
            i = i + 1;
        }
        assert(image@.take(i as int) =~= image@);
        LoadRomResult::Success
    }
}

} // verus!
