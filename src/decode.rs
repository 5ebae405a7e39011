use vstd::prelude::*;

verus! {

/// An 8-bit operand named by a 3-bit field of an opcode: a register, or `M`,
/// the memory byte that HL points to.
#[derive(Debug, Clone, Copy, PartialEq, Eq, Structural)]
pub enum Operand {
    B,
    C,
    D,
    E,
    H,
    L,
    M,
    A,
}

/// A 16-bit register pair named by a 2-bit field of an opcode.
#[derive(Debug, Clone, Copy, PartialEq, Eq, Structural)]
pub enum RegPair {
    BC,
    DE,
    HL,
    SP,
}

/// The eight accumulator operations of the `10ooosss` opcode block.
#[derive(Debug, Clone, Copy, PartialEq, Eq, Structural)]
pub enum AluOp {
    Add,
    Adc,
    Sub,
    Sbb,
    Ana,
    Xra,
    Ora,
    Cmp,
}

/// A decoded instruction.
#[derive(Debug, Clone, Copy, PartialEq, Eq, Structural)]
pub enum Instruction {
    Nop,
    Lxi(RegPair),
    Stax(RegPair),
    Ldax(RegPair),
    Shld,
    Lhld,
    Sta,
    Lda,
    Inx(RegPair),
    Dcx(RegPair),
    Dad(RegPair),
    Inr(Operand),
    Dcr(Operand),
    Mvi(Operand),
    Rlc,
    Rrc,
    Ral,
    Rar,
    Daa,
    Cma,
    Stc,
    Cmc,
    Mov(Operand, Operand),
    Halt,
    Alu(AluOp, Operand),
    /// Stack, call/return, jump, input/output and interrupt opcodes: not
    /// modelled.
    Unimplemented,
}

pub open spec fn operand_of(code: int) -> Operand {
    if code == 0 {
        Operand::B
    } else if code == 1 {
        Operand::C
    } else if code == 2 {
        Operand::D
    } else if code == 3 {
        Operand::E
    } else if code == 4 {
        Operand::H
    } else if code == 5 {
        Operand::L
    } else if code == 6 {
        Operand::M
    } else {
        Operand::A
    }
}

pub open spec fn pair_of(code: int) -> RegPair {
    if code == 0 {
        RegPair::BC
    } else if code == 1 {
        RegPair::DE
    } else if code == 2 {
        RegPair::HL
    } else {
        RegPair::SP
    }
}

pub open spec fn alu_op_of(code: int) -> AluOp {
    if code == 0 {
        AluOp::Add
    } else if code == 1 {
        AluOp::Adc
    } else if code == 2 {
        AluOp::Sub
    } else if code == 3 {
        AluOp::Sbb
    } else if code == 4 {
        AluOp::Ana
    } else if code == 5 {
        AluOp::Xra
    } else if code == 6 {
        AluOp::Ora
    } else {
        AluOp::Cmp
    }
}

/// The instruction an opcode encodes, read from its bit fields
/// `xx yyy zzz` (with `yyy` split as `pp q`).
pub open spec fn instruction_of(opcode: u8) -> Instruction {
    let x = opcode as int / 64;
    let y = (opcode as int / 8) % 8;
    let z = opcode as int % 8;
    let p = y / 2;
    let q = y % 2;
    if x == 1 {
        if opcode == 0x76 {
            Instruction::Halt
        } else {
            Instruction::Mov(operand_of(y), operand_of(z))
        }
    } else if x == 2 {
        Instruction::Alu(alu_op_of(y), operand_of(z))
    } else if x == 3 {
        Instruction::Unimplemented
    } else if z == 0 {
        Instruction::Nop
    } else if z == 1 {
        if q == 0 {
            Instruction::Lxi(pair_of(p))
        } else {
            Instruction::Dad(pair_of(p))
        }
    } else if z == 2 {
        if p < 2 {
            if q == 0 {
                Instruction::Stax(pair_of(p))
            } else {
                Instruction::Ldax(pair_of(p))
            }
        } else if p == 2 {
            if q == 0 {
                Instruction::Shld
            } else {
                Instruction::Lhld
            }
        } else if q == 0 {
            Instruction::Sta
        } else {
            Instruction::Lda
        }
    } else if z == 3 {
        if q == 0 {
            Instruction::Inx(pair_of(p))
        } else {
            Instruction::Dcx(pair_of(p))
        }
    } else if z == 4 {
        Instruction::Inr(operand_of(y))
    } else if z == 5 {
        Instruction::Dcr(operand_of(y))
    } else if z == 6 {
        Instruction::Mvi(operand_of(y))
    } else if y == 0 {
        Instruction::Rlc
    } else if y == 1 {
        Instruction::Rrc
    } else if y == 2 {
        Instruction::Ral
    } else if y == 3 {
        Instruction::Rar
    } else if y == 4 {
        Instruction::Daa
    } else if y == 5 {
        Instruction::Cma
    } else if y == 6 {
        Instruction::Stc
    } else {
        Instruction::Cmc
    }
}

impl Instruction {
    /// Bytes the instruction occupies: the opcode and its operands. An
    /// unimplemented opcode is not consumed.
    pub open spec fn encoded_length(self) -> u16 {
        match self {
            Instruction::Lxi(_) | Instruction::Shld | Instruction::Lhld | Instruction::Sta
            | Instruction::Lda => 3,
            Instruction::Mvi(_) => 2,
            Instruction::Unimplemented => 0,
            _ => 1,
        }
    }

    pub fn length(&self) -> (n: u16)
        ensures
            n == self.encoded_length(),
    {
        match self {
            Instruction::Lxi(_) | Instruction::Shld | Instruction::Lhld | Instruction::Sta
            | Instruction::Lda => 3,
            Instruction::Mvi(_) => 2,
            Instruction::Unimplemented => 0,
            _ => 1,
        }
    }
}

/// The opcode table: one entry for each of the 256 opcodes, each checked
/// against the bit-field reading of the instruction set.
pub fn decode(opcode: u8) -> (r: Instruction)
    ensures
        r == instruction_of(opcode),
{
    match opcode {
        0x00 => Instruction::Nop,
        0x01 => Instruction::Lxi(RegPair::BC),
        0x02 => Instruction::Stax(RegPair::BC),
        0x03 => Instruction::Inx(RegPair::BC),
        0x04 => Instruction::Inr(Operand::B),
        0x05 => Instruction::Dcr(Operand::B),
        0x06 => Instruction::Mvi(Operand::B),
        0x07 => Instruction::Rlc,
        0x08 => Instruction::Nop,
        0x09 => Instruction::Dad(RegPair::BC),
        0x0A => Instruction::Ldax(RegPair::BC),
        0x0B => Instruction::Dcx(RegPair::BC),
        0x0C => Instruction::Inr(Operand::C),
        0x0D => Instruction::Dcr(Operand::C),
        0x0E => Instruction::Mvi(Operand::C),
        0x0F => Instruction::Rrc,
        0x10 => Instruction::Nop,
        0x11 => Instruction::Lxi(RegPair::DE),
        0x12 => Instruction::Stax(RegPair::DE),
        0x13 => Instruction::Inx(RegPair::DE),
        0x14 => Instruction::Inr(Operand::D),
        0x15 => Instruction::Dcr(Operand::D),
        0x16 => Instruction::Mvi(Operand::D),
        0x17 => Instruction::Ral,
        0x18 => Instruction::Nop,
        0x19 => Instruction::Dad(RegPair::DE),
        0x1A => Instruction::Ldax(RegPair::DE),
        0x1B => Instruction::Dcx(RegPair::DE),
        0x1C => Instruction::Inr(Operand::E),
        0x1D => Instruction::Dcr(Operand::E),
        0x1E => Instruction::Mvi(Operand::E),
        0x1F => Instruction::Rar,
        0x20 => Instruction::Nop,
        0x21 => Instruction::Lxi(RegPair::HL),
        0x22 => Instruction::Shld,
        0x23 => Instruction::Inx(RegPair::HL),
        0x24 => Instruction::Inr(Operand::H),
        0x25 => Instruction::Dcr(Operand::H),
        0x26 => Instruction::Mvi(Operand::H),
        0x27 => Instruction::Daa,
        0x28 => Instruction::Nop,
        0x29 => Instruction::Dad(RegPair::HL),
        0x2A => Instruction::Lhld,
        0x2B => Instruction::Dcx(RegPair::HL),
        0x2C => Instruction::Inr(Operand::L),
        0x2D => Instruction::Dcr(Operand::L),
        0x2E => Instruction::Mvi(Operand::L),
        0x2F => Instruction::Cma,
        0x30 => Instruction::Nop,
        0x31 => Instruction::Lxi(RegPair::SP),
        0x32 => Instruction::Sta,
        0x33 => Instruction::Inx(RegPair::SP),
        0x34 => Instruction::Inr(Operand::M),
        0x35 => Instruction::Dcr(Operand::M),
        0x36 => Instruction::Mvi(Operand::M),
        0x37 => Instruction::Stc,
        0x38 => Instruction::Nop,
        0x39 => Instruction::Dad(RegPair::SP),
        0x3A => Instruction::Lda,
        0x3B => Instruction::Dcx(RegPair::SP),
        0x3C => Instruction::Inr(Operand::A),
        0x3D => Instruction::Dcr(Operand::A),
        0x3E => Instruction::Mvi(Operand::A),
        0x3F => Instruction::Cmc,
        0x40 => Instruction::Mov(Operand::B, Operand::B),
        0x41 => Instruction::Mov(Operand::B, Operand::C),
        0x42 => Instruction::Mov(Operand::B, Operand::D),
        0x43 => Instruction::Mov(Operand::B, Operand::E),
        0x44 => Instruction::Mov(Operand::B, Operand::H),
        0x45 => Instruction::Mov(Operand::B, Operand::L),
        0x46 => Instruction::Mov(Operand::B, Operand::M),
        0x47 => Instruction::Mov(Operand::B, Operand::A),
        0x48 => Instruction::Mov(Operand::C, Operand::B),
        0x49 => Instruction::Mov(Operand::C, Operand::C),
        0x4A => Instruction::Mov(Operand::C, Operand::D),
        0x4B => Instruction::Mov(Operand::C, Operand::E),
        0x4C => Instruction::Mov(Operand::C, Operand::H),
        0x4D => Instruction::Mov(Operand::C, Operand::L),
        0x4E => Instruction::Mov(Operand::C, Operand::M),
        0x4F => Instruction::Mov(Operand::C, Operand::A),
        0x50 => Instruction::Mov(Operand::D, Operand::B),
        0x51 => Instruction::Mov(Operand::D, Operand::C),
        0x52 => Instruction::Mov(Operand::D, Operand::D),
        0x53 => Instruction::Mov(Operand::D, Operand::E),
        0x54 => Instruction::Mov(Operand::D, Operand::H),
        0x55 => Instruction::Mov(Operand::D, Operand::L),
        0x56 => Instruction::Mov(Operand::D, Operand::M),
        0x57 => Instruction::Mov(Operand::D, Operand::A),
        0x58 => Instruction::Mov(Operand::E, Operand::B),
        0x59 => Instruction::Mov(Operand::E, Operand::C),
        0x5A => Instruction::Mov(Operand::E, Operand::D),
        0x5B => Instruction::Mov(Operand::E, Operand::E),
        0x5C => Instruction::Mov(Operand::E, Operand::H),
        0x5D => Instruction::Mov(Operand::E, Operand::L),
        0x5E => Instruction::Mov(Operand::E, Operand::M),
        0x5F => Instruction::Mov(Operand::E, Operand::A),
        0x60 => Instruction::Mov(Operand::H, Operand::B),
        0x61 => Instruction::Mov(Operand::H, Operand::C),
        0x62 => Instruction::Mov(Operand::H, Operand::D),
        0x63 => Instruction::Mov(Operand::H, Operand::E),
        0x64 => Instruction::Mov(Operand::H, Operand::H),
        0x65 => Instruction::Mov(Operand::H, Operand::L),
        0x66 => Instruction::Mov(Operand::H, Operand::M),
        0x67 => Instruction::Mov(Operand::H, Operand::A),
        0x68 => Instruction::Mov(Operand::L, Operand::B),
        0x69 => Instruction::Mov(Operand::L, Operand::C),
        0x6A => Instruction::Mov(Operand::L, Operand::D),
        0x6B => Instruction::Mov(Operand::L, Operand::E),
        0x6C => Instruction::Mov(Operand::L, Operand::H),
        0x6D => Instruction::Mov(Operand::L, Operand::L),
        0x6E => Instruction::Mov(Operand::L, Operand::M),
        0x6F => Instruction::Mov(Operand::L, Operand::A),
        0x70 => Instruction::Mov(Operand::M, Operand::B),
        0x71 => Instruction::Mov(Operand::M, Operand::C),
        0x72 => Instruction::Mov(Operand::M, Operand::D),
        0x73 => Instruction::Mov(Operand::M, Operand::E),
        0x74 => Instruction::Mov(Operand::M, Operand::H),
        0x75 => Instruction::Mov(Operand::M, Operand::L),
        0x76 => Instruction::Halt,
        0x77 => Instruction::Mov(Operand::M, Operand::A),
        0x78 => Instruction::Mov(Operand::A, Operand::B),
        0x79 => Instruction::Mov(Operand::A, Operand::C),
        0x7A => Instruction::Mov(Operand::A, Operand::D),
        0x7B => Instruction::Mov(Operand::A, Operand::E),
        0x7C => Instruction::Mov(Operand::A, Operand::H),
        0x7D => Instruction::Mov(Operand::A, Operand::L),
        0x7E => Instruction::Mov(Operand::A, Operand::M),
        0x7F => Instruction::Mov(Operand::A, Operand::A),
        0x80 => Instruction::Alu(AluOp::Add, Operand::B),
        0x81 => Instruction::Alu(AluOp::Add, Operand::C),
        0x82 => Instruction::Alu(AluOp::Add, Operand::D),
        0x83 => Instruction::Alu(AluOp::Add, Operand::E),
        0x84 => Instruction::Alu(AluOp::Add, Operand::H),
        0x85 => Instruction::Alu(AluOp::Add, Operand::L),
        0x86 => Instruction::Alu(AluOp::Add, Operand::M),
        0x87 => Instruction::Alu(AluOp::Add, Operand::A),
        0x88 => Instruction::Alu(AluOp::Adc, Operand::B),
        0x89 => Instruction::Alu(AluOp::Adc, Operand::C),
        0x8A => Instruction::Alu(AluOp::Adc, Operand::D),
        0x8B => Instruction::Alu(AluOp::Adc, Operand::E),
        0x8C => Instruction::Alu(AluOp::Adc, Operand::H),
        0x8D => Instruction::Alu(AluOp::Adc, Operand::L),
        0x8E => Instruction::Alu(AluOp::Adc, Operand::M),
        0x8F => Instruction::Alu(AluOp::Adc, Operand::A),
        0x90 => Instruction::Alu(AluOp::Sub, Operand::B),
        0x91 => Instruction::Alu(AluOp::Sub, Operand::C),
        0x92 => Instruction::Alu(AluOp::Sub, Operand::D),
        0x93 => Instruction::Alu(AluOp::Sub, Operand::E),
        0x94 => Instruction::Alu(AluOp::Sub, Operand::H),
        0x95 => Instruction::Alu(AluOp::Sub, Operand::L),
        0x96 => Instruction::Alu(AluOp::Sub, Operand::M),
        0x97 => Instruction::Alu(AluOp::Sub, Operand::A),
        0x98 => Instruction::Alu(AluOp::Sbb, Operand::B),
        0x99 => Instruction::Alu(AluOp::Sbb, Operand::C),
        0x9A => Instruction::Alu(AluOp::Sbb, Operand::D),
        0x9B => Instruction::Alu(AluOp::Sbb, Operand::E),
        0x9C => Instruction::Alu(AluOp::Sbb, Operand::H),
        0x9D => Instruction::Alu(AluOp::Sbb, Operand::L),
        0x9E => Instruction::Alu(AluOp::Sbb, Operand::M),
        0x9F => Instruction::Alu(AluOp::Sbb, Operand::A),
        0xA0 => Instruction::Alu(AluOp::Ana, Operand::B),
        0xA1 => Instruction::Alu(AluOp::Ana, Operand::C),
        0xA2 => Instruction::Alu(AluOp::Ana, Operand::D),
        0xA3 => Instruction::Alu(AluOp::Ana, Operand::E),
        0xA4 => Instruction::Alu(AluOp::Ana, Operand::H),
        0xA5 => Instruction::Alu(AluOp::Ana, Operand::L),
        0xA6 => Instruction::Alu(AluOp::Ana, Operand::M),
        0xA7 => Instruction::Alu(AluOp::Ana, Operand::A),
        0xA8 => Instruction::Alu(AluOp::Xra, Operand::B),
        0xA9 => Instruction::Alu(AluOp::Xra, Operand::C),
        0xAA => Instruction::Alu(AluOp::Xra, Operand::D),
        0xAB => Instruction::Alu(AluOp::Xra, Operand::E),
        0xAC => Instruction::Alu(AluOp::Xra, Operand::H),
        0xAD => Instruction::Alu(AluOp::Xra, Operand::L),
        0xAE => Instruction::Alu(AluOp::Xra, Operand::M),
        0xAF => Instruction::Alu(AluOp::Xra, Operand::A),
        0xB0 => Instruction::Alu(AluOp::Ora, Operand::B),
        0xB1 => Instruction::Alu(AluOp::Ora, Operand::C),
        0xB2 => Instruction::Alu(AluOp::Ora, Operand::D),
        0xB3 => Instruction::Alu(AluOp::Ora, Operand::E),
        0xB4 => Instruction::Alu(AluOp::Ora, Operand::H),
        0xB5 => Instruction::Alu(AluOp::Ora, Operand::L),
        0xB6 => Instruction::Alu(AluOp::Ora, Operand::M),
        0xB7 => Instruction::Alu(AluOp::Ora, Operand::A),
        0xB8 => Instruction::Alu(AluOp::Cmp, Operand::B),
        0xB9 => Instruction::Alu(AluOp::Cmp, Operand::C),
        0xBA => Instruction::Alu(AluOp::Cmp, Operand::D),
        0xBB => Instruction::Alu(AluOp::Cmp, Operand::E),
        0xBC => Instruction::Alu(AluOp::Cmp, Operand::H),
        0xBD => Instruction::Alu(AluOp::Cmp, Operand::L),
        0xBE => Instruction::Alu(AluOp::Cmp, Operand::M),
        0xBF => Instruction::Alu(AluOp::Cmp, Operand::A),
        0xC0 => Instruction::Unimplemented,
        0xC1 => Instruction::Unimplemented,
        0xC2 => Instruction::Unimplemented,
        0xC3 => Instruction::Unimplemented,
        0xC4 => Instruction::Unimplemented,
        0xC5 => Instruction::Unimplemented,
        0xC6 => Instruction::Unimplemented,
        0xC7 => Instruction::Unimplemented,
        0xC8 => Instruction::Unimplemented,
        0xC9 => Instruction::Unimplemented,
        0xCA => Instruction::Unimplemented,
        0xCB => Instruction::Unimplemented,
        0xCC => Instruction::Unimplemented,
        0xCD => Instruction::Unimplemented,
        0xCE => Instruction::Unimplemented,
        0xCF => Instruction::Unimplemented,
        0xD0 => Instruction::Unimplemented,
        0xD1 => Instruction::Unimplemented,
        0xD2 => Instruction::Unimplemented,
        0xD3 => Instruction::Unimplemented,
        0xD4 => Instruction::Unimplemented,
        0xD5 => Instruction::Unimplemented,
        0xD6 => Instruction::Unimplemented,
        0xD7 => Instruction::Unimplemented,
        0xD8 => Instruction::Unimplemented,
        0xD9 => Instruction::Unimplemented,
        0xDA => Instruction::Unimplemented,
        0xDB => Instruction::Unimplemented,
        0xDC => Instruction::Unimplemented,
        0xDD => Instruction::Unimplemented,
        0xDE => Instruction::Unimplemented,
        0xDF => Instruction::Unimplemented,
        0xE0 => Instruction::Unimplemented,
        0xE1 => Instruction::Unimplemented,
        0xE2 => Instruction::Unimplemented,
        0xE3 => Instruction::Unimplemented,
        0xE4 => Instruction::Unimplemented,
        0xE5 => Instruction::Unimplemented,
        0xE6 => Instruction::Unimplemented,
        0xE7 => Instruction::Unimplemented,
        0xE8 => Instruction::Unimplemented,
        0xE9 => Instruction::Unimplemented,
        0xEA => Instruction::Unimplemented,
        0xEB => Instruction::Unimplemented,
        0xEC => Instruction::Unimplemented,
        0xED => Instruction::Unimplemented,
        0xEE => Instruction::Unimplemented,
        0xEF => Instruction::Unimplemented,
        0xF0 => Instruction::Unimplemented,
        0xF1 => Instruction::Unimplemented,
        0xF2 => Instruction::Unimplemented,
        0xF3 => Instruction::Unimplemented,
        0xF4 => Instruction::Unimplemented,
        0xF5 => Instruction::Unimplemented,
        0xF6 => Instruction::Unimplemented,
        0xF7 => Instruction::Unimplemented,
        0xF8 => Instruction::Unimplemented,
        0xF9 => Instruction::Unimplemented,
        0xFA => Instruction::Unimplemented,
        0xFB => Instruction::Unimplemented,
        0xFC => Instruction::Unimplemented,
        0xFD => Instruction::Unimplemented,
        0xFE => Instruction::Unimplemented,
        0xFF => Instruction::Unimplemented,
    }
}

} // verus!
