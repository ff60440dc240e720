use vstd::prelude::*;

use crate::error::Error;
use crate::mem::{next_addr, read16_spec, read8_spec, Mmu, LY_REGISTER};

verus! {

/// A decoded instruction with its operand locations resolved.
#[derive(Debug, PartialEq, Eq, Structural)]
pub enum Instruction {
    Load8 { src: Loc8, dst: Loc8 },
    Load16 { src: Loc16, dst: Loc16 },
    XOR { src: Loc8, dst: Loc8 },
    Sub { src: Loc8 },
    AddA { src: Loc8 },
    CheckBit { bit: u8, loc: Loc8 },
    RotateLeftCarry { loc: Loc8 },
    RotateLeft { loc: Loc8 },
    JR { cond: Cond, offset: i8 },
    Inc8 { loc: Loc8 },
    Inc16 { loc: Loc16 },
    Dec8 { loc: Loc8 },
    Call { cond: Cond, addr: u16 },
    Return { cond: Cond },
    Push { loc: Loc16 },
    Pop { loc: Loc16 },
    // The other operand is always A.
    Compare { loc: Loc8 },
}

/// Condition of a branch, call or return.
#[derive(Debug, PartialEq, Eq, Structural, Clone, Copy)]
pub enum Cond {
    Always,
    NotCarry,
    Carry,
    NotZero,
    Zero,
}

/// An 8-bit operand location.
#[derive(Debug, PartialEq, Eq, Structural, Copy, Clone)]
pub enum Loc8 {
    A,
    B,
    C,
    D,
    E,
    H,
    L,
    // (HL)
    IndHL,
    // (BC)
    IndBC,
    // (DE)
    IndDE,
    // (HL-)
    IndHLDec,
    // (HL+)
    IndHLInc,
    U8(u8),
    IOPlusC,
    IOPlus(u8),
    // (u16)
    IndU16(u16),
}

/// A 16-bit operand location.
#[derive(Debug, PartialEq, Eq, Structural, Copy, Clone)]
pub enum Loc16 {
    BC,
    DE,
    HL,
    SP,
    U16(u16),
}

/// The eight 8-bit locations in the order that the low three bits of an
/// opcode (or bits 3 to 5) select them.
pub open spec fn loc_order(index: u8) -> Loc8 {
    match index {
        0 => Loc8::B,
        1 => Loc8::C,
        2 => Loc8::D,
        3 => Loc8::E,
        4 => Loc8::H,
        5 => Loc8::L,
        6 => Loc8::IndHL,
        _ => Loc8::A,
    }
}

/// Meaning of the byte that follows the `0xCB` prefix: bits 0 to 2 pick
/// the location, bits 3 to 7 the operation.
pub open spec fn cb_spec(b: u8) -> Result<Instruction, Error> {
    let loc = loc_order(b % 8);
    let group = b / 8;
    if group == 0 {
        Ok(Instruction::RotateLeftCarry { loc })
    } else if group == 2 {
        Ok(Instruction::RotateLeft { loc })
    } else if 8 <= group < 16 {
        Ok(Instruction::CheckBit { bit: (group - 8) as u8, loc })
    } else {
        Err(Error::UnknownCbInstruction(b))
    }
}

/// Number of operand bytes that follow a base opcode.
pub open spec fn operand_bytes(op: u8) -> nat {
    match op {
        0x01 | 0x11 | 0x21 | 0x31 | 0xcd | 0xea | 0xfa => 2,
        0x06 | 0x0e | 0x16 | 0x1e | 0x26 | 0x2e | 0x36 | 0x3e | 0x18 | 0x20 | 0x28 | 0x30
        | 0x38 | 0xe0 | 0xf0 | 0xfe => 1,
        _ => 0,
    }
}

/// Loads between the eight positional locations, `0x40` to `0x7F`.
pub open spec fn load_range_spec(op: u8) -> Instruction {
    Instruction::Load8 { src: loc_order(op % 8), dst: loc_order((op / 8) % 8) }
}

/// Arithmetic with A, `0x80` to `0xBF`: bits 3 to 7 pick the operation.
pub open spec fn alu_range_spec(op: u8) -> Result<Instruction, Error> {
    let src = loc_order(op % 8);
    let group = op / 8;
    if group == 0x10 {
        Ok(Instruction::AddA { src })
    } else if group == 0x12 {
        Ok(Instruction::Sub { src })
    } else if group == 0x15 {
        Ok(Instruction::XOR { src, dst: Loc8::A })
    } else if group == 0x17 {
        Ok(Instruction::Compare { loc: src })
    } else {
        Err(Error::UnknownInstruction(op))
    }
}

/// Meaning of a base opcode, given the operand that follows it (its one
/// byte, or its little-endian word).
pub open spec fn base_spec(op: u8, operand: u16) -> Result<Instruction, Error> {
    let b = operand as u8;
    if op == 0x76 {
        Err(Error::HaltNotSupported)
    } else if 0x40 <= op <= 0x7f {
        Ok(load_range_spec(op))
    } else if 0x80 <= op <= 0xbf {
        alu_range_spec(op)
    } else {
        match op {
            0x01 => Ok(Instruction::Load16 { src: Loc16::U16(operand), dst: Loc16::BC }),
            0x02 => Ok(Instruction::Load8 { src: Loc8::A, dst: Loc8::IndBC }),
            0x03 => Ok(Instruction::Inc16 { loc: Loc16::BC }),
            0x04 => Ok(Instruction::Inc8 { loc: Loc8::B }),
            0x05 => Ok(Instruction::Dec8 { loc: Loc8::B }),
            0x06 => Ok(Instruction::Load8 { src: Loc8::U8(b), dst: Loc8::B }),
            0x0a => Ok(Instruction::Load8 { src: Loc8::IndBC, dst: Loc8::A }),
            0x0c => Ok(Instruction::Inc8 { loc: Loc8::C }),
            0x0d => Ok(Instruction::Dec8 { loc: Loc8::C }),
            0x0e => Ok(Instruction::Load8 { src: Loc8::U8(b), dst: Loc8::C }),
            0x11 => Ok(Instruction::Load16 { src: Loc16::U16(operand), dst: Loc16::DE }),
            0x12 => Ok(Instruction::Load8 { src: Loc8::A, dst: Loc8::IndDE }),
            0x13 => Ok(Instruction::Inc16 { loc: Loc16::DE }),
            0x14 => Ok(Instruction::Inc8 { loc: Loc8::D }),
            0x15 => Ok(Instruction::Dec8 { loc: Loc8::D }),
            0x16 => Ok(Instruction::Load8 { src: Loc8::U8(b), dst: Loc8::D }),
            0x17 => Ok(Instruction::RotateLeft { loc: Loc8::A }),
            0x18 => Ok(Instruction::JR { cond: Cond::Always, offset: b as i8 }),
            0x1a => Ok(Instruction::Load8 { src: Loc8::IndDE, dst: Loc8::A }),
            0x1c => Ok(Instruction::Inc8 { loc: Loc8::E }),
            0x1d => Ok(Instruction::Dec8 { loc: Loc8::E }),
            0x1e => Ok(Instruction::Load8 { src: Loc8::U8(b), dst: Loc8::E }),
            0x20 => Ok(Instruction::JR { cond: Cond::NotZero, offset: b as i8 }),
            0x21 => Ok(Instruction::Load16 { src: Loc16::U16(operand), dst: Loc16::HL }),
            0x22 => Ok(Instruction::Load8 { src: Loc8::A, dst: Loc8::IndHLInc }),
            0x23 => Ok(Instruction::Inc16 { loc: Loc16::HL }),
            0x24 => Ok(Instruction::Inc8 { loc: Loc8::H }),
            0x25 => Ok(Instruction::Dec8 { loc: Loc8::H }),
            0x26 => Ok(Instruction::Load8 { src: Loc8::U8(b), dst: Loc8::H }),
            0x28 => Ok(Instruction::JR { cond: Cond::Zero, offset: b as i8 }),
            0x2a => Ok(Instruction::Load8 { src: Loc8::IndHLInc, dst: Loc8::A }),
            0x2c => Ok(Instruction::Inc8 { loc: Loc8::L }),
            0x2d => Ok(Instruction::Dec8 { loc: Loc8::L }),
            0x2e => Ok(Instruction::Load8 { src: Loc8::U8(b), dst: Loc8::L }),
            0x30 => Ok(Instruction::JR { cond: Cond::NotCarry, offset: b as i8 }),
            0x31 => Ok(Instruction::Load16 { src: Loc16::U16(operand), dst: Loc16::SP }),
            0x32 => Ok(Instruction::Load8 { src: Loc8::A, dst: Loc8::IndHLDec }),
            0x33 => Ok(Instruction::Inc16 { loc: Loc16::SP }),
            0x34 => Ok(Instruction::Inc8 { loc: Loc8::IndHL }),
            0x35 => Ok(Instruction::Dec8 { loc: Loc8::IndHL }),
            0x36 => Ok(Instruction::Load8 { src: Loc8::U8(b), dst: Loc8::IndHL }),
            0x38 => Ok(Instruction::JR { cond: Cond::Carry, offset: b as i8 }),
            0x3a => Ok(Instruction::Load8 { src: Loc8::IndHLDec, dst: Loc8::A }),
            0x3c => Ok(Instruction::Inc8 { loc: Loc8::A }),
            0x3d => Ok(Instruction::Dec8 { loc: Loc8::A }),
            0x3e => Ok(Instruction::Load8 { src: Loc8::U8(b), dst: Loc8::A }),
            0xc0 => Ok(Instruction::Return { cond: Cond::NotZero }),
            0xc1 => Ok(Instruction::Pop { loc: Loc16::BC }),
            0xc5 => Ok(Instruction::Push { loc: Loc16::BC }),
            0xc8 => Ok(Instruction::Return { cond: Cond::Zero }),
            0xc9 => Ok(Instruction::Return { cond: Cond::Always }),
            0xcd => Ok(Instruction::Call { cond: Cond::Always, addr: operand }),
            0xd0 => Ok(Instruction::Return { cond: Cond::NotCarry }),
            0xd1 => Ok(Instruction::Pop { loc: Loc16::DE }),
            0xd5 => Ok(Instruction::Push { loc: Loc16::DE }),
            0xd8 => Ok(Instruction::Return { cond: Cond::Carry }),
            0xe0 => Ok(Instruction::Load8 { src: Loc8::A, dst: Loc8::IOPlus(b) }),
            0xe1 => Ok(Instruction::Pop { loc: Loc16::HL }),
            0xe2 => Ok(Instruction::Load8 { src: Loc8::A, dst: Loc8::IOPlusC }),
            0xe5 => Ok(Instruction::Push { loc: Loc16::HL }),
            0xea => Ok(Instruction::Load8 { src: Loc8::A, dst: Loc8::IndU16(operand) }),
            0xf0 => Ok(Instruction::Load8 { src: Loc8::IOPlus(b), dst: Loc8::A }),
            0xfa => Ok(Instruction::Load8 { src: Loc8::IndU16(operand), dst: Loc8::A }),
            0xfe => Ok(Instruction::Compare { loc: Loc8::U8(b) }),
            _ => Err(Error::UnknownInstruction(op)),
        }
    }
}

/// Decoding at `pc`: the instruction and the number of bytes it occupies.
/// Operand bytes are read only for opcodes that take them.
#[verifier::opaque]
pub open spec fn parse_spec(pc: u16, mem: Seq<u8>) -> Result<(Instruction, u16), Error> {
    match read8_spec(mem, pc) {
        Err(e) => Err(e),
        Ok(op) => if op == 0xcb {
            match read8_spec(mem, next_addr(pc)) {
                Err(e) => Err(e),
                Ok(b) => match cb_spec(b) {
                    Ok(i) => Ok((i, 2u16)),
                    Err(e) => Err(e),
                },
            }
        } else {
            let n = operand_bytes(op);
            let operand = if n == 0 {
                Ok(0u16)
            } else if n == 1 {
                match read8_spec(mem, next_addr(pc)) {
                    Ok(b) => Ok(b as u16),
                    Err(e) => Err(e),
                }
            } else {
                read16_spec(mem, next_addr(pc))
            };
            match operand {
                Err(e) => Err(e),
                Ok(w) => match base_spec(op, w) {
                    Ok(i) => Ok((i, (n + 1) as u16)),
                    Err(e) => Err(e),
                },
            }
        },
    }
}

impl Instruction {
    /// The instruction can be executed: every location it writes to is
    /// writable and a tested bit lies within a byte.
    pub open spec fn well_formed(self) -> bool {
        match self {
            Instruction::Load8 { dst, .. } => !(dst is U8),
            Instruction::XOR { dst, .. } => !(dst is U8),
            Instruction::Inc8 { loc } => !(loc is U8),
            Instruction::Dec8 { loc } => !(loc is U8),
            Instruction::RotateLeftCarry { loc } => !(loc is U8),
            Instruction::RotateLeft { loc } => !(loc is U8),
            Instruction::CheckBit { bit, .. } => bit < 8,
            Instruction::Load16 { dst, .. } => !(dst is U16),
            Instruction::Inc16 { loc } => !(loc is U16),
            Instruction::Pop { loc } => !(loc is U16),
            _ => true,
        }
    }
}

/// Opcodes `0x40` to `0x7F`, HALT aside, decode in one byte as a load from
/// the location that bits 0 to 2 select to the one that bits 3 to 5 select.
/// Opcodes `0x80` to `0xBF` decode in one byte as the operation that bits 3
/// to 7 select (add, subtract, xor into A, compare) on the location that bits
/// 0 to 2 select; the other operations of that block are unknown.
pub proof fn lemma_structural_ranges(pc: u16, mem: Seq<u8>, op: u8)
    requires
        read8_spec(mem, pc) == Ok::<u8, Error>(op),
    ensures
        0x40 <= op <= 0x7f && op != 0x76 ==> parse_spec(pc, mem) == Ok::<(Instruction, u16), Error>(
            (Instruction::Load8 { src: loc_order(op & 0x07), dst: loc_order((op >> 3) & 0x07) }, 1u16),
        ),
        op == 0x76 ==> parse_spec(pc, mem) == Err::<(Instruction, u16), Error>(Error::HaltNotSupported),
        0x80 <= op <= 0xbf ==> parse_spec(pc, mem) == match op & 0xf8 {
            0x80 => Ok((Instruction::AddA { src: loc_order(op & 0x07) }, 1u16)),
            0x90 => Ok((Instruction::Sub { src: loc_order(op & 0x07) }, 1u16)),
            0xa8 => Ok((Instruction::XOR { src: loc_order(op & 0x07), dst: Loc8::A }, 1u16)),
            0xb8 => Ok((Instruction::Compare { loc: loc_order(op & 0x07) }, 1u16)),
            _ => Err(Error::UnknownInstruction(op)),
        },
{
    reveal(parse_spec);
    assert(op & 0x07 == op % 8) by (bit_vector);
    assert((op >> 3) & 0x07 == (op / 8) % 8) by (bit_vector);
    assert(op & 0xf8 == (op / 8) * 8) by (bit_vector);
}

/// After the `0xCB` prefix every second byte takes exactly two bytes in
/// all: bits 0 to 2 select the location, bits 3 to 7 the operation (rotate
/// left with carry, rotate left, or a test of bit 0 to 7).
pub proof fn lemma_cb_space(pc: u16, mem: Seq<u8>, b: u8)
    requires
        read8_spec(mem, pc) == Ok::<u8, Error>(0xcb),
        read8_spec(mem, next_addr(pc)) == Ok::<u8, Error>(b),
    ensures
        parse_spec(pc, mem) matches Ok((_, n)) ==> n == 2,
        b >> 3 == 0 ==> parse_spec(pc, mem) == Ok::<(Instruction, u16), Error>((Instruction::RotateLeftCarry { loc: loc_order(b & 0x07) }, 2u16)),
        b >> 3 == 2 ==> parse_spec(pc, mem) == Ok::<(Instruction, u16), Error>((Instruction::RotateLeft { loc: loc_order(b & 0x07) }, 2u16)),
        8 <= b >> 3 < 16 ==> parse_spec(pc, mem) == Ok::<(Instruction, u16), Error>(
            (Instruction::CheckBit { bit: ((b >> 3) - 8) as u8, loc: loc_order(b & 0x07) }, 2u16),
        ),
        b >> 3 == 1 || 3 <= b >> 3 < 8 || b >> 3 >= 16 ==> parse_spec(pc, mem) == Err::<(Instruction, u16), Error>(
            Error::UnknownCbInstruction(b),
        ),
{
    reveal(parse_spec);
    assert(b & 0x07 == b % 8) by (bit_vector);
    assert(b >> 3 == b / 8) by (bit_vector);
}

/// Number of bytes that an opcode occupies with its operands.
pub open spec fn encoded_len(op: u8) -> nat {
    if op == 0xcb {
        2
    } else {
        operand_bytes(op) + 1
    }
}

/// A successful decode takes the number of bytes that its opcode announces.
pub proof fn lemma_parse_len(pc: u16, mem: Seq<u8>)
    ensures
        parse_spec(pc, mem) matches Ok((_, n)) ==> {
            &&& (pc as int) < mem.len()
            &&& pc != LY_REGISTER ==> n == encoded_len(mem[pc as int])
            &&& 1 <= n <= 3
        },
{
    reveal(parse_spec);
}

/// Opcodes that push and pop the same register pair.
pub open spec fn push_pop_pair(push_op: u8, pop_op: u8, loc: Loc16) -> bool {
    ||| push_op == 0xc5 && pop_op == 0xc1 && loc == Loc16::BC
    ||| push_op == 0xd5 && pop_op == 0xd1 && loc == Loc16::DE
    ||| push_op == 0xe5 && pop_op == 0xe1 && loc == Loc16::HL
}

/// The push opcode of a pair decodes in one byte as a push of that pair.
pub proof fn lemma_parse_push(pc: u16, mem: Seq<u8>, push_op: u8, pop_op: u8, loc: Loc16)
    requires
        push_pop_pair(push_op, pop_op, loc),
        read8_spec(mem, pc) == Ok::<u8, Error>(push_op),
    ensures
        parse_spec(pc, mem) == Ok::<(Instruction, u16), Error>((Instruction::Push { loc }, 1u16)),
{
    reveal(parse_spec);
}

/// The pop opcode of a pair decodes in one byte as a pop of that pair.
pub proof fn lemma_parse_pop(pc: u16, mem: Seq<u8>, push_op: u8, pop_op: u8, loc: Loc16)
    requires
        push_pop_pair(push_op, pop_op, loc),
        read8_spec(mem, pc) == Ok::<u8, Error>(pop_op),
    ensures
        parse_spec(pc, mem) == Ok::<(Instruction, u16), Error>((Instruction::Pop { loc }, 1u16)),
{
    reveal(parse_spec);
}

/// The positional location with the given index.
fn positional_loc(index: u8) -> (r: Loc8)
    requires
        index < 8,
    ensures
        r == loc_order(index),
{
    match index {
        0 => Loc8::B,
        1 => Loc8::C,
        2 => Loc8::D,
        3 => Loc8::E,
        4 => Loc8::H,
        5 => Loc8::L,
        6 => Loc8::IndHL,
        _ => Loc8::A,
    }
}

impl Instruction {
    /// Decodes the instruction at `pc`, returning it with the number of
    /// bytes it occupies. Nothing is written.
    pub fn parse(pc: u16, mmu: &Mmu) -> (r: Result<(Instruction, u16), Error>)
        ensures
            r == parse_spec(pc, mmu@),
            r matches Ok((inst, _)) ==> inst.well_formed(),
    {
        reveal(parse_spec);
        let op = mmu.read_u8(pc)?;
        let next = pc.wrapping_add(1);
        proof {
            assert(op & 0x07 == op % 8) by (bit_vector);
            assert((op >> 3) & 0x07 == (op / 8) % 8) by (bit_vector);
            assert(op >> 3 == op / 8) by (bit_vector);
        }
        // HALT sits in the middle of the block of loads.
        if op == 0x76 {
            return Err(Error::HaltNotSupported);
        }
        if 0x40 <= op && op <= 0x7f {
            let src = positional_loc(op & 0x07);
            let dst = positional_loc((op >> 3) & 0x07);
            return Ok((Instruction::Load8 { src, dst }, 1));
        }
        if 0x80 <= op && op <= 0xbf {
            let src = positional_loc(op & 0x07);
            let inst = match op >> 3 {
                0x10 => Instruction::AddA { src },
                0x12 => Instruction::Sub { src },
                0x15 => Instruction::XOR { src, dst: Loc8::A },
                0x17 => Instruction::Compare { loc: src },
                _ => return Err(Error::UnknownInstruction(op)),
            };
            return Ok((inst, 1));
        }
        if op == 0xcb {
            let inst = Self::parse_cb(mmu.read_u8(next)?)?;
            return Ok((inst, 2));
        }
        match op {
            0x01 => Ok((Instruction::Load16 { src: Loc16::U16(mmu.read_u16(next)?), dst: Loc16::BC }, 3)),
            0x02 => Ok((Instruction::Load8 { src: Loc8::A, dst: Loc8::IndBC }, 1)),
            0x03 => Ok((Instruction::Inc16 { loc: Loc16::BC }, 1)),
            0x04 => Ok((Instruction::Inc8 { loc: Loc8::B }, 1)),
            0x05 => Ok((Instruction::Dec8 { loc: Loc8::B }, 1)),
            0x06 => Ok((Instruction::Load8 { src: Loc8::U8(mmu.read_u8(next)?), dst: Loc8::B }, 2)),
            0x0a => Ok((Instruction::Load8 { src: Loc8::IndBC, dst: Loc8::A }, 1)),
            0x0c => Ok((Instruction::Inc8 { loc: Loc8::C }, 1)),
            0x0d => Ok((Instruction::Dec8 { loc: Loc8::C }, 1)),
            0x0e => Ok((Instruction::Load8 { src: Loc8::U8(mmu.read_u8(next)?), dst: Loc8::C }, 2)),
            0x11 => Ok((Instruction::Load16 { src: Loc16::U16(mmu.read_u16(next)?), dst: Loc16::DE }, 3)),
            0x12 => Ok((Instruction::Load8 { src: Loc8::A, dst: Loc8::IndDE }, 1)),
            0x13 => Ok((Instruction::Inc16 { loc: Loc16::DE }, 1)),
            0x14 => Ok((Instruction::Inc8 { loc: Loc8::D }, 1)),
            0x15 => Ok((Instruction::Dec8 { loc: Loc8::D }, 1)),
            0x16 => Ok((Instruction::Load8 { src: Loc8::U8(mmu.read_u8(next)?), dst: Loc8::D }, 2)),
            0x17 => Ok((Instruction::RotateLeft { loc: Loc8::A }, 1)),
            0x18 => Ok((Instruction::JR { cond: Cond::Always, offset: mmu.read_i8(next)? }, 2)),
            0x1a => Ok((Instruction::Load8 { src: Loc8::IndDE, dst: Loc8::A }, 1)),
            0x1c => Ok((Instruction::Inc8 { loc: Loc8::E }, 1)),
            0x1d => Ok((Instruction::Dec8 { loc: Loc8::E }, 1)),
            0x1e => Ok((Instruction::Load8 { src: Loc8::U8(mmu.read_u8(next)?), dst: Loc8::E }, 2)),
            0x20 => Ok((Instruction::JR { cond: Cond::NotZero, offset: mmu.read_i8(next)? }, 2)),
            0x21 => Ok((Instruction::Load16 { src: Loc16::U16(mmu.read_u16(next)?), dst: Loc16::HL }, 3)),
            0x22 => Ok((Instruction::Load8 { src: Loc8::A, dst: Loc8::IndHLInc }, 1)),
            0x23 => Ok((Instruction::Inc16 { loc: Loc16::HL }, 1)),
            0x24 => Ok((Instruction::Inc8 { loc: Loc8::H }, 1)),
            0x25 => Ok((Instruction::Dec8 { loc: Loc8::H }, 1)),
            0x26 => Ok((Instruction::Load8 { src: Loc8::U8(mmu.read_u8(next)?), dst: Loc8::H }, 2)),
            0x28 => Ok((Instruction::JR { cond: Cond::Zero, offset: mmu.read_i8(next)? }, 2)),
            0x2a => Ok((Instruction::Load8 { src: Loc8::IndHLInc, dst: Loc8::A }, 1)),
            0x2c => Ok((Instruction::Inc8 { loc: Loc8::L }, 1)),
            0x2d => Ok((Instruction::Dec8 { loc: Loc8::L }, 1)),
            0x2e => Ok((Instruction::Load8 { src: Loc8::U8(mmu.read_u8(next)?), dst: Loc8::L }, 2)),
            0x30 => Ok((Instruction::JR { cond: Cond::NotCarry, offset: mmu.read_i8(next)? }, 2)),
            0x31 => Ok((Instruction::Load16 { src: Loc16::U16(mmu.read_u16(next)?), dst: Loc16::SP }, 3)),
            0x32 => Ok((Instruction::Load8 { src: Loc8::A, dst: Loc8::IndHLDec }, 1)),
            0x33 => Ok((Instruction::Inc16 { loc: Loc16::SP }, 1)),
            0x34 => Ok((Instruction::Inc8 { loc: Loc8::IndHL }, 1)),
            0x35 => Ok((Instruction::Dec8 { loc: Loc8::IndHL }, 1)),
            0x36 => Ok((Instruction::Load8 { src: Loc8::U8(mmu.read_u8(next)?), dst: Loc8::IndHL }, 2)),
            0x38 => Ok((Instruction::JR { cond: Cond::Carry, offset: mmu.read_i8(next)? }, 2)),
            0x3a => Ok((Instruction::Load8 { src: Loc8::IndHLDec, dst: Loc8::A }, 1)),
            0x3c => Ok((Instruction::Inc8 { loc: Loc8::A }, 1)),
            0x3d => Ok((Instruction::Dec8 { loc: Loc8::A }, 1)),
            0x3e => Ok((Instruction::Load8 { src: Loc8::U8(mmu.read_u8(next)?), dst: Loc8::A }, 2)),
            0xc0 => Ok((Instruction::Return { cond: Cond::NotZero }, 1)),
            0xc1 => Ok((Instruction::Pop { loc: Loc16::BC }, 1)),
            0xc5 => Ok((Instruction::Push { loc: Loc16::BC }, 1)),
            0xc8 => Ok((Instruction::Return { cond: Cond::Zero }, 1)),
            0xc9 => Ok((Instruction::Return { cond: Cond::Always }, 1)),
            0xcd => Ok((Instruction::Call { cond: Cond::Always, addr: mmu.read_u16(next)? }, 3)),
            0xd0 => Ok((Instruction::Return { cond: Cond::NotCarry }, 1)),
            0xd1 => Ok((Instruction::Pop { loc: Loc16::DE }, 1)),
            0xd5 => Ok((Instruction::Push { loc: Loc16::DE }, 1)),
            0xd8 => Ok((Instruction::Return { cond: Cond::Carry }, 1)),
            0xe0 => Ok((Instruction::Load8 { src: Loc8::A, dst: Loc8::IOPlus(mmu.read_u8(next)?) }, 2)),
            0xe1 => Ok((Instruction::Pop { loc: Loc16::HL }, 1)),
            0xe2 => Ok((Instruction::Load8 { src: Loc8::A, dst: Loc8::IOPlusC }, 1)),
            0xe5 => Ok((Instruction::Push { loc: Loc16::HL }, 1)),
            0xea => Ok((Instruction::Load8 { src: Loc8::A, dst: Loc8::IndU16(mmu.read_u16(next)?) }, 3)),
            0xf0 => Ok((Instruction::Load8 { src: Loc8::IOPlus(mmu.read_u8(next)?), dst: Loc8::A }, 2)),
            0xfa => Ok((Instruction::Load8 { src: Loc8::IndU16(mmu.read_u16(next)?), dst: Loc8::A }, 3)),
            0xfe => Ok((Instruction::Compare { loc: Loc8::U8(mmu.read_u8(next)?) }, 2)),
            unknown => Err(Error::UnknownInstruction(unknown)),
        }
    }

    /// Decodes the byte that follows the `0xCB` prefix.
    fn parse_cb(b: u8) -> (r: Result<Instruction, Error>)
        ensures
            r == cb_spec(b),
            r matches Ok(inst) ==> inst.well_formed(),
    {
        proof {
            assert(b & 0x07 == b % 8) by (bit_vector);
            assert(b >> 3 == b / 8) by (bit_vector);
        }
        let loc = positional_loc(b & 0x07);
        let group = b >> 3;
        if group == 0 {
            Ok(Instruction::RotateLeftCarry { loc })
        } else if group == 2 {
            Ok(Instruction::RotateLeft { loc })
        } else if 8 <= group && group < 16 {
            Ok(Instruction::CheckBit { bit: group - 8, loc })
        } else {
            Err(Error::UnknownCbInstruction(b))
        }
    }
}

} // verus!
