use gbemu::error::Error;
use gbemu::instructions::{Cond, Instruction, Loc16, Loc8};
use gbemu::mem::Mmu;

fn decode(bytes: Vec<u8>) -> Result<(Instruction, u16), Error> {
    let mmu = Mmu::with_mem(bytes);
    Instruction::parse(0, &mmu)
}

#[test]
fn test_cb_c7() {
    let input = Mmu::with_mem(vec![0xcb, 0x7c]);
    let (inst, delta) = Instruction::parse(0, &input).unwrap();
    assert_eq!(delta, 2);
    assert_eq!(
        inst,
        Instruction::CheckBit {
            bit: 7,
            loc: Loc8::H
        }
    );
}

#[test]
fn load_block_uses_low_bits_for_source_and_high_bits_for_destination() {
    assert_eq!(
        decode(vec![0x78]),
        Ok((Instruction::Load8 { src: Loc8::B, dst: Loc8::A }, 1))
    );
    assert_eq!(
        decode(vec![0x46]),
        Ok((Instruction::Load8 { src: Loc8::IndHL, dst: Loc8::B }, 1))
    );
    assert_eq!(
        decode(vec![0x70]),
        Ok((Instruction::Load8 { src: Loc8::B, dst: Loc8::IndHL }, 1))
    );
    assert_eq!(
        decode(vec![0x4f]),
        Ok((Instruction::Load8 { src: Loc8::A, dst: Loc8::C }, 1))
    );
}

#[test]
fn every_load_block_opcode_decodes_in_one_byte() {
    let order = [
        Loc8::B,
        Loc8::C,
        Loc8::D,
        Loc8::E,
        Loc8::H,
        Loc8::L,
        Loc8::IndHL,
        Loc8::A,
    ];
    for op in 0x40u8..=0x7f {
        if op == 0x76 {
            continue;
        }
        let expected = Instruction::Load8 {
            src: order[(op & 7) as usize],
            dst: order[((op >> 3) & 7) as usize],
        };
        assert_eq!(decode(vec![op]), Ok((expected, 1)));
    }
}

#[test]
fn halt_is_a_decode_failure() {
    assert_eq!(decode(vec![0x76]), Err(Error::HaltNotSupported));
}

#[test]
fn arithmetic_block_decodes_by_operation_group() {
    assert_eq!(decode(vec![0x80]), Ok((Instruction::AddA { src: Loc8::B }, 1)));
    assert_eq!(decode(vec![0x86]), Ok((Instruction::AddA { src: Loc8::IndHL }, 1)));
    assert_eq!(decode(vec![0x90]), Ok((Instruction::Sub { src: Loc8::B }, 1)));
    assert_eq!(
        decode(vec![0xaf]),
        Ok((Instruction::XOR { src: Loc8::A, dst: Loc8::A }, 1))
    );
    assert_eq!(
        decode(vec![0xa8]),
        Ok((Instruction::XOR { src: Loc8::B, dst: Loc8::A }, 1))
    );
    assert_eq!(decode(vec![0xbe]), Ok((Instruction::Compare { loc: Loc8::IndHL }, 1)));
    assert_eq!(decode(vec![0x88]), Err(Error::UnknownInstruction(0x88)));
    assert_eq!(decode(vec![0xa0]), Err(Error::UnknownInstruction(0xa0)));
    assert_eq!(decode(vec![0xb0]), Err(Error::UnknownInstruction(0xb0)));
}

#[test]
fn cb_space_takes_two_bytes() {
    assert_eq!(
        decode(vec![0xcb, 0x11]),
        Ok((Instruction::RotateLeft { loc: Loc8::C }, 2))
    );
    assert_eq!(
        decode(vec![0xcb, 0x06]),
        Ok((Instruction::RotateLeftCarry { loc: Loc8::IndHL }, 2))
    );
    assert_eq!(
        decode(vec![0xcb, 0x7f]),
        Ok((Instruction::CheckBit { bit: 7, loc: Loc8::A }, 2))
    );
    assert_eq!(
        decode(vec![0xcb, 0x40]),
        Ok((Instruction::CheckBit { bit: 0, loc: Loc8::B }, 2))
    );
    assert_eq!(decode(vec![0xcb, 0x20]), Err(Error::UnknownCbInstruction(0x20)));
    assert_eq!(decode(vec![0xcb, 0xff]), Err(Error::UnknownCbInstruction(0xff)));
    for b in 0u8..=0xff {
        if let Ok((_, n)) = decode(vec![0xcb, b]) {
            assert_eq!(n, 2);
        }
    }
}

#[test]
fn unknown_opcode_fails() {
    assert_eq!(decode(vec![0xff]), Err(Error::UnknownInstruction(0xff)));
    assert_eq!(decode(vec![0xd3]), Err(Error::UnknownInstruction(0xd3)));
}

#[test]
fn immediate_operands_are_read_after_the_opcode() {
    assert_eq!(
        decode(vec![0x31, 0xfe, 0xff]),
        Ok((Instruction::Load16 { src: Loc16::U16(0xfffe), dst: Loc16::SP }, 3))
    );
    assert_eq!(
        decode(vec![0x3e, 0x05]),
        Ok((Instruction::Load8 { src: Loc8::U8(5), dst: Loc8::A }, 2))
    );
    assert_eq!(
        decode(vec![0x20, 0xfb]),
        Ok((Instruction::JR { cond: Cond::NotZero, offset: -5 }, 2))
    );
    assert_eq!(
        decode(vec![0xcd, 0x95, 0x00]),
        Ok((Instruction::Call { cond: Cond::Always, addr: 0x0095 }, 3))
    );
    assert_eq!(
        decode(vec![0xe0, 0x42]),
        Ok((Instruction::Load8 { src: Loc8::A, dst: Loc8::IOPlus(0x42) }, 2))
    );
    assert_eq!(
        decode(vec![0xea, 0x00, 0x80]),
        Ok((Instruction::Load8 { src: Loc8::A, dst: Loc8::IndU16(0x8000) }, 3))
    );
    assert_eq!(decode(vec![0xc5]), Ok((Instruction::Push { loc: Loc16::BC }, 1)));
    assert_eq!(decode(vec![0xc9]), Ok((Instruction::Return { cond: Cond::Always }, 1)));
}

#[test]
fn missing_operand_is_a_read_error() {
    assert_eq!(decode(vec![0x3e]), Err(Error::InvalidReadFromMemoryLocation(1)));
    assert_eq!(decode(vec![0x21, 0x00]), Err(Error::InvalidReadFromMemoryLocation(2)));
    assert_eq!(decode(vec![0xcb]), Err(Error::InvalidReadFromMemoryLocation(1)));
    assert_eq!(decode(vec![]), Err(Error::InvalidReadFromMemoryLocation(0)));
    // A one-byte instruction reads nothing after it.
    assert_eq!(decode(vec![0x04]), Ok((Instruction::Inc8 { loc: Loc8::B }, 1)));
}
