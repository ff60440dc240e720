use vstd::prelude::*;
use vstd::string::*;

use crate::cpu::{Cpu, Flags};
use crate::error::Error;
use crate::instructions::{encoded_len, lemma_parse_len, parse_spec, Cond, Instruction, Loc16, Loc8};
use crate::mem::{read8_spec, Mmu};

verus! {

/// A lower-case hexadecimal digit.
pub open spec fn hex_digit(n: int) -> char {
    if n < 10 {
        ('0' as int + n) as char
    } else {
        ('a' as int + n - 10) as char
    }
}

/// A byte as two hexadecimal digits.
pub open spec fn hex2(b: u8) -> Seq<char> {
    seq![hex_digit(b as int / 16), hex_digit(b as int % 16)]
}

/// A word as four hexadecimal digits.
pub open spec fn hex4(w: u16) -> Seq<char> {
    hex2((w / 256) as u8) + hex2((w % 256) as u8)
}

/// A byte in decimal, without leading zeros.
pub open spec fn decimal(n: u8) -> Seq<char> {
    if n < 10 {
        seq![hex_digit(n as int)]
    } else if n < 100 {
        seq![hex_digit(n as int / 10), hex_digit(n as int % 10)]
    } else {
        seq![hex_digit(n as int / 100), hex_digit((n as int / 10) % 10), hex_digit(n as int % 10)]
    }
}

fn digit(n: u8) -> (r: &'static str)
    requires
        n < 16,
    ensures
        r@ == seq![hex_digit(n as int)],
{
    proof {
        reveal_strlit("0");
        reveal_strlit("1");
        reveal_strlit("2");
        reveal_strlit("3");
        reveal_strlit("4");
        reveal_strlit("5");
        reveal_strlit("6");
        reveal_strlit("7");
        reveal_strlit("8");
        reveal_strlit("9");
        reveal_strlit("a");
        reveal_strlit("b");
        reveal_strlit("c");
        reveal_strlit("d");
        reveal_strlit("e");
        reveal_strlit("f");
    }
    match n {
        0 => "0",
        1 => "1",
        2 => "2",
        3 => "3",
        4 => "4",
        5 => "5",
        6 => "6",
        7 => "7",
        8 => "8",
        9 => "9",
        10 => "a",
        11 => "b",
        12 => "c",
        13 => "d",
        14 => "e",
        _ => "f",
    }
}

/// Appends a byte as two hexadecimal digits.
pub fn push_hex2(s: &mut String, b: u8)
    ensures
        final(s)@ == old(s)@ + hex2(b),
{
    s.append(digit(b / 16));
    s.append(digit(b % 16));
    assert(final(s)@ =~= old(s)@ + hex2(b));
}

/// Appends a word as four hexadecimal digits.
pub fn push_hex4(s: &mut String, w: u16)
    ensures
        final(s)@ == old(s)@ + hex4(w),
{
    push_hex2(s, (w / 256) as u8);
    push_hex2(s, (w % 256) as u8);
    assert(final(s)@ =~= old(s)@ + hex4(w));
}

/// Appends a byte in decimal.
fn push_decimal(s: &mut String, n: u8)
    ensures
        final(s)@ == old(s)@ + decimal(n),
{
    if n >= 100 {
        s.append(digit(n / 100));
    }
    if n >= 10 {
        s.append(digit((n / 10) % 10));
    }
    s.append(digit(n % 10));
    assert(final(s)@ =~= old(s)@ + decimal(n));
}

impl Loc8 {
    /// Assembly notation of the location.
    pub open spec fn text_spec(self) -> Seq<char> {
        match self {
            Loc8::A => "A"@,
            Loc8::B => "B"@,
            Loc8::C => "C"@,
            Loc8::D => "D"@,
            Loc8::E => "E"@,
            Loc8::H => "H"@,
            Loc8::L => "L"@,
            Loc8::IndHL => "(HL)"@,
            Loc8::IndBC => "(BC)"@,
            Loc8::IndDE => "(DE)"@,
            Loc8::IndHLDec => "(HL-)"@,
            Loc8::IndHLInc => "(HL+)"@,
            Loc8::IOPlusC => "(FF00+C)"@,
            Loc8::IOPlus(val) => "(FF00+$"@ + hex2(val) + ")"@,
            Loc8::U8(val) => "$"@ + hex2(val),
            Loc8::IndU16(addr) => "("@ + hex4(addr) + ")"@,
        }
    }

    /// Assembly notation of the location.
    pub fn text(&self) -> (r: String)
        ensures
            r@ == self.text_spec(),
    {
        match self {
            Loc8::A => String::from_str("A"),
            Loc8::B => String::from_str("B"),
            Loc8::C => String::from_str("C"),
            Loc8::D => String::from_str("D"),
            Loc8::E => String::from_str("E"),
            Loc8::H => String::from_str("H"),
            Loc8::L => String::from_str("L"),
            Loc8::IndHL => String::from_str("(HL)"),
            Loc8::IndBC => String::from_str("(BC)"),
            Loc8::IndDE => String::from_str("(DE)"),
            Loc8::IndHLDec => String::from_str("(HL-)"),
            Loc8::IndHLInc => String::from_str("(HL+)"),
            Loc8::IOPlusC => String::from_str("(FF00+C)"),
            Loc8::IOPlus(val) => {
                let mut s = String::from_str("(FF00+$");
                push_hex2(&mut s, *val);
                s.append(")");
                s
            },
            Loc8::U8(val) => {
                let mut s = String::from_str("$");
                push_hex2(&mut s, *val);
                s
            },
            Loc8::IndU16(addr) => {
                let mut s = String::from_str("(");
                push_hex4(&mut s, *addr);
                s.append(")");
                s
            },
        }
    }
}

impl Loc16 {
    /// Assembly notation of the location.
    pub open spec fn text_spec(self) -> Seq<char> {
        match self {
            Loc16::HL => "HL"@,
            Loc16::BC => "BC"@,
            Loc16::DE => "DE"@,
            Loc16::SP => "SP"@,
            Loc16::U16(val) => "$"@ + hex4(val),
        }
    }

    /// Assembly notation of the location.
    pub fn text(&self) -> (r: String)
        ensures
            r@ == self.text_spec(),
    {
        match self {
            Loc16::HL => String::from_str("HL"),
            Loc16::BC => String::from_str("BC"),
            Loc16::DE => String::from_str("DE"),
            Loc16::SP => String::from_str("SP"),
            Loc16::U16(val) => {
                let mut s = String::from_str("$");
                push_hex4(&mut s, *val);
                s
            },
        }
    }
}

impl Cond {
    /// The condition as written before a branch target; empty for `Always`.
    pub open spec fn text_spec(self) -> Seq<char> {
        match self {
            Cond::NotZero => "NZ,"@,
            Cond::Zero => "Z,"@,
            Cond::NotCarry => "NC,"@,
            Cond::Carry => "C,"@,
            Cond::Always => ""@,
        }
    }

    /// The condition as written before a branch target.
    pub fn text(&self) -> (r: String)
        ensures
            r@ == self.text_spec(),
    {
        match self {
            Cond::NotZero => String::from_str("NZ,"),
            Cond::Zero => String::from_str("Z,"),
            Cond::NotCarry => String::from_str("NC,"),
            Cond::Carry => String::from_str("C,"),
            Cond::Always => String::from_str(""),
        }
    }
}

impl Instruction {
    /// Assembly notation of the instruction, destination first.
    pub open spec fn text_spec(self) -> Seq<char> {
        match self {
            Instruction::Load8 { src, dst } => "LD "@ + dst.text_spec() + ","@ + src.text_spec(),
            Instruction::Load16 { src, dst } => "LD "@ + dst.text_spec() + ","@ + src.text_spec(),
            Instruction::XOR { src, dst } => "XOR "@ + dst.text_spec() + ","@ + src.text_spec(),
            Instruction::Sub { src } => "SUB A,"@ + src.text_spec(),
            Instruction::AddA { src } => "ADD A,"@ + src.text_spec(),
            Instruction::Inc8 { loc } => "INC "@ + loc.text_spec(),
            Instruction::Inc16 { loc } => "INC "@ + loc.text_spec(),
            Instruction::Dec8 { loc } => "DEC "@ + loc.text_spec(),
            Instruction::Compare { loc } => "CP A,"@ + loc.text_spec(),
            Instruction::CheckBit { bit, loc } => "BIT "@ + decimal(bit) + ","@ + loc.text_spec(),
            Instruction::RotateLeftCarry { loc } => "RLC "@ + loc.text_spec(),
            Instruction::RotateLeft { loc } => "RL "@ + loc.text_spec(),
            Instruction::JR { cond, offset } => "JR "@ + cond.text_spec() + "$"@ + hex2(offset as u8),
            Instruction::Call { cond, addr } => "CALL "@ + cond.text_spec() + "$"@ + hex4(addr),
            Instruction::Return { cond } => "RET "@ + cond.text_spec(),
            Instruction::Push { loc } => "PUSH "@ + loc.text_spec(),
            Instruction::Pop { loc } => "POP "@ + loc.text_spec(),
        }
    }

    /// Assembly notation of the instruction, as in `LD A,(HL-)` or `JR NZ,$f3`.
    pub fn text(&self) -> (r: String)
        ensures
            r@ == self.text_spec(),
    {
        match self {
            Instruction::Load8 { src, dst } => {
                let mut s = String::from_str("LD ");
                s.append(dst.text().as_str());
                s.append(",");
                s.append(src.text().as_str());
                s
            },
            Instruction::Load16 { src, dst } => {
                let mut s = String::from_str("LD ");
                s.append(dst.text().as_str());
                s.append(",");
                s.append(src.text().as_str());
                s
            },
            Instruction::XOR { src, dst } => {
                let mut s = String::from_str("XOR ");
                s.append(dst.text().as_str());
                s.append(",");
                s.append(src.text().as_str());
                s
            },
            Instruction::Sub { src } => String::from_str("SUB A,").concat(src.text().as_str()),
            Instruction::AddA { src } => String::from_str("ADD A,").concat(src.text().as_str()),
            Instruction::Inc8 { loc } => String::from_str("INC ").concat(loc.text().as_str()),
            Instruction::Inc16 { loc } => String::from_str("INC ").concat(loc.text().as_str()),
            Instruction::Dec8 { loc } => String::from_str("DEC ").concat(loc.text().as_str()),
            Instruction::Compare { loc } => String::from_str("CP A,").concat(loc.text().as_str()),
            Instruction::CheckBit { bit, loc } => {
                let mut s = String::from_str("BIT ");
                push_decimal(&mut s, *bit);
                s.append(",");
                s.append(loc.text().as_str());
                s
            },
            Instruction::RotateLeftCarry { loc } => String::from_str("RLC ").concat(loc.text().as_str()),
            Instruction::RotateLeft { loc } => String::from_str("RL ").concat(loc.text().as_str()),
            Instruction::JR { cond, offset } => {
                let mut s = String::from_str("JR ");
                s.append(cond.text().as_str());
                s.append("$");
                push_hex2(&mut s, *offset as u8);
                s
            },
            Instruction::Call { cond, addr } => {
                let mut s = String::from_str("CALL ");
                s.append(cond.text().as_str());
                s.append("$");
                push_hex4(&mut s, *addr);
                s
            },
            Instruction::Return { cond } => String::from_str("RET ").concat(cond.text().as_str()),
            Instruction::Push { loc } => String::from_str("PUSH ").concat(loc.text().as_str()),
            Instruction::Pop { loc } => String::from_str("POP ").concat(loc.text().as_str()),
        }
    }
}

pub open spec fn bool_text(b: bool) -> Seq<char> {
    if b {
        "true"@
    } else {
        "false"@
    }
}

fn push_bool(s: &mut String, b: bool)
    ensures
        final(s)@ == old(s)@ + bool_text(b),
{
    if b {
        s.append("true");
    } else {
        s.append("false");
    }
}

impl Flags {
    /// The flags as `Flags { zero: .., subtract: .., half_carry: .., carry: .. }`.
    pub open spec fn text_spec(self) -> Seq<char> {
        "Flags { zero: "@ + bool_text(self.zero) + ", subtract: "@ + bool_text(self.subtract)
            + ", half_carry: "@ + bool_text(self.half_carry) + ", carry: "@ + bool_text(self.carry)
            + " }"@
    }

    pub fn text(&self) -> (r: String)
        ensures
            r@ == self.text_spec(),
    {
        let mut s = String::from_str("Flags { zero: ");
        push_bool(&mut s, self.zero);
        s.append(", subtract: ");
        push_bool(&mut s, self.subtract);
        s.append(", half_carry: ");
        push_bool(&mut s, self.half_carry);
        s.append(", carry: ");
        push_bool(&mut s, self.carry);
        s.append(" }");
        s
    }
}

impl Cpu {
    /// One line per register, the pairs and the flags.
    pub open spec fn registers_text_spec(self) -> Seq<char> {
        "sp: "@ + hex4(self.sp) + "\n"@ + "pc: "@ + hex4(self.pc) + "\n"@
            + "a: "@ + hex2(self.a) + "\n"@ + "b: "@ + hex2(self.b) + "\n"@
            + "c: "@ + hex2(self.c) + "\n"@ + "d: "@ + hex2(self.d) + "\n"@
            + "e: "@ + hex2(self.e) + "\n"@ + "h: "@ + hex2(self.h) + "\n"@
            + "l: "@ + hex2(self.l) + "\n"@ + "hl: "@ + hex4(self.hl()) + "\n"@
            + "bc: "@ + hex4(self.bc()) + "\n"@ + "de: "@ + hex4(self.de()) + "\n"@
            + "flags: "@ + self.flags.text_spec() + "\n"@
    }

    /// The register dump: one line per register, the pairs and the flags.
    pub fn registers_text(&self) -> (r: String)
        ensures
            r@ == self.registers_text_spec(),
    {
        let mut s = String::from_str("sp: ");
        push_hex4(&mut s, self.sp);
        s.append("\n");
        s.append("pc: ");
        push_hex4(&mut s, self.pc);
        s.append("\n");
        s.append("a: ");
        push_hex2(&mut s, self.a);
        s.append("\n");
        s.append("b: ");
        push_hex2(&mut s, self.b);
        s.append("\n");
        s.append("c: ");
        push_hex2(&mut s, self.c);
        s.append("\n");
        s.append("d: ");
        push_hex2(&mut s, self.d);
        s.append("\n");
        s.append("e: ");
        push_hex2(&mut s, self.e);
        s.append("\n");
        s.append("h: ");
        push_hex2(&mut s, self.h);
        s.append("\n");
        s.append("l: ");
        push_hex2(&mut s, self.l);
        s.append("\n");
        s.append("hl: ");
        push_hex4(&mut s, self.get_hl());
        s.append("\n");
        s.append("bc: ");
        push_hex4(&mut s, self.get_bc());
        s.append("\n");
        s.append("de: ");
        push_hex4(&mut s, self.get_de());
        s.append("\n");
        s.append("flags: ");
        s.append(self.flags.text().as_str());
        s.append("\n");
        s
    }

    /// The disassembly line of the instruction at `pc`: its address, four
    /// spaces, its notation.
    pub fn next_instruction_text(&self, mmu: &Mmu) -> (r: Result<String, Error>)
        ensures
            match parse_spec(self.pc, mmu@) {
                Ok((inst, _)) => r matches Ok(s) && s@ == hex4(self.pc) + "    "@ + inst.text_spec(),
                Err(e) => r == Err::<String, Error>(e),
            },
    {
        let (inst, _) = Instruction::parse(self.pc, mmu)?;
        let mut s = String::new();
        push_hex4(&mut s, self.pc);
        assert(s@ =~= hex4(self.pc));
        s.append("    ");
        s.append(inst.text().as_str());
        Ok(s)
    }
}

impl Error {
    /// The message shown for the error.
    pub open spec fn message_spec(self) -> Seq<char> {
        match self {
            Error::UnknownInstruction(inst) => "Unknown instruction `"@ + hex2(inst) + "`"@,
            Error::UnknownCbInstruction(inst) => "Unknown instruction `cb "@ + hex2(inst) + "`"@,
            Error::InvalidReadFromMemoryLocation(addr) => "Invalid read from memory location `"@ + hex4(addr) + "`"@,
            Error::InvalidWriteToMemoryLocation(addr) => "Invalid write to memory location `"@ + hex4(addr) + "`"@,
            Error::HaltNotSupported => "HALT is not supported"@,
            Error::Abort(msg) => "Aborting, "@ + msg@,
        }
    }

    /// The message shown for the error.
    pub fn message(&self) -> (r: String)
        ensures
            r@ == self.message_spec(),
    {
        match self {
            Error::UnknownInstruction(inst) => {
                let mut s = String::from_str("Unknown instruction `");
                push_hex2(&mut s, *inst);
                s.append("`");
                s
            },
            Error::UnknownCbInstruction(inst) => {
                let mut s = String::from_str("Unknown instruction `cb ");
                push_hex2(&mut s, *inst);
                s.append("`");
                s
            },
            Error::InvalidReadFromMemoryLocation(addr) => {
                let mut s = String::from_str("Invalid read from memory location `");
                push_hex4(&mut s, *addr);
                s.append("`");
                s
            },
            Error::InvalidWriteToMemoryLocation(addr) => {
                let mut s = String::from_str("Invalid write to memory location `");
                push_hex4(&mut s, *addr);
                s.append("`");
                s
            },
            Error::HaltNotSupported => String::from_str("HALT is not supported"),
            Error::Abort(msg) => String::from_str("Aborting, ").concat(msg),
        }
    }
}

/// First address after the boot program.
pub const BOOT_END: u16 = 0x100;

/// The data table inside the boot program, which is listed as raw bytes.
pub open spec fn in_boot_data(pc: int) -> bool {
    0xa7 < pc < 0xe0
}

/// Listing of the boot program from `pc` on: one line per instruction, the
/// data table as bytes on a line of its own. The listing stops at the first
/// failure, with what was listed before it.
pub open spec fn boot_listing(pc: int, mem: Seq<u8>) -> (Seq<char>, Result<(), Error>)
    decreases 0x100 - pc,
{
    if pc < 0 || pc >= 0x100 {
        (Seq::empty(), Ok(()))
    } else if in_boot_data(pc) {
        match read8_spec(mem, pc as u16) {
            Err(e) => (Seq::empty(), Err(e)),
            Ok(b) => {
                let rest = boot_listing(pc + 1, mem);
                let sep = if pc == 0xdf { " \n"@ } else { " "@ };
                (hex2(b) + sep + rest.0, rest.1)
            },
        }
    } else {
        match parse_spec(pc as u16, mem) {
            Err(e) => (Seq::empty(), Err(e)),
            Ok((inst, _)) => {
                let next = pc + encoded_len(mem[pc]);
                let rest = boot_listing(if next < 0x100 { next } else { 0x100 }, mem);
                (hex4(pc as u16) + "    "@ + inst.text_spec() + "\n"@ + rest.0, rest.1)
            },
        }
    }
}

/// Appends the listing of the boot program (addresses `0x00` to `0xFF`).
pub fn disassemble_boot_rom(mmu: &Mmu, out: &mut String) -> (r: Result<(), Error>)
    ensures
        final(out)@ == old(out)@ + boot_listing(0, mmu@).0,
        r == boot_listing(0, mmu@).1,
{
    let mut pc: u16 = 0;
    while pc < BOOT_END
        invariant
            pc <= 0x102,
            old(out)@ + boot_listing(0, mmu@).0 == out@ + boot_listing(pc as int, mmu@).0,
            boot_listing(0, mmu@).1 == boot_listing(pc as int, mmu@).1,
        decreases 0x102 - pc,
    {
        let ghost before = out@;
        let ghost listing = boot_listing(pc as int, mmu@);
        if 0xa7 < pc && pc < 0xe0 {
            let b = match mmu.read_u8(pc) {
                Ok(b) => b,
                Err(e) => {
                    assert(before + listing.0 =~= before);
                    return Err(e);
                },
            };
            push_hex2(out, b);
            if pc == 0xdf {
                out.append(" \n");
            } else {
                out.append(" ");
            }
            let ghost rest = boot_listing(pc + 1, mmu@);
            assert(before + listing.0 =~= out@ + rest.0);
            pc = pc + 1;
        } else {
            let (inst, delta) = match Instruction::parse(pc, mmu) {
                Ok(d) => d,
                Err(e) => {
                    assert(before + listing.0 =~= before);
                    return Err(e);
                },
            };
            proof {
                lemma_parse_len(pc, mmu@);
            }
            push_hex4(out, pc);
            out.append("    ");
            out.append(inst.text().as_str());
            out.append("\n");
            pc = pc + delta;
            let ghost rest = boot_listing(pc as int, mmu@);
            assert(pc >= 0x100 ==> rest == boot_listing(0x100, mmu@));
            assert(before + listing.0 =~= out@ + rest.0);
        }
    }
    assert(out@ + boot_listing(pc as int, mmu@).0 =~= out@);
    Ok(())
}

} // verus!
