use vstd::prelude::*;

use crate::error::Error;
use crate::instructions::{lemma_parse_pop, lemma_parse_push, parse_spec, push_pop_pair, Cond, Instruction, Loc16, Loc8};
use crate::mem::{next_addr, read16_spec, read8_spec, write16_spec, write8_spec, Mmu, LY_REGISTER};

verus! {

/// The register file and flags of the emulated CPU.
#[derive(Debug)]
pub struct Cpu {
    pub sp: u16,
    pub pc: u16,
    pub a: u8,
    pub b: u8,
    pub c: u8,
    pub d: u8,
    pub e: u8,
    pub h: u8,
    pub l: u8,
    pub flags: Flags,
}

/// The four condition flags.
#[derive(Debug)]
pub struct Flags {
    // Z
    pub zero: bool,
    // N
    pub subtract: bool,
    // H
    pub half_carry: bool,
    // C
    pub carry: bool,
}

impl Default for Flags {
    fn default() -> (r: Flags)
        ensures
            !r.zero && !r.subtract && !r.half_carry && !r.carry,
    {
        Flags { zero: false, subtract: false, half_carry: false, carry: false }
    }
}

impl Default for Cpu {
    fn default() -> (r: Cpu)
        ensures
            r.sp == 0 && r.pc == 0,
            r.a == 0 && r.b == 0 && r.c == 0 && r.d == 0 && r.e == 0 && r.h == 0 && r.l == 0,
            !r.flags.zero && !r.flags.subtract && !r.flags.half_carry && !r.flags.carry,
    {
        Cpu { sp: 0, pc: 0, a: 0, b: 0, c: 0, d: 0, e: 0, h: 0, l: 0, flags: Flags::default() }
    }
}

/// The 16-bit value of a register pair: the first register is the high byte.
pub open spec fn pair_value(high: u8, low: u8) -> u16 {
    (high * 256 + low) as u16
}

/// The high byte of a 16-bit value.
pub open spec fn high_byte(val: u16) -> u8 {
    (val / 256) as u8
}

/// The low byte of a 16-bit value.
pub open spec fn low_byte(val: u16) -> u8 {
    (val % 256) as u8
}

/// One bit rotation to the left: bit 7 comes back in as bit 0.
pub open spec fn rotl8(val: u8) -> u8 {
    ((val * 2) % 256 + val / 128) as u8
}

/// The address of an offset into the high I/O page.
pub open spec fn io_addr(offset: u8) -> u16 {
    (0xff00 + offset) as u16
}

impl Cpu {
    /// The HL pair.
    pub open spec fn hl(self) -> u16 {
        pair_value(self.h, self.l)
    }

    /// The BC pair.
    pub open spec fn bc(self) -> u16 {
        pair_value(self.b, self.c)
    }

    /// The DE pair.
    pub open spec fn de(self) -> u16 {
        pair_value(self.d, self.e)
    }

    /// The registers with HL set to `val`.
    pub open spec fn with_hl(self, val: u16) -> Cpu {
        Cpu { h: high_byte(val), l: low_byte(val), ..self }
    }

    /// The registers with BC set to `val`.
    pub open spec fn with_bc(self, val: u16) -> Cpu {
        Cpu { b: high_byte(val), c: low_byte(val), ..self }
    }

    /// The registers with DE set to `val`.
    pub open spec fn with_de(self, val: u16) -> Cpu {
        Cpu { d: high_byte(val), e: low_byte(val), ..self }
    }

    /// The registers with all four flags replaced.
    pub open spec fn with_flags(self, zero: bool, subtract: bool, half_carry: bool, carry: bool) -> Cpu {
        Cpu { flags: Flags { zero, subtract, half_carry, carry }, ..self }
    }

    /// Reading an 8-bit location: the registers afterwards (the
    /// post-increment and post-decrement forms move HL) and the byte.
    pub open spec fn loc8_read(self, loc: Loc8, mem: Seq<u8>) -> (Cpu, Result<u8, Error>) {
        match loc {
            Loc8::A => (self, Ok(self.a)),
            Loc8::B => (self, Ok(self.b)),
            Loc8::C => (self, Ok(self.c)),
            Loc8::D => (self, Ok(self.d)),
            Loc8::E => (self, Ok(self.e)),
            Loc8::H => (self, Ok(self.h)),
            Loc8::L => (self, Ok(self.l)),
            Loc8::IndHL => (self, read8_spec(mem, self.hl())),
            Loc8::IndBC => (self, read8_spec(mem, self.bc())),
            Loc8::IndDE => (self, read8_spec(mem, self.de())),
            Loc8::IndHLDec => (self.with_hl(self.hl().wrapping_sub(1)), read8_spec(mem, self.hl())),
            Loc8::IndHLInc => (self.with_hl(self.hl().wrapping_add(1)), read8_spec(mem, self.hl())),
            Loc8::IOPlusC => (self, read8_spec(mem, io_addr(self.c))),
            Loc8::IOPlus(pos) => (self, read8_spec(mem, io_addr(pos))),
            Loc8::U8(val) => (self, Ok(val)),
            Loc8::IndU16(addr) => (self, read8_spec(mem, addr)),
        }
    }

    /// Writing an 8-bit location: the registers, the memory and the outcome.
    pub open spec fn loc8_write(self, loc: Loc8, mem: Seq<u8>, val: u8) -> (Cpu, Seq<u8>, Result<(), Error>) {
        match loc {
            Loc8::A => (Cpu { a: val, ..self }, mem, Ok(())),
            Loc8::B => (Cpu { b: val, ..self }, mem, Ok(())),
            Loc8::C => (Cpu { c: val, ..self }, mem, Ok(())),
            Loc8::D => (Cpu { d: val, ..self }, mem, Ok(())),
            Loc8::E => (Cpu { e: val, ..self }, mem, Ok(())),
            Loc8::H => (Cpu { h: val, ..self }, mem, Ok(())),
            Loc8::L => (Cpu { l: val, ..self }, mem, Ok(())),
            Loc8::IndHL => Self::after_write(self, write8_spec(mem, self.hl(), val)),
            Loc8::IndBC => Self::after_write(self, write8_spec(mem, self.bc(), val)),
            Loc8::IndDE => Self::after_write(self, write8_spec(mem, self.de(), val)),
            Loc8::IndHLDec => Self::after_write(
                self.with_hl(self.hl().wrapping_sub(1)),
                write8_spec(mem, self.hl(), val),
            ),
            Loc8::IndHLInc => Self::after_write(
                self.with_hl(self.hl().wrapping_add(1)),
                write8_spec(mem, self.hl(), val),
            ),
            Loc8::IOPlusC => Self::after_write(self, write8_spec(mem, io_addr(self.c), val)),
            Loc8::IOPlus(pos) => Self::after_write(self, write8_spec(mem, io_addr(pos), val)),
            Loc8::IndU16(addr) => Self::after_write(self, write8_spec(mem, addr, val)),
            // An immediate is not a place to write; no decoded instruction does.
            Loc8::U8(_) => (self, mem, Ok(())),
        }
    }

    /// Registers `cpu` with the memory and outcome of a write.
    pub open spec fn after_write(cpu: Cpu, w: (Seq<u8>, Result<(), Error>)) -> (Cpu, Seq<u8>, Result<(), Error>) {
        (cpu, w.0, w.1)
    }

    /// The value of a 16-bit location.
    pub open spec fn loc16_value(self, loc: Loc16) -> u16 {
        match loc {
            Loc16::HL => self.hl(),
            Loc16::BC => self.bc(),
            Loc16::DE => self.de(),
            Loc16::SP => self.sp,
            Loc16::U16(val) => val,
        }
    }

    /// The registers after writing a 16-bit location.
    pub open spec fn with_loc16(self, loc: Loc16, val: u16) -> Cpu {
        match loc {
            Loc16::HL => self.with_hl(val),
            Loc16::BC => self.with_bc(val),
            Loc16::DE => self.with_de(val),
            Loc16::SP => Cpu { sp: val, ..self },
            Loc16::U16(_) => self,
        }
    }

    /// The condition holds on the current flags.
    pub open spec fn cond_holds(self, cond: Cond) -> bool {
        match cond {
            Cond::NotZero => !self.flags.zero,
            Cond::Zero => self.flags.zero,
            Cond::NotCarry => !self.flags.carry,
            Cond::Carry => self.flags.carry,
            Cond::Always => true,
        }
    }

    /// Registers after a step that failed at `e`, with memory as it was left.
    pub open spec fn failed(self, mem: Seq<u8>, e: Error) -> (Cpu, Seq<u8>, Result<(), Error>) {
        (self, mem, Err(e))
    }

    /// Effect of one instruction on registers, flags and memory. The
    /// program counter has already moved past the instruction.
    pub open spec fn execute_spec(self, inst: Instruction, mem: Seq<u8>) -> (Cpu, Seq<u8>, Result<(), Error>) {
        match inst {
            Instruction::Load8 { src, dst } => {
                let (c, r) = self.loc8_read(src, mem);
                match r {
                    Err(e) => c.failed(mem, e),
                    Ok(v) => c.loc8_write(dst, mem, v),
                }
            },
            Instruction::Load16 { src, dst } => (self.with_loc16(dst, self.loc16_value(src)), mem, Ok(())),
            Instruction::Inc8 { loc } => {
                let (c, r) = self.loc8_read(loc, mem);
                match r {
                    Err(e) => c.failed(mem, e),
                    Ok(v) => c.loc8_write(loc, mem, v.wrapping_add(1)),
                }
            },
            Instruction::Inc16 { loc } => (self.with_loc16(loc, self.loc16_value(loc).wrapping_add(1)), mem, Ok(())),
            Instruction::Dec8 { loc } => {
                let (c, r) = self.loc8_read(loc, mem);
                match r {
                    Err(e) => c.failed(mem, e),
                    Ok(v) => {
                        let res = v.wrapping_sub(1);
                        let (c2, m2, r2) = c.loc8_write(loc, mem, res);
                        match r2 {
                            Err(e) => c2.failed(m2, e),
                            Ok(_) => (c2.with_flags(res == 0, true, res != 0xff, c2.flags.carry), m2, Ok(())),
                        }
                    },
                }
            },
            Instruction::AddA { src } => {
                let (c, r) = self.loc8_read(src, mem);
                match r {
                    Err(e) => c.failed(mem, e),
                    Ok(v) => {
                        let sum = self.a + v;
                        let res = (sum % 256) as u8;
                        (
                            Cpu { a: res, ..c }.with_flags(res == 0, false, self.a % 16 + v % 16 >= 16, sum >= 256),
                            mem,
                            Ok(()),
                        )
                    },
                }
            },
            Instruction::XOR { src, dst } => {
                let (c1, r1) = self.loc8_read(src, mem);
                match r1 {
                    Err(e) => c1.failed(mem, e),
                    Ok(s) => {
                        let (c2, r2) = c1.loc8_read(dst, mem);
                        match r2 {
                            Err(e) => c2.failed(mem, e),
                            Ok(d) => c2.loc8_write(dst, mem, s ^ d),
                        }
                    },
                }
            },
            Instruction::Sub { src } => {
                let (c, r) = self.loc8_read(src, mem);
                match r {
                    Err(e) => c.failed(mem, e),
                    Ok(v) => {
                        let res = self.a.wrapping_sub(v);
                        (
                            Cpu { a: res, ..c }.with_flags(res == 0, true, c.flags.half_carry, self.a < v),
                            mem,
                            Ok(()),
                        )
                    },
                }
            },
            Instruction::Compare { loc } => {
                let (c, r) = self.loc8_read(loc, mem);
                match r {
                    Err(e) => c.failed(mem, e),
                    Ok(v) => (
                        c.with_flags(self.a.wrapping_sub(v) == 0, true, c.flags.half_carry, self.a < v),
                        mem,
                        Ok(()),
                    ),
                }
            },
            Instruction::CheckBit { bit, loc } => {
                let (c, r) = self.loc8_read(loc, mem);
                match r {
                    Err(e) => c.failed(mem, e),
                    Ok(v) => (c.with_flags((v >> bit) & 1 == 0, false, true, c.flags.carry), mem, Ok(())),
                }
            },
            Instruction::RotateLeftCarry { loc } => {
                let (c, r) = self.loc8_read(loc, mem);
                match r {
                    Err(e) => c.failed(mem, e),
                    Ok(v) => {
                        let res = rotl8(v);
                        let (c2, m2, r2) = c.loc8_write(loc, mem, res);
                        match r2 {
                            Err(e) => c2.failed(m2, e),
                            Ok(_) => (c2.with_flags(res == 0, false, false, res % 2 == 1), m2, Ok(())),
                        }
                    },
                }
            },
            Instruction::RotateLeft { loc } => {
                let (c, r) = self.loc8_read(loc, mem);
                match r {
                    Err(e) => c.failed(mem, e),
                    Ok(v) => {
                        let rot = rotl8(v);
                        // The old carry is or-ed into bit 0.
                        let res = if c.flags.carry { rot | 1 } else { rot };
                        let (c2, m2, r2) = c.loc8_write(loc, mem, res);
                        match r2 {
                            Err(e) => c2.failed(m2, e),
                            Ok(_) => (c2.with_flags(res == 0, false, false, rot % 2 == 1), m2, Ok(())),
                        }
                    },
                }
            },
            Instruction::JR { cond, offset } => if self.cond_holds(cond) {
                (Cpu { pc: self.pc.wrapping_add_signed(offset as i16), ..self }, mem, Ok(()))
            } else {
                (self, mem, Ok(()))
            },
            Instruction::Call { cond, addr } => if self.cond_holds(cond) {
                let (m, r) = write16_spec(mem, self.sp.wrapping_sub(1), self.pc);
                match r {
                    Err(e) => self.failed(m, e),
                    Ok(_) => (Cpu { sp: self.sp.wrapping_sub(2), pc: addr, ..self }, m, Ok(())),
                }
            } else {
                (self, mem, Ok(()))
            },
            Instruction::Return { cond } => if self.cond_holds(cond) {
                let c = Cpu { sp: self.sp.wrapping_add(2), ..self };
                match read16_spec(mem, c.sp.wrapping_sub(1)) {
                    Err(e) => c.failed(mem, e),
                    Ok(addr) => (Cpu { pc: addr, ..c }, mem, Ok(())),
                }
            } else {
                (self, mem, Ok(()))
            },
            Instruction::Push { loc } => {
                let (m, r) = write16_spec(mem, self.sp.wrapping_sub(1), self.loc16_value(loc));
                match r {
                    Err(e) => self.failed(m, e),
                    Ok(_) => (Cpu { sp: self.sp.wrapping_sub(2), ..self }, m, Ok(())),
                }
            },
            Instruction::Pop { loc } => {
                let c = Cpu { sp: self.sp.wrapping_add(2), ..self };
                match read16_spec(mem, c.sp.wrapping_sub(1)) {
                    Err(e) => c.failed(mem, e),
                    Ok(v) => (c.with_loc16(loc, v), mem, Ok(())),
                }
            },
        }
    }

    /// One step: decode at `pc`, move `pc` past the instruction, execute it.
    /// A decode failure changes nothing.
    #[verifier::opaque]
    pub open spec fn step_spec(self, mem: Seq<u8>) -> (Cpu, Seq<u8>, Result<(), Error>) {
        match parse_spec(self.pc, mem) {
            Err(e) => self.failed(mem, e),
            Ok((inst, len)) => Cpu { pc: self.pc.wrapping_add(len), ..self }.execute_spec(inst, mem),
        }
    }
}

impl Cpu {
    /// The HL pair: H is the high byte.
    pub fn get_hl(&self) -> (r: u16)
        ensures
            r == self.hl(),
    {
        (self.h as u16) * 256 + (self.l as u16)
    }

    /// Sets H to the high byte of `val` and L to its low byte.
    pub fn set_hl(&mut self, val: u16)
        ensures
            *final(self) == old(self).with_hl(val),
    {
        self.h = (val / 256) as u8;
        self.l = (val % 256) as u8;
    }

    /// The BC pair: B is the high byte.
    pub fn get_bc(&self) -> (r: u16)
        ensures
            r == self.bc(),
    {
        (self.b as u16) * 256 + (self.c as u16)
    }

    /// Sets B to the high byte of `val` and C to its low byte.
    pub fn set_bc(&mut self, val: u16)
        ensures
            *final(self) == old(self).with_bc(val),
    {
        self.b = (val / 256) as u8;
        self.c = (val % 256) as u8;
    }

    /// The DE pair: D is the high byte.
    pub fn get_de(&self) -> (r: u16)
        ensures
            r == self.de(),
    {
        (self.d as u16) * 256 + (self.e as u16)
    }

    /// Sets D to the high byte of `val` and E to its low byte.
    pub fn set_de(&mut self, val: u16)
        ensures
            *final(self) == old(self).with_de(val),
    {
        self.d = (val / 256) as u8;
        self.e = (val % 256) as u8;
    }

    /// Reads an 8-bit location; `(HL-)` and `(HL+)` move HL after taking its value.
    pub fn get_loc8(&mut self, loc: Loc8, mmu: &Mmu) -> (r: Result<u8, Error>)
        ensures
            (*final(self), r) == old(self).loc8_read(loc, mmu@),
    {
        let res = match loc {
            Loc8::A => self.a,
            Loc8::B => self.b,
            Loc8::C => self.c,
            Loc8::D => self.d,
            Loc8::E => self.e,
            Loc8::H => self.h,
            Loc8::L => self.l,
            // (HL)
            Loc8::IndHL => mmu.read_u8(self.get_hl())?,
            Loc8::IndBC => mmu.read_u8(self.get_bc())?,
            Loc8::IndDE => mmu.read_u8(self.get_de())?,
            // (HL-)
            Loc8::IndHLDec => {
                let hl = self.get_hl();
                self.set_hl(hl.wrapping_sub(1));
                mmu.read_u8(hl)?
            },
            // (HL+)
            Loc8::IndHLInc => {
                let hl = self.get_hl();
                self.set_hl(hl.wrapping_add(1));
                mmu.read_u8(hl)?
            },
            Loc8::IOPlusC => mmu.read_u8(0xff00 + (self.c as u16))?,
            Loc8::IOPlus(pos) => mmu.read_u8(0xff00 + (pos as u16))?,
            Loc8::U8(val) => val,
            Loc8::IndU16(addr) => mmu.read_u8(addr)?,
        };
        Ok(res)
    }

    /// Writes an 8-bit location; `(HL-)` and `(HL+)` move HL after taking its
    /// value. An immediate cannot be written.
    pub fn set_loc8(&mut self, loc: Loc8, mmu: &mut Mmu, val: u8) -> (r: Result<(), Error>)
        requires
            !(loc is U8),
        ensures
            (*final(self), final(mmu)@, r) == old(self).loc8_write(loc, old(mmu)@, val),
    {
        match loc {
            Loc8::A => self.a = val,
            Loc8::B => self.b = val,
            Loc8::C => self.c = val,
            Loc8::D => self.d = val,
            Loc8::E => self.e = val,
            Loc8::H => self.h = val,
            Loc8::L => self.l = val,
            // (HL)
            Loc8::IndHL => mmu.write_u8(self.get_hl(), val)?,
            Loc8::IndBC => mmu.write_u8(self.get_bc(), val)?,
            Loc8::IndDE => mmu.write_u8(self.get_de(), val)?,
            // (HL-)
            Loc8::IndHLDec => {
                let hl = self.get_hl();
                self.set_hl(hl.wrapping_sub(1));
                mmu.write_u8(hl, val)?;
            },
            // (HL+)
            Loc8::IndHLInc => {
                let hl = self.get_hl();
                self.set_hl(hl.wrapping_add(1));
                mmu.write_u8(hl, val)?;
            },
            Loc8::IOPlusC => mmu.write_u8(0xff00 + (self.c as u16), val)?,
            Loc8::IOPlus(pos) => mmu.write_u8(0xff00 + (pos as u16), val)?,
            Loc8::IndU16(addr) => mmu.write_u8(addr, val)?,
            Loc8::U8(_) => {},
        }
        Ok(())
    }

    /// The value of a 16-bit location.
    pub fn get_loc16(&self, loc: Loc16) -> (r: u16)
        ensures
            r == self.loc16_value(loc),
    {
        match loc {
            Loc16::HL => self.get_hl(),
            Loc16::BC => self.get_bc(),
            Loc16::DE => self.get_de(),
            Loc16::SP => self.sp,
            Loc16::U16(val) => val,
        }
    }

    /// Writes a 16-bit location; an immediate cannot be written.
    pub fn set_loc16(&mut self, loc: Loc16, val: u16)
        requires
            !(loc is U16),
        ensures
            *final(self) == old(self).with_loc16(loc, val),
    {
        match loc {
            Loc16::HL => self.set_hl(val),
            Loc16::BC => self.set_bc(val),
            Loc16::DE => self.set_de(val),
            Loc16::SP => self.sp = val,
            Loc16::U16(_) => {},
        }
    }

    /// Whether a branch on `cond` is taken.
    pub fn check_cond(&self, cond: Cond) -> (r: bool)
        ensures
            r == self.cond_holds(cond),
    {
        match cond {
            Cond::NotZero => !self.flags.zero,
            Cond::Zero => self.flags.zero,
            Cond::NotCarry => !self.flags.carry,
            Cond::Carry => self.flags.carry,
            Cond::Always => true,
        }
    }

    /// Applies one decoded instruction. The program counter is expected to
    /// point past it already.
    pub fn execute(&mut self, inst: Instruction, mmu: &mut Mmu) -> (r: Result<(), Error>)
        requires
            inst.well_formed(),
        ensures
            (*final(self), final(mmu)@, r) == old(self).execute_spec(inst, old(mmu)@),
    {
        match inst {
            Instruction::Load8 { src, dst } => self.load8(src, dst, mmu),
            Instruction::Load16 { src, dst } => {
                let val = self.get_loc16(src);
                self.set_loc16(dst, val);
                Ok(())
            },
            Instruction::Inc8 { loc } => self.inc8(loc, mmu),
            Instruction::Inc16 { loc } => {
                let val = self.get_loc16(loc);
                self.set_loc16(loc, val.wrapping_add(1));
                Ok(())
            },
            Instruction::Dec8 { loc } => self.dec8(loc, mmu),
            Instruction::AddA { src } => self.add_a(src, mmu),
            Instruction::XOR { src, dst } => self.xor(src, dst, mmu),
            Instruction::Sub { src } => self.sub_a(src, mmu),
            Instruction::Compare { loc } => self.compare(loc, mmu),
            Instruction::CheckBit { bit, loc } => self.check_bit(bit, loc, mmu),
            Instruction::RotateLeftCarry { loc } => self.rotate_left_carry(loc, mmu),
            Instruction::RotateLeft { loc } => self.rotate_left_through(loc, mmu),
            Instruction::JR { cond, offset } => {
                if self.check_cond(cond) {
                    self.pc = self.pc.wrapping_add_signed(offset as i16);
                }
                Ok(())
            },
            Instruction::Call { cond, addr } => self.call(cond, addr, mmu),
            Instruction::Return { cond } => self.ret(cond, mmu),
            Instruction::Push { loc } => self.push(loc, mmu),
            Instruction::Pop { loc } => self.pop(loc, mmu),
        }
    }

    fn load8(&mut self, src: Loc8, dst: Loc8, mmu: &mut Mmu) -> (r: Result<(), Error>)
        requires
            !(dst is U8),
        ensures
            (*final(self), final(mmu)@, r) == old(self).execute_spec(Instruction::Load8 { src, dst }, old(mmu)@),
    {
        let val = self.get_loc8(src, mmu)?;
        self.set_loc8(dst, mmu, val)
    }

    fn inc8(&mut self, loc: Loc8, mmu: &mut Mmu) -> (r: Result<(), Error>)
        requires
            !(loc is U8),
        ensures
            (*final(self), final(mmu)@, r) == old(self).execute_spec(Instruction::Inc8 { loc }, old(mmu)@),
    {
        let val = self.get_loc8(loc, mmu)?;
        self.set_loc8(loc, mmu, val.wrapping_add(1))
    }

    fn dec8(&mut self, loc: Loc8, mmu: &mut Mmu) -> (r: Result<(), Error>)
        requires
            !(loc is U8),
        ensures
            (*final(self), final(mmu)@, r) == old(self).execute_spec(Instruction::Dec8 { loc }, old(mmu)@),
    {
        let val = self.get_loc8(loc, mmu)?;
        let result = val.wrapping_sub(1);
        self.set_loc8(loc, mmu, result)?;
        self.flags.zero = result == 0;
        self.flags.subtract = true;
        // set when there is no borrow from bit 4
        self.flags.half_carry = result != 0xff;
        Ok(())
    }

    fn add_a(&mut self, src: Loc8, mmu: &mut Mmu) -> (r: Result<(), Error>)
        ensures
            (*final(self), final(mmu)@, r) == old(self).execute_spec(Instruction::AddA { src }, old(mmu)@),
    {
        let dst = self.a as u16;
        let src = self.get_loc8(src, mmu)? as u16;
        let result = src + dst;
        self.a = (result % 256) as u8;
        self.flags.zero = self.a == 0;
        self.flags.subtract = false;
        self.flags.half_carry = src % 16 + dst % 16 >= 16;
        self.flags.carry = result >= 256;
        Ok(())
    }

    fn xor(&mut self, src: Loc8, dst: Loc8, mmu: &mut Mmu) -> (r: Result<(), Error>)
        requires
            !(dst is U8),
        ensures
            (*final(self), final(mmu)@, r) == old(self).execute_spec(Instruction::XOR { src, dst }, old(mmu)@),
    {
        let srcval = self.get_loc8(src, mmu)?;
        let dstval = self.get_loc8(dst, mmu)?;
        self.set_loc8(dst, mmu, srcval ^ dstval)
    }

    fn sub_a(&mut self, src: Loc8, mmu: &mut Mmu) -> (r: Result<(), Error>)
        ensures
            (*final(self), final(mmu)@, r) == old(self).execute_spec(Instruction::Sub { src }, old(mmu)@),
    {
        let src_val = self.get_loc8(src, mmu)?;
        let result = self.a.wrapping_sub(src_val);
        self.flags.zero = result == 0;
        self.flags.subtract = true;
        // half carry is left as it was
        self.flags.carry = self.a < src_val;
        self.a = result;
        Ok(())
    }

    fn compare(&mut self, loc: Loc8, mmu: &mut Mmu) -> (r: Result<(), Error>)
        ensures
            (*final(self), final(mmu)@, r) == old(self).execute_spec(Instruction::Compare { loc }, old(mmu)@),
    {
        // A subtraction whose result is thrown away.
        let val = self.get_loc8(loc, mmu)?;
        let result = self.a.wrapping_sub(val);
        self.flags.zero = result == 0;
        self.flags.subtract = true;
        self.flags.carry = self.a < val;
        Ok(())
    }

    fn check_bit(&mut self, bit: u8, loc: Loc8, mmu: &mut Mmu) -> (r: Result<(), Error>)
        requires
            bit < 8,
        ensures
            (*final(self), final(mmu)@, r) == old(self).execute_spec(Instruction::CheckBit { bit, loc }, old(mmu)@),
    {
        let val = self.get_loc8(loc, mmu)?;
        self.flags.zero = (val >> bit) & 1 == 0;
        self.flags.subtract = false;
        self.flags.half_carry = true;
        Ok(())
    }

    fn rotate_left_carry(&mut self, loc: Loc8, mmu: &mut Mmu) -> (r: Result<(), Error>)
        requires
            !(loc is U8),
        ensures
            (*final(self), final(mmu)@, r) == old(self).execute_spec(Instruction::RotateLeftCarry { loc }, old(mmu)@),
    {
        let val = self.get_loc8(loc, mmu)?;
        let val = rotate_left(val);
        self.set_loc8(loc, mmu, val)?;
        self.flags.zero = val == 0;
        self.flags.carry = val % 2 == 1;
        self.flags.subtract = false;
        self.flags.half_carry = false;
        Ok(())
    }

    fn rotate_left_through(&mut self, loc: Loc8, mmu: &mut Mmu) -> (r: Result<(), Error>)
        requires
            !(loc is U8),
        ensures
            (*final(self), final(mmu)@, r) == old(self).execute_spec(Instruction::RotateLeft { loc }, old(mmu)@),
    {
        let val = self.get_loc8(loc, mmu)?;
        let val = rotate_left(val);
        // carry takes the bit that went round to the start
        let new_carry = val % 2 == 1;
        // and the old carry is or-ed into bit 0
        let val = if self.flags.carry { val | 1 } else { val };
        self.set_loc8(loc, mmu, val)?;
        self.flags.zero = val == 0;
        self.flags.carry = new_carry;
        self.flags.subtract = false;
        self.flags.half_carry = false;
        Ok(())
    }

    fn call(&mut self, cond: Cond, addr: u16, mmu: &mut Mmu) -> (r: Result<(), Error>)
        ensures
            (*final(self), final(mmu)@, r) == old(self).execute_spec(Instruction::Call { cond, addr }, old(mmu)@),
    {
        if self.check_cond(cond) {
            mmu.write_u16(self.sp.wrapping_sub(1), self.pc)?;
            self.sp = self.sp.wrapping_sub(2);
            self.pc = addr;
        }
        Ok(())
    }

    fn ret(&mut self, cond: Cond, mmu: &mut Mmu) -> (r: Result<(), Error>)
        ensures
            (*final(self), final(mmu)@, r) == old(self).execute_spec(Instruction::Return { cond }, old(mmu)@),
    {
        if self.check_cond(cond) {
            self.sp = self.sp.wrapping_add(2);
            let addr = mmu.read_u16(self.sp.wrapping_sub(1))?;
            self.pc = addr;
        }
        Ok(())
    }

    fn push(&mut self, loc: Loc16, mmu: &mut Mmu) -> (r: Result<(), Error>)
        ensures
            (*final(self), final(mmu)@, r) == old(self).execute_spec(Instruction::Push { loc }, old(mmu)@),
    {
        let value = self.get_loc16(loc);
        mmu.write_u16(self.sp.wrapping_sub(1), value)?;
        self.sp = self.sp.wrapping_sub(2);
        Ok(())
    }

    fn pop(&mut self, loc: Loc16, mmu: &mut Mmu) -> (r: Result<(), Error>)
        requires
            !(loc is U16),
        ensures
            (*final(self), final(mmu)@, r) == old(self).execute_spec(Instruction::Pop { loc }, old(mmu)@),
    {
        self.sp = self.sp.wrapping_add(2);
        let value = mmu.read_u16(self.sp.wrapping_sub(1))?;
        self.set_loc16(loc, value);
        Ok(())
    }

    /// Decodes the instruction at `pc`, moves `pc` past it and executes it.
    pub fn step(&mut self, mmu: &mut Mmu) -> (r: Result<(), Error>)
        ensures
            (*final(self), final(mmu)@, r) == old(self).step_spec(old(mmu)@),
    {
        reveal(Cpu::step_spec);
        let (inst, delta) = Instruction::parse(self.pc, mmu)?;
        self.pc = self.pc.wrapping_add(delta);
        self.execute(inst, mmu)
    }
}

/// One bit rotation to the left.
fn rotate_left(val: u8) -> (r: u8)
    ensures
        r == rotl8(val),
{
    let r = (val << 1) | (val >> 7);
    assert(r == ((val * 2) % 256 + val / 128) as u8) by (bit_vector)
        requires
            r == (val << 1) | (val >> 7),
    ;
    r
}

/// A register pair and its two registers agree: setting the pair to
/// `(hi << 8) | lo` leaves `hi` in its first register and `lo` in its
/// second, and setting the two registers gives the pair that value.
pub proof fn lemma_register_pairs(cpu: Cpu, hi: u8, lo: u8)
    ensures
        cpu.with_bc(((hi as u16) << 8) | (lo as u16)).b == hi,
        cpu.with_bc(((hi as u16) << 8) | (lo as u16)).c == lo,
        (Cpu { b: hi, c: lo, ..cpu }).bc() == ((hi as u16) << 8) | (lo as u16),
        cpu.with_de(((hi as u16) << 8) | (lo as u16)).d == hi,
        cpu.with_de(((hi as u16) << 8) | (lo as u16)).e == lo,
        (Cpu { d: hi, e: lo, ..cpu }).de() == ((hi as u16) << 8) | (lo as u16),
        cpu.with_hl(((hi as u16) << 8) | (lo as u16)).h == hi,
        cpu.with_hl(((hi as u16) << 8) | (lo as u16)).l == lo,
        (Cpu { h: hi, l: lo, ..cpu }).hl() == ((hi as u16) << 8) | (lo as u16),
{
    let w = ((hi as u16) << 8) | (lo as u16);
    assert(w == hi as int * 256 + lo as int) by (bit_vector)
        requires
            w == ((hi as u16) << 8) | (lo as u16),
    ;
}

/// A push directly followed by a pop of the same 16-bit location gives back
/// the registers as they were, the location's value and `sp` included,
/// unless a pushed byte landed on the scan-line register, which always reads
/// "in vertical blank".
pub proof fn lemma_push_pop(cpu: Cpu, loc: Loc16, mem: Seq<u8>)
    requires
        !(loc is U16),
        cpu.execute_spec(Instruction::Push { loc }, mem).2 is Ok,
        cpu.sp.wrapping_sub(1) != LY_REGISTER,
        cpu.sp != LY_REGISTER,
    ensures
        ({
            let (c1, m1, _) = cpu.execute_spec(Instruction::Push { loc }, mem);
            c1.execute_spec(Instruction::Pop { loc }, m1) == (cpu, m1, Ok::<(), Error>(()))
        }),
{
    let addr = cpu.sp.wrapping_sub(1);
    let val = cpu.loc16_value(loc);
    let (m1, r1) = write16_spec(mem, addr, val);
    let c1 = Cpu { sp: cpu.sp.wrapping_sub(2), ..cpu };
    assert(cpu.execute_spec(Instruction::Push { loc }, mem) == (c1, m1, r1));
    crate::mem::lemma_write16_read16(mem, addr, val);
    let c2 = Cpu { sp: c1.sp.wrapping_add(2), ..c1 };
    assert(c2 == cpu);
    assert(c2.sp.wrapping_sub(1) == addr);
    assert(c1.execute_spec(Instruction::Pop { loc }, m1) == (c2.with_loc16(loc, val), m1, Ok::<(), Error>(())));
    lemma_pair_split(cpu.h, cpu.l);
    lemma_pair_split(cpu.b, cpu.c);
    lemma_pair_split(cpu.d, cpu.e);
    assert(cpu.with_loc16(loc, val) == cpu);
}

/// Splitting a register pair's value gives back its two registers.
proof fn lemma_pair_split(high: u8, low: u8)
    ensures
        high_byte(pair_value(high, low)) == high,
        low_byte(pair_value(high, low)) == low,
{
}

/// A step whose decode gives `inst` of `len` bytes moves `pc` past it and
/// executes it.
pub proof fn lemma_step_decoded(cpu: Cpu, mem: Seq<u8>, inst: Instruction, len: u16)
    requires
        parse_spec(cpu.pc, mem) == Ok::<(Instruction, u16), Error>((inst, len)),
    ensures
        cpu.step_spec(mem) == (Cpu { pc: cpu.pc.wrapping_add(len), ..cpu }).execute_spec(inst, mem),
{
    reveal(Cpu::step_spec);
}

/// Two steps over a push of a register pair directly followed by a pop of
/// the same pair give back the registers as they were, `sp` included, with
/// `pc` past both instructions; provided the push went through, its two
/// stack bytes do not overwrite the pop, and neither is the scan-line
/// register.
pub proof fn lemma_push_pop_steps(cpu: Cpu, mem: Seq<u8>, push_op: u8, pop_op: u8, loc: Loc16)
    requires
        push_pop_pair(push_op, pop_op, loc),
        read8_spec(mem, cpu.pc) == Ok::<u8, Error>(push_op),
        read8_spec(mem, next_addr(cpu.pc)) == Ok::<u8, Error>(pop_op),
        cpu.step_spec(mem).2 is Ok,
        cpu.sp.wrapping_sub(1) != next_addr(cpu.pc),
        cpu.sp != next_addr(cpu.pc),
        cpu.sp.wrapping_sub(1) != LY_REGISTER,
        cpu.sp != LY_REGISTER,
    ensures
        ({
            let (c1, m1, _) = cpu.step_spec(mem);
            c1.step_spec(m1) == ((Cpu { pc: cpu.pc.wrapping_add(2), ..cpu }), m1, Ok::<(), Error>(()))
        }),
{
    let pc1 = cpu.pc.wrapping_add(1);
    assert(pc1 == next_addr(cpu.pc));
    lemma_parse_push(cpu.pc, mem, push_op, pop_op, loc);
    let c0 = Cpu { pc: pc1, ..cpu };
    lemma_step_decoded(cpu, mem, Instruction::Push { loc }, 1);
    let addr = cpu.sp.wrapping_sub(1);
    let val = cpu.loc16_value(loc);
    let (m1, r1) = write16_spec(mem, addr, val);
    let c1 = Cpu { sp: cpu.sp.wrapping_sub(2), ..c0 };
    assert(c0.execute_spec(Instruction::Push { loc }, mem) == (c1, m1, r1));
    assert(next_addr(addr) == cpu.sp);
    crate::mem::lemma_write16_frame(mem, addr, val, pc1);
    lemma_parse_pop(pc1, m1, push_op, pop_op, loc);
    let c2 = Cpu { pc: cpu.pc.wrapping_add(2), ..cpu };
    assert(pc1.wrapping_add(1) == cpu.pc.wrapping_add(2));
    lemma_step_decoded(c1, m1, Instruction::Pop { loc }, 1);
    assert(c2.execute_spec(Instruction::Push { loc }, mem) == ((Cpu { sp: cpu.sp.wrapping_sub(2), ..c2 }), m1, r1));
    assert((Cpu { pc: pc1.wrapping_add(1), ..c1 }) == (Cpu { sp: cpu.sp.wrapping_sub(2), ..c2 }));
    lemma_push_pop(c2, loc, mem);
}

/// A relative jump on "not zero" (opcode `0x20`) moves `pc` past its two
/// bytes when the zero flag is set, and else further by its signed offset;
/// nothing else changes.
pub proof fn lemma_jump_not_zero(cpu: Cpu, mem: Seq<u8>, offset: u8)
    requires
        read8_spec(mem, cpu.pc) == Ok::<u8, Error>(0x20),
        read8_spec(mem, crate::mem::next_addr(cpu.pc)) == Ok::<u8, Error>(offset),
    ensures
        cpu.step_spec(mem).1 == mem,
        cpu.step_spec(mem).2 == Ok::<(), Error>(()),
        cpu.flags.zero ==> cpu.step_spec(mem).0 == (Cpu { pc: ((cpu.pc + 2) % 0x10000) as u16, ..cpu }),
        !cpu.flags.zero ==> cpu.step_spec(mem).0 == (Cpu {
            pc: ((cpu.pc + 2 + (offset as i8)) % 0x10000) as u16,
            ..cpu
        }),
{
    let inst = Instruction::JR { cond: Cond::NotZero, offset: offset as i8 };
    lemma_parse_jump_not_zero(cpu.pc, mem, offset);
    let c = Cpu { pc: cpu.pc.wrapping_add(2), ..cpu };
    lemma_step_decoded(cpu, mem, inst, 2);
    lemma_wrap_signed(cpu.pc, offset as i8);
}

proof fn lemma_wrap_signed(pc: u16, offset: i8)
    ensures
        pc.wrapping_add(2) == ((pc + 2) % 0x10000) as u16,
        pc.wrapping_add(2).wrapping_add_signed(offset as i16) == ((pc + 2 + offset) % 0x10000) as u16,
{
    if pc + 2 + offset >= 0x10000 {
        assert((pc + 2 + offset) % 0x10000 == pc + 2 + offset - 0x10000);
    } else if pc + 2 + offset < 0 {
        assert((pc + 2 + offset) % 0x10000 == pc + 2 + offset + 0x10000);
    } else {
        assert((pc + 2 + offset) % 0x10000 == pc + 2 + offset);
    }
}

proof fn lemma_parse_jump_not_zero(pc: u16, mem: Seq<u8>, offset: u8)
    requires
        read8_spec(mem, pc) == Ok::<u8, Error>(0x20),
        read8_spec(mem, crate::mem::next_addr(pc)) == Ok::<u8, Error>(offset),
    ensures
        parse_spec(pc, mem) == Ok::<(Instruction, u16), Error>(
            (Instruction::JR { cond: Cond::NotZero, offset: offset as i8 }, 2u16),
        ),
{
    reveal(parse_spec);
    let inst = Instruction::JR { cond: Cond::NotZero, offset: offset as i8 };
    assert(crate::instructions::operand_bytes(0x20) == 1);
    assert(crate::instructions::base_spec(0x20, offset as u16) == Ok::<Instruction, Error>(inst));
}

/// A step whose decode fails leaves registers and memory untouched and
/// reports the decode error.
pub proof fn lemma_decode_failure(cpu: Cpu, mem: Seq<u8>)
    requires
        parse_spec(cpu.pc, mem) is Err,
    ensures
        cpu.step_spec(mem) == (cpu, mem, Err::<(), Error>(parse_spec(cpu.pc, mem)->Err_0)),
{
    reveal(Cpu::step_spec);
}

} // verus!
