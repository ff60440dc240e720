use vstd::prelude::*;
use vstd::string::*;

use crate::cpu::Cpu;
use crate::text::{hex2, hex4, push_hex2, push_hex4};

verus! {

/// A register or register pair that can be inspected by name.
#[derive(Debug, PartialEq, Eq, Structural, Clone, Copy)]
pub enum Register {
    A,
    B,
    C,
    D,
    E,
    H,
    L,
    PC,
    SP,
    HL,
    BC,
    DE,
}

/// ASCII lower case of a character.
pub open spec fn ascii_lower(c: char) -> char {
    if 'A' <= c <= 'Z' {
        ((c as int) + 32) as char
    } else {
        c
    }
}

/// `name` spells `lower` when upper-case ASCII letters are read as lower case.
pub open spec fn same_name(name: Seq<char>, lower: Seq<char>) -> bool {
    &&& name.len() == lower.len()
    &&& forall|i: int| 0 <= i < name.len() ==> ascii_lower(#[trigger] name[i]) == lower[i]
}

fn lower_char(c: char) -> (r: char)
    ensures
        r == ascii_lower(c),
{
    if 'A' <= c && c <= 'Z' {
        ((c as u8) + 32) as char
    } else {
        c
    }
}

fn is_name(name: &str, lower: &str) -> (r: bool)
    ensures
        r == same_name(name@, lower@),
{
    let n = name.unicode_len();
    if n != lower.unicode_len() {
        return false;
    }
    let mut i: usize = 0;
    while i < n
        invariant
            n == name@.len() == lower@.len(),
            i <= n,
            forall|j: int| 0 <= j < i ==> ascii_lower(#[trigger] name@[j]) == lower@[j],
        decreases n - i,
    {
        if lower_char(name.get_char(i)) != lower.get_char(i) {
            return false;
        }
        i = i + 1;
    }
    true
}

impl Register {
    /// The register's name in lower case.
    pub open spec fn name_spec(self) -> Seq<char> {
        match self {
            Register::A => "a"@,
            Register::B => "b"@,
            Register::C => "c"@,
            Register::D => "d"@,
            Register::E => "e"@,
            Register::H => "h"@,
            Register::L => "l"@,
            Register::PC => "pc"@,
            Register::SP => "sp"@,
            Register::HL => "hl"@,
            Register::BC => "bc"@,
            Register::DE => "de"@,
        }
    }

    fn name(&self) -> (r: &'static str)
        ensures
            r@ == self.name_spec(),
    {
        match self {
            Register::A => "a",
            Register::B => "b",
            Register::C => "c",
            Register::D => "d",
            Register::E => "e",
            Register::H => "h",
            Register::L => "l",
            Register::PC => "pc",
            Register::SP => "sp",
            Register::HL => "hl",
            Register::BC => "bc",
            Register::DE => "de",
        }
    }

    /// The register that `name` names, in any mix of cases.
    pub fn from_name(name: &str) -> (r: Option<Register>)
        ensures
            r matches Some(reg) ==> same_name(name@, reg.name_spec()),
            r is None ==> forall|reg: Register| !same_name(name@, #[trigger] reg.name_spec()),
    {
        let all = [
            Register::A,
            Register::B,
            Register::C,
            Register::D,
            Register::E,
            Register::H,
            Register::L,
            Register::PC,
            Register::SP,
            Register::HL,
            Register::BC,
            Register::DE,
        ];
        let mut i: usize = 0;
        while i < 12
            invariant
                i <= 12,
                all@ == seq![
                    Register::A,
                    Register::B,
                    Register::C,
                    Register::D,
                    Register::E,
                    Register::H,
                    Register::L,
                    Register::PC,
                    Register::SP,
                    Register::HL,
                    Register::BC,
                    Register::DE,
                ],
                forall|j: int| 0 <= j < i ==> !same_name(name@, #[trigger] all@[j].name_spec()),
            decreases 12 - i,
        {
            let reg = all[i];
            if is_name(name, reg.name()) {
                return Some(reg);
            }
            i = i + 1;
        }
        assert forall|reg: Register| !same_name(name@, #[trigger] reg.name_spec()) by {
            let j: int = match reg {
                Register::A => 0,
                Register::B => 1,
                Register::C => 2,
                Register::D => 3,
                Register::E => 4,
                Register::H => 5,
                Register::L => 6,
                Register::PC => 7,
                Register::SP => 8,
                Register::HL => 9,
                Register::BC => 10,
                Register::DE => 11,
            };
            assert(all@[j] == reg);
        }
        None
    }
}

impl Cpu {
    /// `name = value` for a register, two hexadecimal digits for an 8-bit
    /// register and four for the others.
    pub open spec fn register_text_spec(self, reg: Register) -> Seq<char> {
        reg.name_spec() + " = "@ + match reg {
            Register::A => hex2(self.a),
            Register::B => hex2(self.b),
            Register::C => hex2(self.c),
            Register::D => hex2(self.d),
            Register::E => hex2(self.e),
            Register::H => hex2(self.h),
            Register::L => hex2(self.l),
            Register::PC => hex4(self.pc),
            Register::SP => hex4(self.sp),
            Register::HL => hex4(self.hl()),
            Register::BC => hex4(self.bc()),
            Register::DE => hex4(self.de()),
        }
    }

    /// The value of one register as `name = value`.
    pub fn register_text(&self, reg: Register) -> (r: String)
        ensures
            r@ == self.register_text_spec(reg),
    {
        let mut s = String::from_str(reg.name());
        s.append(" = ");
        match reg {
            Register::A => push_hex2(&mut s, self.a),
            Register::B => push_hex2(&mut s, self.b),
            Register::C => push_hex2(&mut s, self.c),
            Register::D => push_hex2(&mut s, self.d),
            Register::E => push_hex2(&mut s, self.e),
            Register::H => push_hex2(&mut s, self.h),
            Register::L => push_hex2(&mut s, self.l),
            Register::PC => push_hex4(&mut s, self.pc),
            Register::SP => push_hex4(&mut s, self.sp),
            Register::HL => push_hex4(&mut s, self.get_hl()),
            Register::BC => push_hex4(&mut s, self.get_bc()),
            Register::DE => push_hex4(&mut s, self.get_de()),
        }
        s
    }
}

} // verus!
