//! The register file of the processor and the fields of an opcode that
//! select from it.

use crate::helpers::{high_byte_of, low_byte_of, word_of};
use vstd::prelude::*;

verus! {

/// The five condition flags.
#[derive(Clone, Copy, Debug, PartialEq, Eq)]
pub struct Flags {
    /// Sign: bit 7 of the result.
    pub s: bool,
    /// Zero: the result is zero.
    pub z: bool,
    /// Parity: the result has an even number of bits set.
    pub p: bool,
    /// Carry out of bit 7, or borrow into it.
    pub cy: bool,
    /// Auxiliary carry, out of bit 3.
    pub ac: bool,
}

/// Everything the processor holds besides its memory.
#[derive(Clone, Copy, Debug, PartialEq, Eq)]
pub struct Registers {
    pub a: u8,
    pub b: u8,
    pub c: u8,
    pub d: u8,
    pub e: u8,
    pub h: u8,
    pub l: u8,
    pub sp: u16,
    pub pc: u16,
    pub flags: Flags,
    pub interrupts_enabled: bool,
}

/// What the three-bit source or destination field of an opcode selects:
/// a byte register, or `M`, the memory cell that `HL` points to.
#[derive(Clone, Copy, Debug, PartialEq, Eq)]
pub enum Operand {
    B,
    C,
    D,
    E,
    H,
    L,
    M,
    A,
}

/// What the two-bit pair field selects in most instructions.
#[derive(Clone, Copy, Debug, PartialEq, Eq)]
pub enum RegPair {
    BC,
    DE,
    HL,
    SP,
}

/// What the two-bit pair field selects in `PUSH` and `POP`.
#[derive(Clone, Copy, Debug, PartialEq, Eq)]
pub enum StackPair {
    BC,
    DE,
    HL,
    PSW,
}

/// The eight conditions of jumps, calls and returns.
#[derive(Clone, Copy, Debug, PartialEq, Eq)]
pub enum Condition {
    NotZero,
    Zero,
    NoCarry,
    Carry,
    ParityOdd,
    ParityEven,
    Plus,
    Minus,
}

/// The operand that a three-bit field names.
pub open spec fn operand_of(field: int) -> Operand {
    if field == 0 {
        Operand::B
    } else if field == 1 {
        Operand::C
    } else if field == 2 {
        Operand::D
    } else if field == 3 {
        Operand::E
    } else if field == 4 {
        Operand::H
    } else if field == 5 {
        Operand::L
    } else if field == 6 {
        Operand::M
    } else {
        Operand::A
    }
}

/// The register pair that a two-bit field names.
pub open spec fn pair_of(field: int) -> RegPair {
    if field == 0 {
        RegPair::BC
    } else if field == 1 {
        RegPair::DE
    } else if field == 2 {
        RegPair::HL
    } else {
        RegPair::SP
    }
}

/// The pair that a two-bit field names in `PUSH` and `POP`.
pub open spec fn stack_pair_of(field: int) -> StackPair {
    if field == 0 {
        StackPair::BC
    } else if field == 1 {
        StackPair::DE
    } else if field == 2 {
        StackPair::HL
    } else {
        StackPair::PSW
    }
}

/// The condition that a three-bit field names.
pub open spec fn condition_of(field: int) -> Condition {
    if field == 0 {
        Condition::NotZero
    } else if field == 1 {
        Condition::Zero
    } else if field == 2 {
        Condition::NoCarry
    } else if field == 3 {
        Condition::Carry
    } else if field == 4 {
        Condition::ParityOdd
    } else if field == 5 {
        Condition::ParityEven
    } else if field == 6 {
        Condition::Plus
    } else {
        Condition::Minus
    }
}

/// Reads a three-bit field as an operand.
pub fn operand_from(field: u8) -> (operand: Operand)
    ensures
        operand == operand_of(field as int),
{
    match field {
        0 => Operand::B,
        1 => Operand::C,
        2 => Operand::D,
        3 => Operand::E,
        4 => Operand::H,
        5 => Operand::L,
        6 => Operand::M,
        _ => Operand::A,
    }
}

/// Reads a two-bit field as a register pair.
pub fn pair_from(field: u8) -> (pair: RegPair)
    ensures
        pair == pair_of(field as int),
{
    match field {
        0 => RegPair::BC,
        1 => RegPair::DE,
        2 => RegPair::HL,
        _ => RegPair::SP,
    }
}

/// Reads a two-bit field as a pair of `PUSH` and `POP`.
pub fn stack_pair_from(field: u8) -> (pair: StackPair)
    ensures
        pair == stack_pair_of(field as int),
{
    match field {
        0 => StackPair::BC,
        1 => StackPair::DE,
        2 => StackPair::HL,
        _ => StackPair::PSW,
    }
}

/// Reads a three-bit field as a condition.
pub fn condition_from(field: u8) -> (condition: Condition)
    ensures
        condition == condition_of(field as int),
{
    match field {
        0 => Condition::NotZero,
        1 => Condition::Zero,
        2 => Condition::NoCarry,
        3 => Condition::Carry,
        4 => Condition::ParityOdd,
        5 => Condition::ParityEven,
        6 => Condition::Plus,
        _ => Condition::Minus,
    }
}

impl Flags {
    /// The flags as the byte `F` of the program status word: bit 7 `S`,
    /// bit 6 `Z`, bit 4 `AC`, bit 2 `P`, bit 0 `CY`; bit 1 is set, bits 5
    /// and 3 are clear.
    pub open spec fn to_byte(self) -> u8 {
        ((if self.s { 128int } else { 0 }) + (if self.z { 64int } else { 0 }) + (if self.ac {
            16int
        } else {
            0
        }) + (if self.p { 4int } else { 0 }) + 2 + (if self.cy { 1int } else { 0 })) as u8
    }

    /// The flags that a byte `F` holds; bits 5, 3 and 1 are ignored.
    pub open spec fn from_byte(byte: u8) -> Flags {
        Flags {
            s: (byte as int / 128) % 2 == 1,
            z: (byte as int / 64) % 2 == 1,
            ac: (byte as int / 16) % 2 == 1,
            p: (byte as int / 4) % 2 == 1,
            cy: byte as int % 2 == 1,
        }
    }
}

impl Registers {
    /// The pair `B:C`.
    pub open spec fn bc(self) -> u16 {
        word_of(self.c, self.b)
    }

    /// The pair `D:E`.
    pub open spec fn de(self) -> u16 {
        word_of(self.e, self.d)
    }

    /// The pair `H:L`.
    pub open spec fn hl(self) -> u16 {
        word_of(self.l, self.h)
    }

    /// The program status word: `A` above the flag byte.
    pub open spec fn psw(self) -> u16 {
        word_of(self.flags.to_byte(), self.a)
    }

    /// The byte in a register. For `M`, which is no register, `A`.
    pub open spec fn byte(self, operand: Operand) -> u8 {
        match operand {
            Operand::B => self.b,
            Operand::C => self.c,
            Operand::D => self.d,
            Operand::E => self.e,
            Operand::H => self.h,
            Operand::L => self.l,
            Operand::M => self.a,
            Operand::A => self.a,
        }
    }

    /// The registers with `value` in one of them. For `M`, unchanged.
    pub open spec fn with_byte(self, operand: Operand, value: u8) -> Registers {
        match operand {
            Operand::B => Registers { b: value, ..self },
            Operand::C => Registers { c: value, ..self },
            Operand::D => Registers { d: value, ..self },
            Operand::E => Registers { e: value, ..self },
            Operand::H => Registers { h: value, ..self },
            Operand::L => Registers { l: value, ..self },
            Operand::M => self,
            Operand::A => Registers { a: value, ..self },
        }
    }

    /// The word in a register pair.
    pub open spec fn pair(self, pair: RegPair) -> u16 {
        match pair {
            RegPair::BC => self.bc(),
            RegPair::DE => self.de(),
            RegPair::HL => self.hl(),
            RegPair::SP => self.sp,
        }
    }

    /// The registers with `word` in a pair, high byte in the first register.
    pub open spec fn with_pair(self, pair: RegPair, word: u16) -> Registers {
        match pair {
            RegPair::BC => Registers { b: high_byte_of(word), c: low_byte_of(word), ..self },
            RegPair::DE => Registers { d: high_byte_of(word), e: low_byte_of(word), ..self },
            RegPair::HL => Registers { h: high_byte_of(word), l: low_byte_of(word), ..self },
            RegPair::SP => Registers { sp: word, ..self },
        }
    }

    /// The word that `PUSH` stores for a pair.
    pub open spec fn stack_pair(self, pair: StackPair) -> u16 {
        match pair {
            StackPair::BC => self.bc(),
            StackPair::DE => self.de(),
            StackPair::HL => self.hl(),
            StackPair::PSW => self.psw(),
        }
    }

    /// The registers after `POP` has taken `word` for a pair.
    pub open spec fn with_stack_pair(self, pair: StackPair, word: u16) -> Registers {
        match pair {
            StackPair::BC => self.with_pair(RegPair::BC, word),
            StackPair::DE => self.with_pair(RegPair::DE, word),
            StackPair::HL => self.with_pair(RegPair::HL, word),
            StackPair::PSW => Registers {
                a: high_byte_of(word),
                flags: Flags::from_byte(low_byte_of(word)),
                ..self
            },
        }
    }

    /// Whether a condition holds of the flags.
    pub open spec fn holds(self, condition: Condition) -> bool {
        match condition {
            Condition::NotZero => !self.flags.z,
            Condition::Zero => self.flags.z,
            Condition::NoCarry => !self.flags.cy,
            Condition::Carry => self.flags.cy,
            Condition::ParityOdd => !self.flags.p,
            Condition::ParityEven => self.flags.p,
            Condition::Plus => !self.flags.s,
            Condition::Minus => self.flags.s,
        }
    }

    /// The registers of a processor that has just been made.
    pub open spec fn cleared() -> Registers {
        Registers {
            a: 0,
            b: 0,
            c: 0,
            d: 0,
            e: 0,
            h: 0,
            l: 0,
            sp: 0,
            pc: 0,
            flags: Flags { s: false, z: false, p: false, cy: false, ac: false },
            interrupts_enabled: false,
        }
    }
}

} // verus!
