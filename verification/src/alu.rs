//! What the arithmetic and logic instructions compute: a byte and the
//! flags that go with it.

use crate::helpers::{even_parity, half_borrow, half_carry};
use crate::registers::Flags;
use vstd::prelude::*;

verus! {

/// The eight operations of the accumulator group, in the order of their
/// opcode field.
#[derive(Clone, Copy, Debug, PartialEq, Eq)]
pub enum AluOp {
    Add,
    Adc,
    Sub,
    Sbb,
    Ana,
    Xra,
    Ora,
    Compare,
}

/// The operation that a three-bit field names.
pub open spec fn alu_op_of(field: int) -> AluOp {
    if field == 0 {
        AluOp::Add
    } else if field == 1 {
        AluOp::Adc
    } else if field == 2 {
        AluOp::Sub
    } else if field == 3 {
        AluOp::Sbb
    } else if field == 4 {
        AluOp::Ana
    } else if field == 5 {
        AluOp::Xra
    } else if field == 6 {
        AluOp::Ora
    } else {
        AluOp::Compare
    }
}

/// Reads a three-bit field as an accumulator operation.
pub fn alu_op_from(field: u8) -> (op: AluOp)
    ensures
        op == alu_op_of(field as int),
{
    match field {
        0 => AluOp::Add,
        1 => AluOp::Adc,
        2 => AluOp::Sub,
        3 => AluOp::Sbb,
        4 => AluOp::Ana,
        5 => AluOp::Xra,
        6 => AluOp::Ora,
        _ => AluOp::Compare,
    }
}

/// A result byte with the flags that an instruction leaves.
pub struct AluResult {
    pub value: u8,
    pub flags: Flags,
}

/// A flag as a number: 1 where it is set.
pub open spec fn bit_value(bit: bool) -> int {
    if bit {
        1
    } else {
        0
    }
}

/// Bit 3 of a byte.
pub open spec fn bit3(byte: u8) -> bool {
    (byte as int / 8) % 2 == 1
}

/// Sign, zero and parity of `value`, with the carries given.
pub open spec fn flags_of(value: u8, cy: bool, ac: bool) -> Flags {
    Flags { s: value >= 128, z: value == 0, p: even_parity(value), cy, ac }
}

/// The low eight bits of `a + x + carry_in`.
pub open spec fn wrapped_sum(a: u8, x: u8, carry_in: bool) -> u8 {
    ((a as int + x as int + bit_value(carry_in)) % 256) as u8
}

/// Whether `a + x + carry_in` carries out of bit 7.
pub open spec fn carry_out(a: u8, x: u8, carry_in: bool) -> bool {
    a as int + x as int + bit_value(carry_in) > 255
}

/// `a + x + carry_in`, as `ADD`, `ADC`, `ADI` and `ACI` compute it.
#[verifier::opaque]
pub open spec fn sum(a: u8, x: u8, carry_in: bool) -> AluResult {
    let value = wrapped_sum(a, x, carry_in);
    AluResult {
        value,
        flags: flags_of(value, carry_out(a, x, carry_in), half_carry(a, x, carry_in)),
    }
}

/// `a - x - borrow_in`, as `SUB`, `SBB`, `SUI`, `SBI`, `CMP` and `CPI`
/// compute it.
#[verifier::opaque]
pub open spec fn difference(a: u8, x: u8, borrow_in: bool) -> AluResult {
    let wide = a as int - x as int - bit_value(borrow_in);
    let value = (wide % 256) as u8;
    AluResult { value, flags: flags_of(value, wide < 0, half_borrow(a, x, borrow_in)) }
}

/// `a & x`, as `ANA` and `ANI` compute it: the carry is cleared, the
/// auxiliary carry is bit 3 of either operand.
#[verifier::opaque]
pub open spec fn conjunction(a: u8, x: u8) -> AluResult {
    let value = a & x;
    AluResult { value, flags: flags_of(value, false, bit3(a) || bit3(x)) }
}

/// `a | x`, as `ORA` and `ORI` compute it: both carries are cleared.
#[verifier::opaque]
pub open spec fn disjunction(a: u8, x: u8) -> AluResult {
    let value = a | x;
    AluResult { value, flags: flags_of(value, false, false) }
}

/// `a ^ x`, as `XRA` and `XRI` compute it: both carries are cleared.
#[verifier::opaque]
pub open spec fn exclusive_or(a: u8, x: u8) -> AluResult {
    let value = a ^ x;
    AluResult { value, flags: flags_of(value, false, false) }
}

/// What an accumulator operation leaves in `A` and in the flags.
/// A comparison leaves `A` as it was.
pub open spec fn accumulate(op: AluOp, a: u8, x: u8, flags: Flags) -> AluResult {
    match op {
        AluOp::Add => sum(a, x, false),
        AluOp::Adc => sum(a, x, flags.cy),
        AluOp::Sub => difference(a, x, false),
        AluOp::Sbb => difference(a, x, flags.cy),
        AluOp::Ana => conjunction(a, x),
        AluOp::Xra => exclusive_or(a, x),
        AluOp::Ora => disjunction(a, x),
        AluOp::Compare => AluResult { value: a, flags: difference(a, x, false).flags },
    }
}

/// `value + 1`; the carry flag stays.
#[verifier::opaque]
pub open spec fn increment(value: u8, flags: Flags) -> AluResult {
    let result = sum(value, 1, false);
    AluResult { value: result.value, flags: Flags { cy: flags.cy, ..result.flags } }
}

/// `value - 1`; the carry flag stays.
#[verifier::opaque]
pub open spec fn decrement(value: u8, flags: Flags) -> AluResult {
    let result = difference(value, 1, false);
    AluResult { value: result.value, flags: Flags { cy: flags.cy, ..result.flags } }
}

/// The byte that `DAA` adds to `a`: 6 where the low digit is above 9 or
/// the auxiliary carry is set, and 0x60 more where the high digit then is
/// above 9 or the carry is set.
pub open spec fn decimal_adjustment(a: u8, ac: bool, cy: bool) -> u8 {
    let low: int = if a as int % 16 > 9 || ac {
        6
    } else {
        0
    };
    let high: int = if (a as int + low) / 16 > 9 || cy {
        0x60
    } else {
        0
    };
    (low + high) as u8
}

/// `DAA`: the adjustment is added to `a`, and the flags are those of that
/// addition.
#[verifier::opaque]
pub open spec fn decimal_adjust(a: u8, flags: Flags) -> AluResult {
    sum(a, decimal_adjustment(a, flags.ac, flags.cy), false)
}

/// `RLC`: bit 7 goes to bit 0 and to the carry.
#[verifier::opaque]
pub open spec fn rotate_left(a: u8, flags: Flags) -> AluResult {
    AluResult {
        value: ((a as int * 2) % 256 + a as int / 128) as u8,
        flags: Flags { cy: a >= 128, ..flags },
    }
}

/// `RRC`: bit 0 goes to bit 7 and to the carry.
#[verifier::opaque]
pub open spec fn rotate_right(a: u8, flags: Flags) -> AluResult {
    AluResult {
        value: (a as int / 2 + (a as int % 2) * 128) as u8,
        flags: Flags { cy: a as int % 2 == 1, ..flags },
    }
}

/// `RAL`: the carry goes to bit 0, bit 7 to the carry.
#[verifier::opaque]
pub open spec fn rotate_left_through_carry(a: u8, flags: Flags) -> AluResult {
    AluResult {
        value: ((a as int * 2) % 256 + bit_value(flags.cy)) as u8,
        flags: Flags { cy: a >= 128, ..flags },
    }
}

/// `RAR`: the carry goes to bit 7, bit 0 to the carry.
#[verifier::opaque]
pub open spec fn rotate_right_through_carry(a: u8, flags: Flags) -> AluResult {
    AluResult {
        value: (a as int / 2 + bit_value(flags.cy) * 128) as u8,
        flags: Flags { cy: a as int % 2 == 1, ..flags },
    }
}

/// `HL + x` for `DAD`: the low 16 bits and the carry out of bit 15.
#[verifier::opaque]
pub open spec fn wide_sum(hl: u16, x: u16) -> (u16, bool) {
    let wide = hl as int + x as int;
    if wide > 65535 {
        ((wide - 65536) as u16, true)
    } else {
        (wide as u16, false)
    }
}

} // verus!
