//! What holds of the instruction set as a whole.

use crate::alu::{
    accumulate, carry_out, conjunction, decimal_adjust, decimal_adjustment, decrement, difference,
    disjunction, exclusive_or, flags_of, increment, sum, wrapped_sum, AluOp, AluResult,
};
use crate::errors::Error;
use crate::helpers::{
    half_carry, high_byte_of, lemma_sign_bit, lemma_wrap_byte, low_byte_of, word_of,
};
use crate::instruction::Instruction;
use crate::machine::{offset, Machine};
use crate::registers::{Flags, StackPair};
use vstd::prelude::*;

verus! {

/// Whether the zero and sign flags of a result say what its byte is.
pub open spec fn zero_and_sign_agree(result: AluResult) -> bool {
    &&& result.flags.z <==> result.value == 0
    &&& result.flags.s <==> result.value & 0x80 != 0
}

/// Whether both digits of a byte are decimal.
pub open spec fn is_bcd(byte: u8) -> bool {
    byte as int % 16 <= 9 && byte as int / 16 <= 9
}

/// A step that completes leaves the program counter past the bytes of its
/// instruction, unless the instruction is a transfer: then it leaves it at
/// the transfer's target. So the program counter has moved, but after a
/// transfer to the address of the transfer itself.
pub proof fn law_step_moves_program_counter(machine: Machine, input: u8)
    requires
        machine.step(input) is Ok,
    ensures
        machine.fetch() is Ok,
        ({
            let instruction = machine.fetch()->Ok_0;
            let next = machine.step(input)->Ok_0;
            &&& 1 <= instruction.length() <= 3
            &&& !instruction.is_transfer() ==> next.regs.pc == offset(
                machine.regs.pc,
                instruction.length(),
            )
            &&& !instruction.is_transfer() ==> next.regs.pc != machine.regs.pc
            &&& instruction.is_transfer() ==> next.regs.pc == machine.target(instruction)
        }),
{
    reveal(Machine::effect);
    reveal(Machine::transfer);
}

/// After every operation of the arithmetic and logic group the zero flag
/// is set exactly when the result is zero, and the sign flag exactly when
/// bit 7 of the result is set.
pub proof fn law_zero_and_sign(a: u8, x: u8, carry: bool, flags: Flags)
    ensures
        zero_and_sign_agree(sum(a, x, carry)),
        zero_and_sign_agree(difference(a, x, carry)),
        zero_and_sign_agree(conjunction(a, x)),
        zero_and_sign_agree(disjunction(a, x)),
        zero_and_sign_agree(exclusive_or(a, x)),
        zero_and_sign_agree(increment(a, flags)),
        zero_and_sign_agree(decrement(a, flags)),
        zero_and_sign_agree(decimal_adjust(a, flags)),
{
    reveal(sum);
    reveal(difference);
    reveal(conjunction);
    reveal(disjunction);
    reveal(exclusive_or);
    reveal(increment);
    reveal(decrement);
    reveal(decimal_adjust);
    lemma_sign_bit(sum(a, x, carry).value);
    lemma_sign_bit(difference(a, x, carry).value);
    lemma_sign_bit(conjunction(a, x).value);
    lemma_sign_bit(disjunction(a, x).value);
    lemma_sign_bit(exclusive_or(a, x).value);
    lemma_sign_bit(increment(a, flags).value);
    lemma_sign_bit(decrement(a, flags).value);
    lemma_sign_bit(decimal_adjust(a, flags).value);
}

/// A word is made of its two bytes, and the bytes of a word made of two
/// bytes are those two.
pub proof fn lemma_word_bytes(low_byte: u8, high_byte: u8, word: u16)
    ensures
        low_byte_of(word_of(low_byte, high_byte)) == low_byte,
        high_byte_of(word_of(low_byte, high_byte)) == high_byte,
        word_of(low_byte_of(word), high_byte_of(word)) == word,
{
}

/// The flags come back from their byte as they went into it.
pub proof fn lemma_flag_byte_round_trip(flags: Flags)
    ensures
        Flags::from_byte(flags.to_byte()) == flags,
{
}

/// A word that was pushed is the word that the next pop gives, and the
/// stack pointer is back where it was.
pub proof fn lemma_push_then_pop_word(machine: Machine, word: u16)
    requires
        machine.push(word) is Ok,
        machine.mem.index_of(offset(machine.regs.sp, -1)) != machine.mem.index_of(
            offset(machine.regs.sp, -2),
        ) || high_byte_of(word) == low_byte_of(word),
    ensures
        machine.push(word)->Ok_0.pop() is Ok,
        machine.push(word)->Ok_0.pop()->Ok_0.1 == word,
        machine.push(word)->Ok_0.pop()->Ok_0.0.regs == machine.regs,
{
    let pushed = machine.push(word)->Ok_0;
    let upper = offset(machine.regs.sp, -1);
    let lower = offset(machine.regs.sp, -2);
    assert(pushed.regs.sp == lower);
    assert(offset(lower, 1) == upper);
    assert(offset(lower, 2) == machine.regs.sp);
    assert(pushed.mem.read(lower) == Ok::<u8, Error>(low_byte_of(word)));
    assert(pushed.mem.read(upper) == Ok::<u8, Error>(high_byte_of(word)));
    lemma_word_bytes(0, 0, word);
}

/// A `PUSH` of a pair followed by a `POP` of the same pair leaves every
/// register and flag as it was. The two cells of the stack must not be one
/// cell of the memory, unless the two bytes pushed are the same.
pub proof fn law_push_then_pop(machine: Machine, pair: StackPair)
    requires
        machine.effect(Instruction::Push(pair)) is Ok,
        machine.mem.index_of(offset(machine.regs.sp, -1)) != machine.mem.index_of(
            offset(machine.regs.sp, -2),
        ) || high_byte_of(machine.regs.stack_pair(pair)) == low_byte_of(
            machine.regs.stack_pair(pair),
        ),
    ensures
        machine.effect(Instruction::Push(pair))->Ok_0.effect(Instruction::Pop(pair)) is Ok,
        machine.effect(Instruction::Push(pair))->Ok_0.effect(Instruction::Pop(pair))->Ok_0.regs
            == machine.regs,
{
    let word = machine.regs.stack_pair(pair);
    assert(machine.effect(Instruction::Push(pair)) == machine.push(word)) by {
        reveal(Machine::effect);
    }
    let pushed = machine.push(word)->Ok_0;
    assert(pushed.effect(Instruction::Pop(pair)) == pushed.pop_pair(pair)) by {
        reveal(Machine::effect);
    }
    lemma_push_then_pop_word(machine, word);
    let popped = pushed.pop()->Ok_0.0;
    assert(popped.regs == machine.regs);
    assert(machine.regs.with_stack_pair(pair, word) == machine.regs) by {
        lemma_word_bytes(machine.regs.c, machine.regs.b, 0);
        lemma_word_bytes(machine.regs.e, machine.regs.d, 0);
        lemma_word_bytes(machine.regs.l, machine.regs.h, 0);
        lemma_word_bytes(machine.regs.flags.to_byte(), machine.regs.a, 0);
        lemma_flag_byte_round_trip(machine.regs.flags);
    }
}

/// `XCHG` twice changes nothing.
pub proof fn law_xchg_twice(machine: Machine)
    ensures
        machine.effect(Instruction::Xchg) is Ok,
        machine.effect(Instruction::Xchg)->Ok_0.effect(Instruction::Xchg) == Ok::<Machine, Error>(
            machine,
        ),
{
    reveal(Machine::effect);
}

/// `XTHL` twice changes nothing, neither in `HL` nor in the memory. The
/// two cells on top of the stack must not be one cell of the memory,
/// unless `H` and `L` hold the same byte.
pub proof fn law_xthl_twice(machine: Machine)
    requires
        machine.effect(Instruction::Xthl) is Ok,
        machine.mem.index_of(machine.regs.sp) != machine.mem.index_of(
            offset(machine.regs.sp, 1),
        ) || machine.regs.h == machine.regs.l,
    ensures
        machine.effect(Instruction::Xthl)->Ok_0.effect(Instruction::Xthl) is Ok,
        machine.effect(Instruction::Xthl)->Ok_0.effect(Instruction::Xthl)->Ok_0.regs
            == machine.regs,
        machine.effect(Instruction::Xthl)->Ok_0.effect(Instruction::Xthl)->Ok_0.mem.cells
            =~= machine.mem.cells,
{
    reveal(Machine::effect);
}

/// A comparison leaves the accumulator as it was and the flags as the
/// subtraction of the same operand leaves them.
pub proof fn law_compare_is_subtract(a: u8, x: u8, flags: Flags)
    ensures
        accumulate(AluOp::Compare, a, x, flags).value == a,
        accumulate(AluOp::Compare, a, x, flags).flags == accumulate(AluOp::Sub, a, x, flags).flags,
{
}

/// The sum of two decimal bytes is decimal again once it is adjusted.
proof fn lemma_adjusted_sum_is_decimal(a: u8, x: u8, carry: bool)
    by (bit_vector)
    requires
        a % 16 <= 9,
        a / 16 <= 9,
        x % 16 <= 9,
        x / 16 <= 9,
    ensures
        ({
            let added = wrapped_sum(a, x, carry);
            let adjusted = wrapped_sum(
                added,
                decimal_adjustment(added, half_carry(a, x, carry), carry_out(a, x, carry)),
                false,
            );
            adjusted % 16 <= 9 && adjusted / 16 <= 9
        }),
{
}

/// What a sum is made of.
proof fn lemma_sum_parts(a: u8, x: u8, carry: bool)
    ensures
        sum(a, x, carry).value == wrapped_sum(a, x, carry),
        sum(a, x, carry).flags == flags_of(
            wrapped_sum(a, x, carry),
            carry_out(a, x, carry),
            half_carry(a, x, carry),
        ),
{
    reveal(sum);
}

/// What `DAA` adds to a decimal byte: nothing where both carries are
/// clear, and 6, 0x60 or 0x66 where one is set.
proof fn lemma_adjustment_of_decimal(value: u8, ac: bool, cy: bool)
    requires
        is_bcd(value),
    ensures
        !ac && !cy ==> decimal_adjustment(value, ac, cy) == 0,
        ac || cy ==> decimal_adjustment(value, ac, cy) == 0x06 || decimal_adjustment(
            value,
            ac,
            cy,
        ) == 0x60 || decimal_adjustment(value, ac, cy) == 0x66,
{
}

/// Adding nothing leaves a byte and clears both carries; adding what `DAA`
/// adds changes it.
proof fn lemma_adding_an_adjustment(value: u8, adjustment: u8)
    requires
        adjustment == 0 || adjustment == 0x06 || adjustment == 0x60 || adjustment == 0x66,
    ensures
        adjustment == 0 ==> wrapped_sum(value, adjustment, false) == value,
        adjustment == 0 ==> !carry_out(value, adjustment, false),
        adjustment == 0 ==> !half_carry(value, adjustment, false),
        adjustment != 0 ==> wrapped_sum(value, adjustment, false) != value,
{
    lemma_wrap_byte(value + adjustment);
}

/// After the sum of two decimal bytes was adjusted by `DAA`, a second
/// `DAA` changes nothing, provided that the first left the carry and the
/// auxiliary carry clear. Where it left one of them set, the second adds
/// to the byte once more.
pub proof fn law_daa_twice(a: u8, x: u8, carry: bool)
    requires
        is_bcd(a),
        is_bcd(x),
    ensures
        ({
            let added = sum(a, x, carry);
            let adjusted = decimal_adjust(added.value, added.flags);
            let again = decimal_adjust(adjusted.value, adjusted.flags);
            &&& is_bcd(adjusted.value)
            &&& !adjusted.flags.ac && !adjusted.flags.cy ==> again == adjusted
            &&& adjusted.flags.ac || adjusted.flags.cy ==> again.value != adjusted.value
        }),
{
    reveal(decimal_adjust);
    let added = sum(a, x, carry);
    let first = decimal_adjustment(added.value, added.flags.ac, added.flags.cy);
    let adjusted = sum(added.value, first, false);
    let second = decimal_adjustment(adjusted.value, adjusted.flags.ac, adjusted.flags.cy);
    let again = sum(adjusted.value, second, false);
    lemma_sum_parts(a, x, carry);
    lemma_sum_parts(added.value, first, false);
    lemma_sum_parts(adjusted.value, second, false);
    lemma_adjusted_sum_is_decimal(a, x, carry);
    assert(is_bcd(adjusted.value));
    lemma_adjustment_of_decimal(adjusted.value, adjusted.flags.ac, adjusted.flags.cy);
    lemma_adding_an_adjustment(adjusted.value, second);
}

} // verus!
