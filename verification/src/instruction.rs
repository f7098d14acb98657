//! The instruction set: what each opcode byte stands for.

use crate::alu::{alu_op_from, AluOp};
use crate::helpers::{bytes_to_word, word_of};
use crate::registers::{
    condition_from, condition_of, operand_from, operand_of, pair_from, pair_of, stack_pair_from,
    stack_pair_of, Condition, Operand, RegPair, StackPair,
};
use vstd::prelude::*;

verus! {

/// An instruction, with the immediate byte or word that follows its opcode.
#[derive(Clone, Copy, Debug, PartialEq, Eq)]
pub enum Instruction {
    Nop,
    Hlt,
    /// `MOV d,s`: destination, then source.
    Mov(Operand, Operand),
    Mvi(Operand, u8),
    Lxi(RegPair, u16),
    Lda(u16),
    Sta(u16),
    Lhld(u16),
    Shld(u16),
    Ldax(RegPair),
    Stax(RegPair),
    Xchg,
    /// An accumulator operation on a register or on `M`.
    Alu(AluOp, Operand),
    /// An accumulator operation on the immediate byte.
    AluImmediate(AluOp, u8),
    Inr(Operand),
    Dcr(Operand),
    Inx(RegPair),
    Dcx(RegPair),
    Dad(RegPair),
    Daa,
    Rlc,
    Rrc,
    Ral,
    Rar,
    Cma,
    Cmc,
    Stc,
    Jmp(u16),
    Jcc(Condition, u16),
    Call(u16),
    Ccc(Condition, u16),
    Ret,
    Rcc(Condition),
    /// `RST n`, with `n` from 0 to 7.
    Rst(u8),
    Pchl,
    Push(StackPair),
    Pop(StackPair),
    Xthl,
    Sphl,
    /// `IN n`, with the number of the port.
    In(u8),
    /// `OUT n`, with the number of the port.
    Out(u8),
    Ei,
    Di,
}

/// The three-bit field in bits 0 to 2 of an opcode.
pub open spec fn low_field(opcode: u8) -> int {
    opcode as int % 8
}

/// The three-bit field in bits 3 to 5 of an opcode.
pub open spec fn middle_field(opcode: u8) -> int {
    (opcode as int / 8) % 8
}

/// The two-bit field in bits 4 and 5 of an opcode.
pub open spec fn pair_field(opcode: u8) -> int {
    (opcode as int / 16) % 4
}

/// The operand that the low field of an opcode names: a source.
pub open spec fn source_in(opcode: u8) -> Operand {
    operand_of(low_field(opcode))
}

/// The operand that the middle field of an opcode names: a destination.
pub open spec fn destination_in(opcode: u8) -> Operand {
    operand_of(middle_field(opcode))
}

/// The register pair that the pair field of an opcode names.
pub open spec fn pair_in(opcode: u8) -> RegPair {
    pair_of(pair_field(opcode))
}

/// The pair that the pair field of a `PUSH` or `POP` opcode names.
pub open spec fn stack_pair_in(opcode: u8) -> StackPair {
    stack_pair_of(pair_field(opcode))
}

/// The condition that the middle field of an opcode names.
pub open spec fn condition_in(opcode: u8) -> Condition {
    condition_of(middle_field(opcode))
}

/// The instruction of the first quarter of the opcode space, `0x00..=0x3F`:
/// loads, stores, increments, rotations and the like.
pub open spec fn decode_low(opcode: u8, low_byte: u8, high_byte: u8) -> Option<Instruction> {
    if opcode == 0x00 {
        Some(Instruction::Nop)
    } else if opcode == 0x06 || opcode == 0x0E || opcode == 0x16 || opcode == 0x1E || opcode == 0x26 || opcode == 0x2E || opcode == 0x36 || opcode == 0x3E {
        Some(Instruction::Mvi(destination_in(opcode), low_byte))
    } else if opcode == 0x01 || opcode == 0x11 || opcode == 0x21 || opcode == 0x31 {
        Some(Instruction::Lxi(pair_in(opcode), word_of(low_byte, high_byte)))
    } else if opcode == 0x3A {
        Some(Instruction::Lda(word_of(low_byte, high_byte)))
    } else if opcode == 0x32 {
        Some(Instruction::Sta(word_of(low_byte, high_byte)))
    } else if opcode == 0x2A {
        Some(Instruction::Lhld(word_of(low_byte, high_byte)))
    } else if opcode == 0x22 {
        Some(Instruction::Shld(word_of(low_byte, high_byte)))
    } else if opcode == 0x0A || opcode == 0x1A {
        Some(Instruction::Ldax(pair_in(opcode)))
    } else if opcode == 0x02 || opcode == 0x12 {
        Some(Instruction::Stax(pair_in(opcode)))
    } else if opcode == 0x04 || opcode == 0x0C || opcode == 0x14 || opcode == 0x1C || opcode == 0x24 || opcode == 0x2C || opcode == 0x34 || opcode == 0x3C {
        Some(Instruction::Inr(destination_in(opcode)))
    } else if opcode == 0x05 || opcode == 0x0D || opcode == 0x15 || opcode == 0x1D || opcode == 0x25 || opcode == 0x2D || opcode == 0x35 || opcode == 0x3D {
        Some(Instruction::Dcr(destination_in(opcode)))
    } else if opcode == 0x03 || opcode == 0x13 || opcode == 0x23 || opcode == 0x33 {
        Some(Instruction::Inx(pair_in(opcode)))
    } else if opcode == 0x0B || opcode == 0x1B || opcode == 0x2B || opcode == 0x3B {
        Some(Instruction::Dcx(pair_in(opcode)))
    } else if opcode == 0x09 || opcode == 0x19 || opcode == 0x29 || opcode == 0x39 {
        Some(Instruction::Dad(pair_in(opcode)))
    } else if opcode == 0x27 {
        Some(Instruction::Daa)
    } else if opcode == 0x07 {
        Some(Instruction::Rlc)
    } else if opcode == 0x0F {
        Some(Instruction::Rrc)
    } else if opcode == 0x17 {
        Some(Instruction::Ral)
    } else if opcode == 0x1F {
        Some(Instruction::Rar)
    } else if opcode == 0x2F {
        Some(Instruction::Cma)
    } else if opcode == 0x3F {
        Some(Instruction::Cmc)
    } else if opcode == 0x37 {
        Some(Instruction::Stc)
    } else {
        None
    }
}

/// The instruction of the third quarter of the opcode space, `0x80..=0xBF`:
/// the accumulator with a register or `M`. The operation is in the middle
/// field, the operand in the low field.
pub open spec fn decode_accumulator(opcode: u8) -> Instruction {
    if opcode <= 0x87 {
        Instruction::Alu(AluOp::Add, source_in(opcode))
    } else if opcode <= 0x8F {
        Instruction::Alu(AluOp::Adc, source_in(opcode))
    } else if opcode <= 0x97 {
        Instruction::Alu(AluOp::Sub, source_in(opcode))
    } else if opcode <= 0x9F {
        Instruction::Alu(AluOp::Sbb, source_in(opcode))
    } else if opcode <= 0xA7 {
        Instruction::Alu(AluOp::Ana, source_in(opcode))
    } else if opcode <= 0xAF {
        Instruction::Alu(AluOp::Xra, source_in(opcode))
    } else if opcode <= 0xB7 {
        Instruction::Alu(AluOp::Ora, source_in(opcode))
    } else {
        Instruction::Alu(AluOp::Compare, source_in(opcode))
    }
}

/// The instruction of the last quarter of the opcode space, `0xC0..=0xFF`:
/// transfers, the stack, immediates, the ports and the interrupt switch.
pub open spec fn decode_high(opcode: u8, low_byte: u8, high_byte: u8) -> Option<Instruction> {
    if opcode == 0xC3 {
        Some(Instruction::Jmp(word_of(low_byte, high_byte)))
    } else if opcode == 0xC2 || opcode == 0xCA || opcode == 0xD2 || opcode == 0xDA || opcode == 0xE2 || opcode == 0xEA || opcode == 0xF2 || opcode == 0xFA {
        Some(Instruction::Jcc(condition_in(opcode), word_of(low_byte, high_byte)))
    } else if opcode == 0xCD {
        Some(Instruction::Call(word_of(low_byte, high_byte)))
    } else if opcode == 0xC4 || opcode == 0xCC || opcode == 0xD4 || opcode == 0xDC || opcode == 0xE4 || opcode == 0xEC || opcode == 0xF4 || opcode == 0xFC {
        Some(Instruction::Ccc(condition_in(opcode), word_of(low_byte, high_byte)))
    } else if opcode == 0xC9 {
        Some(Instruction::Ret)
    } else if opcode == 0xC0 || opcode == 0xC8 || opcode == 0xD0 || opcode == 0xD8 || opcode == 0xE0 || opcode == 0xE8 || opcode == 0xF0 || opcode == 0xF8 {
        Some(Instruction::Rcc(condition_in(opcode)))
    } else if opcode == 0xC7 || opcode == 0xCF || opcode == 0xD7 || opcode == 0xDF || opcode == 0xE7 || opcode == 0xEF || opcode == 0xF7 || opcode == 0xFF {
        Some(Instruction::Rst(middle_field(opcode) as u8))
    } else if opcode == 0xE9 {
        Some(Instruction::Pchl)
    } else if opcode == 0xC5 || opcode == 0xD5 || opcode == 0xE5 || opcode == 0xF5 {
        Some(Instruction::Push(stack_pair_in(opcode)))
    } else if opcode == 0xC1 || opcode == 0xD1 || opcode == 0xE1 || opcode == 0xF1 {
        Some(Instruction::Pop(stack_pair_in(opcode)))
    } else if opcode == 0xE3 {
        Some(Instruction::Xthl)
    } else if opcode == 0xF9 {
        Some(Instruction::Sphl)
    } else if opcode == 0xEB {
        Some(Instruction::Xchg)
    } else if opcode == 0xC6 {
        Some(Instruction::AluImmediate(AluOp::Add, low_byte))
    } else if opcode == 0xCE {
        Some(Instruction::AluImmediate(AluOp::Adc, low_byte))
    } else if opcode == 0xD6 {
        Some(Instruction::AluImmediate(AluOp::Sub, low_byte))
    } else if opcode == 0xDE {
        Some(Instruction::AluImmediate(AluOp::Sbb, low_byte))
    } else if opcode == 0xE6 {
        Some(Instruction::AluImmediate(AluOp::Ana, low_byte))
    } else if opcode == 0xEE {
        Some(Instruction::AluImmediate(AluOp::Xra, low_byte))
    } else if opcode == 0xF6 {
        Some(Instruction::AluImmediate(AluOp::Ora, low_byte))
    } else if opcode == 0xFE {
        Some(Instruction::AluImmediate(AluOp::Compare, low_byte))
    } else if opcode == 0xDB {
        Some(Instruction::In(low_byte))
    } else if opcode == 0xD3 {
        Some(Instruction::Out(low_byte))
    } else if opcode == 0xFB {
        Some(Instruction::Ei)
    } else if opcode == 0xF3 {
        Some(Instruction::Di)
    } else {
        None
    }
}

/// The instruction that an opcode stands for, if it stands for one, with
/// `low_byte` and `high_byte` as the two bytes that follow the opcode. An
/// instruction of one byte reads neither, one of two bytes only the first.
pub open spec fn decode(opcode: u8, low_byte: u8, high_byte: u8) -> Option<Instruction> {
    if opcode < 0x40 {
        decode_low(opcode, low_byte, high_byte)
    } else if opcode == 0x76 {
        Some(Instruction::Hlt)
    } else if opcode < 0x80 {
        Some(Instruction::Mov(destination_in(opcode), source_in(opcode)))
    } else if opcode < 0xC0 {
        Some(decode_accumulator(opcode))
    } else {
        decode_high(opcode, low_byte, high_byte)
    }
}

/// Whether an opcode is one of the twelve that stand for no instruction.
pub open spec fn is_undefined(opcode: u8) -> bool {
    ||| opcode == 0x08
    ||| opcode == 0x10
    ||| opcode == 0x18
    ||| opcode == 0x20
    ||| opcode == 0x28
    ||| opcode == 0x30
    ||| opcode == 0x38
    ||| opcode == 0xCB
    ||| opcode == 0xD9
    ||| opcode == 0xDD
    ||| opcode == 0xED
    ||| opcode == 0xFD
}

impl Instruction {
    /// The number of bytes of the instruction, opcode included.
    pub open spec fn length(self) -> int {
        match self {
            Instruction::Mvi(_, _)
            | Instruction::AluImmediate(_, _)
            | Instruction::In(_)
            | Instruction::Out(_) => 2,
            Instruction::Lxi(_, _)
            | Instruction::Lda(_)
            | Instruction::Sta(_)
            | Instruction::Lhld(_)
            | Instruction::Shld(_)
            | Instruction::Jmp(_)
            | Instruction::Jcc(_, _)
            | Instruction::Call(_)
            | Instruction::Ccc(_, _) => 3,
            _ => 1,
        }
    }

    /// Whether the instruction sets the program counter itself, in place
    /// of stepping over its own bytes.
    pub open spec fn is_transfer(self) -> bool {
        match self {
            Instruction::Jmp(_)
            | Instruction::Jcc(_, _)
            | Instruction::Call(_)
            | Instruction::Ccc(_, _)
            | Instruction::Ret
            | Instruction::Rcc(_)
            | Instruction::Rst(_)
            | Instruction::Pchl => true,
            _ => false,
        }
    }
}

/// The number of bytes of the instruction that starts with `opcode`, or 1
/// where it starts none.
pub open spec fn length_of(opcode: u8) -> int {
    match decode(opcode, 0, 0) {
        Some(instruction) => instruction.length(),
        None => 1,
    }
}

/// The opcodes without an instruction are the twelve undefined ones,
/// whatever bytes follow them.
pub proof fn lemma_undefined_opcodes(opcode: u8, low_byte: u8, high_byte: u8)
    ensures
        decode(opcode, low_byte, high_byte) is None <==> is_undefined(opcode),
{
}

proof fn lemma_fields(opcode: u8)
    by (bit_vector)
    ensures
        opcode & 0b111 == opcode % 8,
        (opcode >> 3) & 0b111 == (opcode / 8) % 8,
        (opcode >> 4) & 0b11 == (opcode / 16) % 4,
{
}

impl Instruction {
    /// The number of bytes of the instruction, opcode included.
    pub fn len(&self) -> (length: usize)
        ensures
            length == self.length(),
    {
        match self {
            Instruction::Mvi(_, _)
            | Instruction::AluImmediate(_, _)
            | Instruction::In(_)
            | Instruction::Out(_) => 2,
            Instruction::Lxi(_, _)
            | Instruction::Lda(_)
            | Instruction::Sta(_)
            | Instruction::Lhld(_)
            | Instruction::Shld(_)
            | Instruction::Jmp(_)
            | Instruction::Jcc(_, _)
            | Instruction::Call(_)
            | Instruction::Ccc(_, _) => 3,
            _ => 1,
        }
    }
}

/// Decodes an opcode of the first quarter of the opcode space.
fn decode_low_quarter(opcode: u8, low_byte: u8, high_byte: u8) -> (instruction: Option<
    Instruction,
>)
    requires
        opcode < 0x40,
    ensures
        instruction == decode(opcode, low_byte, high_byte),
{
    proof {
        lemma_fields(opcode);
    }
    let low = opcode & 0b111;
    let middle = (opcode >> 3) & 0b111;
    let pair = pair_from((opcode >> 4) & 0b11);
    let word = bytes_to_word(low_byte, high_byte);
    match (low, middle) {
        (0, 0) => Some(Instruction::Nop),
        (0, _) => None,
        (1, 0) | (1, 2) | (1, 4) | (1, 6) => Some(Instruction::Lxi(pair, word)),
        (1, _) => Some(Instruction::Dad(pair)),
        (2, 0) | (2, 2) => Some(Instruction::Stax(pair)),
        (2, 1) | (2, 3) => Some(Instruction::Ldax(pair)),
        (2, 4) => Some(Instruction::Shld(word)),
        (2, 5) => Some(Instruction::Lhld(word)),
        (2, 6) => Some(Instruction::Sta(word)),
        (2, _) => Some(Instruction::Lda(word)),
        (3, 0) | (3, 2) | (3, 4) | (3, 6) => Some(Instruction::Inx(pair)),
        (3, _) => Some(Instruction::Dcx(pair)),
        (4, _) => Some(Instruction::Inr(operand_from(middle))),
        (5, _) => Some(Instruction::Dcr(operand_from(middle))),
        (6, _) => Some(Instruction::Mvi(operand_from(middle), low_byte)),
        (_, 0) => Some(Instruction::Rlc),
        (_, 1) => Some(Instruction::Rrc),
        (_, 2) => Some(Instruction::Ral),
        (_, 3) => Some(Instruction::Rar),
        (_, 4) => Some(Instruction::Daa),
        (_, 5) => Some(Instruction::Cma),
        (_, 6) => Some(Instruction::Stc),
        (_, _) => Some(Instruction::Cmc),
    }
}

/// Decodes an opcode of the last quarter of the opcode space.
fn decode_high_quarter(opcode: u8, low_byte: u8, high_byte: u8) -> (instruction: Option<
    Instruction,
>)
    requires
        opcode >= 0xC0,
    ensures
        instruction == decode(opcode, low_byte, high_byte),
{
    proof {
        lemma_fields(opcode);
    }
    let low = opcode & 0b111;
    let middle = (opcode >> 3) & 0b111;
    let pair = stack_pair_from((opcode >> 4) & 0b11);
    let word = bytes_to_word(low_byte, high_byte);
    match (low, middle) {
        (0, _) => Some(Instruction::Rcc(condition_from(middle))),
        (2, _) => Some(Instruction::Jcc(condition_from(middle), word)),
        (4, _) => Some(Instruction::Ccc(condition_from(middle), word)),
        (6, _) => Some(Instruction::AluImmediate(alu_op_from(middle), low_byte)),
        (7, _) => Some(Instruction::Rst(middle)),
        (1, 0) | (1, 2) | (1, 4) | (1, 6) => Some(Instruction::Pop(pair)),
        (1, 1) => Some(Instruction::Ret),
        (1, 5) => Some(Instruction::Pchl),
        (1, 7) => Some(Instruction::Sphl),
        (1, _) => None,
        (3, 0) => Some(Instruction::Jmp(word)),
        (3, 2) => Some(Instruction::Out(low_byte)),
        (3, 3) => Some(Instruction::In(low_byte)),
        (3, 4) => Some(Instruction::Xthl),
        (3, 5) => Some(Instruction::Xchg),
        (3, 6) => Some(Instruction::Di),
        (3, 7) => Some(Instruction::Ei),
        (3, _) => None,
        (_, 0) | (_, 2) | (_, 4) | (_, 6) => Some(Instruction::Push(pair)),
        (_, 1) => Some(Instruction::Call(word)),
        (_, _) => None,
    }
}

/// Decodes an opcode and the two bytes that follow it.
pub fn decode_instruction(opcode: u8, low_byte: u8, high_byte: u8) -> (instruction: Option<
    Instruction,
>)
    ensures
        instruction == decode(opcode, low_byte, high_byte),
{
    proof {
        lemma_fields(opcode);
    }
    if opcode < 0x40 {
        decode_low_quarter(opcode, low_byte, high_byte)
    } else if opcode == 0x76 {
        Some(Instruction::Hlt)
    } else if opcode < 0x80 {
        Some(Instruction::Mov(operand_from((opcode >> 3) & 0b111), operand_from(opcode & 0b111)))
    } else if opcode < 0xC0 {
        Some(Instruction::Alu(alu_op_from((opcode >> 3) & 0b111), operand_from(opcode & 0b111)))
    } else {
        decode_high_quarter(opcode, low_byte, high_byte)
    }
}

} // verus!
