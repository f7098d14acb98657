//! A listing of the instructions that an image holds.

use crate::instruction::{decode, decode_instruction, length_of, Instruction};
use vstd::prelude::*;

verus! {

/// Why an image cannot be listed.
#[derive(Debug, Clone, Copy, PartialEq, Eq)]
pub enum Error {
    /// The byte is no opcode.
    UnknownOpcodeError(u8),
    /// The instruction at this index needs more bytes than the image has.
    TruncatedInstruction(usize),
}

/// One instruction of a listing.
#[derive(Debug, Clone, Copy, PartialEq, Eq)]
pub struct Line {
    /// The index of the opcode in the image.
    pub address: usize,
    pub opcode: u8,
    pub instruction: Instruction,
}

/// The byte of an image at an index, and 0 beyond its end.
pub open spec fn byte_at(rom: Seq<u8>, index: int) -> u8 {
    if 0 <= index < rom.len() {
        rom[index]
    } else {
        0
    }
}

/// The line for the instruction that starts at `address`, which must
/// hold an opcode and lie in the image with all its bytes.
pub open spec fn line_at(rom: Seq<u8>, address: int) -> Line {
    Line {
        address: address as usize,
        opcode: rom[address],
        instruction: decode(
            rom[address],
            byte_at(rom, address + 1),
            byte_at(rom, address + 2),
        )->Some_0,
    }
}

/// The listing of an image from `address` on: one line for each
/// instruction, each where the one before it ends. It fails at the first
/// byte that is no opcode, and at an instruction that the image cuts off.
pub open spec fn listing(rom: Seq<u8>, address: int) -> Result<Seq<Line>, Error>
    decreases rom.len() - address,
{
    if address < 0 || address >= rom.len() {
        Ok(Seq::empty())
    } else if decode(rom[address], 0, 0) is None {
        Err(Error::UnknownOpcodeError(rom[address]))
    } else if address + length_of(rom[address]) > rom.len() {
        Err(Error::TruncatedInstruction(address as usize))
    } else {
        match listing(rom, address + length_of(rom[address])) {
            Err(error) => Err(error),
            Ok(rest) => Ok(seq![line_at(rom, address)] + rest),
        }
    }
}

/// The listing from the start is the lines up to `address`, then the
/// listing from `address` on.
pub open spec fn continues(rom: Seq<u8>, lines: Seq<Line>, address: int) -> bool {
    listing(rom, 0) == (match listing(rom, address) {
        Ok(rest) => Ok::<Seq<Line>, Error>(lines + rest),
        Err(error) => Err(error),
    })
}

proof fn lemma_one_more_line(rom: Seq<u8>, lines: Seq<Line>, address: int)
    requires
        0 <= address < rom.len(),
        continues(rom, lines, address),
        decode(rom[address], 0, 0) is Some,
        address + length_of(rom[address]) <= rom.len(),
    ensures
        continues(rom, lines.push(line_at(rom, address)), address + length_of(rom[address])),
{
    let next = address + length_of(rom[address]);
    match listing(rom, next) {
        Ok(rest) => {
            assert(lines + (seq![line_at(rom, address)] + rest) =~= lines.push(
                line_at(rom, address),
            ) + rest);
        },
        Err(_) => {},
    }
}

/// Lists the instructions of an image.
pub fn disassemble(rom: &[u8]) -> (outcome: Result<Vec<Line>, Error>)
    ensures
        match listing(rom@, 0) {
            Ok(lines) => outcome matches Ok(listed) && listed@ == lines,
            Err(error) => outcome == Err::<Vec<Line>, Error>(error),
        },
{
    let length = rom.len();

    let mut lines: Vec<Line> = Vec::new();

    let mut i: usize = 0;
    proof {
        assert(Seq::<Line>::empty() + listing(rom@, 0)->Ok_0 =~= listing(rom@, 0)->Ok_0);
    }
    while i < length
        invariant
            length == rom@.len(),
            i <= length,
            continues(rom@, lines@, i as int),
        decreases length - i,
    {
        let opcode = rom[i];
        let size = match decode_instruction(opcode, 0, 0) {
            None => {
                return Err(Error::UnknownOpcodeError(opcode));
            },
            Some(shape) => shape.len(),
        };
        if size > length - i {
            return Err(Error::TruncatedInstruction(i));
        }
        let low_byte = if size >= 2 {
            rom[i + 1]
        } else {
            0
        };
        let high_byte = if size == 3 {
            rom[i + 2]
        } else {
            0
        };
        let instruction = match decode_instruction(opcode, low_byte, high_byte) {
            None => {
                return Err(Error::UnknownOpcodeError(opcode));
            },
            Some(instruction) => instruction,
        };
        proof {
            lemma_operands_read(opcode, byte_at(rom@, i + 1), byte_at(rom@, i + 2));
            lemma_one_more_line(rom@, lines@, i as int);
        }
        lines.push(Line { address: i, opcode, instruction });
        i += size;
    }
    proof {
        assert(lines@ + Seq::<Line>::empty() =~= lines@);
    }
    Ok(lines)
}

/// An instruction does not depend on bytes beyond its length.
pub proof fn lemma_operands_read(opcode: u8, low_byte: u8, high_byte: u8)
    ensures
        decode(opcode, 0, 0) is None <==> decode(opcode, low_byte, high_byte) is None,
        length_of(opcode) == 1 ==> decode(opcode, low_byte, high_byte) == decode(opcode, 0, 0),
        length_of(opcode) == 2 ==> decode(opcode, low_byte, high_byte) == decode(
            opcode,
            low_byte,
            0,
        ),
        decode(opcode, low_byte, high_byte) matches Some(instruction) ==> instruction.length()
            == length_of(opcode),
{
}

} // verus!
