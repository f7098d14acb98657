//! The processor: registers, flags and memory, and the execution of one
//! instruction at a time.

use crate::alu::{
    conjunction, decimal_adjust, decrement, difference, disjunction, exclusive_or, flags_of,
    increment, rotate_left, rotate_left_through_carry, rotate_right, rotate_right_through_carry,
    sum, wide_sum, AluOp,
};
use crate::errors::Error;
use crate::helpers::{
    auxiliary_add, auxiliary_sub, bit_parity, bytes_to_word, high_byte_of, lemma_low_nibble,
    lemma_wrap_byte, low_byte_of, word_of, word_to_bytes,
};
use crate::instruction::{
    condition_in, destination_in, middle_field, pair_in, source_in, stack_pair_in, Instruction,
};
use crate::machine::{lemma_store_then_flags, Machine};
use crate::memory::{is_address_map, translation, Memory};
use crate::port::{reads, Port};
use crate::registers::{Flags, Registers};
use vstd::prelude::*;

mod execute;

verus! {

/// An Intel 8080 with its memory.
#[derive(Debug)]
pub struct Processor<F: Fn(u16) -> (usize, bool)> {
    regs: Registers,
    rom_loaded: bool,
    ram: Memory<F>,
}

/// Whether an operation that may fail went as the model says: it reports
/// `value` and leaves the state `expected`, or it reports the error and
/// leaves the state as it was.
pub open spec fn went<T>(
    outcome: Result<T, Error>,
    after: Machine,
    expected: Result<Machine, Error>,
    before: Machine,
    value: T,
) -> bool {
    match expected {
        Ok(next) => outcome == Ok::<T, Error>(value) && after == next,
        Err(error) => outcome == Err::<T, Error>(error) && after == before,
    }
}

proof fn lemma_flag_bits(byte: u8)
    by (bit_vector)
    ensures
        (byte & 0x80 != 0) <==> (byte >= 128),
        (byte & 0x80 != 0) <==> ((byte / 128) % 2 == 1),
        (byte & 0x40 != 0) <==> ((byte / 64) % 2 == 1),
        (byte & 0x10 != 0) <==> ((byte / 16) % 2 == 1),
        (byte & 0x4 != 0) <==> ((byte / 4) % 2 == 1),
        (byte & 0x1 != 0) <==> (byte % 2 == 1),
        (((byte >> 3) & 1) != 0) <==> ((byte / 8) % 2 == 1),
{
}

proof fn lemma_carry_bits(word: u16)
    by (bit_vector)
    ensures
        (word & 0xFF00u16 != 0u16) <==> (word > 255u16),
        word & 0xFFu16 == word % 256u16,
{
}

proof fn lemma_flag_byte(s: u8, z: u8, ac: u8, p: u8, cy: u8)
    by (bit_vector)
    requires
        s == 0 || s == 0x80,
        z == 0 || z == 0x40,
        ac == 0 || ac == 0x10,
        p == 0 || p == 0x4,
        cy == 0 || cy == 0x1,
    ensures
        (2u8 | s | z | ac | p | cy) as int == 2 + s + z + ac + p + cy,
{
}

proof fn lemma_rotations(a: u8, carry: u8)
    by (bit_vector)
    requires
        carry <= 1,
    ensures
        (a << 1) | (a >> 7) == (a % 128) * 2 + a / 128,
        (a >> 1) | (a << 7) == a / 2 + (a % 2) * 128,
        (a << 1) | carry == (a % 128) * 2 + carry,
        (a >> 1) | (carry << 7) == a / 2 + carry * 128,
        !a == 255 - a,
{
}

proof fn lemma_opcode_fields(opcode: u8)
    by (bit_vector)
    ensures
        opcode & 0b111 == opcode % 8,
        (opcode >> 3) & 0b111 == (opcode / 8) % 8,
        (opcode >> 4) & 0b11 == (opcode / 16) % 4,
        opcode & 0b111000 == ((opcode / 8) % 8) * 8,
        (opcode & 0b111) << 3 == (opcode % 8) * 8,
{
}

impl<F: Fn(u16) -> (usize, bool)> Processor<F> {
    /// The state of the processor.
    pub closed spec fn view(&self) -> Machine {
        Machine { regs: self.regs, rom_loaded: self.rom_loaded, mem: self.ram@ }
    }

    /// The translator that the processor's memory was made with.
    pub closed spec fn mapper(&self) -> F {
        self.ram.mapper()
    }

    /// A processor with every register and flag cleared, interrupts disabled,
    /// no image loaded, and `ram_size` zero bytes of memory behind
    /// `memory_mapper`.
    pub fn new(ram_size: usize, memory_mapper: F) -> (processor: Self)
        requires
            is_address_map(memory_mapper),
        ensures
            processor@.regs == Registers::cleared(),
            !processor@.rom_loaded,
            processor@.mem.cells == Seq::new(ram_size as nat, |i: int| 0u8),
            processor@.mem.map == translation(memory_mapper),
            processor.mapper() == memory_mapper,
    {
        Self {
            regs: Registers {
                a: 0,
                b: 0,
                c: 0,
                d: 0,
                e: 0,
                h: 0,
                l: 0,
                sp: 0,
                pc: 0,
                flags: Flags { s: false, z: false, p: false, cy: false, ac: false },
                interrupts_enabled: false,
            },
            ram: Memory::new(ram_size, memory_mapper),
            rom_loaded: false,
        }
    }

    /// Copies an image into memory and marks the processor as loaded.
    pub fn load_rom(&mut self, rom: &[u8], address: u16) -> (outcome: Result<(), Error>)
        ensures
            match old(self)@.mem.load_rom(rom@, address) {
                Ok(mem) => outcome == Ok::<(), Error>(()) && final(self)@ == (Machine {
                    mem,
                    rom_loaded: true,
                    ..old(self)@
                }),
                Err(error) => outcome == Err::<(), Error>(error) && final(self)@ == old(self)@,
            },
            final(self).mapper() == old(self).mapper(),
    {
        self.ram.load_rom(rom, address)?;
        self.rom_loaded = true;

        Ok(())
    }

    /// The registers and flags as they stand.
    pub fn registers(&self) -> (regs: Registers)
        ensures
            regs == self@.regs,
    {
        self.regs
    }

    /// Replaces the registers and flags.
    pub fn set_registers(&mut self, regs: Registers)
        ensures
            final(self)@ == old(self)@.with_regs(regs),
            final(self).mapper() == old(self).mapper(),
    {
        self.regs = regs;
    }

    /// Translates `address` as the processor's memory does.
    pub fn translate(&self, address: u16) -> (answer: (usize, bool))
        ensures
            answer == (self@.mem.map)(address),
            call_ensures(self.mapper(), (address,), answer),
    {
        self.ram.translate(address)
    }

    /// A view of `size` bytes of memory that starts at `address`.
    pub fn memory_slice(&self, address: u16, size: usize) -> (outcome: Result<&[u8], Error>)
        ensures
            outcome is Ok == self@.mem.slice(address, size) is Ok,
            outcome matches Ok(bytes) ==> self@.mem.slice(address, size) == Ok::<Seq<u8>, Error>(
                bytes@,
            ),
            outcome matches Err(error) ==> self@.mem.slice(address, size) == Err::<
                Seq<u8>,
                Error,
            >(error),
    {
        self.ram.memory_slice(address, size)
    }

    /// Offers interrupt `interrupt_num` to the processor. With interrupts
    /// disabled nothing happens; else they are disabled, the program
    /// counter is pushed and execution continues at the interrupt's vector.
    pub fn interrupt(&mut self, interrupt_num: u8) -> (outcome: Result<(), Error>)
        ensures
            went(outcome, final(self)@, old(self)@.interrupt(interrupt_num), old(self)@, ()),
            final(self).mapper() == old(self).mapper(),
    {
        if !self.regs.interrupts_enabled {
            return Ok(());
        }
        let (low_byte, high_byte) = word_to_bytes(self.regs.pc);
        self.push_16bit(low_byte, high_byte)?;
        self.regs.interrupts_enabled = false;

        proof {
            lemma_opcode_fields(interrupt_num);
        }
        let address = ((interrupt_num & 0b111) << 3) as u16;
        self.regs.pc = address;

        Ok(())
    }

    // =====================================================================
    //                           HELPER FUNCTIONS
    // =====================================================================
    fn get_source_reg(&self, opcode: u8) -> (outcome: Result<(u8, bool), Error>)
        ensures
            match self@.load(source_in(opcode)) {
                Ok(value) => outcome == Ok::<(u8, bool), Error>(
                    (value, source_in(opcode) is M),
                ),
                Err(error) => outcome == Err::<(u8, bool), Error>(error),
            },
    {
        proof {
            lemma_opcode_fields(opcode);
        }
        let mut from_memory = false;
        let source = match opcode & 0b111 {
            0b111 => self.regs.a,
            0b000 => self.regs.b,
            0b001 => self.regs.c,
            0b010 => self.regs.d,
            0b011 => self.regs.e,
            0b100 => self.regs.h,
            0b101 => self.regs.l,
            _ => {
                from_memory = true;
                self.ram.read(self.get_hl())?
            },
        };

        Ok((source, from_memory))
    }

    fn get_dest_reg(&mut self, opcode: u8) -> (outcome: Result<(&mut u8, bool), Error>)
        ensures
            match old(self)@.load_for_update(destination_in(opcode)) {
                Ok(value) => outcome matches Ok((cell, to_memory)) && *cell == value && to_memory
                    == (destination_in(opcode) is M) && Ok::<Machine, Error>(
                    final(self)@,
                ) == old(self)@.store(destination_in(opcode), *final(cell)),
                Err(error) => outcome matches Err(reported) && reported == error && final(self)@
                    == old(self)@,
            },
            final(self).mapper() == old(self).mapper(),
    {
        proof {
            lemma_opcode_fields(opcode);
        }
        let mut from_memory = false;

        let destination: &mut u8 = match (opcode >> 3) & 0b111 {
            0b111 => &mut self.regs.a,
            0b000 => &mut self.regs.b,
            0b001 => &mut self.regs.c,
            0b010 => &mut self.regs.d,
            0b011 => &mut self.regs.e,
            0b100 => &mut self.regs.h,
            0b101 => &mut self.regs.l,
            _ => {
                from_memory = true;
                let address = self.get_hl();
                self.ram.read_mut(address)?
            },
        };
        Ok((destination, from_memory))
    }

    fn get_bc(&self) -> (word: u16)
        ensures
            word == self@.regs.bc(),
    {
        bytes_to_word(self.regs.c, self.regs.b)
    }

    fn get_de(&self) -> (word: u16)
        ensures
            word == self@.regs.de(),
    {
        bytes_to_word(self.regs.e, self.regs.d)
    }

    fn get_hl(&self) -> (word: u16)
        ensures
            word == self@.regs.hl(),
    {
        bytes_to_word(self.regs.l, self.regs.h)
    }

    fn get_next_byte(&self) -> (outcome: Result<u8, Error>)
        ensures
            outcome == self@.code_byte(1),
    {
        self.ram.read(self.regs.pc.wrapping_add(1))
    }

    fn get_next_16bit(&self) -> (outcome: Result<(u8, u8), Error>)
        ensures
            match self@.code_byte(1) {
                Err(error) => outcome == Err::<(u8, u8), Error>(error),
                Ok(low_byte) => match self@.code_byte(2) {
                    Err(error) => outcome == Err::<(u8, u8), Error>(error),
                    Ok(high_byte) => outcome == Ok::<(u8, u8), Error>((low_byte, high_byte)),
                },
            },
    {
        let low_byte = self.ram.read(self.regs.pc.wrapping_add(1))?;
        let high_byte = self.ram.read(self.regs.pc.wrapping_add(2))?;
        Ok((low_byte, high_byte))
    }

    fn set_reg_pair(&mut self, opcode: u8, low_byte: u8, high_byte: u8)
        ensures
            final(self)@ == old(self)@.with_regs(
                old(self)@.regs.with_pair(
                    pair_in(opcode),
                    word_of(low_byte, high_byte),
                ),
            ),
            final(self).mapper() == old(self).mapper(),
    {
        proof {
            lemma_opcode_fields(opcode);
        }
        match (opcode >> 4) & 0b11 {
            0b00 => {
                self.regs.b = high_byte;
                self.regs.c = low_byte;
            },
            0b01 => {
                self.regs.d = high_byte;
                self.regs.e = low_byte;
            },
            0b10 => {
                self.regs.h = high_byte;
                self.regs.l = low_byte;
            },
            _ => self.regs.sp = bytes_to_word(low_byte, high_byte),
        }
    }

    fn get_reg_pair(&self, opcode: u8) -> (word: u16)
        ensures
            word == self@.regs.pair(pair_in(opcode)),
    {
        proof {
            lemma_opcode_fields(opcode);
        }
        match (opcode >> 4) & 0b11 {
            0b00 => self.get_bc(),
            0b01 => self.get_de(),
            0b10 => self.get_hl(),
            _ => self.regs.sp,
        }
    }

    fn get_conditional(&self, opcode: u8) -> (holds: bool)
        ensures
            holds == self@.regs.holds(condition_in(opcode)),
    {
        proof {
            lemma_opcode_fields(opcode);
        }
        match (opcode >> 3) & 0b111 {
            0b000 => !self.regs.flags.z,
            0b001 => self.regs.flags.z,
            0b010 => !self.regs.flags.cy,
            0b011 => self.regs.flags.cy,
            0b100 => !self.regs.flags.p,
            0b101 => self.regs.flags.p,
            0b110 => !self.regs.flags.s,
            _ => self.regs.flags.s,
        }
    }

    /// Sets the flags after `prev_a + b + carry`.
    fn set_flags_add(&mut self, result_16: u16, result_8: u8, prev_a: u8, b: u8, carry: u8)
        requires
            carry <= 1,
            result_16 == prev_a + b + carry,
            result_8 == result_16 % 256,
        ensures
            final(self)@ == old(self)@.with_flags(sum(prev_a, b, carry == 1).flags),
            final(self).mapper() == old(self).mapper(),
    {
        proof {
            reveal(sum);
        }
        proof {
            lemma_flag_bits(result_8);
            lemma_carry_bits(result_16);
            lemma_low_nibble(prev_a);
            lemma_low_nibble(b);
        }
        self.regs.flags.s = result_8 & 0x80 != 0;
        self.regs.flags.z = result_8 == 0;
        self.regs.flags.p = bit_parity(result_8);
        self.regs.flags.cy = result_16 & 0xFF00 != 0;
        self.regs.flags.ac = (prev_a & 0xF) + (b & 0xF) + carry > 0xF;
    }

    /// Sets the flags after `a - b - borrow`.
    fn set_flags_sub(&mut self, result: u8, a: u8, b: u8, borrow: u8)
        requires
            borrow <= 1,
            result == (a - b - borrow) % 256,
        ensures
            final(self)@ == old(self)@.with_flags(
                difference(a, b, borrow == 1).flags,
            ),
            final(self).mapper() == old(self).mapper(),
    {
        proof {
            reveal(difference);
        }
        proof {
            lemma_flag_bits(result);
            lemma_low_nibble(a);
            lemma_low_nibble(b);
        }
        self.regs.flags.s = result & 0x80 != 0;
        self.regs.flags.z = result == 0;
        self.regs.flags.p = bit_parity(result);
        self.regs.flags.cy = a < b || a - b < borrow;
        self.regs.flags.ac = (a & 0xF) < (b & 0xF) + borrow;
    }

    /// Sets the flags after `self.a = prev_a & operand`.
    fn set_flags_and(&mut self, prev_a: u8, operand: u8)
        requires
            old(self)@.regs.a == prev_a & operand,
        ensures
            final(self)@ == old(self)@.with_flags(conjunction(prev_a, operand).flags),
            final(self).mapper() == old(self).mapper(),
    {
        proof {
            reveal(conjunction);
        }
        proof {
            lemma_flag_bits(self.regs.a);
            lemma_flag_bits(prev_a);
            lemma_flag_bits(operand);
        }
        self.regs.flags.s = self.regs.a & 0x80 != 0;
        self.regs.flags.z = self.regs.a == 0;
        self.regs.flags.p = bit_parity(self.regs.a);
        self.regs.flags.cy = false;
        self.regs.flags.ac = ((prev_a >> 3) & 1) != 0 || ((operand >> 3) & 1) != 0;
    }

    fn set_flags_logical(&mut self, result: u8)
        ensures
            final(self)@ == old(self)@.with_flags(flags_of(result, false, false)),
            final(self).mapper() == old(self).mapper(),
    {
        proof {
            lemma_flag_bits(result);
        }
        self.regs.flags.s = result & 0x80 != 0;
        self.regs.flags.z = result == 0;
        self.regs.flags.p = bit_parity(result);
        self.regs.flags.cy = false;
        self.regs.flags.ac = false;
    }

    fn push_16bit(&mut self, low_byte: u8, high_byte: u8) -> (outcome: Result<(), Error>)
        ensures
            went(
                outcome,
                final(self)@,
                old(self)@.push(word_of(low_byte, high_byte)),
                old(self)@,
                (),
            ),
            final(self).mapper() == old(self).mapper(),
    {
        let upper = self.regs.sp.wrapping_sub(1);
        let lower = self.regs.sp.wrapping_sub(2);
        self.ram.check_write(upper)?;
        self.ram.check_write(lower)?;
        self.ram.write(upper, high_byte)?;
        self.ram.write(lower, low_byte)?;
        self.regs.sp = lower;

        Ok(())
    }

    fn pop_16bit(&mut self) -> (outcome: Result<(u8, u8), Error>)
        ensures
            match old(self)@.pop() {
                Ok((popped, word)) => outcome matches Ok(bytes) && word_of(bytes.0, bytes.1)
                    == word && bytes.0 == low_byte_of(word) && bytes.1 == high_byte_of(word)
                    && final(self)@ == popped,
                Err(error) => outcome == Err::<(u8, u8), Error>(error) && final(self)@ == old(
                    self,
                )@,
            },
            final(self).mapper() == old(self).mapper(),
    {
        let low_byte = self.ram.read(self.regs.sp)?;
        let high_byte = self.ram.read(self.regs.sp.wrapping_add(1))?;
        self.regs.sp = self.regs.sp.wrapping_add(2);

        Ok((low_byte, high_byte))
    }

    fn flags_to_byte(&self) -> (byte: u8)
        ensures
            byte == self@.regs.flags.to_byte(),
    {
        let s: u8 = if self.regs.flags.s { 0x80 } else { 0 };
        let z: u8 = if self.regs.flags.z { 0x40 } else { 0 };
        let ac: u8 = if self.regs.flags.ac { 0x10 } else { 0 };
        let p: u8 = if self.regs.flags.p { 0x4 } else { 0 };
        let cy: u8 = if self.regs.flags.cy { 0x1 } else { 0 };
        proof {
            lemma_flag_byte(s, z, ac, p, cy);
        }
        2u8 | s | z | ac | p | cy
    }

    fn byte_to_flag(&mut self, flag_register: u8)
        ensures
            final(self)@ == old(self)@.with_flags(Flags::from_byte(flag_register)),
            final(self).mapper() == old(self).mapper(),
    {
        proof {
            lemma_flag_bits(flag_register);
        }
        self.regs.flags.s = flag_register & 0x80 != 0;
        self.regs.flags.z = flag_register & 0x40 != 0;
        self.regs.flags.ac = flag_register & 0x10 != 0;
        self.regs.flags.p = flag_register & 0x4 != 0;
        self.regs.flags.cy = flag_register & 0x1 != 0;
    }

    // =====================================================================
    //                            OPCODE FUNCTIONS
    // =====================================================================
    fn mov_opcode(&mut self, opcode: u8) -> (outcome: Result<u32, Error>)
        ensures
            went(outcome, final(self)@, old(self)@.effect(Instruction::Mov(destination_in(opcode), source_in(opcode))), old(self)@, old(self)@.cycles(Instruction::Mov(destination_in(opcode), source_in(opcode)))),
            final(self)@.regs.pc == old(self)@.regs.pc,
            final(self).mapper() == old(self).mapper(),
    {
        proof {
            assert(self@.effect(Instruction::Mov(destination_in(opcode), source_in(opcode))) == self@.mov(destination_in(opcode), source_in(opcode))) by {
                reveal(Machine::effect);
            }
        }
        let (source, source_from_memory) = self.get_source_reg(opcode)?;

        let (destination, dest_to_memory) = self.get_dest_reg(opcode)?;
        *destination = source;

        if source_from_memory || dest_to_memory {
            Ok(7)
        } else {
            Ok(5)
        }
    }

    fn mvi_opcode(&mut self, opcode: u8, immediate: u8) -> (outcome: Result<u32, Error>)
        ensures
            went(outcome, final(self)@, old(self)@.effect(Instruction::Mvi(destination_in(opcode), immediate)), old(self)@, old(self)@.cycles(Instruction::Mvi(destination_in(opcode), immediate))),
            final(self)@.regs.pc == old(self)@.regs.pc,
            final(self).mapper() == old(self).mapper(),
    {
        proof {
            assert(self@.effect(Instruction::Mvi(destination_in(opcode), immediate)) == self@.store(destination_in(opcode), immediate)) by {
                reveal(Machine::effect);
            }
        }
        let (register, to_memory) = self.get_dest_reg(opcode)?;
        *register = immediate;

        if to_memory {
            Ok(10)
        } else {
            Ok(7)
        }
    }

    fn lxi_opcode(&mut self, opcode: u8, low_byte: u8, high_byte: u8)
        ensures
            Ok::<Machine, Error>(final(self)@) == old(self)@.effect(Instruction::Lxi(pair_in(opcode), word_of(low_byte, high_byte))),
            final(self)@.regs.pc == old(self)@.regs.pc,
            final(self).mapper() == old(self).mapper(),
    {
        proof {
            assert(self@.effect(Instruction::Lxi(pair_in(opcode), word_of(low_byte, high_byte))) == Ok::<Machine, Error>(self@.with_regs(self@.regs.with_pair(pair_in(opcode), word_of(low_byte, high_byte))))) by {
                reveal(Machine::effect);
            }
        }
        self.set_reg_pair(opcode, low_byte, high_byte);
    }

    fn lda_opcode(&mut self, low_byte: u8, high_byte: u8) -> (outcome: Result<(), Error>)
        ensures
            went(outcome, final(self)@, old(self)@.effect(Instruction::Lda(word_of(low_byte, high_byte))), old(self)@, ()),
            final(self)@.regs.pc == old(self)@.regs.pc,
            final(self).mapper() == old(self).mapper(),
    {
        proof {
            assert(self@.effect(Instruction::Lda(word_of(low_byte, high_byte))) == self@.lda(word_of(low_byte, high_byte))) by {
                reveal(Machine::effect);
            }
        }
        let address = bytes_to_word(low_byte, high_byte);
        self.regs.a = self.ram.read(address)?;

        Ok(())
    }

    fn sta_opcode(&mut self, low_byte: u8, high_byte: u8) -> (outcome: Result<(), Error>)
        ensures
            went(outcome, final(self)@, old(self)@.effect(Instruction::Sta(word_of(low_byte, high_byte))), old(self)@, ()),
            final(self)@.regs.pc == old(self)@.regs.pc,
            final(self).mapper() == old(self).mapper(),
    {
        proof {
            assert(self@.effect(Instruction::Sta(word_of(low_byte, high_byte))) == self@.sta(word_of(low_byte, high_byte))) by {
                reveal(Machine::effect);
            }
        }
        let address = bytes_to_word(low_byte, high_byte);
        self.ram.write(address, self.regs.a)?;

        Ok(())
    }

    fn lhld_opcode(&mut self, low_byte: u8, high_byte: u8) -> (outcome: Result<(), Error>)
        ensures
            went(outcome, final(self)@, old(self)@.effect(Instruction::Lhld(word_of(low_byte, high_byte))), old(self)@, ()),
            final(self)@.regs.pc == old(self)@.regs.pc,
            final(self).mapper() == old(self).mapper(),
    {
        proof {
            assert(self@.effect(Instruction::Lhld(word_of(low_byte, high_byte))) == self@.lhld(word_of(low_byte, high_byte))) by {
                reveal(Machine::effect);
            }
        }
        let address = bytes_to_word(low_byte, high_byte);
        let low = self.ram.read(address)?;
        let high = self.ram.read(address.wrapping_add(1))?;
        self.regs.l = low;
        self.regs.h = high;

        Ok(())
    }

    fn shld_opcode(&mut self, low_byte: u8, high_byte: u8) -> (outcome: Result<(), Error>)
        ensures
            went(outcome, final(self)@, old(self)@.effect(Instruction::Shld(word_of(low_byte, high_byte))), old(self)@, ()),
            final(self)@.regs.pc == old(self)@.regs.pc,
            final(self).mapper() == old(self).mapper(),
    {
        proof {
            assert(self@.effect(Instruction::Shld(word_of(low_byte, high_byte))) == self@.shld(word_of(low_byte, high_byte))) by {
                reveal(Machine::effect);
            }
        }
        let address = bytes_to_word(low_byte, high_byte);
        self.ram.check_write(address)?;
        self.ram.check_write(address.wrapping_add(1))?;
        self.ram.write(address, self.regs.l)?;
        self.ram.write(address.wrapping_add(1), self.regs.h)?;

        Ok(())
    }

    fn ldax_opcode(&mut self, opcode: u8) -> (outcome: Result<(), Error>)
        ensures
            went(outcome, final(self)@, old(self)@.effect(Instruction::Ldax(pair_in(opcode))), old(self)@, ()),
            final(self)@.regs.pc == old(self)@.regs.pc,
            final(self).mapper() == old(self).mapper(),
    {
        proof {
            assert(self@.effect(Instruction::Ldax(pair_in(opcode))) == self@.lda(self@.regs.pair(pair_in(opcode)))) by {
                reveal(Machine::effect);
            }
        }
        let address = self.get_reg_pair(opcode);
        self.regs.a = self.ram.read(address)?;

        Ok(())
    }

    fn stax_opcode(&mut self, opcode: u8) -> (outcome: Result<(), Error>)
        ensures
            went(outcome, final(self)@, old(self)@.effect(Instruction::Stax(pair_in(opcode))), old(self)@, ()),
            final(self)@.regs.pc == old(self)@.regs.pc,
            final(self).mapper() == old(self).mapper(),
    {
        proof {
            assert(self@.effect(Instruction::Stax(pair_in(opcode))) == self@.sta(self@.regs.pair(pair_in(opcode)))) by {
                reveal(Machine::effect);
            }
        }
        let address = self.get_reg_pair(opcode);
        self.ram.write(address, self.regs.a)?;

        Ok(())
    }

    fn xchg_opcode(&mut self)
        ensures
            Ok::<Machine, Error>(final(self)@) == old(self)@.effect(Instruction::Xchg),
            final(self)@.regs.pc == old(self)@.regs.pc,
            final(self).mapper() == old(self).mapper(),
    {
        proof {
            assert(self@.effect(Instruction::Xchg) == Ok::<Machine, Error>(self@.xchg())) by {
                reveal(Machine::effect);
            }
        }
        let d_prev = self.regs.d;
        let e_prev = self.regs.e;
        self.regs.d = self.regs.h;
        self.regs.e = self.regs.l;
        self.regs.h = d_prev;
        self.regs.l = e_prev;
    }

    fn add_opcode(&mut self, opcode: u8) -> (outcome: Result<u32, Error>)
        ensures
            went(outcome, final(self)@, old(self)@.effect(Instruction::Alu(AluOp::Add, source_in(opcode))), old(self)@, old(self)@.cycles(Instruction::Alu(AluOp::Add, source_in(opcode)))),
            final(self)@.regs.pc == old(self)@.regs.pc,
            final(self).mapper() == old(self).mapper(),
    {
        proof {
            assert(self@.effect(Instruction::Alu(AluOp::Add, source_in(opcode))) == self@.alu_operand(AluOp::Add, source_in(opcode))) by {
                reveal(Machine::effect);
            }
        }
        let (source, from_memory) = self.get_source_reg(opcode)?;
        proof {
            assert(self@.effect(Instruction::AluImmediate(AluOp::Add, source)) == Ok::<
                Machine,
                Error,
            >(self@.alu(AluOp::Add, source))) by {
                reveal(Machine::effect);
            }
        }
        self.adi_opcode(source);

        // Cycles count depends on whether or not memory was accessed
        if from_memory {
            Ok(7)
        } else {
            Ok(4)
        }
    }

    fn adi_opcode(&mut self, immediate: u8)
        ensures
            Ok::<Machine, Error>(final(self)@) == old(self)@.effect(Instruction::AluImmediate(AluOp::Add, immediate)),
            final(self)@.regs.pc == old(self)@.regs.pc,
            final(self).mapper() == old(self).mapper(),
    {
        proof {
            assert(self@.effect(Instruction::AluImmediate(AluOp::Add, immediate)) == Ok::<Machine, Error>(self@.alu(AluOp::Add, immediate))) by {
                reveal(Machine::effect);
            }
        }
        let result = self.regs.a as u16 + immediate as u16;
        let prev_a = self.regs.a;
        proof {
            reveal(sum);
            lemma_carry_bits(result);
        }
        self.regs.a = (result & 0xFF) as u8;

        self.set_flags_add(result, self.regs.a, prev_a, immediate, 0);
    }

    fn adc_opcode(&mut self, opcode: u8) -> (outcome: Result<u32, Error>)
        ensures
            went(outcome, final(self)@, old(self)@.effect(Instruction::Alu(AluOp::Adc, source_in(opcode))), old(self)@, old(self)@.cycles(Instruction::Alu(AluOp::Adc, source_in(opcode)))),
            final(self)@.regs.pc == old(self)@.regs.pc,
            final(self).mapper() == old(self).mapper(),
    {
        proof {
            assert(self@.effect(Instruction::Alu(AluOp::Adc, source_in(opcode))) == self@.alu_operand(AluOp::Adc, source_in(opcode))) by {
                reveal(Machine::effect);
            }
        }
        let (source, from_memory) = self.get_source_reg(opcode)?;
        proof {
            assert(self@.effect(Instruction::AluImmediate(AluOp::Adc, source)) == Ok::<
                Machine,
                Error,
            >(self@.alu(AluOp::Adc, source))) by {
                reveal(Machine::effect);
            }
        }
        self.aci_opcode(source);

        // Cycles count depends on whether or not memory was accessed
        if from_memory {
            Ok(7)
        } else {
            Ok(4)
        }
    }

    fn aci_opcode(&mut self, immediate: u8)
        ensures
            Ok::<Machine, Error>(final(self)@) == old(self)@.effect(Instruction::AluImmediate(AluOp::Adc, immediate)),
            final(self)@.regs.pc == old(self)@.regs.pc,
            final(self).mapper() == old(self).mapper(),
    {
        proof {
            assert(self@.effect(Instruction::AluImmediate(AluOp::Adc, immediate)) == Ok::<Machine, Error>(self@.alu(AluOp::Adc, immediate))) by {
                reveal(Machine::effect);
            }
        }
        let carry: u8 = if self.regs.flags.cy {
            1
        } else {
            0
        };
        let result = self.regs.a as u16 + immediate as u16 + carry as u16;
        let prev_a = self.regs.a;
        proof {
            reveal(sum);
            lemma_carry_bits(result);
        }
        self.regs.a = (result & 0xFF) as u8;

        self.set_flags_add(result, self.regs.a, prev_a, immediate, carry);
    }

    fn sub_opcode(&mut self, opcode: u8) -> (outcome: Result<u32, Error>)
        ensures
            went(outcome, final(self)@, old(self)@.effect(Instruction::Alu(AluOp::Sub, source_in(opcode))), old(self)@, old(self)@.cycles(Instruction::Alu(AluOp::Sub, source_in(opcode)))),
            final(self)@.regs.pc == old(self)@.regs.pc,
            final(self).mapper() == old(self).mapper(),
    {
        proof {
            assert(self@.effect(Instruction::Alu(AluOp::Sub, source_in(opcode))) == self@.alu_operand(AluOp::Sub, source_in(opcode))) by {
                reveal(Machine::effect);
            }
        }
        let (source, from_memory) = self.get_source_reg(opcode)?;
        proof {
            assert(self@.effect(Instruction::AluImmediate(AluOp::Sub, source)) == Ok::<
                Machine,
                Error,
            >(self@.alu(AluOp::Sub, source))) by {
                reveal(Machine::effect);
            }
        }
        self.sui_opcode(source);

        // Cycles count depends on whether or not memory was accessed
        if from_memory {
            Ok(7)
        } else {
            Ok(4)
        }
    }

    fn sui_opcode(&mut self, immediate: u8)
        ensures
            Ok::<Machine, Error>(final(self)@) == old(self)@.effect(Instruction::AluImmediate(AluOp::Sub, immediate)),
            final(self)@.regs.pc == old(self)@.regs.pc,
            final(self).mapper() == old(self).mapper(),
    {
        proof {
            assert(self@.effect(Instruction::AluImmediate(AluOp::Sub, immediate)) == Ok::<Machine, Error>(self@.alu(AluOp::Sub, immediate))) by {
                reveal(Machine::effect);
            }
        }
        let prev_a = self.regs.a;
        self.regs.a = self.regs.a.wrapping_sub(immediate);

        proof {
            reveal(difference);
            lemma_wrap_byte(prev_a - immediate);
        }
        self.set_flags_sub(self.regs.a, prev_a, immediate, 0);
    }

    fn sbb_opcode(&mut self, opcode: u8) -> (outcome: Result<u32, Error>)
        ensures
            went(outcome, final(self)@, old(self)@.effect(Instruction::Alu(AluOp::Sbb, source_in(opcode))), old(self)@, old(self)@.cycles(Instruction::Alu(AluOp::Sbb, source_in(opcode)))),
            final(self)@.regs.pc == old(self)@.regs.pc,
            final(self).mapper() == old(self).mapper(),
    {
        proof {
            assert(self@.effect(Instruction::Alu(AluOp::Sbb, source_in(opcode))) == self@.alu_operand(AluOp::Sbb, source_in(opcode))) by {
                reveal(Machine::effect);
            }
        }
        let (source, from_memory) = self.get_source_reg(opcode)?;
        proof {
            assert(self@.effect(Instruction::AluImmediate(AluOp::Sbb, source)) == Ok::<
                Machine,
                Error,
            >(self@.alu(AluOp::Sbb, source))) by {
                reveal(Machine::effect);
            }
        }
        self.sbi_opcode(source);

        if from_memory {
            Ok(7)
        } else {
            Ok(4)
        }
    }

    fn sbi_opcode(&mut self, immediate: u8)
        ensures
            Ok::<Machine, Error>(final(self)@) == old(self)@.effect(Instruction::AluImmediate(AluOp::Sbb, immediate)),
            final(self)@.regs.pc == old(self)@.regs.pc,
            final(self).mapper() == old(self).mapper(),
    {
        proof {
            assert(self@.effect(Instruction::AluImmediate(AluOp::Sbb, immediate)) == Ok::<Machine, Error>(self@.alu(AluOp::Sbb, immediate))) by {
                reveal(Machine::effect);
            }
        }
        let borrow: u8 = if self.regs.flags.cy {
            1
        } else {
            0
        };
        let prev_a = self.regs.a;
        self.regs.a = self.regs.a.wrapping_sub(immediate).wrapping_sub(borrow);

        proof {
            reveal(difference);
            lemma_wrap_byte(prev_a - immediate - borrow);
        }
        self.set_flags_sub(self.regs.a, prev_a, immediate, borrow);
    }

    fn inr_opcode(&mut self, opcode: u8) -> (outcome: Result<u32, Error>)
        ensures
            went(outcome, final(self)@, old(self)@.effect(Instruction::Inr(destination_in(opcode))), old(self)@, old(self)@.cycles(Instruction::Inr(destination_in(opcode)))),
            final(self)@.regs.pc == old(self)@.regs.pc,
            final(self).mapper() == old(self).mapper(),
    {
        proof {
            assert(self@.effect(Instruction::Inr(destination_in(opcode))) == self@.inr(destination_in(opcode))) by {
                reveal(Machine::effect);
            }
        }
        let (register, to_memory) = self.get_dest_reg(opcode)?;

        let prev_val = *register;
        let result = prev_val.wrapping_add(1);
        *register = result;

        proof {
            reveal(increment);
            reveal(sum);
            lemma_flag_bits(result);
            lemma_wrap_byte(prev_val + 1);
            lemma_store_then_flags(
                old(self)@,
                destination_in(opcode),
                result,
                increment(prev_val, old(self)@.regs.flags).flags,
            );
        }
        self.regs.flags.s = result & 0x80 != 0;
        self.regs.flags.z = result == 0;
        self.regs.flags.p = bit_parity(result);
        self.regs.flags.ac = auxiliary_add(prev_val, 1);

        if to_memory {
            Ok(10)
        } else {
            Ok(5)
        }
    }

    fn dcr_opcode(&mut self, opcode: u8) -> (outcome: Result<u32, Error>)
        ensures
            went(outcome, final(self)@, old(self)@.effect(Instruction::Dcr(destination_in(opcode))), old(self)@, old(self)@.cycles(Instruction::Dcr(destination_in(opcode)))),
            final(self)@.regs.pc == old(self)@.regs.pc,
            final(self).mapper() == old(self).mapper(),
    {
        proof {
            assert(self@.effect(Instruction::Dcr(destination_in(opcode))) == self@.dcr(destination_in(opcode))) by {
                reveal(Machine::effect);
            }
        }
        let (register, to_memory) = self.get_dest_reg(opcode)?;

        let prev_val = *register;
        let result = prev_val.wrapping_sub(1);
        *register = result;

        proof {
            reveal(decrement);
            reveal(difference);
            lemma_flag_bits(result);
            lemma_wrap_byte(prev_val - 1);
            lemma_store_then_flags(
                old(self)@,
                destination_in(opcode),
                result,
                decrement(prev_val, old(self)@.regs.flags).flags,
            );
        }
        self.regs.flags.s = result & 0x80 != 0;
        self.regs.flags.z = result == 0;
        self.regs.flags.p = bit_parity(result);
        self.regs.flags.ac = auxiliary_sub(prev_val, 1);

        if to_memory {
            Ok(10)
        } else {
            Ok(5)
        }
    }

    fn inx_opcode(&mut self, opcode: u8)
        ensures
            Ok::<Machine, Error>(final(self)@) == old(self)@.effect(Instruction::Inx(pair_in(opcode))),
            final(self)@.regs.pc == old(self)@.regs.pc,
            final(self).mapper() == old(self).mapper(),
    {
        proof {
            assert(self@.effect(Instruction::Inx(pair_in(opcode))) == Ok::<Machine, Error>(self@.inx(pair_in(opcode)))) by {
                reveal(Machine::effect);
            }
        }
        let register = self.get_reg_pair(opcode);
        let result = register.wrapping_add(1);

        let (low_byte, high_byte) = word_to_bytes(result);
        self.set_reg_pair(opcode, low_byte, high_byte);
    }

    fn dcx_opcode(&mut self, opcode: u8)
        ensures
            Ok::<Machine, Error>(final(self)@) == old(self)@.effect(Instruction::Dcx(pair_in(opcode))),
            final(self)@.regs.pc == old(self)@.regs.pc,
            final(self).mapper() == old(self).mapper(),
    {
        proof {
            assert(self@.effect(Instruction::Dcx(pair_in(opcode))) == Ok::<Machine, Error>(self@.dcx(pair_in(opcode)))) by {
                reveal(Machine::effect);
            }
        }
        let register = self.get_reg_pair(opcode);
        let result = register.wrapping_sub(1);

        let (low_byte, high_byte) = word_to_bytes(result);
        self.set_reg_pair(opcode, low_byte, high_byte);
    }

    fn dad_opcode(&mut self, opcode: u8)
        ensures
            Ok::<Machine, Error>(final(self)@) == old(self)@.effect(Instruction::Dad(pair_in(opcode))),
            final(self)@.regs.pc == old(self)@.regs.pc,
            final(self).mapper() == old(self).mapper(),
    {
        proof {
            assert(self@.effect(Instruction::Dad(pair_in(opcode))) == Ok::<Machine, Error>(self@.dad(pair_in(opcode)))) by {
                reveal(Machine::effect);
            }
        }
        let source = self.get_reg_pair(opcode);
        let destination = self.get_hl();

        let result = destination.wrapping_add(source);
        let (low_byte, high_byte) = word_to_bytes(result);
        proof {
            reveal(wide_sum);
        }
        self.regs.l = low_byte;
        self.regs.h = high_byte;

        self.regs.flags.cy = source > 0xFFFF - destination;
    }

    fn daa_opcode(&mut self)
        ensures
            Ok::<Machine, Error>(final(self)@) == old(self)@.effect(Instruction::Daa),
            final(self)@.regs.pc == old(self)@.regs.pc,
            final(self).mapper() == old(self).mapper(),
    {
        proof {
            assert(self@.effect(Instruction::Daa) == Ok::<Machine, Error>(self@.daa())) by {
                reveal(Machine::effect);
            }
        }
        let mut adjustment: u8 = 0;

        proof {
            reveal(decimal_adjust);
            lemma_low_nibble(self.regs.a);
        }
        if (self.regs.a & 0xF) > 9 || self.regs.flags.ac {
            adjustment += 0x6;
        }
        if (self.regs.a as u16 + adjustment as u16) / 16 > 9 || self.regs.flags.cy {
            adjustment += 0x60;
        }
        let result = self.regs.a.wrapping_add(adjustment);
        proof {
            reveal(sum);
            lemma_wrap_byte(self.regs.a + adjustment);
        }
        self.set_flags_add(
            self.regs.a as u16 + adjustment as u16,
            result,
            self.regs.a,
            adjustment,
            0,
        );
        self.regs.a = result;
    }

    fn ana_opcode(&mut self, opcode: u8) -> (outcome: Result<u32, Error>)
        ensures
            went(outcome, final(self)@, old(self)@.effect(Instruction::Alu(AluOp::Ana, source_in(opcode))), old(self)@, old(self)@.cycles(Instruction::Alu(AluOp::Ana, source_in(opcode)))),
            final(self)@.regs.pc == old(self)@.regs.pc,
            final(self).mapper() == old(self).mapper(),
    {
        proof {
            assert(self@.effect(Instruction::Alu(AluOp::Ana, source_in(opcode))) == self@.alu_operand(AluOp::Ana, source_in(opcode))) by {
                reveal(Machine::effect);
            }
        }
        let (source, from_memory) = self.get_source_reg(opcode)?;
        proof {
            assert(self@.effect(Instruction::AluImmediate(AluOp::Ana, source)) == Ok::<
                Machine,
                Error,
            >(self@.alu(AluOp::Ana, source))) by {
                reveal(Machine::effect);
            }
        }
        self.ani_opcode(source);

        if from_memory {
            Ok(7)
        } else {
            Ok(4)
        }
    }

    fn ani_opcode(&mut self, immediate: u8)
        ensures
            Ok::<Machine, Error>(final(self)@) == old(self)@.effect(Instruction::AluImmediate(AluOp::Ana, immediate)),
            final(self)@.regs.pc == old(self)@.regs.pc,
            final(self).mapper() == old(self).mapper(),
    {
        proof {
            assert(self@.effect(Instruction::AluImmediate(AluOp::Ana, immediate)) == Ok::<Machine, Error>(self@.alu(AluOp::Ana, immediate))) by {
                reveal(Machine::effect);
            }
        }
        let prev_a = self.regs.a;
        proof {
            reveal(conjunction);
        }
        self.regs.a = prev_a & immediate;
        self.set_flags_and(prev_a, immediate);
    }

    fn ora_opcode(&mut self, opcode: u8) -> (outcome: Result<u32, Error>)
        ensures
            went(outcome, final(self)@, old(self)@.effect(Instruction::Alu(AluOp::Ora, source_in(opcode))), old(self)@, old(self)@.cycles(Instruction::Alu(AluOp::Ora, source_in(opcode)))),
            final(self)@.regs.pc == old(self)@.regs.pc,
            final(self).mapper() == old(self).mapper(),
    {
        proof {
            assert(self@.effect(Instruction::Alu(AluOp::Ora, source_in(opcode))) == self@.alu_operand(AluOp::Ora, source_in(opcode))) by {
                reveal(Machine::effect);
            }
        }
        let (source, from_memory) = self.get_source_reg(opcode)?;
        proof {
            assert(self@.effect(Instruction::AluImmediate(AluOp::Ora, source)) == Ok::<
                Machine,
                Error,
            >(self@.alu(AluOp::Ora, source))) by {
                reveal(Machine::effect);
            }
        }
        self.ori_opcode(source);

        if from_memory {
            Ok(7)
        } else {
            Ok(4)
        }
    }

    fn ori_opcode(&mut self, immediate: u8)
        ensures
            Ok::<Machine, Error>(final(self)@) == old(self)@.effect(Instruction::AluImmediate(AluOp::Ora, immediate)),
            final(self)@.regs.pc == old(self)@.regs.pc,
            final(self).mapper() == old(self).mapper(),
    {
        proof {
            assert(self@.effect(Instruction::AluImmediate(AluOp::Ora, immediate)) == Ok::<Machine, Error>(self@.alu(AluOp::Ora, immediate))) by {
                reveal(Machine::effect);
            }
        }
        proof {
            reveal(disjunction);
        }
        self.regs.a = self.regs.a | immediate;
        self.set_flags_logical(self.regs.a);
    }

    fn xra_opcode(&mut self, opcode: u8) -> (outcome: Result<u32, Error>)
        ensures
            went(outcome, final(self)@, old(self)@.effect(Instruction::Alu(AluOp::Xra, source_in(opcode))), old(self)@, old(self)@.cycles(Instruction::Alu(AluOp::Xra, source_in(opcode)))),
            final(self)@.regs.pc == old(self)@.regs.pc,
            final(self).mapper() == old(self).mapper(),
    {
        proof {
            assert(self@.effect(Instruction::Alu(AluOp::Xra, source_in(opcode))) == self@.alu_operand(AluOp::Xra, source_in(opcode))) by {
                reveal(Machine::effect);
            }
        }
        let (source, from_memory) = self.get_source_reg(opcode)?;
        proof {
            assert(self@.effect(Instruction::AluImmediate(AluOp::Xra, source)) == Ok::<
                Machine,
                Error,
            >(self@.alu(AluOp::Xra, source))) by {
                reveal(Machine::effect);
            }
        }
        self.xri_opcode(source);

        if from_memory {
            Ok(7)
        } else {
            Ok(4)
        }
    }

    fn xri_opcode(&mut self, immediate: u8)
        ensures
            Ok::<Machine, Error>(final(self)@) == old(self)@.effect(Instruction::AluImmediate(AluOp::Xra, immediate)),
            final(self)@.regs.pc == old(self)@.regs.pc,
            final(self).mapper() == old(self).mapper(),
    {
        proof {
            assert(self@.effect(Instruction::AluImmediate(AluOp::Xra, immediate)) == Ok::<Machine, Error>(self@.alu(AluOp::Xra, immediate))) by {
                reveal(Machine::effect);
            }
        }
        proof {
            reveal(exclusive_or);
        }
        self.regs.a = self.regs.a ^ immediate;
        self.set_flags_logical(self.regs.a);
    }

    fn cmp_opcode(&mut self, opcode: u8) -> (outcome: Result<u32, Error>)
        ensures
            went(outcome, final(self)@, old(self)@.effect(Instruction::Alu(AluOp::Compare, source_in(opcode))), old(self)@, old(self)@.cycles(Instruction::Alu(AluOp::Compare, source_in(opcode)))),
            final(self)@.regs.pc == old(self)@.regs.pc,
            final(self).mapper() == old(self).mapper(),
    {
        proof {
            assert(self@.effect(Instruction::Alu(AluOp::Compare, source_in(opcode))) == self@.alu_operand(AluOp::Compare, source_in(opcode))) by {
                reveal(Machine::effect);
            }
        }
        let (source, from_memory) = self.get_source_reg(opcode)?;
        proof {
            assert(self@.effect(Instruction::AluImmediate(AluOp::Compare, source)) == Ok::<
                Machine,
                Error,
            >(self@.alu(AluOp::Compare, source))) by {
                reveal(Machine::effect);
            }
        }
        self.cpi_opcode(source);

        if from_memory {
            Ok(7)
        } else {
            Ok(4)
        }
    }

    fn cpi_opcode(&mut self, immediate: u8)
        ensures
            Ok::<Machine, Error>(final(self)@) == old(self)@.effect(Instruction::AluImmediate(AluOp::Compare, immediate)),
            final(self)@.regs.pc == old(self)@.regs.pc,
            final(self).mapper() == old(self).mapper(),
    {
        proof {
            assert(self@.effect(Instruction::AluImmediate(AluOp::Compare, immediate)) == Ok::<Machine, Error>(self@.alu(AluOp::Compare, immediate))) by {
                reveal(Machine::effect);
            }
        }
        let result = self.regs.a.wrapping_sub(immediate);
        proof {
            reveal(difference);
            lemma_wrap_byte(self.regs.a - immediate);
        }
        self.set_flags_sub(result, self.regs.a, immediate, 0);
    }

    fn rlc_opcode(&mut self)
        ensures
            Ok::<Machine, Error>(final(self)@) == old(self)@.effect(Instruction::Rlc),
            final(self)@.regs.pc == old(self)@.regs.pc,
            final(self).mapper() == old(self).mapper(),
    {
        proof {
            assert(self@.effect(Instruction::Rlc) == Ok::<Machine, Error>(self@.rlc())) by {
                reveal(Machine::effect);
            }
        }
        proof {
            reveal(rotate_left);
            lemma_flag_bits(self.regs.a);
            lemma_rotations(self.regs.a, 0);
        }
        self.regs.flags.cy = self.regs.a & 0x80 != 0;
        self.regs.a = (self.regs.a << 1) | (self.regs.a >> 7);
    }

    fn rrc_opcode(&mut self)
        ensures
            Ok::<Machine, Error>(final(self)@) == old(self)@.effect(Instruction::Rrc),
            final(self)@.regs.pc == old(self)@.regs.pc,
            final(self).mapper() == old(self).mapper(),
    {
        proof {
            assert(self@.effect(Instruction::Rrc) == Ok::<Machine, Error>(self@.rrc())) by {
                reveal(Machine::effect);
            }
        }
        proof {
            reveal(rotate_right);
            lemma_flag_bits(self.regs.a);
            lemma_rotations(self.regs.a, 0);
        }
        self.regs.flags.cy = self.regs.a & 0x1 != 0;
        self.regs.a = (self.regs.a >> 1) | (self.regs.a << 7);
    }

    fn ral_opcode(&mut self)
        ensures
            Ok::<Machine, Error>(final(self)@) == old(self)@.effect(Instruction::Ral),
            final(self)@.regs.pc == old(self)@.regs.pc,
            final(self).mapper() == old(self).mapper(),
    {
        proof {
            assert(self@.effect(Instruction::Ral) == Ok::<Machine, Error>(self@.ral())) by {
                reveal(Machine::effect);
            }
        }
        let prev_cy: u8 = if self.regs.flags.cy {
            1
        } else {
            0
        };
        proof {
            reveal(rotate_left_through_carry);
            lemma_flag_bits(self.regs.a);
            lemma_rotations(self.regs.a, prev_cy);
        }
        self.regs.flags.cy = self.regs.a & 0x80 != 0;
        self.regs.a = (self.regs.a << 1) | prev_cy;
    }

    fn rar_opcode(&mut self)
        ensures
            Ok::<Machine, Error>(final(self)@) == old(self)@.effect(Instruction::Rar),
            final(self)@.regs.pc == old(self)@.regs.pc,
            final(self).mapper() == old(self).mapper(),
    {
        proof {
            assert(self@.effect(Instruction::Rar) == Ok::<Machine, Error>(self@.rar())) by {
                reveal(Machine::effect);
            }
        }
        let prev_cy: u8 = if self.regs.flags.cy {
            1
        } else {
            0
        };
        proof {
            reveal(rotate_right_through_carry);
            lemma_flag_bits(self.regs.a);
            lemma_rotations(self.regs.a, prev_cy);
        }
        self.regs.flags.cy = self.regs.a & 0x1 != 0;
        self.regs.a = (self.regs.a >> 1) | (prev_cy << 7);
    }

    fn cma_opcode(&mut self)
        ensures
            Ok::<Machine, Error>(final(self)@) == old(self)@.effect(Instruction::Cma),
            final(self)@.regs.pc == old(self)@.regs.pc,
            final(self).mapper() == old(self).mapper(),
    {
        proof {
            assert(self@.effect(Instruction::Cma) == Ok::<Machine, Error>(self@.cma())) by {
                reveal(Machine::effect);
            }
        }
        proof {
            lemma_rotations(self.regs.a, 0);
        }
        self.regs.a = !self.regs.a;
    }

    fn cmc_opcode(&mut self)
        ensures
            Ok::<Machine, Error>(final(self)@) == old(self)@.effect(Instruction::Cmc),
            final(self)@.regs.pc == old(self)@.regs.pc,
            final(self).mapper() == old(self).mapper(),
    {
        proof {
            assert(self@.effect(Instruction::Cmc) == Ok::<Machine, Error>(self@.cmc())) by {
                reveal(Machine::effect);
            }
        }
        self.regs.flags.cy = !self.regs.flags.cy;
    }

    fn stc_opcode(&mut self)
        ensures
            Ok::<Machine, Error>(final(self)@) == old(self)@.effect(Instruction::Stc),
            final(self)@.regs.pc == old(self)@.regs.pc,
            final(self).mapper() == old(self).mapper(),
    {
        proof {
            assert(self@.effect(Instruction::Stc) == Ok::<Machine, Error>(self@.stc())) by {
                reveal(Machine::effect);
            }
        }
        self.regs.flags.cy = true;
    }

    fn jmp_opcode(&mut self, low_byte: u8, high_byte: u8)
        ensures
            Ok::<Machine, Error>(final(self)@) == old(self)@.transfer(Instruction::Jmp(word_of(low_byte, high_byte))),
            final(self).mapper() == old(self).mapper(),
    {
        proof {
            assert(self@.transfer(Instruction::Jmp(word_of(low_byte, high_byte))) == Ok::<Machine, Error>(self@.with_pc(word_of(low_byte, high_byte)))) by {
                reveal(Machine::transfer);
            }
        }
        let address = bytes_to_word(low_byte, high_byte);
        self.regs.pc = address;
    }

    fn jccc_opcode(&mut self, opcode: u8, low_byte: u8, high_byte: u8)
        ensures
            Ok::<Machine, Error>(final(self)@) == old(self)@.transfer(Instruction::Jcc(condition_in(opcode), word_of(low_byte, high_byte))),
            final(self).mapper() == old(self).mapper(),
    {
        proof {
            assert(self@.transfer(Instruction::Jcc(condition_in(opcode), word_of(low_byte, high_byte))) == Ok::<Machine, Error>(self@.jump(self@.regs.holds(condition_in(opcode)), word_of(low_byte, high_byte), 3))) by {
                reveal(Machine::transfer);
            }
        }
        if self.get_conditional(opcode) {
            let address = bytes_to_word(low_byte, high_byte);
            self.regs.pc = address;
        } else {
            self.regs.pc = self.regs.pc.wrapping_add(3);
        }
    }

    fn call_opcode(&mut self, low_byte: u8, high_byte: u8) -> (outcome: Result<(), Error>)
        ensures
            went(outcome, final(self)@, old(self)@.transfer(Instruction::Call(word_of(low_byte, high_byte))), old(self)@, ()),
            final(self).mapper() == old(self).mapper(),
    {
        proof {
            assert(self@.transfer(Instruction::Call(word_of(low_byte, high_byte))) == self@.call(word_of(low_byte, high_byte))) by {
                reveal(Machine::transfer);
            }
        }
        let (low_return, high_return) = word_to_bytes(self.regs.pc.wrapping_add(3));
        self.push_16bit(low_return, high_return)?;

        let address = bytes_to_word(low_byte, high_byte);
        self.regs.pc = address;

        Ok(())
    }

    fn cccc_opcode(&mut self, opcode: u8, low_byte: u8, high_byte: u8) -> (outcome: Result<u32, Error>)
        ensures
            went(outcome, final(self)@, old(self)@.transfer(Instruction::Ccc(condition_in(opcode), word_of(low_byte, high_byte))), old(self)@, old(self)@.cycles(Instruction::Ccc(condition_in(opcode), word_of(low_byte, high_byte)))),
            final(self).mapper() == old(self).mapper(),
    {
        proof {
            assert(self@.transfer(Instruction::Ccc(condition_in(opcode), word_of(low_byte, high_byte))) == self@.call_if(self@.regs.holds(condition_in(opcode)), word_of(low_byte, high_byte))) by {
                reveal(Machine::transfer);
            }
        }
        if self.get_conditional(opcode) {
            proof {
                assert(self@.transfer(Instruction::Call(word_of(low_byte, high_byte)))
                    == self@.call(word_of(low_byte, high_byte))) by {
                    reveal(Machine::transfer);
                }
            }
            self.call_opcode(low_byte, high_byte)?;

            Ok(17)
        } else {
            self.regs.pc = self.regs.pc.wrapping_add(3);

            Ok(11)
        }
    }

    fn ret_opcode(&mut self) -> (outcome: Result<(), Error>)
        ensures
            went(outcome, final(self)@, old(self)@.transfer(Instruction::Ret), old(self)@, ()),
            final(self).mapper() == old(self).mapper(),
    {
        proof {
            assert(self@.transfer(Instruction::Ret) == self@.ret()) by {
                reveal(Machine::transfer);
            }
        }
        let (low_byte, high_byte) = self.pop_16bit()?;
        self.regs.pc = bytes_to_word(low_byte, high_byte);

        Ok(())
    }

    fn rccc_opcode(&mut self, opcode: u8) -> (outcome: Result<u32, Error>)
        ensures
            went(outcome, final(self)@, old(self)@.transfer(Instruction::Rcc(condition_in(opcode))), old(self)@, old(self)@.cycles(Instruction::Rcc(condition_in(opcode)))),
            final(self).mapper() == old(self).mapper(),
    {
        proof {
            assert(self@.transfer(Instruction::Rcc(condition_in(opcode))) == self@.ret_if(self@.regs.holds(condition_in(opcode)))) by {
                reveal(Machine::transfer);
            }
        }
        if self.get_conditional(opcode) {
            proof {
                assert(self@.transfer(Instruction::Ret) == self@.ret()) by {
                    reveal(Machine::transfer);
                }
            }
            self.ret_opcode()?;

            Ok(11)
        } else {
            self.regs.pc = self.regs.pc.wrapping_add(1);

            Ok(5)
        }
    }

    fn rst_opcode(&mut self, opcode: u8) -> (outcome: Result<(), Error>)
        ensures
            went(outcome, final(self)@, old(self)@.transfer(Instruction::Rst(middle_field(opcode) as u8)), old(self)@, ()),
            final(self).mapper() == old(self).mapper(),
    {
        proof {
            assert(self@.transfer(Instruction::Rst(middle_field(opcode) as u8)) == self@.rst(middle_field(opcode) as u8)) by {
                reveal(Machine::transfer);
            }
        }
        let (low_byte, high_byte) = word_to_bytes(self.regs.pc.wrapping_add(1));
        self.push_16bit(low_byte, high_byte)?;

        proof {
            lemma_opcode_fields(opcode);
        }
        let address = (opcode & 0b111000) as u16;
        self.regs.pc = address;

        Ok(())
    }

    fn pchl(&mut self)
        ensures
            Ok::<Machine, Error>(final(self)@) == old(self)@.transfer(Instruction::Pchl),
            final(self).mapper() == old(self).mapper(),
    {
        proof {
            assert(self@.transfer(Instruction::Pchl) == Ok::<Machine, Error>(self@.with_pc(self@.regs.hl()))) by {
                reveal(Machine::transfer);
            }
        }
        let address = self.get_hl();
        self.regs.pc = address;
    }

    fn push_opcode(&mut self, opcode: u8) -> (outcome: Result<(), Error>)
        ensures
            went(outcome, final(self)@, old(self)@.effect(Instruction::Push(stack_pair_in(opcode))), old(self)@, ()),
            final(self)@.regs.pc == old(self)@.regs.pc,
            final(self).mapper() == old(self).mapper(),
    {
        proof {
            assert(self@.effect(Instruction::Push(stack_pair_in(opcode))) == self@.push_pair(stack_pair_in(opcode))) by {
                reveal(Machine::effect);
            }
        }
        proof {
            lemma_opcode_fields(opcode);
        }
        let (high_byte, low_byte) = match (opcode >> 4) & 0b11 {
            0b00 => (self.regs.b, self.regs.c),
            0b01 => (self.regs.d, self.regs.e),
            0b10 => (self.regs.h, self.regs.l),
            _ => {
                let flag_register = self.flags_to_byte();
                (self.regs.a, flag_register)
            },
        };

        self.push_16bit(low_byte, high_byte)?;

        Ok(())
    }

    fn pop_opcode(&mut self, opcode: u8) -> (outcome: Result<(), Error>)
        ensures
            went(outcome, final(self)@, old(self)@.effect(Instruction::Pop(stack_pair_in(opcode))), old(self)@, ()),
            final(self)@.regs.pc == old(self)@.regs.pc,
            final(self).mapper() == old(self).mapper(),
    {
        proof {
            assert(self@.effect(Instruction::Pop(stack_pair_in(opcode))) == self@.pop_pair(stack_pair_in(opcode))) by {
                reveal(Machine::effect);
            }
        }
        let (low_byte, high_byte) = self.pop_16bit()?;

        proof {
            lemma_opcode_fields(opcode);
        }
        match (opcode >> 4) & 0b11 {
            0b00 => {
                self.regs.b = high_byte;
                self.regs.c = low_byte;
            },
            0b01 => {
                self.regs.d = high_byte;
                self.regs.e = low_byte;
            },
            0b10 => {
                self.regs.h = high_byte;
                self.regs.l = low_byte;
            },
            _ => {
                self.byte_to_flag(low_byte);
                self.regs.a = high_byte;
            },
        }

        Ok(())
    }

    fn xthl_opcode(&mut self) -> (outcome: Result<(), Error>)
        ensures
            went(outcome, final(self)@, old(self)@.effect(Instruction::Xthl), old(self)@, ()),
            final(self)@.regs.pc == old(self)@.regs.pc,
            final(self).mapper() == old(self).mapper(),
    {
        proof {
            assert(self@.effect(Instruction::Xthl) == self@.xthl()) by {
                reveal(Machine::effect);
            }
        }
        let low_byte = self.regs.l;
        let high_byte = self.regs.h;
        let upper = self.regs.sp.wrapping_add(1);

        let low = self.ram.read(self.regs.sp)?;
        let high = self.ram.read(upper)?;
        self.ram.check_write(self.regs.sp)?;
        self.ram.check_write(upper)?;

        self.regs.l = low;
        self.regs.h = high;
        self.ram.write(self.regs.sp, low_byte)?;
        self.ram.write(upper, high_byte)?;

        Ok(())
    }

    fn sphl(&mut self)
        ensures
            Ok::<Machine, Error>(final(self)@) == old(self)@.effect(Instruction::Sphl),
            final(self)@.regs.pc == old(self)@.regs.pc,
            final(self).mapper() == old(self).mapper(),
    {
        proof {
            assert(self@.effect(Instruction::Sphl) == Ok::<Machine, Error>(self@.sphl())) by {
                reveal(Machine::effect);
            }
        }
        self.regs.sp = self.get_hl();
    }

    /// Reads the port `num`: the byte is what `read_in` gives for it, and
    /// the ports stay as they are.
    fn in_opcode<P: Port>(num: u8, port: &mut P) -> (value: u8)
        ensures
            reads(*old(port), num, value),
            *final(port) == *old(port),
    {
        port.read_in(num)
    }

    /// Writes `value` to the port `num`: the ports are handed to
    /// `write_out` with that number and that value, and are left as it
    /// leaves them.
    fn out_opcode<P: Port>(num: u8, value: u8, port: &mut P)
        ensures
            exists|handed: &mut P|
                mut_ref_current(handed) == *old(port) && mut_ref_future(handed) == *final(port)
                    && call_ensures(P::write_out, (handed, num, value), ()),
    {
        port.write_out(num, value);
    }

    fn ei_opcode(&mut self)
        ensures
            Ok::<Machine, Error>(final(self)@) == old(self)@.effect(Instruction::Ei),
            final(self)@.regs.pc == old(self)@.regs.pc,
            final(self).mapper() == old(self).mapper(),
    {
        proof {
            assert(self@.effect(Instruction::Ei) == Ok::<Machine, Error>(self@.with_interrupts(true))) by {
                reveal(Machine::effect);
            }
        }
        self.regs.interrupts_enabled = true;
    }

    fn di_opcode(&mut self)
        ensures
            Ok::<Machine, Error>(final(self)@) == old(self)@.effect(Instruction::Di),
            final(self)@.regs.pc == old(self)@.regs.pc,
            final(self).mapper() == old(self).mapper(),
    {
        proof {
            assert(self@.effect(Instruction::Di) == Ok::<Machine, Error>(self@.with_interrupts(false))) by {
                reveal(Machine::effect);
            }
        }
        self.regs.interrupts_enabled = false;
    }
}

impl<F: Fn(u16) -> (usize, bool) + Copy> Clone for Processor<F> {
    fn clone(&self) -> (copy: Self)
        ensures
            copy@ == self@,
            copy.mapper() == self.mapper(),
    {
        Self { regs: self.regs, rom_loaded: self.rom_loaded, ram: self.ram.clone() }
    }
}

} // verus!
