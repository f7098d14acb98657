//! The shift register of the cabinet: a 16-bit register that takes bytes
//! at its high end and gives out eight of its bits.

use vstd::prelude::*;

verus! {

/// Two to the power of `exponent`, for exponents from 1 to 8.
pub open spec fn two_to(exponent: int) -> int {
    if exponent <= 1 {
        2
    } else if exponent == 2 {
        4
    } else if exponent == 3 {
        8
    } else if exponent == 4 {
        16
    } else if exponent == 5 {
        32
    } else if exponent == 6 {
        64
    } else if exponent == 7 {
        128
    } else {
        256
    }
}

/// The byte that a register gives out at an offset from 0 to 7: bits
/// `15 - offset` down to `8 - offset`.
pub open spec fn window(register: u16, offset: u8) -> u8 {
    ((register as int / two_to(8 - offset)) % 256) as u8
}

proof fn lemma_window(register: u16, shift: u16)
    by (bit_vector)
    ensures
        shift == 8 ==> register >> shift == register / 256,
        shift == 7 ==> register >> shift == register / 128,
        shift == 6 ==> register >> shift == register / 64,
        shift == 5 ==> register >> shift == register / 32,
        shift == 4 ==> register >> shift == register / 16,
        shift == 3 ==> register >> shift == register / 8,
        shift == 2 ==> register >> shift == register / 4,
        shift == 1 ==> register >> shift == register / 2,
{
}

proof fn lemma_low_byte(word: u16)
    by (bit_vector)
    ensures
        word as u8 == word % 256,
{
}

proof fn lemma_shift_in(register: u16, value: u8)
    by (bit_vector)
    ensures
        ((value as u16) << 8) | (register >> 8) == (value as u16) * 256 + (register >> 8),
{
}

proof fn lemma_offset_mask(offset: u8)
    by (bit_vector)
    ensures
        offset & 0b111 == offset % 8,
{
}

/// The shift register of the cabinet.
#[derive(Clone, Copy, Debug)]
pub struct ShiftRegister {
    register: u16,
    offset: u8,
}

impl ShiftRegister {
    #[verifier::type_invariant]
    spec fn well_formed(self) -> bool {
        self.offset <= 7
    }

    /// The sixteen bits held.
    pub closed spec fn register(&self) -> u16 {
        self.register
    }

    /// The offset of the window that `read` gives, from 0 to 7.
    pub closed spec fn offset(&self) -> u8 {
        self.offset
    }

    /// A register of zero bits at offset 0.
    pub fn new() -> (shifter: Self)
        ensures
            shifter.register() == 0,
            shifter.offset() == 0,
    {
        Self { register: 0, offset: 0 }
    }

    /// Insert value into high byte on OUT 4
    pub fn insert(&mut self, value: u8)
        ensures
            final(self).register() == value as int * 256 + old(self).register() as int / 256,
            final(self).offset() == old(self).offset(),
    {
        proof {
            use_type_invariant(&*self);
            lemma_shift_in(self.register, value);
            lemma_window(self.register, 8);
        }
        self.register = ((value as u16) << 8) | (self.register >> 8);
    }

    /// Set offset on OUT 2
    pub fn set_offset(&mut self, offset: u8)
        ensures
            final(self).offset() == offset % 8,
            final(self).register() == old(self).register(),
    {
        proof {
            lemma_offset_mask(offset);
        }
        self.offset = offset & 0b111;
    }

    /// Read high byte shifted by offset on IN 3
    pub fn read(&self) -> (value: u8)
        ensures
            value == window(self.register(), self.offset()),
    {
        proof {
            use_type_invariant(self);
            lemma_window(self.register, (8 - self.offset) as u16);
            lemma_low_byte(self.register >> ((8 - self.offset) as u16));
        }
        let shift = 8 - self.offset as u16;
        (self.register >> shift) as u8
    }
}

impl Default for ShiftRegister {
    fn default() -> (shifter: Self)
        ensures
            shifter.register() == 0,
            shifter.offset() == 0,
    {
        Self::new()
    }
}

} // verus!
