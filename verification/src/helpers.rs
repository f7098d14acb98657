//! Byte and word packing, parity and the half-carry predicates.

use vstd::prelude::*;

verus! {

/// The 16-bit word whose high byte is `high_byte` and whose low byte is
/// `low_byte`.
pub open spec fn word_of(low_byte: u8, high_byte: u8) -> u16 {
    (high_byte as int * 256 + low_byte as int) as u16
}

/// The low byte of a word.
pub open spec fn low_byte_of(word: u16) -> u8 {
    (word as int % 256) as u8
}

/// The high byte of a word.
pub open spec fn high_byte_of(word: u16) -> u8 {
    (word as int / 256) as u8
}

/// The number of bits of `byte` that are set.
pub open spec fn popcount(byte: u8) -> int {
    (byte as int) % 2 + (byte as int / 2) % 2 + (byte as int / 4) % 2 + (byte as int / 8) % 2 + (
    byte as int / 16) % 2 + (byte as int / 32) % 2 + (byte as int / 64) % 2 + (byte as int / 128)
        % 2
}

/// Whether an even number of bits of `byte` are set.
pub open spec fn even_parity(byte: u8) -> bool {
    popcount(byte) % 2 == 0
}

/// Whether adding the low nibbles of `a` and `b` and a carry-in carries out
/// of bit 3.
pub open spec fn half_carry(a: u8, b: u8, carry_in: bool) -> bool {
    (a as int % 16) + (b as int % 16) + (if carry_in { 1int } else { 0int }) > 15
}

/// Whether subtracting the low nibble of `b` and a borrow-in from the low
/// nibble of `a` borrows from bit 4.
pub open spec fn half_borrow(a: u8, b: u8, borrow_in: bool) -> bool {
    (a as int % 16) - (b as int % 16) - (if borrow_in { 1int } else { 0int }) < 0
}

/// The remainder modulo 256 of a number within one step of a byte.
pub proof fn lemma_wrap_byte(wide: int)
    requires
        -256 <= wide < 512,
    ensures
        wide % 256 == (if wide < 0 {
            wide + 256
        } else if wide > 255 {
            wide - 256
        } else {
            wide
        }),
{
}

/// Bit 7 of a byte is set exactly when the byte is 128 or more.
pub proof fn lemma_sign_bit(byte: u8)
    by (bit_vector)
    ensures
        (byte & 0x80 != 0) <==> (byte >= 128),
{
}

/// The low four bits of a byte are its remainder modulo 16.
pub proof fn lemma_low_nibble(byte: u8)
    by (bit_vector)
    ensures
        byte & 0xF == byte % 16,
        byte & 0xF <= 15,
{
}

proof fn lemma_word_bits(low_byte: u8, high_byte: u8, word: u16)
    by (bit_vector)
    ensures
        ((high_byte as u16) << 8) | (low_byte as u16) == (high_byte as u16) * 256 + (
        low_byte as u16),
        word as u8 == word % 256,
        (word >> 8) as u8 == word / 256,
{
}

proof fn lemma_fold_keeps_parity(byte: u8, shift: u8)
    by (bit_vector)
    requires
        shift == 4 || (shift == 2 && byte < 16) || (shift == 1 && byte < 4),
    ensures
        ({
            let folded = (byte & (0xFFu8 >> ((8 - shift) as u8))) ^ (byte >> shift);
            &&& even_parity(folded) == even_parity(byte)
            &&& shift == 4 ==> folded < 16
            &&& shift == 2 ==> folded < 4
            &&& shift == 1 ==> folded < 2
        }),
{
}

/// Packs two bytes into a word, high byte first.
pub fn bytes_to_word(low_byte: u8, high_byte: u8) -> (word: u16)
    ensures
        word == word_of(low_byte, high_byte),
{
    proof {
        lemma_word_bits(low_byte, high_byte, 0);
    }
    ((high_byte as u16) << 8) | low_byte as u16
}

/// Splits a word into its low and its high byte, in that order.
pub fn word_to_bytes(data: u16) -> (bytes: (u8, u8))
    ensures
        bytes.0 == low_byte_of(data),
        bytes.1 == high_byte_of(data),
        word_of(bytes.0, bytes.1) == data,
{
    proof {
        lemma_word_bits(0, 0, data);
    }
    let low_byte = data as u8;
    let high_byte = (data >> 8) as u8;

    (low_byte, high_byte)
}

/// Checks if the number of 1s in byte is even
pub fn bit_parity(byte: u8) -> (even: bool)
    ensures
        even == even_parity(byte),
{
    let ghost given = byte;
    let mut byte = byte;

    let mut shift: u8 = 4;
    while shift > 0
        invariant
            shift == 4 || shift == 2 || shift == 1 || shift == 0,
            shift == 2 ==> byte < 16,
            shift == 1 ==> byte < 4,
            shift == 0 ==> byte < 2,
            even_parity(byte) == even_parity(given),
        decreases shift,
    {
        proof {
            lemma_fold_keeps_parity(byte, shift);
        }
        let mask = 0xFFu8 >> (8 - shift);
        byte = (byte & mask) ^ (byte >> shift);
        shift /= 2;
    }
    byte == 0
}

/// Whether adding the low nibbles of `a` and `b` carries out of bit 3.
pub fn auxiliary_add(a: u8, b: u8) -> (carry: bool)
    ensures
        carry == half_carry(a, b, false),
{
    proof {
        lemma_low_nibble(a);
        lemma_low_nibble(b);
    }
    (a & 0xF) + (b & 0xF) > 0xF
}

/// Whether subtracting the low nibble of `b` from that of `a` borrows.
pub fn auxiliary_sub(a: u8, b: u8) -> (borrow: bool)
    ensures
        borrow == half_borrow(a, b, false),
{
    proof {
        lemma_low_nibble(a);
        lemma_low_nibble(b);
    }
    (a & 0xF) < (b & 0xF)
}

} // verus!
