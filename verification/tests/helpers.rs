use intel8080::helpers::{auxiliary_add, auxiliary_sub, bit_parity, bytes_to_word, word_to_bytes};

#[test]
fn bytes_to_word_puts_the_high_byte_first() {
    assert_eq!(bytes_to_word(0x34, 0x12), 0x1234);
    assert_eq!(bytes_to_word(0x00, 0x00), 0x0000);
    assert_eq!(bytes_to_word(0xFF, 0x00), 0x00FF);
    assert_eq!(bytes_to_word(0x00, 0xFF), 0xFF00);
    assert_eq!(bytes_to_word(0xFF, 0xFF), 0xFFFF);
}

#[test]
fn word_to_bytes_gives_low_then_high() {
    assert_eq!(word_to_bytes(0x1234), (0x34, 0x12));
    assert_eq!(word_to_bytes(0x0000), (0x00, 0x00));
    assert_eq!(word_to_bytes(0xFFFF), (0xFF, 0xFF));
    assert_eq!(word_to_bytes(0x0103), (0x03, 0x01));
}

#[test]
fn words_and_bytes_round_trip() {
    for word in 0..=u16::MAX {
        let (low, high) = word_to_bytes(word);
        assert_eq!(bytes_to_word(low, high), word);
    }
}

#[test]
fn bit_parity_is_even_popcount_for_every_byte() {
    for byte in 0..=u8::MAX {
        assert_eq!(bit_parity(byte), byte.count_ones() % 2 == 0, "byte {byte:#04x}");
    }
}

#[test]
fn bit_parity_of_chosen_bytes() {
    assert!(bit_parity(0x00));
    assert!(!bit_parity(0x01));
    assert!(!bit_parity(0x10));
    assert!(bit_parity(0x11));
    assert!(!bit_parity(0xA2));
    assert!(bit_parity(0xFF));
    assert!(!bit_parity(0x7F));
}

#[test]
fn auxiliary_add_carries_out_of_bit_three() {
    assert!(!auxiliary_add(0xF0, 0x20));
    assert!(auxiliary_add(0x2E, 0x74));
    assert!(auxiliary_add(0x0F, 0x01));
    assert!(!auxiliary_add(0x0E, 0x01));
    assert!(auxiliary_add(0xFF, 0xFF));
    assert!(!auxiliary_add(0x00, 0x00));
}

#[test]
fn auxiliary_add_for_every_pair() {
    for a in 0..=u8::MAX {
        for b in 0..=u8::MAX {
            assert_eq!(auxiliary_add(a, b), (a % 16) + (b % 16) > 15);
        }
    }
}

#[test]
fn auxiliary_sub_borrows_from_bit_four() {
    assert!(auxiliary_sub(0x10, 0x01));
    assert!(!auxiliary_sub(0x11, 0x01));
    assert!(!auxiliary_sub(0x0F, 0x0F));
    assert!(auxiliary_sub(0x00, 0xFF));
    assert!(!auxiliary_sub(0xFF, 0x00));
}

#[test]
fn auxiliary_sub_for_every_pair() {
    for a in 0..=u8::MAX {
        for b in 0..=u8::MAX {
            assert_eq!(auxiliary_sub(a, b), (a % 16) < (b % 16));
        }
    }
}
