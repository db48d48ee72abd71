//! Round-trip and word-layout tests for the wide-value codec.

use guest_abi::codec::{decode_hash, encode_hash};
use guest_abi::host::Balance;

/// A deterministic 64-byte digest for tests.
fn digest(seed: u8) -> Vec<u8> {
    (0..64u16).map(|i| (i as u8).wrapping_mul(31).wrapping_add(seed)).collect()
}

#[test]
fn hash_words_follow_byte_offsets() {
    // Bytes 0..8 are 0x00..0x07, so word 1 is the little-endian integer
    // 0x0706050403020100; word 8 covers bytes 56..64.
    let bytes: Vec<u8> = (0..64u16).map(|i| i as u8).collect();
    let words = encode_hash(&bytes);
    assert_eq!(words.len(), 8);
    assert_eq!(words[0], 0x0706050403020100);
    assert_eq!(words[1], 0x0F0E0D0C0B0A0908);
    assert_eq!(words[7], 0x3F3E3D3C3B3A3938);
}

#[test]
fn hash_round_trip_restores_every_byte() {
    let bytes = digest(0xA5);
    let words = encode_hash(&bytes);
    let back = decode_hash(&words);
    assert_eq!(back, bytes);
}

#[test]
fn hash_round_trip_all_zero_and_all_max() {
    let zero = vec![0u8; 64];
    assert_eq!(decode_hash(&encode_hash(&zero)), zero);
    let max = vec![0xFFu8; 64];
    assert_eq!(decode_hash(&encode_hash(&max)), max);
}

#[test]
fn hash_words_round_trip() {
    // The inverse direction: words written out as bytes and split again.
    let words: Vec<u64> = vec![
        0, u64::MAX, 0x0123_4567_89AB_CDEF, 1, 2, 3, 0x8000_0000_0000_0000, 42,
    ];
    assert_eq!(encode_hash(&decode_hash(&words)), words);
}

#[test]
fn balance_halves_unique() {
    // Recombining a pair of halves and splitting again recovers the pair.
    let balance = Balance::from_halves(3, u64::MAX);
    assert_eq!(balance.lower_half(), 3);
    assert_eq!(balance.upper_half(), u64::MAX);
}

#[test]
fn balance_split_example() {
    // 0x1_FFFF_FFFF_FFFF_FFFF splits into lower = u64::MAX, upper = 1.
    let balance = Balance(0x1_FFFF_FFFF_FFFF_FFFF);
    assert_eq!(balance.lower_half(), 0xFFFF_FFFF_FFFF_FFFF);
    assert_eq!(balance.upper_half(), 0x1);
}

#[test]
fn balance_round_trip_zero() {
    let balance = Balance(0);
    assert_eq!(Balance::from_halves(balance.lower_half(), balance.upper_half()), balance);
}

#[test]
fn balance_round_trip_max() {
    let balance = Balance(u128::MAX);
    assert_eq!(balance.lower_half(), u64::MAX);
    assert_eq!(balance.upper_half(), u64::MAX);
    assert_eq!(Balance::from_halves(balance.lower_half(), balance.upper_half()), balance);
}

#[test]
fn balance_round_trip_mixed() {
    let balance = Balance(0x0123_4567_89AB_CDEF_FEDC_BA98_7654_3210);
    assert_eq!(balance.upper_half(), 0x0123_4567_89AB_CDEF);
    assert_eq!(balance.lower_half(), 0xFEDC_BA98_7654_3210);
    assert_eq!(Balance::from_halves(balance.lower_half(), balance.upper_half()), balance);
}
