//! Wide-value codec.
//!
//! The guest calling convention carries nothing wider than 64 bits, so the
//! host's 64-byte digests and 128-bit balances are split into fixed sets of
//! 64-bit words before they cross the sandbox boundary, and reassembled when
//! guest code hands such values back.  Both splits are lossless: the
//! round-trip lemmas below hold over every well-formed input.

use vstd::arithmetic::div_mod::{
    lemma_fundamental_div_mod, lemma_fundamental_div_mod_converse_div,
    lemma_fundamental_div_mod_converse_mod,
};
use vstd::bytes::{
    lemma_auto_spec_u64_to_from_le_bytes, spec_u64_from_le_bytes, spec_u64_to_le_bytes,
    u64_from_le_bytes, u64_to_le_bytes,
};
use vstd::prelude::*;
use vstd::slice::slice_subrange;

verus! {

/// Word `k` (0-indexed) of a 64-byte digest: bytes `[8*k, 8*k + 8)` read as
/// a little-endian 64-bit integer.
pub open spec fn hash_word(bytes: Seq<u8>, k: int) -> u64
    recommends
        bytes.len() == 64,
        0 <= k < 8,
{
    spec_u64_from_le_bytes(bytes.subrange(8 * k, 8 * k + 8))
}

/// The eight words of a 64-byte digest, in byte-offset order.
pub open spec fn hash_words(bytes: Seq<u8>) -> Seq<u64>
    recommends
        bytes.len() == 64,
{
    Seq::new(8, |k: int| hash_word(bytes, k))
}

/// The 64 bytes determined by eight little-endian words: byte `i` is byte
/// `i % 8` of word `i / 8`.
pub open spec fn hash_bytes(words: Seq<u64>) -> Seq<u8>
    recommends
        words.len() == 8,
{
    Seq::new(64, |i: int| spec_u64_to_le_bytes(words[i / 8])[i % 8])
}

/// Splits a 64-byte digest into its eight little-endian words.
pub fn encode_hash(bytes: &Vec<u8>) -> (words: Vec<u64>)
    requires
        bytes@.len() == 64,
    ensures
        words@.len() == 8,
        words@ == hash_words(bytes@),
{
    let mut words: Vec<u64> = Vec::new();
    for k in it: 0..8usize
        invariant
            bytes@.len() == 64,
            words@.len() == it.index(),
            forall|j: int| 0 <= j < words@.len() ==> words@[j] == hash_word(bytes@, j),
    {
        let part = slice_subrange(bytes.as_slice(), 8 * k, 8 * k + 8);
        words.push(u64_from_le_bytes(part));
    }
    assert(words@ =~= hash_words(bytes@));
    words
}

/// Reassembles the 64-byte digest that eight little-endian words encode.
pub fn decode_hash(words: &Vec<u64>) -> (bytes: Vec<u8>)
    requires
        words@.len() == 8,
    ensures
        bytes@.len() == 64,
        bytes@ == hash_bytes(words@),
{
    let mut bytes: Vec<u8> = Vec::new();
    for k in it: 0..8usize
        invariant
            words@.len() == 8,
            bytes@.len() == 8 * it.index(),
            forall|i: int| 0 <= i < bytes@.len() ==> bytes@[i] == hash_bytes(words@)[i],
    {
        let mut part = u64_to_le_bytes(words[k]);
        proof {
            assert forall|i: int| 8 * k <= i < 8 * k + 8 implies #[trigger] hash_bytes(
                words@,
            )[i] == part@[i - 8 * k] by {
                assert(i / 8 == k as int && i % 8 == i - 8 * k) by (nonlinear_arith)
                    requires
                        8 * k <= i < 8 * k + 8,
                ;
            }
        }
        bytes.append(&mut part);
    }
    assert(bytes@ =~= hash_bytes(words@));
    bytes
}

/// Splitting a digest into words and reassembling them restores it exactly:
/// the hash codec is lossless over every 64-byte digest.
pub proof fn lemma_hash_round_trip(bytes: Seq<u8>)
    requires
        bytes.len() == 64,
    ensures
        hash_bytes(hash_words(bytes)) == bytes,
{
    lemma_auto_spec_u64_to_from_le_bytes();
    assert forall|i: int| 0 <= i < 64 implies hash_bytes(hash_words(bytes))[i] == bytes[i] by {
        let k = i / 8;
        let part = bytes.subrange(8 * k, 8 * k + 8);
        assert(spec_u64_to_le_bytes(spec_u64_from_le_bytes(part)) == part);
        assert(part[i % 8] == bytes[i]);
    }
    assert(hash_bytes(hash_words(bytes)) =~= bytes);
}

/// Eight words written out as bytes and split again are unchanged: the
/// guest-to-host direction of the hash codec is exact too.
pub proof fn lemma_hash_words_round_trip(words: Seq<u64>)
    requires
        words.len() == 8,
    ensures
        hash_words(hash_bytes(words)) == words,
{
    lemma_auto_spec_u64_to_from_le_bytes();
    let bytes = hash_bytes(words);
    assert forall|k: int| 0 <= k < 8 implies hash_words(bytes)[k] == words[k] by {
        assert forall|j: int| 0 <= j < 8 implies bytes[8 * k + j] == spec_u64_to_le_bytes(
            words[k],
        )[j] by {
            assert((8 * k + j) / 8 == k && (8 * k + j) % 8 == j) by (nonlinear_arith)
                requires
                    0 <= j < 8,
                    0 <= k,
            ;
        }
        assert(bytes.subrange(8 * k, 8 * k + 8) =~= spec_u64_to_le_bytes(words[k]));
    }
    assert(hash_words(bytes) =~= words);
}

/// The high 64 bits of a 128-bit balance.
pub open spec fn balance_upper(value: u128) -> u64 {
    (value / 0x1_0000_0000_0000_0000) as u64
}

/// The low 64 bits of a 128-bit balance.
pub open spec fn balance_lower(value: u128) -> u64 {
    (value % 0x1_0000_0000_0000_0000) as u64
}

/// The unique 128-bit value whose halves are the given pair:
/// `upper * 2^64 + lower`.
pub open spec fn balance_value(lower: u64, upper: u64) -> u128 {
    (upper * 0x1_0000_0000_0000_0000 + lower) as u128
}

/// Splitting a balance into halves and recombining them restores it exactly,
/// over the full 128-bit range.
pub proof fn lemma_balance_round_trip(value: u128)
    ensures
        balance_value(balance_lower(value), balance_upper(value)) == value,
{
    assert(value / 0x1_0000_0000_0000_0000 < 0x1_0000_0000_0000_0000) by (bit_vector);
    lemma_fundamental_div_mod(value as int, 0x1_0000_0000_0000_0000);
}

/// The halves are the unique pair encoding their combination: recombining
/// a pair and splitting the result again recovers exactly that pair.
pub proof fn lemma_balance_halves_unique(lower: u64, upper: u64)
    ensures
        balance_upper(balance_value(lower, upper)) == upper,
        balance_lower(balance_value(lower, upper)) == lower,
{
    let value = balance_value(lower, upper);
    lemma_fundamental_div_mod_converse_div(
        value as int,
        0x1_0000_0000_0000_0000,
        upper as int,
        lower as int,
    );
    lemma_fundamental_div_mod_converse_mod(
        value as int,
        0x1_0000_0000_0000_0000,
        upper as int,
        lower as int,
    );
}

} // verus!
