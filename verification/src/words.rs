//! 32-bit words and their bytes, least significant byte first.

use vstd::prelude::*;

verus! {

/// The word that stores `value` in two's complement.
pub open spec fn signed_word(value: i32) -> u32 {
    if value >= 0 {
        value as u32
    } else {
        (value + 0x1_0000_0000) as u32
    }
}

/// The value that `word` stores in two's complement.
pub open spec fn signed_value(word: u32) -> i32 {
    if word < 0x8000_0000 {
        word as i32
    } else {
        (word - 0x1_0000_0000) as i32
    }
}

/// Byte `k` of `word`, counted from the least significant.
pub open spec fn word_byte(word: u32, k: int) -> u8 {
    if k == 0 {
        (word % 0x100) as u8
    } else if k == 1 {
        (word / 0x100 % 0x100) as u8
    } else if k == 2 {
        (word / 0x1_0000 % 0x100) as u8
    } else {
        (word / 0x100_0000 % 0x100) as u8
    }
}

/// The word whose bytes stand in `bytes` from index `at` on, least
/// significant first.
pub open spec fn word_at(bytes: Seq<u8>, at: int) -> u32 {
    (bytes[at] + bytes[at + 1] * 0x100 + bytes[at + 2] * 0x1_0000 + bytes[at + 3] * 0x100_0000) as u32
}

/// Appends the four bytes of `word`, least significant first.
pub(crate) fn push_word(bytes: &mut Vec<u8>, word: u32)
    ensures
        final(bytes)@.len() == old(bytes)@.len() + 4,
        forall|i: int| 0 <= i < old(bytes)@.len() ==> final(bytes)@[i] == old(bytes)@[i],
        forall|k: int| 0 <= k < 4 ==> final(bytes)@[old(bytes)@.len() + k] == word_byte(word, k),
{
    bytes.push((word % 0x100) as u8);
    bytes.push((word / 0x100 % 0x100) as u8);
    bytes.push((word / 0x1_0000 % 0x100) as u8);
    bytes.push((word / 0x100_0000 % 0x100) as u8);
}

/// Reads the word that stands at `at`, least significant byte first.
pub(crate) fn read_word(bytes: &[u8], at: usize) -> (word: u32)
    requires
        at + 4 <= bytes@.len(),
    ensures
        word == word_at(bytes@, at as int),
{
    let b0: u32 = bytes[at] as u32;
    let b1: u32 = bytes[at + 1] as u32;
    let b2: u32 = bytes[at + 2] as u32;
    let b3: u32 = bytes[at + 3] as u32;
    b0 + b1 * 0x100 + b2 * 0x1_0000 + b3 * 0x100_0000
}

/// The two's complement word of `value`.
pub(crate) fn word_of_signed(value: i32) -> (word: u32)
    ensures
        word == signed_word(value),
{
    if value >= 0 {
        value as u32
    } else {
        let low: u32 = (value + 0x7FFF_FFFF + 1) as u32;
        low + 0x8000_0000
    }
}

/// The value that `word` stores in two's complement.
pub(crate) fn signed_of_word(word: u32) -> (value: i32)
    ensures
        value == signed_value(word),
{
    if word < 0x8000_0000 {
        word as i32
    } else {
        let low: i32 = (word - 0x8000_0000) as i32;
        low - 0x7FFF_FFFF - 1
    }
}

/// The four bytes of a word put together again give the word.
pub proof fn lemma_word_bytes_compose(word: u32)
    ensures
        word_byte(word, 0) + word_byte(word, 1) * 0x100 + word_byte(word, 2) * 0x1_0000
            + word_byte(word, 3) * 0x100_0000 == word,
{
}

} // verus!
