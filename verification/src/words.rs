//! Little-endian words.
use vstd::prelude::*;

verus! {

/// The number that four bytes stand for, the lowest first.
pub open spec fn le_u32(b0: u8, b1: u8, b2: u8, b3: u8) -> u32 {
    (b0 + 0x100 * b1 + 0x1_0000 * b2 + 0x100_0000 * b3) as u32
}

/// The number that eight bytes stand for, the lowest first.
#[verifier::opaque]
pub open spec fn le_u64(bytes: Seq<u8>) -> u64 {
    (le_u32(bytes[0], bytes[1], bytes[2], bytes[3]) + 0x1_0000_0000 * le_u32(
        bytes[4],
        bytes[5],
        bytes[6],
        bytes[7],
    )) as u64
}

/// The byte of `word` at `index`, counted from the lowest.
pub open spec fn byte_of_u32(word: u32, index: int) -> u8 {
    if index == 0 {
        (word % 0x100) as u8
    } else if index == 1 {
        (word / 0x100 % 0x100) as u8
    } else if index == 2 {
        (word / 0x1_0000 % 0x100) as u8
    } else {
        (word / 0x100_0000) as u8
    }
}

/// The eight bytes of `word`, the lowest first.
#[verifier::opaque]
pub open spec fn le_bytes_of_u64(word: u64) -> Seq<u8> {
    let low = (word % 0x1_0000_0000) as u32;
    let high = (word / 0x1_0000_0000) as u32;
    seq![
        byte_of_u32(low, 0),
        byte_of_u32(low, 1),
        byte_of_u32(low, 2),
        byte_of_u32(low, 3),
        byte_of_u32(high, 0),
        byte_of_u32(high, 1),
        byte_of_u32(high, 2),
        byte_of_u32(high, 3),
    ]
}

/// Joins four bytes.
pub fn join_u32(b0: u8, b1: u8, b2: u8, b3: u8) -> (word: u32)
    ensures
        word == le_u32(b0, b1, b2, b3),
{
    let word: u32 = ((b0 as u32) << 0) | ((b1 as u32) << 8) | ((b2 as u32) << 16) | ((b3 as u32)
        << 24);
    assert(((b0 as u32) << 0) | ((b1 as u32) << 8) | ((b2 as u32) << 16) | ((b3 as u32) << 24)
        == b0 + 0x100 * b1 + 0x1_0000 * b2 + 0x100_0000 * b3) by (bit_vector);
    word
}

/// Splits a word into its bytes.
pub fn split_u32(word: u32) -> (bytes: [u8; 4])
    ensures
        forall|i: int| 0 <= i < 4 ==> #[trigger] bytes[i] == byte_of_u32(word, i),
{
    assert((word >> 0) as u8 == word % 0x100) by (bit_vector);
    assert((word >> 8) as u8 == word / 0x100 % 0x100) by (bit_vector);
    assert((word >> 16) as u8 == word / 0x1_0000 % 0x100) by (bit_vector);
    assert((word >> 24) as u8 == word / 0x100_0000) by (bit_vector);
    [(word >> 0) as u8, (word >> 8) as u8, (word >> 16) as u8, (word >> 24) as u8]
}

/// Joins eight bytes.
pub fn join_u64(bytes: [u8; 8]) -> (word: u64)
    ensures
        word == le_u64(bytes@),
{
    proof {
        reveal(le_u64);
    }
    let low: u32 = join_u32(bytes[0], bytes[1], bytes[2], bytes[3]);
    let high: u32 = join_u32(bytes[4], bytes[5], bytes[6], bytes[7]);
    low as u64 + 0x1_0000_0000 * high as u64
}

/// Splits a word into its eight bytes.
pub fn split_u64(word: u64) -> (bytes: [u8; 8])
    ensures
        bytes@ == le_bytes_of_u64(word),
{
    proof {
        reveal(le_bytes_of_u64);
    }
    let low: [u8; 4] = split_u32((word % 0x1_0000_0000) as u32);
    let high: [u8; 4] = split_u32((word / 0x1_0000_0000) as u32);
    [low[0], low[1], low[2], low[3], high[0], high[1], high[2], high[3]]
}

/// Joining the bytes of a word gives back the word.
pub proof fn law_join_undoes_split_u32(word: u32)
    ensures
        le_u32(
            byte_of_u32(word, 0),
            byte_of_u32(word, 1),
            byte_of_u32(word, 2),
            byte_of_u32(word, 3),
        ) == word,
{
}

/// The bytes of joined bytes are those bytes.
pub proof fn law_split_undoes_join_u32(b0: u8, b1: u8, b2: u8, b3: u8)
    ensures
        byte_of_u32(le_u32(b0, b1, b2, b3), 0) == b0,
        byte_of_u32(le_u32(b0, b1, b2, b3), 1) == b1,
        byte_of_u32(le_u32(b0, b1, b2, b3), 2) == b2,
        byte_of_u32(le_u32(b0, b1, b2, b3), 3) == b3,
{
    assert(((b0 + 0x100 * b1 + 0x1_0000 * b2 + 0x100_0000 * b3) as u32) % 0x100 == b0)
        by (bit_vector);
    assert(((b0 + 0x100 * b1 + 0x1_0000 * b2 + 0x100_0000 * b3) as u32) / 0x100 % 0x100 == b1)
        by (bit_vector);
    assert(((b0 + 0x100 * b1 + 0x1_0000 * b2 + 0x100_0000 * b3) as u32) / 0x1_0000 % 0x100 == b2)
        by (bit_vector);
    assert(((b0 + 0x100 * b1 + 0x1_0000 * b2 + 0x100_0000 * b3) as u32) / 0x100_0000 == b3)
        by (bit_vector);
}

/// Joining the bytes of an eight-byte word gives back the word.
pub proof fn law_join_undoes_split_u64(word: u64)
    ensures
        le_u64(le_bytes_of_u64(word)) == word,
{
    reveal(le_u64);
    reveal(le_bytes_of_u64);
    law_join_undoes_split_u32((word % 0x1_0000_0000) as u32);
    law_join_undoes_split_u32((word / 0x1_0000_0000) as u32);
}

} // verus!
