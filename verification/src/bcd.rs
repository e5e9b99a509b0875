//! Packed binary-coded decimal: one decimal digit per nibble.
use vstd::prelude::*;

verus! {

/// The number that a packed byte stands for: ten times its upper nibble plus its lower nibble.
pub open spec fn bcd_value(bcd: u8) -> u8 {
    (10 * (bcd / 16) + bcd % 16) as u8
}

/// The packed byte of a number. The tens are kept modulo 16, which is all that a nibble holds.
pub open spec fn bcd_byte(data: u8) -> u8 {
    (16 * (data / 10 % 16) + data % 10) as u8
}

/// Both nibbles are decimal digits.
pub open spec fn is_bcd(bcd: u8) -> bool {
    &&& bcd / 16 <= 9
    &&& bcd % 16 <= 9
}

/// Decodes a packed byte. Nibbles above nine are taken at their value.
pub fn decode_bcd(bcd: u8) -> (data: u8)
    ensures
        data == bcd_value(bcd),
        data <= 165,
{
    let ones: u8 = bcd & 0xF;
    let tens: u8 = (bcd & 0xF0) >> 4;
    assert(bcd & 0xF == bcd % 16) by (bit_vector);
    assert((bcd & 0xF0) >> 4 == bcd / 16) by (bit_vector);
    (10 * tens) + ones
}

/// Encodes a number as a packed byte.
pub fn encode_bcd(data: u8) -> (bcd: u8)
    ensures
        bcd == bcd_byte(data),
{
    let ones: u8 = data % 10;
    let tens: u8 = data / 10;
    assert((tens << 4) | ones == 16 * (tens % 16) + ones) by (bit_vector)
        requires
            ones < 10,
    ;
    (tens << 4) | ones
}

/// Encoding and then decoding gives back every number whose tens fit in a nibble.
pub proof fn law_decode_undoes_encode(data: u8)
    requires
        data < 160,
    ensures
        bcd_value(bcd_byte(data)) == data,
{
}

/// Decoding and then encoding gives back every byte whose lower nibble is a decimal digit.
pub proof fn law_encode_undoes_decode(bcd: u8)
    requires
        bcd % 16 <= 9,
    ensures
        bcd_byte(bcd_value(bcd)) == bcd,
{
}

/// Two decimal digits stand for a number below one hundred.
pub proof fn law_digits_give_two_digit_number(bcd: u8)
    requires
        is_bcd(bcd),
    ensures
        bcd_value(bcd) <= 99,
{
}

/// A number is encoded in decimal digits where it has two digits, and where its tens have wrapped
/// round.
pub proof fn law_encode_gives_digits(data: u8)
    requires
        data < 100 || data >= 160,
    ensures
        is_bcd(bcd_byte(data)),
{
}

} // verus!
