//! Reading the fields of a record: little-endian integers, bits of a mask,
//! and text that ends in a zero byte.

use vstd::prelude::*;
use vstd::slice::{slice_subrange, slice_to_vec};
use vstd::utf8::{decode_utf8, encode_utf8, encode_utf8_decode_utf8, valid_utf8};

verus! {

/// The unsigned 16-bit number that stands at offset `at`, low byte first.
pub open spec fn le_u16(data: Seq<u8>, at: int) -> u16 {
    (data[at] as int + 0x100 * data[at + 1] as int) as u16
}

/// The unsigned 32-bit number that stands at offset `at`, low byte first.
pub open spec fn le_u32(data: Seq<u8>, at: int) -> u32 {
    (data[at] as int + 0x100 * data[at + 1] as int + 0x1_0000 * data[at + 2] as int + 0x100_0000
        * data[at + 3] as int) as u32
}

/// The signed 16-bit number that stands at offset `at` in two's complement,
/// low byte first.
pub open spec fn le_i16(data: Seq<u8>, at: int) -> i16 {
    let raw = le_u16(data, at);
    if raw < 0x8000 {
        raw as i16
    } else {
        (raw - 0x1_0000) as i16
    }
}

/// The signed 32-bit number that stands at offset `at` in two's complement,
/// low byte first.
pub open spec fn le_i32(data: Seq<u8>, at: int) -> i32 {
    let raw = le_u32(data, at);
    if raw < 0x8000_0000 {
        raw as i32
    } else {
        (raw - 0x1_0000_0000) as i32
    }
}

/// Bit number `bit` of `byte` is set, counting from the lowest.
pub open spec fn bit_is_set(byte: u8, bit: u8) -> bool {
    (byte >> bit) & 1u8 == 1u8
}

/// The text that a field holds: the characters that its bytes encode in
/// UTF-8, up to the first zero byte. A field without a zero byte, or with
/// bytes in front of it that are not UTF-8, holds no text.
pub open spec fn text_of(field: Seq<u8>) -> Option<Seq<char>> {
    match field.index_of_first(0u8) {
        Some(end) => if valid_utf8(field.take(end)) {
            Some(decode_utf8(field.take(end)))
        } else {
            None
        },
        None => None,
    }
}

/// Reads the unsigned 16-bit number at offset `at`.
pub(crate) fn read_u16(data: &[u8], at: usize) -> (value: u16)
    requires
        at + 2 <= data@.len(),
    ensures
        value == le_u16(data@, at as int),
{
    let low: u16 = data[at] as u16;
    let high: u16 = data[at + 1] as u16;
    low + 0x100 * high
}

/// Reads the unsigned 32-bit number at offset `at`.
pub(crate) fn read_u32(data: &[u8], at: usize) -> (value: u32)
    requires
        at + 4 <= data@.len(),
    ensures
        value == le_u32(data@, at as int),
{
    let b0: u32 = data[at] as u32;
    let b1: u32 = data[at + 1] as u32;
    let b2: u32 = data[at + 2] as u32;
    let b3: u32 = data[at + 3] as u32;
    b0 + 0x100 * b1 + 0x1_0000 * b2 + 0x100_0000 * b3
}

/// Reads the signed 16-bit number at offset `at`.
pub(crate) fn read_i16(data: &[u8], at: usize) -> (value: i16)
    requires
        at + 2 <= data@.len(),
    ensures
        value == le_i16(data@, at as int),
{
    let raw: u16 = read_u16(data, at);
    if raw < 0x8000 {
        raw as i16
    } else {
        (raw as i32 - 0x1_0000) as i16
    }
}

/// Reads the signed 32-bit number at offset `at`.
pub(crate) fn read_i32(data: &[u8], at: usize) -> (value: i32)
    requires
        at + 4 <= data@.len(),
    ensures
        value == le_i32(data@, at as int),
{
    let raw: u32 = read_u32(data, at);
    if raw < 0x8000_0000 {
        raw as i32
    } else {
        (raw as i64 - 0x1_0000_0000) as i32
    }
}

/// Tells whether bit number `bit` of `byte` is set.
pub(crate) fn test_bit(byte: u8, bit: u8) -> (set: bool)
    requires
        bit < 8,
    ensures
        set == bit_is_set(byte, bit),
{
    (byte >> bit) & 1u8 == 1u8
}

/// The error of `String::from_utf8`. Nothing in it is read.
#[verifier::external_type_specification]
#[verifier::external_body]
pub struct ExFromUtf8Error(std::string::FromUtf8Error);

/// `String::from_utf8` of the standard library. It succeeds exactly on
/// valid UTF-8, and the string it then gives is made of the very bytes it
/// was given.
pub assume_specification[ String::from_utf8 ](vec: Vec<u8>) -> (result: Result<
    String,
    std::string::FromUtf8Error,
>)
    ensures
        result is Ok <==> valid_utf8(vec@),
        result matches Ok(text) ==> encode_utf8(text@) == vec@,
;

/// Reads the text of a field: what stands in front of its first zero byte,
/// taken as UTF-8.
pub fn decode_text(field: &[u8]) -> (text: Option<String>)
    ensures
        match text {
            Some(found) => text_of(field@) == Some(found@),
            None => text_of(field@) is None,
        },
{
    let mut end: usize = 0;
    while end < field.len() && field[end] != 0
        invariant
            end <= field.len(),
            forall|i: int| 0 <= i < end ==> field@[i] != 0u8,
        decreases field.len() - end,
    {
        end += 1;
    }
    proof {
        field@.index_of_first_ensures(0u8);
    }
    if end == field.len() {
        return None;
    }
    assert(field@.index_of_first(0u8) == Some(end as int));
    let bytes = slice_to_vec(slice_subrange(field, 0, end));
    assert(bytes@ =~= field@.take(end as int));
    match String::from_utf8(bytes) {
        Ok(found) => {
            proof {
                encode_utf8_decode_utf8(found@);
            }
            Some(found)
        },
        Err(_) => None,
    }
}

} // verus!
