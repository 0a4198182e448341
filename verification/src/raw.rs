//! Raw readings: the two bytes of one bus read, decoded and centred on zero.

use vstd::prelude::*;

verus! {

/// Half of the sensor's 12-bit range; subtracting it centres a reading on zero.
pub const RAW_OFFSET: i32 = 2048;

/// The smallest raw reading there is: that of two zero bytes.
pub const RAW_MIN: i32 = -2048;

/// The largest raw reading there is: that of two bytes with every bit set.
pub const RAW_MAX: i32 = 63487;

/// The raw reading that the bytes `b0` (sent first, high) and `b1` (low) stand for.
pub open spec fn raw_reading(b0: u8, b1: u8) -> int {
    b0 as int * 256 + b1 as int - 2048
}

/// Decodes the two bytes of one read into a raw reading.
///
/// The bytes are taken as they come: bits above the sensor's twelve are not
/// checked, they simply make the reading larger.
pub fn decode(b0: u8, b1: u8) -> (raw: i32)
    ensures
        raw == raw_reading(b0, b1),
        RAW_MIN <= raw <= RAW_MAX,
{
    let high: i32 = b0 as i32;
    let low: i32 = b1 as i32;
    let word: i32 = (high << 8) | low;
    assert(word == high * 256 + low) by (bit_vector)
        requires
            0 <= high < 256,
            0 <= low < 256,
            word == (high << 8) | low,
    ;
    word - RAW_OFFSET
}

/// A raw reading is the big-endian 16-bit word made of the two bytes, less the offset.
pub proof fn lemma_raw_reading_is_big_endian_word(b0: u8, b1: u8)
    ensures
        raw_reading(b0, b1) == (((b0 as u16) << 8) | (b1 as u16)) - 2048,
{
    let high: u16 = b0 as u16;
    let low: u16 = b1 as u16;
    assert(((high << 8) | low) == high * 256 + low) by (bit_vector)
        requires
            high < 256,
            low < 256,
    ;
}

/// Every raw reading lies between `RAW_MIN` and `RAW_MAX`, and a word within
/// the sensor's twelve bits gives a reading centred on zero: one in `-2048 ..= 2047`.
pub proof fn lemma_raw_reading_range(b0: u8, b1: u8)
    ensures
        RAW_MIN <= raw_reading(b0, b1) <= RAW_MAX,
        b0 < 16 ==> raw_reading(b0, b1) <= 2047,
{
}

} // verus!
