use vstd::prelude::*;
use crate::types::{U7, U14};

verus! {

/// Combines two 7-bit values into one 14-bit value, `high` being the most significant part.
pub fn build_14_bit_value_from_two_7_bit_values(high: U7, low: U7) -> (r: U14)
    ensures
        r@ == high@ * 128 + low@,
{
    let h: u8 = high.get();
    let l: u8 = low.get();
    let hw: u16 = h as u16;
    let lw: u16 = l as u16;
    let v: u16 = (hw << 7) | lw;
    assert(v == hw * 128 + lw && v < 16384) by (bit_vector)
        requires
            hw < 128,
            lw < 128,
            v == (hw << 7) | lw,
    ;
    U14::new(v)
}

/// The most significant 7 bits of a 14-bit value.
pub fn extract_high_7_bit_value_from_14_bit_value(value: U14) -> (r: U7)
    ensures
        r@ == value@ / 128,
{
    let v: u16 = value.get();
    let h: u16 = (v >> 7) & 0x7f;
    assert(h == v / 128 && h < 128) by (bit_vector)
        requires
            v < 16384,
            h == (v >> 7) & 0x7f,
    ;
    U7::new(h as u8)
}

/// The least significant 7 bits of a 14-bit value.
pub fn extract_low_7_bit_value_from_14_bit_value(value: U14) -> (r: U7)
    ensures
        r@ == value@ % 128,
{
    let v: u16 = value.get();
    let l: u16 = v & 0x7f;
    assert(l == v % 128) by (bit_vector)
        requires
            l == v & 0x7f,
    ;
    U7::new(l as u8)
}

/// Splitting a 14-bit value into its two 7-bit halves and joining them again gives it back,
/// and joining two 7-bit values then splitting the result gives back the two values.
pub proof fn lemma_14_bit_split_join(value: int, high: int, low: int)
    requires
        0 <= value < 16384,
        0 <= high < 128,
        0 <= low < 128,
    ensures
        (value / 128) * 128 + value % 128 == value,
        0 <= value / 128 < 128,
        (high * 128 + low) / 128 == high,
        (high * 128 + low) % 128 == low,
{
}

} // verus!
