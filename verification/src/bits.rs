//! Single-byte bit primitives: rotate-left-through-carry and nibble swap.

use vstd::prelude::*;

verus! {

/// The byte produced by shifting `data` left one bit and bringing `carry`
/// into bit 0 (the bit shifted out of the top is discarded).
pub open spec fn rotl_byte(carry: u8, data: u8) -> u8 {
    (data << 1) | carry
}

/// The bit shifted out of the top of `data` by a one-bit left shift.
pub open spec fn carry_out(data: u8) -> u8 {
    data >> 7
}

/// Rotate `data` left by one bit, shifting the incoming carry `*c` into
/// bit 0 and leaving the original bit 7 of `data` in `*c` as the carry out.
pub fn rotate_left(c: &mut u8, data: &mut u8)
    requires
        *old(c) <= 1,
    ensures
        *final(c) == carry_out(*old(data)),
        *final(c) <= 1,
        *final(data) == rotl_byte(*old(c), *old(data)),
{
    let d: u8 = *data;
    proof {
        assert(d >> 7 <= 1) by (bit_vector);
    }
    let temp = d >> 7;
    let output = (d << 1) | *c;

    *c = temp;
    *data = output;
}

/// The byte with the high and low nibbles of `data` exchanged.
pub open spec fn swap_nibbles(data: u8) -> u8 {
    (data << 4) | (data >> 4)
}

/// Exchange the high and low 4-bit nibbles of `data`.
pub fn swap(data: u8) -> (r: u8)
    ensures
        r == swap_nibbles(data),
{
    data << 4 | data >> 4
}

} // verus!
