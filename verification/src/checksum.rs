//! The checksum engine: a 32-bit linear-feedback shift register realised as
//! four coupled 8-bit rotate-with-carry registers.
//!
//! The working state is four bytes `(c0, c1, c2, c3)`, initialised to
//! `(0xff, 0xff, 0x00, 0x00)`. Three rounds each reload `c2, c3` from the
//! next two record bytes and run sixteen mixing iterations; afterwards
//! `(c0, c1)` is the computed checksum, which a valid record carries in its
//! trailing two bytes.

use vstd::prelude::*;
use crate::bits::carry_out;
use crate::bits::rotate_left;
use crate::bits::rotl_byte;

verus! {

/// One mixing iteration of the feedback network.
///
/// The four registers are rotated left one bit in the order `c1`, `c0`,
/// `c3`, `c2`, with the carry produced by each rotation feeding the next
/// (and carry 0 fed into `c1`). Two feedbacks are layered on top: if `c2`'s
/// top bit was set before its rotation, bit 0 of the rotated `c1` is forced
/// to 1; and if `c0`'s top bit was set before its rotation, the rotated
/// `c0` and `c1` are XORed with the polynomial taps `0x80` and `0x05`.
pub open spec fn mix_step(s: (u8, u8, u8, u8)) -> (u8, u8, u8, u8) {
    let (c0, c1, c2, c3) = s;
    let r1 = rotl_byte(0, c1);
    let r0 = rotl_byte(carry_out(c1), c0);
    let r1 = if c2 & 0x80 == 0x80 {
        r1 | 1
    } else {
        r1
    };
    let r3 = rotl_byte(carry_out(c0), c3);
    let r2 = rotl_byte(carry_out(c3), c2);
    if c0 & 0x80 == 0x80 {
        ((r0 ^ 0x80), (r1 ^ 0x05), r2, r3)
    } else {
        (r0, r1, r2, r3)
    }
}

/// The state after `n` mixing iterations from `s`.
pub open spec fn mix_iter(s: (u8, u8, u8, u8), n: nat) -> (u8, u8, u8, u8)
    decreases n,
{
    if n == 0 {
        s
    } else {
        mix_step(mix_iter(s, (n - 1) as nat))
    }
}

/// One round: reload `c2, c3` with the record bytes `b0, b1`, then run
/// sixteen mixing iterations.
pub open spec fn mix_round(c0: u8, c1: u8, b0: u8, b1: u8) -> (u8, u8, u8, u8) {
    mix_iter((c0, c1, b0, b1), 16)
}

/// The two checksum bytes computed from the first six bytes of `input`:
/// three rounds seeded from the byte pairs `[0..2]`, `[2..4]` and `[4..6]`.
pub open spec fn checksum(input: Seq<u8>) -> (u8, u8)
    recommends
        input.len() >= 6,
{
    let s1 = mix_round(0xff, 0xff, input[0], input[1]);
    let s2 = mix_round(s1.0, s1.1, input[2], input[3]);
    let s3 = mix_round(s2.0, s2.1, input[4], input[5]);
    (s3.0, s3.1)
}

/// Whether the record's trailing two bytes match the checksum recomputed
/// from its first six.
pub open spec fn checksum_ok(input: Seq<u8>) -> bool
    recommends
        input.len() >= 8,
{
    checksum(input) == (input[6], input[7])
}

/// The checksum is a deterministic function of the record's first six
/// bytes alone: two records that agree on bytes `[0..6]` get the same
/// checksum, whatever else they hold.
pub proof fn lemma_checksum_deterministic(a: Seq<u8>, b: Seq<u8>)
    requires
        a.len() >= 6,
        b.len() >= 6,
        forall|i: int| 0 <= i < 6 ==> a[i] == b[i],
    ensures
        checksum(a) == checksum(b),
{
}

/// Run sixteen mixing iterations on the state `(*c0, *c1, *c2, *c3)`.
fn mix_sixteen(c0: &mut u8, c1: &mut u8, c2: &mut u8, c3: &mut u8)
    ensures
        (*final(c0), *final(c1), *final(c2), *final(c3)) == mix_iter(
            (*old(c0), *old(c1), *old(c2), *old(c3)),
            16,
        ),
{
    let ghost start = (*c0, *c1, *c2, *c3);
    for i in 0..16usize
        invariant
            (*c0, *c1, *c2, *c3) == mix_iter(start, i as nat),
    {
        let temp = *c0;
        let mut c: u8 = 0;

        rotate_left(&mut c, c1);
        rotate_left(&mut c, c0);
        if *c2 & 0x80 == 0x80 {
            *c1 |= 1;
        }
        rotate_left(&mut c, c3);
        rotate_left(&mut c, c2);
        if temp & 0x80 == 0x80 {
            *c0 ^= 0x80;
            *c1 ^= 0x05;
        }
    }
}

/// Compute the checksum of the first six bytes of `input`.
pub fn compute_checksum(input: &[u8]) -> (r: (u8, u8))
    requires
        input@.len() >= 6,
    ensures
        r == checksum(input@),
{
    let mut c0: u8 = 0xff;
    let mut c1: u8 = 0xff;
    let mut c2: u8 = 0x00;
    let mut c3: u8 = 0x00;

    c2 = input[0];
    c3 = input[1];
    mix_sixteen(&mut c0, &mut c1, &mut c2, &mut c3);

    c2 = input[2];
    c3 = input[3];
    mix_sixteen(&mut c0, &mut c1, &mut c2, &mut c3);

    c2 = input[4];
    c3 = input[5];
    mix_sixteen(&mut c0, &mut c1, &mut c2, &mut c3);

    (c0, c1)
}

/// Recompute the checksum of `input` and compare it against the record's
/// trailing two bytes.
pub fn verify_checksum(input: &[u8]) -> (r: bool)
    requires
        input@.len() >= 8,
    ensures
        r == checksum_ok(input@),
{
    let (h0, h1) = compute_checksum(input);
    h0 == input[6] && h1 == input[7]
}

} // verus!
