//! The four fixed 32-entry substitution tables.
//!
//! Each table maps a key value below 32 to a scrambling byte; any larger
//! key is an input-validation error, never a panic.

use vstd::prelude::*;
use crate::Error;

verus! {

/// The entries of substitution table 0.
pub open spec fn sbox_0_table() -> Seq<u8> {
    seq![
        0x00, 0x1f, 0x9b, 0x69, 0xa5, 0x80, 0x90, 0xb2,
        0xd7, 0x44, 0xec, 0x75, 0x3b, 0x62, 0x0c, 0xa3,
        0xa6, 0xe4, 0x1f, 0x4c, 0x05, 0xe4, 0x44, 0x6e,
        0xd9, 0x5b, 0x34, 0xe6, 0x08, 0x31, 0x91, 0x72,
    ]
}

/// Look `input` up in substitution table 0; keys of 32 or more are invalid.
pub fn sbox_0(input: u8) -> (r: Result<u8, Error>)
    ensures
        input < 32 ==> r == Ok::<u8, Error>(sbox_0_table()[input as int]),
        input >= 32 ==> r == Err::<u8, Error>(Error::InvalidKey),
{
    let sbox: [u8; 32] = [
        0x00, 0x1f, 0x9b, 0x69, 0xa5, 0x80, 0x90, 0xb2,
        0xd7, 0x44, 0xec, 0x75, 0x3b, 0x62, 0x0c, 0xa3,
        0xa6, 0xe4, 0x1f, 0x4c, 0x05, 0xe4, 0x44, 0x6e,
        0xd9, 0x5b, 0x34, 0xe6, 0x08, 0x31, 0x91, 0x72,
    ];

    if input < 32 {
        assert(sbox@ =~= sbox_0_table());
        Ok(sbox[input as usize])
    } else {
        Err(Error::InvalidKey)
    }
}

/// The entries of substitution table 1.
pub open spec fn sbox_1_table() -> Seq<u8> {
    seq![
        0x00, 0xae, 0xf3, 0x7b, 0x12, 0xc9, 0x83, 0xf0,
        0xa9, 0x57, 0x50, 0x08, 0x04, 0x81, 0x02, 0x21,
        0x96, 0x09, 0x0f, 0x90, 0xc3, 0x62, 0x27, 0x21,
        0x3b, 0x22, 0x4e, 0x88, 0xf5, 0xc5, 0x75, 0x91,
    ]
}

/// Look `input` up in substitution table 1; keys of 32 or more are invalid.
pub fn sbox_1(input: u8) -> (r: Result<u8, Error>)
    ensures
        input < 32 ==> r == Ok::<u8, Error>(sbox_1_table()[input as int]),
        input >= 32 ==> r == Err::<u8, Error>(Error::InvalidKey),
{
    let sbox: [u8; 32] = [
        0x00, 0xae, 0xf3, 0x7b, 0x12, 0xc9, 0x83, 0xf0,
        0xa9, 0x57, 0x50, 0x08, 0x04, 0x81, 0x02, 0x21,
        0x96, 0x09, 0x0f, 0x90, 0xc3, 0x62, 0x27, 0x21,
        0x3b, 0x22, 0x4e, 0x88, 0xf5, 0xc5, 0x75, 0x91,
    ];

    if input < 32 {
        assert(sbox@ =~= sbox_1_table());
        Ok(sbox[input as usize])
    } else {
        Err(Error::InvalidKey)
    }
}

/// The entries of substitution table 2.
pub open spec fn sbox_2_table() -> Seq<u8> {
    seq![
        0x00, 0xe3, 0xa2, 0x45, 0x40, 0xe0, 0x09, 0xea,
        0x42, 0x65, 0x1c, 0xc1, 0xeb, 0xb0, 0x69, 0x14,
        0x01, 0xd2, 0x8e, 0xfb, 0xfa, 0x86, 0x09, 0x95,
        0x1b, 0x61, 0x14, 0x0e, 0x99, 0x21, 0xec, 0x40,
    ]
}

/// Look `input` up in substitution table 2; keys of 32 or more are invalid.
pub fn sbox_2(input: u8) -> (r: Result<u8, Error>)
    ensures
        input < 32 ==> r == Ok::<u8, Error>(sbox_2_table()[input as int]),
        input >= 32 ==> r == Err::<u8, Error>(Error::InvalidKey),
{
    let sbox: [u8; 32] = [
        0x00, 0xe3, 0xa2, 0x45, 0x40, 0xe0, 0x09, 0xea,
        0x42, 0x65, 0x1c, 0xc1, 0xeb, 0xb0, 0x69, 0x14,
        0x01, 0xd2, 0x8e, 0xfb, 0xfa, 0x86, 0x09, 0x95,
        0x1b, 0x61, 0x14, 0x0e, 0x99, 0x21, 0xec, 0x40,
    ];

    if input < 32 {
        assert(sbox@ =~= sbox_2_table());
        Ok(sbox[input as usize])
    } else {
        Err(Error::InvalidKey)
    }
}

/// The entries of substitution table 3.
pub open spec fn sbox_3_table() -> Seq<u8> {
    seq![
        0x00, 0x25, 0x6d, 0x4f, 0xc5, 0xca, 0x04, 0x39,
        0x3a, 0x7d, 0x0d, 0xf1, 0x43, 0x05, 0x71, 0x66,
        0x82, 0x31, 0x21, 0xd8, 0xfe, 0x4d, 0xc2, 0xc8,
        0xcc, 0x09, 0xa0, 0x06, 0x49, 0xd5, 0xf1, 0x83,
    ]
}

/// Look `input` up in substitution table 3; keys of 32 or more are invalid.
pub fn sbox_3(input: u8) -> (r: Result<u8, Error>)
    ensures
        input < 32 ==> r == Ok::<u8, Error>(sbox_3_table()[input as int]),
        input >= 32 ==> r == Err::<u8, Error>(Error::InvalidKey),
{
    let sbox: [u8; 32] = [
        0x00, 0x25, 0x6d, 0x4f, 0xc5, 0xca, 0x04, 0x39,
        0x3a, 0x7d, 0x0d, 0xf1, 0x43, 0x05, 0x71, 0x66,
        0x82, 0x31, 0x21, 0xd8, 0xfe, 0x4d, 0xc2, 0xc8,
        0xcc, 0x09, 0xa0, 0x06, 0x49, 0xd5, 0xf1, 0x83,
    ];

    if input < 32 {
        assert(sbox@ =~= sbox_3_table());
        Ok(sbox[input as usize])
    } else {
        Err(Error::InvalidKey)
    }
}

} // verus!
