//! The cipher variants selected by a record's mode byte.
//!
//! Substitution cipher A nibble-swaps each payload byte and XORs it with a
//! table entry keyed by the record's key byte; variant 7 either delegates
//! to cipher A or complements the payload outright; mode 255 emits a fixed
//! constant; the reserved modes 2 through 6 are explicitly unimplemented.

use vstd::prelude::*;
use crate::Error;
use crate::bits::swap;
use crate::bits::swap_nibbles;
use crate::sbox::sbox_0;
use crate::sbox::sbox_0_table;
use crate::sbox::sbox_1;
use crate::sbox::sbox_1_table;
use crate::sbox::sbox_2;
use crate::sbox::sbox_2_table;
use crate::sbox::sbox_3;
use crate::sbox::sbox_3_table;

verus! {

/// What substitution cipher A produces for a record: each of the four
/// payload bytes `input[2..6]` is nibble-swapped and XORed with an entry
/// keyed by `input[1]`, drawn from tables 0, 2, 3 and 1 in output order.
/// A key of 32 or more is rejected.
pub open spec fn cipher_a_spec(input: Seq<u8>) -> Result<Seq<u8>, Error>
    recommends
        input.len() >= 6,
{
    let key = input[1];
    if key < 32 {
        Ok(
            seq![
                swap_nibbles(input[2]) ^ sbox_0_table()[key as int],
                swap_nibbles(input[3]) ^ sbox_2_table()[key as int],
                swap_nibbles(input[4]) ^ sbox_3_table()[key as int],
                swap_nibbles(input[5]) ^ sbox_1_table()[key as int],
            ],
        )
    } else {
        Err(Error::InvalidKey)
    }
}

/// What variant 7 produces: with bit 0 of the key byte clear it behaves
/// exactly as substitution cipher A; with it set, each payload byte is
/// complemented and the tables are bypassed.
pub open spec fn cipher_7_spec(input: Seq<u8>) -> Result<Seq<u8>, Error>
    recommends
        input.len() >= 6,
{
    if input[1] & 1 == 0 {
        cipher_a_spec(input)
    } else {
        Ok(seq![!input[2], !input[3], !input[4], !input[5]])
    }
}

/// The constant emitted for mode 255, whatever the payload holds.
pub open spec fn cipher_255_output() -> Seq<u8> {
    seq![0x00u8, 0x00u8, 0x01u8, 0x02u8]
}

/// Substitution cipher A (mode 1). On success the output buffer holds the
/// transformed payload; on an invalid key it is left untouched.
pub fn cipher_1(output: &mut [u8; 4], input: &[u8]) -> (r: Result<(), Error>)
    requires
        input@.len() >= 6,
    ensures
        r is Ok <==> cipher_a_spec(input@) is Ok,
        r is Ok ==> final(output)@ == cipher_a_spec(input@)->Ok_0,
        r is Err ==> r->Err_0 == cipher_a_spec(input@)->Err_0 && final(output)@ == old(output)@,
{
    let s0 = match sbox_0(input[1]) {
        Ok(v) => v,
        Err(e) => {
            return Err(e);
        },
    };
    let s2 = match sbox_2(input[1]) {
        Ok(v) => v,
        Err(e) => {
            return Err(e);
        },
    };
    let s3 = match sbox_3(input[1]) {
        Ok(v) => v,
        Err(e) => {
            return Err(e);
        },
    };
    let s1 = match sbox_1(input[1]) {
        Ok(v) => v,
        Err(e) => {
            return Err(e);
        },
    };

    output[0] = swap(input[2]) ^ s0;
    output[1] = swap(input[3]) ^ s2;
    output[2] = swap(input[4]) ^ s3;
    output[3] = swap(input[5]) ^ s1;

    assert(output@ =~= cipher_a_spec(input@)->Ok_0);
    Ok(())
}

/// Reserved mode 2: the protocol does not yet specify its cipher.
pub fn cipher_2() -> (r: Result<(), Error>)
    ensures
        r == Err::<(), Error>(Error::Unimplemented),
{
    Err(Error::Unimplemented)
}

/// Reserved mode 3: the protocol does not yet specify its cipher.
pub fn cipher_3() -> (r: Result<(), Error>)
    ensures
        r == Err::<(), Error>(Error::Unimplemented),
{
    Err(Error::Unimplemented)
}

/// Reserved mode 4: the protocol does not yet specify its cipher.
pub fn cipher_4() -> (r: Result<(), Error>)
    ensures
        r == Err::<(), Error>(Error::Unimplemented),
{
    Err(Error::Unimplemented)
}

/// Reserved mode 5: the protocol does not yet specify its cipher.
pub fn cipher_5() -> (r: Result<(), Error>)
    ensures
        r == Err::<(), Error>(Error::Unimplemented),
{
    Err(Error::Unimplemented)
}

/// Reserved mode 6: the protocol does not yet specify its cipher.
pub fn cipher_6() -> (r: Result<(), Error>)
    ensures
        r == Err::<(), Error>(Error::Unimplemented),
{
    Err(Error::Unimplemented)
}

/// Variant 7 (mode 7, or the key-byte fallback).
pub fn cipher_7(output: &mut [u8; 4], input: &[u8]) -> (r: Result<(), Error>)
    requires
        input@.len() >= 6,
    ensures
        r is Ok <==> cipher_7_spec(input@) is Ok,
        r is Ok ==> final(output)@ == cipher_7_spec(input@)->Ok_0,
        r is Err ==> r->Err_0 == cipher_7_spec(input@)->Err_0 && final(output)@ == old(output)@,
{
    if input[1] & 1 == 0 {
        cipher_1(output, input)
    } else {
        output[0] = !input[2];
        output[1] = !input[3];
        output[2] = !input[4];
        output[3] = !input[5];

        assert(output@ =~= cipher_7_spec(input@)->Ok_0);
        Ok(())
    }
}

/// Fixed output (mode 255): ignore the payload and emit the constant.
pub fn cipher_255(output: &mut [u8; 4]) -> (r: Result<(), Error>)
    ensures
        r is Ok,
        final(output)@ == cipher_255_output(),
{
    output[0] = 0;
    output[1] = 0;
    output[2] = 1;
    output[3] = 2;

    assert(output@ =~= cipher_255_output());
    Ok(())
}

} // verus!
