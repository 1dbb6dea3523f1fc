use vstd::prelude::*;

pub mod bits;
pub mod checksum;
pub mod cipher;
pub mod sbox;

use crate::checksum::checksum_ok;
use crate::checksum::verify_checksum;
use crate::cipher::cipher_1;
use crate::cipher::cipher_2;
use crate::cipher::cipher_255;
use crate::cipher::cipher_255_output;
use crate::cipher::cipher_3;
use crate::cipher::cipher_4;
use crate::cipher::cipher_5;
use crate::cipher::cipher_6;
use crate::cipher::cipher_7;
use crate::cipher::cipher_7_spec;
use crate::cipher::cipher_a_spec;

verus! {

/// A reason a record was rejected.
#[derive(Clone, Copy, Debug, PartialEq, Eq, Structural)]
pub enum Error {
    /// The mode byte did not match any known cipher variant.
    InvalidMode,
    /// A key value used to index a substitution table was 32 or more.
    InvalidKey,
    /// The record's trailing two bytes do not match the recomputed checksum.
    InvalidChecksum,
    /// The mode byte fell into the reserved range whose ciphers the
    /// protocol does not yet specify.
    Unimplemented,
}

/// Whether the record's key byte routes decoding to variant 7 before the
/// mode byte is consulted. The source hardware appears to fill this byte
/// with a value that is not meaningfully random; a key of 0, or one with
/// bit `0x20` set, takes this fallback. The quirk is preserved as observed
/// and deliberately not generalised.
pub open spec fn key_fallback(input: Seq<u8>) -> bool
    recommends
        input.len() >= 2,
{
    input[1] == 0 || input[1] & 0x20 == 0x20
}

/// The outcome of decoding a record: the four response bytes, or the
/// reason the record was rejected.
///
/// A record whose trailer does not match the recomputed checksum is
/// rejected outright. Otherwise the key byte may force variant 7; failing
/// that, the mode byte selects substitution cipher A (mode 1), a reserved
/// unimplemented mode (2 through 6), variant 7 (mode 7), the fixed
/// constant (mode 255), or no variant at all.
pub open spec fn decode_spec(input: Seq<u8>) -> Result<Seq<u8>, Error>
    recommends
        input.len() >= 8,
{
    if !checksum_ok(input) {
        Err(Error::InvalidChecksum)
    } else if key_fallback(input) {
        cipher_7_spec(input)
    } else if input[0] == 1 {
        cipher_a_spec(input)
    } else if 2 <= input[0] && input[0] <= 6 {
        Err(Error::Unimplemented)
    } else if input[0] == 7 {
        cipher_7_spec(input)
    } else if input[0] == 0xff {
        Ok(cipher_255_output())
    } else {
        Err(Error::InvalidMode)
    }
}

/// Decode one 8-byte record into the 4-byte response buffer.
///
/// Only the first 8 bytes of `input` are consulted. On success the buffer
/// holds exactly the bytes `decode_spec` names; on any failure the buffer
/// is left untouched and the error is the one `decode_spec` names.
pub fn decode(output: &mut [u8; 4], input: &[u8]) -> (r: Result<(), Error>)
    requires
        input@.len() >= 8,
    ensures
        r is Ok <==> decode_spec(input@) is Ok,
        r is Ok ==> final(output)@ == decode_spec(input@)->Ok_0,
        r is Err ==> r->Err_0 == decode_spec(input@)->Err_0 && final(output)@ == old(output)@,
{
    if !verify_checksum(input) {
        return Err(Error::InvalidChecksum);
    }

    if input[1] == 0 || input[1] & 0x20 == 0x20 {
        return cipher_7(output, input);
    }

    match input[0] {
        1 => cipher_1(output, input),
        2 => cipher_2(),
        3 => cipher_3(),
        4 => cipher_4(),
        5 => cipher_5(),
        6 => cipher_6(),
        7 => cipher_7(output, input),
        0xff => cipher_255(output),
        _ => Err(Error::InvalidMode),
    }
}

/// A checksum-valid record with mode byte 255 whose key byte does not take
/// the variant-7 fallback always decodes to the fixed constant
/// `[0x00, 0x00, 0x01, 0x02]`, whatever its payload bytes hold.
pub proof fn lemma_mode_255_fixed_output(input: Seq<u8>)
    requires
        input.len() >= 8,
        checksum_ok(input),
        input[0] == 0xff,
        !key_fallback(input),
    ensures
        decode_spec(input) == Ok::<Seq<u8>, Error>(cipher_255_output()),
{
}

/// The key-validation boundary for substitution cipher A: on a
/// checksum-valid record with mode byte 1, a key byte of 32 is rejected as
/// an invalid key, while a key byte of 31 decodes successfully.
pub proof fn lemma_key_boundary(input: Seq<u8>)
    requires
        input.len() >= 8,
        checksum_ok(input),
        input[0] == 1,
    ensures
        input[1] == 32 ==> decode_spec(input) == Err::<Seq<u8>, Error>(Error::InvalidKey),
        input[1] == 31 ==> decode_spec(input) is Ok,
{
    let k = input[1];
    assert(k == 32 ==> (k & 0x20 == 0x20) && (k & 1 == 0)) by (bit_vector);
    assert(k == 31 ==> k & 0x20 != 0x20) by (bit_vector);
}

/// A key byte of 0, or one with bit `0x20` set, routes a checksum-valid
/// record to variant 7 whatever its mode byte says; and when that key
/// byte's bit 0 is also set, the output is the bitwise complement of the
/// four payload bytes.
pub proof fn lemma_key_fallback_variant_7(input: Seq<u8>)
    requires
        input.len() >= 8,
        checksum_ok(input),
        key_fallback(input),
    ensures
        decode_spec(input) == cipher_7_spec(input),
        input[1] & 1 == 1 ==> decode_spec(input) == Ok::<Seq<u8>, Error>(
            seq![!input[2], !input[3], !input[4], !input[5]],
        ),
{
}

/// A checksum-valid record whose key byte does not take the variant-7
/// fallback and whose mode byte names no variant at all — not 1, not the
/// reserved range 2 through 6, not 7, not 255 — is rejected as an invalid
/// mode.
pub proof fn lemma_unknown_mode(input: Seq<u8>)
    requires
        input.len() >= 8,
        checksum_ok(input),
        !key_fallback(input),
        input[0] != 1,
        !(2 <= input[0] && input[0] <= 6),
        input[0] != 7,
        input[0] != 0xff,
    ensures
        decode_spec(input) == Err::<Seq<u8>, Error>(Error::InvalidMode),
{
}

} // verus!
