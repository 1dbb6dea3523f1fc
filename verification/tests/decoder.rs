use picard::bits::rotate_left;
use picard::bits::swap;
use picard::checksum::compute_checksum;
use picard::checksum::verify_checksum;
use picard::decode;
use picard::Error;

#[test]
fn test_rotate_left() {
    let mut c = 0;
    let mut data = 0xff;

    rotate_left(&mut c, &mut data);
    assert_eq!(c, 1);
    assert_eq!(data, 0xfe);

    c = 0;
    data = 0x55;

    rotate_left(&mut c, &mut data);
    assert_eq!(c, 0);
    assert_eq!(data, 0xaa);

    c = 1;
    data = 0xaa;

    rotate_left(&mut c, &mut data);
    assert_eq!(c, 1);
    assert_eq!(data, 0x55);
}

#[test]
fn test_swap() {
    assert_eq!(swap(0x7f), 0xf7);
    assert_eq!(swap(0xa5), 0x5a);
    assert_eq!(swap(0x94), 0x49);
}

#[test]
fn sbox_lookups() {
    assert_eq!(picard::sbox::sbox_0(0), Ok(0x00));
    assert_eq!(picard::sbox::sbox_0(5), Ok(0x80));
    assert_eq!(picard::sbox::sbox_0(31), Ok(0x72));
    assert_eq!(picard::sbox::sbox_1(1), Ok(0xae));
    assert_eq!(picard::sbox::sbox_1(31), Ok(0x91));
    assert_eq!(picard::sbox::sbox_2(2), Ok(0xa2));
    assert_eq!(picard::sbox::sbox_2(31), Ok(0x40));
    assert_eq!(picard::sbox::sbox_3(3), Ok(0x4f));
    assert_eq!(picard::sbox::sbox_3(31), Ok(0x83));
}

#[test]
fn sbox_key_limit() {
    assert_eq!(picard::sbox::sbox_0(32), Err(Error::InvalidKey));
    assert_eq!(picard::sbox::sbox_1(32), Err(Error::InvalidKey));
    assert_eq!(picard::sbox::sbox_2(32), Err(Error::InvalidKey));
    assert_eq!(picard::sbox::sbox_3(32), Err(Error::InvalidKey));
    assert_eq!(picard::sbox::sbox_0(255), Err(Error::InvalidKey));
}

#[test]
fn checksum_known_values() {
    assert_eq!(compute_checksum(&[0x00; 6]), (0x00, 0xd8));
    assert_eq!(compute_checksum(&[0x01, 0x02, 0x03, 0x04, 0x05, 0x06]), (0x9b, 0xed));
}

#[test]
fn checksum_deterministic() {
    let record = [0x01, 0x1f, 0x12, 0x34, 0x56, 0x78, 0xaf, 0x97];
    assert_eq!(compute_checksum(&record), compute_checksum(&record));

    // Only the first six bytes matter.
    let same_head = [0x01, 0x1f, 0x12, 0x34, 0x56, 0x78, 0x00, 0x00];
    assert_eq!(compute_checksum(&record), compute_checksum(&same_head));
}

#[test]
fn checksum_not_constant() {
    // Mutating an early byte changes the computed checksum for these inputs.
    assert_ne!(
        compute_checksum(&[0x00, 0x00, 0x00, 0x00, 0x00, 0x00]),
        compute_checksum(&[0x01, 0x02, 0x03, 0x04, 0x05, 0x06]),
    );
}

#[test]
fn verify_checksum_matches_trailer() {
    assert!(verify_checksum(&[0x00, 0x00, 0x00, 0x00, 0x00, 0x00, 0x00, 0xd8]));
    assert!(!verify_checksum(&[0x00, 0x00, 0x00, 0x00, 0x00, 0x00, 0x00, 0xd9]));
    assert!(!verify_checksum(&[0x00, 0x00, 0x00, 0x00, 0x00, 0x00, 0x01, 0xd8]));
}

#[test]
fn decode_bad_checksum_leaves_output() {
    let mut output = [0x99, 0x99, 0x99, 0x99];
    let record = [0xff, 0x01, 0xde, 0xad, 0xbe, 0xef, 0x00, 0x00];
    assert_eq!(decode(&mut output, &record), Err(Error::InvalidChecksum));
    assert_eq!(output, [0x99, 0x99, 0x99, 0x99]);
}

#[test]
fn decode_mode_255_fixed_output() {
    let mut output = [0; 4];
    let record = [0xff, 0x01, 0xde, 0xad, 0xbe, 0xef, 0xf5, 0xea];
    assert_eq!(decode(&mut output, &record), Ok(()));
    assert_eq!(output, [0x00, 0x00, 0x01, 0x02]);

    // A different payload, same fixed constant.
    let record = [0xff, 0x01, 0x00, 0x11, 0x22, 0x33, 0xae, 0xb2];
    assert_eq!(decode(&mut output, &record), Ok(()));
    assert_eq!(output, [0x00, 0x00, 0x01, 0x02]);
}

#[test]
fn decode_key_boundary() {
    // Key 31 is the largest valid substitution key.
    let mut output = [0; 4];
    let record = [0x01, 0x1f, 0x12, 0x34, 0x56, 0x78, 0xaf, 0x97];
    assert_eq!(decode(&mut output, &record), Ok(()));
    assert_eq!(output, [0x53, 0x03, 0xe6, 0x16]);

    // Key 32 carries bit 0x20, takes the variant-7 fallback with bit 0
    // clear, and is then rejected by the substitution tables.
    let mut output = [0x42, 0x42, 0x42, 0x42];
    let record = [0x01, 0x20, 0x12, 0x34, 0x56, 0x78, 0xac, 0x9b];
    assert_eq!(decode(&mut output, &record), Err(Error::InvalidKey));
    assert_eq!(output, [0x42, 0x42, 0x42, 0x42]);

    // Key 64 reaches substitution cipher A directly and is rejected too.
    let record = [0x01, 0x40, 0x12, 0x34, 0x56, 0x78, 0xab, 0x1b];
    assert_eq!(decode(&mut output, &record), Err(Error::InvalidKey));
    assert_eq!(output, [0x42, 0x42, 0x42, 0x42]);
}

#[test]
fn decode_mode_1_substitution() {
    let mut output = [0; 4];
    let record = [0x01, 0x01, 0x7f, 0xa5, 0x94, 0x00, 0x81, 0x14];
    assert_eq!(decode(&mut output, &record), Ok(()));
    // swap(0x7f) ^ 0x1f, swap(0xa5) ^ 0xe3, swap(0x94) ^ 0x25, swap(0x00) ^ 0xae
    assert_eq!(output, [0xe8, 0xb9, 0x6c, 0xae]);
}

#[test]
fn decode_key_zero_routes_to_variant_7() {
    // Mode byte 0 alone names no variant, but key 0 takes the fallback;
    // bit 0 of the key is clear, so cipher A runs with key 0, whose table
    // entries are all zero: the output is the nibble-swapped payload.
    let mut output = [0; 4];
    let record = [0x00, 0x00, 0xab, 0xcd, 0x12, 0x34, 0xea, 0x48];
    assert_eq!(decode(&mut output, &record), Ok(()));
    assert_eq!(output, [0xba, 0xdc, 0x21, 0x43]);
}

#[test]
fn decode_key_fallback_complement() {
    // Key 0x21 has bit 0x20 and bit 0 set: variant 7 complements the payload.
    let mut output = [0; 4];
    let record = [0x00, 0x21, 0xab, 0xcd, 0x12, 0x34, 0xe8, 0xdc];
    assert_eq!(decode(&mut output, &record), Ok(()));
    assert_eq!(output, [0x54, 0x32, 0xed, 0xcb]);
}

#[test]
fn decode_mode_7_complement() {
    // Mode 7 with an odd key byte: the output is the complemented payload.
    let mut output = [0; 4];
    let record = [0x07, 0x05, 0x0f, 0xf0, 0x55, 0xaa, 0x99, 0x15];
    assert_eq!(decode(&mut output, &record), Ok(()));
    assert_eq!(output, [0xf0, 0x0f, 0xaa, 0x55]);
}

#[test]
fn decode_mode_7_even_key_uses_cipher_a() {
    let mut output = [0; 4];
    let record = [0x07, 0x02, 0x0f, 0xf0, 0x55, 0xaa, 0x19, 0x7a];
    assert_eq!(decode(&mut output, &record), Ok(()));
    assert_eq!(output, [0x6b, 0xad, 0x38, 0x59]);
}

#[test]
fn decode_unknown_mode() {
    let mut output = [0x11, 0x22, 0x33, 0x44];
    let record = [0x10, 0x01, 0x01, 0x02, 0x03, 0x04, 0xc5, 0xc1];
    assert_eq!(decode(&mut output, &record), Err(Error::InvalidMode));
    assert_eq!(output, [0x11, 0x22, 0x33, 0x44]);
}

#[test]
fn decode_reserved_mode_unimplemented() {
    let mut output = [0x11, 0x22, 0x33, 0x44];
    let record = [0x02, 0x01, 0x01, 0x02, 0x03, 0x04, 0x2d, 0xc4];
    assert_eq!(decode(&mut output, &record), Err(Error::Unimplemented));
    assert_eq!(output, [0x11, 0x22, 0x33, 0x44]);
}

#[test]
fn decode_reserved_mode_6_unimplemented() {
    let mut output = [0; 4];
    let record = [0x06, 0x01, 0x01, 0x02, 0x03, 0x04, 0x00, 0x00];
    let trailer = compute_checksum(&record);
    let record = [0x06, 0x01, 0x01, 0x02, 0x03, 0x04, trailer.0, trailer.1];
    assert_eq!(decode(&mut output, &record), Err(Error::Unimplemented));
}

#[test]
fn decode_consults_first_eight_bytes_only() {
    let mut from_record = [0; 4];
    let mut from_stream = [0; 4];
    let record = [0x01, 0x1f, 0x12, 0x34, 0x56, 0x78, 0xaf, 0x97];
    let mut stream = record.to_vec();
    stream.extend_from_slice(&[0xde, 0xad, 0xbe, 0xef]);
    assert_eq!(decode(&mut from_record, &record), decode(&mut from_stream, &stream));
    assert_eq!(from_record, from_stream);
}

#[test]
fn decode_deterministic() {
    let mut first = [0; 4];
    let mut second = [0; 4];
    let record = [0x01, 0x1f, 0x12, 0x34, 0x56, 0x78, 0xaf, 0x97];
    assert_eq!(decode(&mut first, &record), decode(&mut second, &record));
    assert_eq!(first, second);
}
