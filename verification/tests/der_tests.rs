use pdfsign::der::encode_der_length;

/// Reads a DER length encoding back; panics on a malformed one.
fn decode_der_length(bytes: &[u8]) -> usize {
    assert!(!bytes.is_empty());
    if bytes[0] < 128 {
        assert_eq!(bytes.len(), 1);
        bytes[0] as usize
    } else {
        let k = (bytes[0] - 128) as usize;
        assert_eq!(bytes.len(), 1 + k);
        let mut n: usize = 0;
        for &b in &bytes[1..] {
            n = n * 256 + b as usize;
        }
        n
    }
}

#[test]
fn short_form_lengths_are_one_byte() {
    assert_eq!(encode_der_length(0), vec![0u8]);
    assert_eq!(encode_der_length(1), vec![1u8]);
    assert_eq!(encode_der_length(127), vec![127u8]);
}

#[test]
fn long_form_lengths_carry_minimal_big_endian_bytes() {
    assert_eq!(encode_der_length(128), vec![0x81, 128]);
    assert_eq!(encode_der_length(255), vec![0x81, 255]);
    assert_eq!(encode_der_length(256), vec![0x82, 1, 0]);
    assert_eq!(encode_der_length(65535), vec![0x82, 255, 255]);
}

#[test]
fn decoding_reproduces_the_length() {
    for n in [0usize, 1, 127, 128, 255, 256, 65535, 123456789] {
        assert_eq!(decode_der_length(&encode_der_length(n)), n);
    }
}
