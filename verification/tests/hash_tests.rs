use common_x::hasher::{bytes_to_hex, hash, hash_hex};

/// The well-known blake3 digest of the empty input.
#[test]
fn blake3_empty_input_vector() {
    let expected = "af1349b9f5f9a1a6a0404dea36dcc9499bcb25c9adc112b7cc9a93cae41f3262";
    assert_eq!(hash_hex(b""), expected);
    assert_eq!(bytes_to_hex(&hash(b"")), expected);
}

/// A digest of real input: 32 bytes, 64 hex digits, and not the input itself.
#[test]
fn blake3_digest_shape() {
    let input = b"hello world";
    let digest = hash(input);
    assert_eq!(digest.len(), 32);
    let hex = hash_hex(input);
    assert_eq!(hex.len(), 64);
    assert_ne!(hex.as_bytes(), input);
    assert_eq!(bytes_to_hex(&digest), hex);
    assert_ne!(hash(b"hello worle"), digest);
}

/// Hex rendering, digit by digit.
#[test]
fn hex_rendering_exact() {
    assert_eq!(bytes_to_hex(&[]), "");
    assert_eq!(bytes_to_hex(&[0x00]), "00");
    assert_eq!(bytes_to_hex(&[0x0f]), "0f");
    assert_eq!(bytes_to_hex(&[0xa5, 0x00, 0xff]), "a500ff");
    assert_eq!(bytes_to_hex(&[0x12, 0x34]), "1234");
}
