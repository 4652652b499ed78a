use clipstitch::DecodeError;
use clipstitch::RawCapture;
use clipstitch::decode;

fn capture(width: usize, height: usize, bytes: Vec<u8>) -> RawCapture {
    RawCapture { width, height, bytes }
}

#[test]
fn decode_rejects_wrong_length() {
    let raw = capture(2, 2, vec![0u8; 15]);
    let r = decode(raw);
    assert_eq!(r.unwrap_err(), DecodeError::PixelLengthMismatch { expected: 16, actual: 15 });
}

#[test]
fn decode_rejects_empty_buffer_with_nonzero_dims() {
    let raw = capture(3, 1, Vec::new());
    let r = decode(raw);
    assert_eq!(r.unwrap_err(), DecodeError::PixelLengthMismatch { expected: 12, actual: 0 });
}

#[test]
fn decode_rejects_oversized_buffer() {
    let raw = capture(1, 1, vec![7u8; 5]);
    let r = decode(raw);
    assert_eq!(r.unwrap_err(), DecodeError::PixelLengthMismatch { expected: 4, actual: 5 });
}

#[test]
fn decode_preserves_dimensions_and_bytes() {
    let bytes: Vec<u8> = (0u8..24u8).collect();
    let raw = capture(3, 2, bytes.clone());
    let img = decode(raw).unwrap();
    assert_eq!(img.width, 3);
    assert_eq!(img.height, 2);
    assert_eq!(img.bytes, bytes);
}

#[test]
fn decode_accepts_zero_dimension_with_empty_buffer() {
    let img = decode(capture(0, 5, Vec::new())).unwrap();
    assert_eq!(img.width, 0);
    assert_eq!(img.height, 5);
    assert!(img.bytes.is_empty());
}

#[test]
fn raw_capture_clone_preserves_fields() {
    let raw = capture(2, 1, vec![1, 2, 3, 4, 5, 6, 7, 8]);
    let copy = raw.clone();
    assert_eq!(copy.width, raw.width);
    assert_eq!(copy.height, raw.height);
    assert_eq!(copy.bytes, raw.bytes);
}
