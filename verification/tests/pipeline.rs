use clipstitch::AcquireStep;
use clipstitch::PollEvent;
use clipstitch::RawCapture;
use clipstitch::acquisition_step;
use clipstitch::artifact_filename;
use clipstitch::decode;
use clipstitch::stitch;

/// The stages in order: accept a capture, decode it, stitch two decoded
/// images, and name the result.
#[test]
fn acquired_captures_flow_through_decode_stitch_and_naming() {
    let red: Vec<u8> = [255, 0, 0, 255].repeat(4);
    let blue: Vec<u8> = [0, 0, 255, 255].repeat(4);
    let capture_a = RawCapture { width: 2, height: 2, bytes: red.clone() };
    let capture_b = RawCapture { width: 2, height: 2, bytes: blue.clone() };

    let accepted_a = match acquisition_step(PollEvent::Image(capture_a)) {
        AcquireStep::Accept(c) => c,
        _ => panic!("a 2x2 capture must be accepted"),
    };
    let accepted_b = match acquisition_step(PollEvent::Image(capture_b)) {
        AcquireStep::Accept(c) => c,
        _ => panic!("a 2x2 capture must be accepted"),
    };

    let image_a = decode(accepted_a).unwrap();
    let image_b = decode(accepted_b).unwrap();
    let out = stitch(&image_a, &image_b).unwrap();

    assert_eq!(out.width, 2);
    assert_eq!(out.height, 2);
    // mid = 1: row 0 blue (from B), row 1 red (from A).
    assert_eq!(&out.bytes[..8], &blue[..8]);
    assert_eq!(&out.bytes[8..], &red[8..]);

    assert_eq!(artifact_filename(42), "doubao_image_42.png");
}
