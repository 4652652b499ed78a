use clipstitch::CanonicalImage;
use clipstitch::StitchError;
use clipstitch::stitch;

/// A width x height image whose every pixel is the given RGBA value.
fn solid(width: usize, height: usize, pixel: [u8; 4]) -> CanonicalImage {
    let mut bytes = Vec::with_capacity(width * height * 4);
    for _ in 0..width * height {
        bytes.extend_from_slice(&pixel);
    }
    CanonicalImage { width, height, bytes }
}

fn row_of(img: &CanonicalImage, y: usize) -> &[u8] {
    let start = y * img.width * 4;
    &img.bytes[start..start + img.width * 4]
}

const RED: [u8; 4] = [255, 0, 0, 255];
const BLUE: [u8; 4] = [0, 0, 255, 255];

#[test]
fn stitch_rejects_differing_dimensions() {
    let a = solid(4, 4, RED);
    let b = solid(4, 5, BLUE);
    let r = stitch(&a, &b);
    assert_eq!(
        r.unwrap_err(),
        StitchError::DimensionMismatch { width_a: 4, height_a: 4, width_b: 4, height_b: 5 }
    );
}

#[test]
fn stitch_rejects_differing_widths() {
    let a = solid(3, 4, RED);
    let b = solid(4, 4, BLUE);
    assert_eq!(
        stitch(&a, &b).unwrap_err(),
        StitchError::DimensionMismatch { width_a: 3, height_a: 4, width_b: 4, height_b: 4 }
    );
}

#[test]
fn stitch_swaps_halves_of_even_height() {
    // A = 4x4 solid red (bottom source), B = 4x4 solid blue (top source);
    // mid = 2: rows 0-1 blue, rows 2-3 red.
    let a = solid(4, 4, RED);
    let b = solid(4, 4, BLUE);
    let out = stitch(&a, &b).unwrap();
    assert_eq!(out.width, 4);
    assert_eq!(out.height, 4);
    for y in 0..2 {
        assert_eq!(row_of(&out, y), row_of(&b, y), "row {y} must come from the top source");
    }
    for y in 2..4 {
        assert_eq!(row_of(&out, y), row_of(&a, y), "row {y} must come from the bottom source");
    }
}

#[test]
fn stitch_floors_the_midpoint_for_odd_height() {
    // H = 5, mid = 2: rows 0-1 from B, rows 2-4 from A (3 rows).
    let a = solid(2, 5, RED);
    let b = solid(2, 5, BLUE);
    let out = stitch(&a, &b).unwrap();
    assert_eq!(out.width, 2);
    assert_eq!(out.height, 5);
    for y in 0..2 {
        assert_eq!(row_of(&out, y), row_of(&b, y));
    }
    for y in 2..5 {
        assert_eq!(row_of(&out, y), row_of(&a, y));
    }
}

#[test]
fn stitch_keeps_distinct_rows_in_place() {
    // Each row has its own fill byte, so any misplaced copy is visible.
    let mut a_bytes = Vec::new();
    let mut b_bytes = Vec::new();
    for y in 0..6u8 {
        a_bytes.extend_from_slice(&[y; 8]);
        b_bytes.extend_from_slice(&[100 + y; 8]);
    }
    let a = CanonicalImage { width: 2, height: 6, bytes: a_bytes };
    let b = CanonicalImage { width: 2, height: 6, bytes: b_bytes };
    let out = stitch(&a, &b).unwrap();
    for y in 0..3 {
        assert!(row_of(&out, y).iter().all(|&v| v == 100 + y as u8));
    }
    for y in 3..6 {
        assert!(row_of(&out, y).iter().all(|&v| v == y as u8));
    }
}

#[test]
fn stitch_of_single_row_keeps_the_bottom_source() {
    // H = 1, mid = 0: the whole image comes from A.
    let a = solid(3, 1, RED);
    let b = solid(3, 1, BLUE);
    let out = stitch(&a, &b).unwrap();
    assert_eq!(out.bytes, a.bytes);
}

#[test]
fn stitch_of_empty_images_is_empty() {
    let a = solid(0, 0, RED);
    let b = solid(0, 0, BLUE);
    let out = stitch(&a, &b).unwrap();
    assert_eq!(out.width, 0);
    assert_eq!(out.height, 0);
    assert!(out.bytes.is_empty());
}
