use clipstitch::artifact_filename;
use clipstitch::u64_to_decimal;

#[test]
fn filename_is_deterministic_for_a_fixed_clock() {
    let t = 1700000000u64;
    assert_eq!(artifact_filename(t), "doubao_image_1700000000.png");
    assert_eq!(artifact_filename(t), artifact_filename(t));
}

#[test]
fn filename_at_the_epoch() {
    assert_eq!(artifact_filename(0), "doubao_image_0.png");
}

#[test]
fn decimal_of_zero_is_one_digit() {
    assert_eq!(u64_to_decimal(0), "0");
}

#[test]
fn decimal_has_no_leading_zero() {
    assert_eq!(u64_to_decimal(10), "10");
    assert_eq!(u64_to_decimal(1234567890), "1234567890");
}

#[test]
fn decimal_of_the_largest_value() {
    assert_eq!(u64_to_decimal(u64::MAX), "18446744073709551615");
}
