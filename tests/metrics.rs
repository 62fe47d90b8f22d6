use gas_bench::cell::decimal;
use gas_bench::{deviations, format_cell, min_value, percentage};

#[test]
fn percentage_of_the_minimum_is_zero() {
    assert_eq!(percentage(100, 100), 0);
    assert_eq!(percentage(48000, 48000), 0);
    assert_eq!(percentage(1, 1), 0);
}

#[test]
fn percentage_grows_with_the_value() {
    let m = 1000;
    let values = [-50, 0, 989, 991, 1000, 1009, 1011, 5000, i64::MAX];
    for pair in values.windows(2) {
        assert!(percentage(pair[0], m) <= percentage(pair[1], m));
    }
}

#[test]
fn percentage_truncates_toward_zero() {
    assert_eq!(percentage(991, 1000), 0);
    assert_eq!(percentage(1009, 1000), 0);
    assert_eq!(percentage(989, 1000), -1);
    assert_eq!(percentage(1011, 1000), 1);
    assert_eq!(percentage(150, 100), 50);
}

#[test]
fn percentage_against_zero_saturates() {
    assert_eq!(percentage(5, 0), i64::MAX);
    assert_eq!(percentage(-5, 0), i64::MIN);
    assert_eq!(percentage(0, 0), 0);
}

#[test]
fn percentage_saturates_on_huge_deviation() {
    assert_eq!(percentage(i64::MAX, 1), i64::MAX);
}

#[test]
fn percentage_with_negative_reference() {
    // (-50 - -100) / -100 * 100 = -50
    assert_eq!(percentage(-50, -100), -50);
}

#[test]
fn gas_deviations_from_least_value() {
    let gas = vec![120, 100, 130, 110];
    assert_eq!(min_value(&gas), 100);
    assert_eq!(deviations(&gas), vec![20, 0, 30, 10]);
}

#[test]
fn size_deviations_from_least_value() {
    let sizes = vec![50000, 48000, 52000, 49000];
    assert_eq!(min_value(&sizes), 48000);
    assert_eq!(deviations(&sizes), vec![4, 0, 8, 2]);
}

#[test]
fn single_variant_has_no_deviation() {
    assert_eq!(deviations(&vec![777]), vec![0]);
}

#[test]
fn cell_text_shape() {
    assert_eq!(format_cell(120, 20), "120 (+20%)");
    assert_eq!(format_cell(100, 0), "100 (+0%)");
    assert_eq!(format_cell(-5, -3), "-5 (+-3%)");
}

#[test]
fn decimal_text_of_extremes() {
    assert_eq!(decimal(0), "0");
    assert_eq!(decimal(7), "7");
    assert_eq!(decimal(-40), "-40");
    assert_eq!(decimal(i64::MAX), i64::MAX.to_string());
    assert_eq!(decimal(i64::MIN), i64::MIN.to_string());
}
