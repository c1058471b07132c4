use unicom_usage::utils::format::{push_decimal, push_digits, push_fixed2, push_gigabytes, to_hundredths};

const GB: i128 = 1 << 30;

fn gigabytes(bytes: i128) -> String {
    let mut out = String::new();
    push_gigabytes(&mut out, bytes);
    out
}

fn decimal(value: i64) -> String {
    let mut out = String::new();
    push_decimal(&mut out, value);
    out
}

#[test]
fn digits_are_written_most_significant_first() {
    let mut out = String::from("n=");
    push_digits(&mut out, 0);
    assert_eq!(out, "n=0");
    push_digits(&mut out, 1234567890);
    assert_eq!(out, "n=01234567890");
    let mut big = String::new();
    push_digits(&mut big, u128::MAX);
    assert_eq!(big, "340282366920938463463374607431768211455");
}

#[test]
fn decimal_writes_the_sign() {
    assert_eq!(decimal(0), "0");
    assert_eq!(decimal(60), "60");
    assert_eq!(decimal(-1800), "-1800");
    assert_eq!(decimal(i64::MAX), "9223372036854775807");
    assert_eq!(decimal(i64::MIN), "-9223372036854775808");
}

#[test]
fn hundredths_round_to_the_nearest() {
    assert_eq!(to_hundredths(0), 0);
    assert_eq!(to_hundredths(GB), 100);
    assert_eq!(to_hundredths(53_687_091), 5);
    // 0.004999... GB rounds down, 0.005 GB rounds up.
    assert_eq!(to_hundredths(5_368_709), 0);
    assert_eq!(to_hundredths(5_368_710), 1);
    // A tie goes away from zero: 0.125 GB.
    assert_eq!(to_hundredths(GB / 8), 13);
    assert_eq!(to_hundredths(-GB / 8), -13);
    assert_eq!(to_hundredths(-GB), -100);
    assert_eq!(to_hundredths(i64::MAX as i128), 858_993_459_200);
    assert_eq!(to_hundredths(i128::MIN), -15_845_632_502_852_867_518_708_790_067_200);
}

#[test]
fn fixed2_writes_two_decimal_places() {
    let mut out = String::new();
    push_fixed2(&mut out, 105);
    assert_eq!(out, "1.05");
    let mut out = String::new();
    push_fixed2(&mut out, -7);
    assert_eq!(out, "-0.07");
    let mut out = String::new();
    push_fixed2(&mut out, 0);
    assert_eq!(out, "0.00");
    let mut out = String::new();
    push_fixed2(&mut out, 123_450);
    assert_eq!(out, "1234.50");
}

#[test]
fn gigabytes_are_written_with_two_decimal_places() {
    assert_eq!(gigabytes(0), "0.00");
    assert_eq!(gigabytes(GB), "1.00");
    assert_eq!(gigabytes(1_717_986_918), "1.60");
    assert_eq!(gigabytes(644_245_094), "0.60");
    assert_eq!(gigabytes(-GB / 2), "-0.50");
    assert_eq!(gigabytes(-1), "0.00");
    assert_eq!(gigabytes(40 * GB + GB / 4), "40.25");
}
