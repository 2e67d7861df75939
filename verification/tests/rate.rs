use zip_info::rate::{append_decimal, rate_to_show};

fn rate(original: u64, compressed: u64) -> String {
    format!("{:.2}%", (original as f64 - compressed as f64) / original as f64 * 100.0)
}

fn decimal_string(n: u64) -> String {
    let mut text = String::new();
    append_decimal(&mut text, u128::from(n));
    text
}

#[test]
fn rate_of_the_three_named_cases() {
    assert_eq!(rate_to_show(100, &rate(100, 50)), "50.00%");
    assert_eq!(rate_to_show(0, &rate(0, 0)), "0.00%");
    assert_eq!(rate_to_show(100, &rate(100, 150)), "-50.00%");
}

#[test]
fn rate_without_content_is_zero_whatever_was_worked_out() {
    assert_eq!(rate_to_show(0, "NaN%"), "0.00%");
    assert_eq!(rate_to_show(0, "-inf%"), "0.00%");
    assert_eq!(rate_to_show(0, ""), "0.00%");
    assert_eq!(rate_to_show(0, &rate(0, 22)), "0.00%");
}

#[test]
fn rate_with_content_is_the_one_worked_out() {
    assert_eq!(rate_to_show(3, "66.67%"), "66.67%");
    assert_eq!(rate_to_show(1, "-100.00%"), "-100.00%");
    assert_eq!(rate_to_show(u64::MAX, "100.00%"), "100.00%");
    assert_eq!(rate_to_show(32, &rate(32, 31)), "3.12%");
}

#[test]
fn decimal_text_of_byte_counts() {
    assert_eq!(decimal_string(0), "0");
    assert_eq!(decimal_string(7), "7");
    assert_eq!(decimal_string(10), "10");
    assert_eq!(decimal_string(1234567890), "1234567890");
    assert_eq!(decimal_string(u64::MAX), "18446744073709551615");
}

#[test]
fn decimal_text_is_appended() {
    let mut text = String::from("size ");
    append_decimal(&mut text, 340282366920938463463374607431768211455);
    assert_eq!(text, "size 340282366920938463463374607431768211455");
}
