use game_economy::text::{push_integer, push_natural};

fn text_of(value: i64) -> String {
    let mut out = String::new();
    push_integer(&mut out, value);
    out
}

#[test]
fn text_of_small_numbers() {
    assert_eq!(text_of(0), "0");
    assert_eq!(text_of(7), "7");
    assert_eq!(text_of(10), "10");
    assert_eq!(text_of(1234567890), "1234567890");
    assert_eq!(text_of(-1), "-1");
    assert_eq!(text_of(-4096), "-4096");
}

#[test]
fn text_of_the_extremes() {
    assert_eq!(text_of(i64::MAX), "9223372036854775807");
    assert_eq!(text_of(i64::MIN), "-9223372036854775808");
}

#[test]
fn text_agrees_with_the_standard_library() {
    for value in [1i64, 9, 11, 99, 100, 101, 909, 1_000_000, -10, -99, -100, 5_000_000_000] {
        assert_eq!(text_of(value), value.to_string());
    }
}

#[test]
fn digits_are_appended_to_what_is_there() {
    let mut out = String::from("need: ");
    push_integer(&mut out, -35);
    assert_eq!(out, "need: -35");
    push_natural(&mut out, u64::MAX);
    assert_eq!(out, "need: -3518446744073709551615");
    push_natural(&mut out, 0);
    assert_eq!(out, "need: -35184467440737095516150");
}
