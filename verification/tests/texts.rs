use live_arb::fixed::{clamp_i128, exact_mul, floor_div, max_i128, min_u64, pct_change};
use live_arb::json::{string_array, string_text, Fields};
use live_arb::text::{
    ends_with, fixed_to_string, join, needed_places_of, parse_amount, parse_nat, parse_signed, parse_step,
    push_fixed, push_int, push_left_aligned, push_nat, push_plain, push_repeated,
    push_right_aligned, same_text, starts_with, trim,
};

#[test]
fn amounts_are_written_with_a_number_of_places() {
    assert_eq!(fixed_to_string(123_456_789, 8), "1.23456789");
    assert_eq!(fixed_to_string(123_456_789, 4), "1.2346");
    assert_eq!(fixed_to_string(-123_456_789, 2), "-1.23");
    assert_eq!(fixed_to_string(150_000_000, 0), "2");
    assert_eq!(fixed_to_string(0, 2), "0.00");
    assert_eq!(fixed_to_string(i128::MIN, 8).len(), 41);
    let mut s = String::new();
    push_fixed(&mut s, 5_000_000, 2);
    push_fixed(&mut s, -150_000_000, 1);
    assert_eq!(s, "0.05-1.5");
}

#[test]
fn numbers_are_written() {
    let mut s = String::new();
    push_nat(&mut s, 0);
    push_int(&mut s, i64::MIN);
    push_plain(&mut s, 150_000_000);
    push_plain(&mut s, 200_000_000);
    push_plain(&mut s, -5);
    assert_eq!(s, "0-92233720368547758081.52-0.00000005");
    assert_eq!(needed_places_of(150_000_000), 1);
    assert_eq!(needed_places_of(200_000_000), 0);
}

#[test]
fn amounts_are_read() {
    assert_eq!(parse_amount("1.5"), Some(150_000_000));
    assert_eq!(parse_amount("0.123456789"), Some(12_345_678));
    assert_eq!(parse_amount("7"), Some(700_000_000));
    assert_eq!(parse_amount(".5"), Some(50_000_000));
    assert_eq!(parse_amount("5."), Some(500_000_000));
    for bad in ["", ".", "x", "1.2.3", "1 ", "--1", "e5", "1e", "1e+", "1e1.5", "1e5e5", ".e1"] {
        assert_eq!(parse_amount(bad), None);
    }
    assert_eq!(parse_amount("1e-5"), Some(1_000));
    assert_eq!(parse_amount("2.5E3"), Some(250_000_000_000));
    assert_eq!(parse_amount("12.5e+1"), Some(12_500_000_000));
    assert_eq!(parse_amount("1234567e-15"), Some(0));
    assert_eq!(parse_amount("123456789e-8"), Some(123_456_789));
    assert_eq!(parse_amount("0e99999999999999999999999999999999999999"), Some(0));
    assert_eq!(parse_amount("1e-99999999999999999999999999999999999999"), Some(0));
    // Beyond the largest amount.
    assert_eq!(parse_amount("10000000000"), Some(1_000_000_000_000_000_000));
    assert_eq!(parse_amount("20000000000.5"), Some(1_000_000_000_000_000_000));
    assert_eq!(
        parse_amount("1e99999999999999999999999999999999999999"),
        Some(1_000_000_000_000_000_000)
    );
    assert_eq!(parse_signed("-1e30"), Some(-1_000_000_000_000_000_000));
    assert_eq!(parse_signed("-0.5"), Some(-50_000_000));
    assert_eq!(parse_signed("+2"), Some(200_000_000));
    assert_eq!(parse_nat("1700"), Some(1700));
    assert_eq!(parse_nat("-1"), None);
    assert_eq!(parse_nat("99999999999999999999"), None);
}

#[test]
fn steps_are_rounded_up() {
    assert_eq!(parse_step("0.001"), Some(100_000));
    assert_eq!(parse_step("+0.001"), Some(100_000));
    assert_eq!(parse_step("0.000000001"), Some(1));
    assert_eq!(parse_step("1e-9"), Some(1));
    assert_eq!(parse_step("0.0000000100"), Some(1));
    assert_eq!(parse_step("0.0000000000"), Some(0));
    assert_eq!(parse_step("-0.1"), None);
    assert_eq!(parse_step("x"), None);
    assert_eq!(parse_step("1e99"), Some(1_000_000_000_000_000_000));
}

#[test]
fn a_written_amount_reads_back() {
    for v in [0, 1, 99_999_999, 100_000_000, 123_456_789_012] {
        assert_eq!(parse_amount(&fixed_to_string(v as i128, 8)), Some(v));
    }
}

#[test]
fn columns_are_filled() {
    let mut s = String::new();
    push_left_aligned(&mut s, "ab", 4);
    push_right_aligned(&mut s, "cd", 4);
    push_left_aligned(&mut s, "longer", 2);
    push_repeated(&mut s, '═', 3);
    assert_eq!(s, "ab    cdlonger═══");
}

#[test]
fn texts_are_compared_and_cut() {
    assert!(same_text("äb", "äb") && !same_text("a", "ab"));
    assert!(starts_with("tickers.A", "tickers.") && !starts_with("tick", "tickers."));
    assert!(ends_with("BTCUSDT", "USDT") && !ends_with("SDT", "USDT"));
    assert_eq!(trim(" \t x y\u{3000}\n"), "x y");
    assert_eq!(trim("   "), "");
    assert_eq!(join(&vec!["a".to_string(), "b".to_string()], ", "), "a, b");
    assert_eq!(join(&vec![], ", "), "");
}

#[test]
fn json_texts_are_escaped() {
    assert_eq!(string_text("a\"b\\c\n\u{1}é"), "\"a\\\"b\\\\c\\n\\u0001é\"");
    assert_eq!(
        string_array(&vec!["a".to_string(), "b\"".to_string()]),
        "[\"a\",\"b\\\"\"]"
    );
    let mut f = Fields::new();
    f.put_string("s", "x\"");
    f.put_flag("t", true);
    f.put_nat("n", 7);
    f.put_decimal("d", 200_000_000);
    f.put_decimal("e", -50_000_000);
    f.put_int_if("i", None);
    f.put_int_if("j", Some(-3));
    f.put_price_if("p", Some(1));
    f.put_string_if("q", &None);
    assert_eq!(
        f.object(),
        "{\"s\":\"x\\\"\",\"t\":true,\"n\":7,\"d\":2.0,\"e\":-0.5,\"j\":-3,\"p\":0.00000001}"
    );
}

#[test]
fn fixed_point_arithmetic() {
    assert_eq!(floor_div(-7, 2), -4);
    assert_eq!(floor_div(7, 2), 3);
    assert_eq!(pct_change(200, 201), 50_000_000);
    assert_eq!(pct_change(200, 199), -50_000_000);
    assert_eq!(exact_mul(u64::MAX, u64::MAX), u64::MAX as u128 * u64::MAX as u128);
    assert_eq!(min_u64(3, 2), 2);
    assert_eq!(max_i128(-3, 2), 2);
    assert_eq!(clamp_i128(5, 1, 3), 3);
    assert_eq!(clamp_i128(-5, 1, 3), 1);
}
