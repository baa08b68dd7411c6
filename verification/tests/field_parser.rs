use stockdata::numbers::{
    is_dash, parse_f64, parse_large_number, parse_percentage, read_numeral, Decimal, MISSING,
    UNPARSABLE,
};

fn as_float(d: Decimal) -> f64 {
    d.micros as f64 / 1_000_000.0
}

#[test]
fn test_parse_f64() {
    assert_eq!(as_float(parse_f64("123.45%")), 123.45);
    assert_eq!(as_float(parse_f64("+123.45%")), 123.45);
    assert_eq!(as_float(parse_f64("-123.45%")), -123.45);
    assert_eq!(as_float(parse_f64("—123.45%")), -123.45);
    assert_eq!(as_float(parse_f64("−2.02%")), -2.02);
    assert_eq!(as_float(parse_f64("4.16 CNY")), 4.16);
    assert_eq!(as_float(parse_f64("-4.16 CNY")), -4.16);
}

#[test]
fn decimal_is_exact_in_millionths() {
    assert_eq!(parse_f64("123").micros, 123_000_000);
    assert_eq!(parse_f64("123.45").micros, 123_450_000);
    assert_eq!(parse_f64("0.000001").micros, 1);
    assert_eq!(parse_f64("0.0000019").micros, 1);
    assert_eq!(parse_f64("-0.0000019").micros, -1);
    assert_eq!(parse_f64(".5").micros, 500_000);
    assert_eq!(parse_f64("5.").micros, 5_000_000);
    assert_eq!(parse_f64("007").micros, 7_000_000);
}

#[test]
fn every_negative_glyph_negates() {
    for glyph in ['-', '\u{2014}', '\u{2212}', '\u{2013}'] {
        assert!(is_dash(glyph));
        let text = format!("{}123.45%", glyph);
        assert_eq!(parse_f64(&text).micros, -parse_f64("123.45%").micros);
        assert_eq!(parse_f64(&text).micros, -123_450_000);
        let magnitude = format!("{}1.5M", glyph);
        assert_eq!(parse_large_number(&magnitude), -1_500_000);
    }
    assert!(!is_dash('+'));
    assert!(!is_dash('~'));
}

#[test]
fn blank_text_and_lone_dashes_are_missing() {
    for text in ["", "   ", "\t\n", "-", "—", "−", "–", " - ", "%", "CNY", "\"\"", " , "] {
        assert_eq!(parse_f64(text), Decimal::missing(), "{:?}", text);
        assert_eq!(parse_f64(text).micros, -404_000_000);
    }
    for text in ["", "   ", "-", "—", "−", "–", "CNY"] {
        assert_eq!(parse_large_number(text), MISSING, "{:?}", text);
        assert_eq!(parse_large_number(text), -404);
    }
}

#[test]
fn text_that_is_no_number_is_unparsable() {
    for text in ["abc", "1.2.3", "12a", "--", "+", ".", "1e", "e5", "1e+", "1e1.5", "1 2x", "5%%x"] {
        assert_eq!(parse_f64(text), Decimal::unparsable(), "{:?}", text);
        assert_eq!(parse_f64(text).micros, -500_000_000);
    }
    for text in ["abc", "xB", "B", "1.2.3M", "1.5Q", "5M T", "1e", ".e3"] {
        assert_eq!(parse_large_number(text), UNPARSABLE, "{:?}", text);
        assert_eq!(parse_large_number(text), -500);
    }
}

#[test]
fn decoration_is_ignored() {
    assert_eq!(parse_f64("  1,234.50 CNY ").micros, 1_234_500_000);
    assert_eq!(parse_f64("\"12.5\"").micros, 12_500_000);
    assert_eq!(parse_f64("1 000").micros, 1_000_000_000);
    assert_eq!(parse_f64("C%NY7").micros, 7_000_000);
    assert_eq!(parse_f64("CCNYNY7"), Decimal::unparsable());
    assert_eq!(parse_f64("C NY7"), Decimal::unparsable());
    assert_eq!(parse_large_number("1,234 CNY"), 1_234);
    assert_eq!(parse_large_number(" \"2.5K\" "), 2_500);
}

#[test]
fn signs_are_read_as_the_first_glyph_says() {
    assert_eq!(parse_f64("+5").micros, 5_000_000);
    assert_eq!(parse_f64("++5").micros, 5_000_000);
    assert_eq!(parse_f64("+-5").micros, 5_000_000);
    assert_eq!(parse_f64("--5").micros, -5_000_000);
    assert_eq!(parse_f64("-+5").micros, -5_000_000);
    assert_eq!(parse_f64("—-5").micros, 5_000_000);
    assert_eq!(parse_f64("-404").micros, -404_000_000);
}

#[test]
fn magnitude_suffixes_scale_the_numeral() {
    assert_eq!(parse_large_number("1.2B"), 1_200_000_000);
    assert_eq!(parse_large_number("500M"), 500_000_000);
    assert_eq!(parse_large_number("—"), -404);
    assert_eq!(parse_large_number("3.5T"), 3_500_000_000_000);
    assert_eq!(parse_large_number("12.345K"), 12_345);
    assert_eq!(parse_large_number("1.2345K"), 1_234);
    assert_eq!(parse_large_number("-1.2345K"), -1_234);
    assert_eq!(parse_large_number("30000000000"), 30_000_000_000);
    assert_eq!(parse_large_number("12.9"), 12);
    assert_eq!(parse_large_number("-12.9"), -12);
    assert_eq!(parse_large_number("1.5\tM"), 1_500_000);
    assert_eq!(parse_large_number("2KM"), -500);
    assert_eq!(parse_large_number("2K3"), 2_000);
}

#[test]
fn values_beyond_the_range_saturate() {
    assert_eq!(parse_large_number("99999999T"), i64::MAX);
    assert_eq!(parse_large_number("-99999999T"), -i64::MAX);
    assert_eq!(parse_large_number("9223372036854775807"), i64::MAX);
    assert_eq!(parse_large_number("9223372036854775806"), i64::MAX - 1);
    assert_eq!(parse_f64("99999999999999999999").micros, i64::MAX);
    assert_eq!(parse_f64("-99999999999999999999").micros, -i64::MAX);
}

#[test]
fn percentage_is_the_number_before_the_sign() {
    assert_eq!(as_float(parse_percentage("12.5%")), 12.5);
    assert_eq!(parse_percentage("−2.02%"), parse_f64("−2.02%"));
}

#[test]
fn numerals_are_read_at_the_scale_asked_for() {
    let chars = |s: &str| s.chars().collect::<Vec<char>>();
    assert_eq!(read_numeral(&chars("1.25"), 0), Some(1));
    assert_eq!(read_numeral(&chars("1.25"), 1), Some(12));
    assert_eq!(read_numeral(&chars("1.25"), 3), Some(1_250));
    assert_eq!(read_numeral(&chars("-1.25"), 3), Some(-1_250));
    assert_eq!(read_numeral(&chars("+1.25"), 3), Some(1_250));
    assert_eq!(read_numeral(&chars(""), 3), None);
    assert_eq!(read_numeral(&chars("-"), 3), None);
    assert_eq!(read_numeral(&chars("1..2"), 3), None);
}

#[test]
fn magnitudes_without_a_suffix_are_decimals_cut_to_integers() {
    for text in ["5%", "12%", "12.9%", "-12.9", "1,234.56 CNY", "\"7\"", "0.4", "+3", "—", "", "x"] {
        let whole = parse_f64(text).micros / 1_000_000;
        assert_eq!(parse_large_number(text), whole, "{:?}", text);
    }
    assert_eq!(parse_large_number("5%"), 5);
    assert_eq!(parse_large_number("12%"), 12);
    assert_eq!(parse_large_number("1.5M%"), 1_500_000);
}

#[test]
fn exponents_shift_the_decimal_point() {
    assert_eq!(parse_f64("1e5").micros, 100_000_000_000);
    assert_eq!(parse_f64("1.5e3").micros, 1_500_000_000);
    assert_eq!(parse_f64("1.5E+3").micros, 1_500_000_000);
    assert_eq!(parse_f64("12.5e-1").micros, 1_250_000);
    assert_eq!(parse_f64("1e-6").micros, 1);
    assert_eq!(parse_f64("1e-7").micros, 0);
    assert_eq!(parse_f64("123456789e-20").micros, 0);
    assert_eq!(parse_f64("-2.5e1%").micros, -25_000_000);
    assert_eq!(parse_f64("5.e0").micros, 5_000_000);
    assert_eq!(parse_f64(".5e1").micros, 5_000_000);
    assert_eq!(parse_f64("1e400").micros, i64::MAX);
    assert_eq!(parse_f64("-1e400").micros, -i64::MAX);
    assert_eq!(parse_f64("1e-400").micros, 0);
    assert_eq!(parse_f64("0e99999999999999999999999").micros, 0);
    assert_eq!(parse_f64("0.000e99999999999999999999999").micros, 0);
    assert_eq!(parse_f64("1e99999999999999999999999").micros, i64::MAX);
    assert_eq!(parse_f64("1e-99999999999999999999999").micros, 0);
    assert_eq!(parse_f64("0.00000000000000000000000001e30").micros, 10_000_000_000);
    assert_eq!(parse_large_number("1e3"), 1_000);
    assert_eq!(parse_large_number("1.5e3K"), 1_500_000);
    assert_eq!(parse_large_number("25e-1"), 2);
    assert_eq!(parse_large_number("-25e-1"), -2);
    let chars = |s: &str| s.chars().collect::<Vec<char>>();
    assert_eq!(read_numeral(&chars("1.25e2"), 0), Some(125));
    assert_eq!(read_numeral(&chars("1.25e2"), 1), Some(1_250));
    assert_eq!(read_numeral(&chars("125e-2"), 0), Some(1));
    assert_eq!(read_numeral(&chars("125e-2"), 2), Some(125));
    assert_eq!(read_numeral(&chars("1e2e3"), 0), None);
}

#[test]
fn infinity_is_the_largest_number_and_nan_is_no_number() {
    for text in ["inf", "INF", "Infinity", "+inf", "infinity%"] {
        assert_eq!(parse_f64(text).micros, i64::MAX, "{:?}", text);
    }
    for text in ["-inf", "-Infinity", "−inf"] {
        assert_eq!(parse_f64(text).micros, -i64::MAX, "{:?}", text);
    }
    assert_eq!(parse_large_number("inf"), i64::MAX);
    assert_eq!(parse_large_number("-infinity"), -i64::MAX);
    for text in ["NaN", "nan", "in", "infinit", "infx", "inf1"] {
        assert_eq!(parse_f64(text), Decimal::unparsable(), "{:?}", text);
    }
}
