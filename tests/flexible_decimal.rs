use rust_decimal::prelude::FromPrimitive;
use sure_client::serde::flexible_decimal::{
    canonical_amount_text, deserialize_flexible_decimal, normalize_text, NumericToken,
};
use sure_client::{Decimal, ParseFailure};

fn as_rust_decimal(d: Decimal) -> rust_decimal::Decimal {
    rust_decimal::Decimal::from_i128_with_scale(d.mantissa, d.scale)
}

fn parsed(text: &str) -> rust_decimal::Decimal {
    let token = NumericToken::Text(text.to_string());
    as_rust_decimal(deserialize_flexible_decimal(&token).unwrap())
}

fn canonical(text: &str) -> String {
    canonical_amount_text(text).into_iter().collect()
}

fn test_parsing(text: &str, expected: rust_decimal::Decimal) {
    assert_eq!(parsed(text), expected);
}

#[test]
fn test_flexible_decimal_parsing() {
    // Simple integer
    test_parsing("1000", rust_decimal::Decimal::from(1000_u64));
    // With currency symbol
    test_parsing("$1000", rust_decimal::Decimal::from(1000_u64));
    // With currency symbol and decimals
    test_parsing("$1000.00", rust_decimal::Decimal::from_f64(1000.00).unwrap());
    // With comma as thousands separator
    test_parsing("100,000.00", rust_decimal::Decimal::from_f64(100_000.00).unwrap());
    // With dot as thousands separator and comma as decimal
    test_parsing("100.000,00", rust_decimal::Decimal::from_f64(100_000.00).unwrap());
    // Multiple thousands separators
    test_parsing("1,234,567.89", rust_decimal::Decimal::from_f64(1_234_567.89).unwrap());
    test_parsing("1.234.567,89", rust_decimal::Decimal::from_f64(1_234_567.89).unwrap());
    // Different currency symbols
    test_parsing("€1.234,56", rust_decimal::Decimal::from_f64(1234.56).unwrap());
    test_parsing("£1,234.56", rust_decimal::Decimal::from_f64(1234.56).unwrap());
    // With whitespace
    test_parsing("  $ 5,000.50  ", rust_decimal::Decimal::from_f64(5000.50).unwrap());
    // Negative values
    test_parsing("-123.45", rust_decimal::Decimal::from_f64(-123.45).unwrap());
    test_parsing("-$1,234.56", rust_decimal::Decimal::from_f64(-1234.56).unwrap());
    test_parsing("($1,234.56)", rust_decimal::Decimal::from_f64(-1234.56).unwrap());
    // No fractional part
    test_parsing("1,000", rust_decimal::Decimal::from(1000_u64));
    test_parsing("1.000", rust_decimal::Decimal::from(1000_u64));
    // Just decimals
    test_parsing(".50", rust_decimal::Decimal::from_f64(0.50).unwrap());
    test_parsing("0.50", rust_decimal::Decimal::from_f64(0.50).unwrap());
    test_parsing(",50", rust_decimal::Decimal::from_f64(0.50).unwrap());
    test_parsing("0,50", rust_decimal::Decimal::from_f64(0.50).unwrap());
}

#[test]
fn scenarios_keep_their_scale() {
    let d = normalize_text("100,000.00").unwrap();
    assert_eq!((d.mantissa, d.scale), (10_000_000, 2));
    let d = normalize_text("100.000,00").unwrap();
    assert_eq!((d.mantissa, d.scale), (10_000_000, 2));
    let d = normalize_text("1,234,567.89").unwrap();
    assert_eq!((d.mantissa, d.scale), (123_456_789, 2));
    let d = normalize_text("($1,234.56)").unwrap();
    assert_eq!((d.mantissa, d.scale), (-123_456, 2));
    let d = normalize_text(".50").unwrap();
    assert_eq!((d.mantissa, d.scale), (50, 2));
    let d = normalize_text("$1000.00").unwrap();
    assert_eq!((d.mantissa, d.scale), (100_000, 2));
}

#[test]
fn null_is_zero() {
    let d = deserialize_flexible_decimal(&NumericToken::Null).unwrap();
    assert_eq!((d.mantissa, d.scale), (0, 0));
}

#[test]
fn integer_tokens_are_exact() {
    let d = deserialize_flexible_decimal(&NumericToken::Signed(-42)).unwrap();
    assert_eq!((d.mantissa, d.scale), (-42, 0));
    let d = deserialize_flexible_decimal(&NumericToken::Unsigned(u64::MAX)).unwrap();
    assert_eq!((d.mantissa, d.scale), (u64::MAX as i128, 0));
    let d = deserialize_flexible_decimal(&NumericToken::Signed(i64::MIN)).unwrap();
    assert_eq!((d.mantissa, d.scale), (i64::MIN as i128, 0));
}

#[test]
fn integer_text_matches_integer_token() {
    for n in [0_u64, 7, 1000, 123_456_789, u64::MAX] {
        let from_text = normalize_text(&n.to_string()).unwrap();
        let from_token = deserialize_flexible_decimal(&NumericToken::Unsigned(n)).unwrap();
        assert_eq!(from_text, from_token);
        assert_eq!((from_text.mantissa, from_text.scale), (n as i128, 0));
    }
}

#[test]
fn currency_symbols_change_nothing() {
    for body in ["1,234.56", "1.234,56", "1000", "100,000.00", ".50"] {
        let plain = normalize_text(body).unwrap();
        for sym in ["$", "€", "£"] {
            assert_eq!(normalize_text(&format!("{sym}{body}")).unwrap(), plain);
            assert_eq!(normalize_text(&format!("{body}{sym}")).unwrap(), plain);
        }
    }
}

#[test]
fn trailing_symbol_keeps_a_lone_separator() {
    let d = normalize_text("10,00").unwrap();
    assert_eq!((d.mantissa, d.scale), (1000, 2));
    let d = normalize_text("10,00€").unwrap();
    assert_eq!((d.mantissa, d.scale), (1000, 2));
    let d = normalize_text(".50$").unwrap();
    assert_eq!((d.mantissa, d.scale), (50, 2));
    let d = normalize_text("1,50 €").unwrap();
    assert_eq!((d.mantissa, d.scale), (150, 2));
    let d = normalize_text("1,000 €").unwrap();
    assert_eq!((d.mantissa, d.scale), (1000, 0));
}

#[test]
fn parentheses_mean_minus() {
    for body in ["1,234.56", "5", "1.000", ",50", "100.000,00"] {
        assert_eq!(
            normalize_text(&format!("({body})")).unwrap(),
            normalize_text(&format!("-{body}")).unwrap()
        );
    }
}

#[test]
fn minus_and_parentheses_negate() {
    for body in ["1,234.56", "5", ".50", "100.000,00", "0,07"] {
        let d = normalize_text(body).unwrap();
        let negated = Decimal { mantissa: -d.mantissa, scale: d.scale };
        assert_eq!(normalize_text(&format!("-{body}")).unwrap(), negated);
        assert_eq!(normalize_text(&format!("({body})")).unwrap(), negated);
    }
}

#[test]
fn normalizing_canonical_text_is_a_no_op() {
    for x in ["($1,234.56)", "100.000,00", ".5", "1,000", "-0,07", "€12"] {
        let d = normalize_text(x).unwrap();
        let again = normalize_text(&d.to_text()).unwrap();
        assert_eq!(again, d);
    }
}

#[test]
fn text_of_decimals() {
    assert_eq!(Decimal { mantissa: -123_456, scale: 2 }.to_text(), "-1234.56");
    assert_eq!(Decimal { mantissa: 100_000, scale: 2 }.to_text(), "1000.00");
    assert_eq!(Decimal { mantissa: 50, scale: 2 }.to_text(), "0.50");
    assert_eq!(Decimal { mantissa: -5, scale: 3 }.to_text(), "-0.005");
    assert_eq!(Decimal { mantissa: 0, scale: 0 }.to_text(), "0");
    let d = Decimal { mantissa: 123_456_789, scale: 4 };
    assert_eq!(d.to_text(), as_rust_decimal(d).to_string());
}

#[test]
fn canonical_text_of_amounts() {
    assert_eq!(canonical("($1,234.56)"), "-1234.56");
    assert_eq!(canonical("1.234,56"), "1234.56");
    assert_eq!(canonical(",50"), "0.50");
    assert_eq!(canonical("  $ 5,000.50  "), "5000.50");
    assert_eq!(canonical("1,000"), "1000");
    assert_eq!(canonical("1,5"), "1.5");
    assert_eq!(canonical("1.2.3,4.5"), "1.2.34.5");
    assert_eq!(canonical("12,34 USD"), "12.34");
    assert_eq!(canonical("\u{a0}12\u{3000}"), "12");
    assert_eq!(canonical("("), "");
}

#[test]
fn unparseable_amounts_fail_with_their_text() {
    for bad in ["", "   ", "$", "abc", "-", "()", "-.", "1.2.3,4.5", "("] {
        match normalize_text(bad) {
            Err(ParseFailure::Amount { text }) => assert_eq!(text, bad),
            other => panic!("{bad:?} gave {other:?}"),
        }
    }
}

#[test]
fn long_amounts_follow_rust_decimal() {
    let long = "79228162514264337593543950335";
    let d = normalize_text(long).unwrap();
    assert_eq!(as_rust_decimal(d).to_string(), long);
    assert!(normalize_text("792281625142643375935439503350").is_err());
}
