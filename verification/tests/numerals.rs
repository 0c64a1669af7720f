use num_bigint::BigInt;
use ordinal::suffix::{format_decimal, suffix_of_decimal};
use ordinal::{DecimalInteger, Numeral, Ordinal};

#[test]
fn test_parse_accepts_canonical_notation() {
    for text in vec![
        "0",
        "7",
        "10",
        "123",
        "-1",
        "-10",
        "-99",
        "340282366920938463463374607431768211456",
        "-170141183460469231731687303715884105729",
    ] {
        let numeral = Numeral::parse(text).expect(text);
        assert_eq!(text, numeral.to_decimal());
    }
}

#[test]
fn test_parse_rejects_everything_else() {
    for text in vec![
        "", "-", "+1", "00", "01", "-0", "-01", "--1", "1-", "1 ", " 1", "1,000", "1_000", "1.0",
        "1e3", "0x10", "١٢٣", "1２", "st", "1st",
    ] {
        assert!(Numeral::parse(text).is_none(), "{:?}", text);
    }
}

#[test]
fn test_numerals_beyond_machine_integers() {
    let cases = vec![
        ("340282366920938463463374607431768211456", "th"),
        ("340282366920938463463374607431768211461", "st"),
        ("340282366920938463463374607431768211511", "th"),
        ("-340282366920938463463374607431768211502", "nd"),
        ("-340282366920938463463374607431768211512", "th"),
        ("100000000000000000000000000000000000000000000000003", "rd"),
        ("100000000000000000000000000000000000000000000000013", "th"),
    ];
    for (text, suffix) in cases {
        let ordinal = Ordinal(Numeral::parse(text).unwrap());
        assert_eq!(suffix, ordinal.suffix());
        assert_eq!(format!("{}{}", text, suffix), ordinal.to_string());
    }
}

#[test]
fn test_numerals_from_big_integers() {
    let mut n = BigInt::from(-1203);
    let step = BigInt::from(7);
    for _ in 0..400 {
        let text = n.to_string();
        let ordinal = Ordinal(Numeral::parse(&text).unwrap());
        assert_eq!(format_decimal(&text), ordinal.to_string());
        assert_eq!(suffix_of_decimal(&text), ordinal.suffix());
        n += &step;
    }
    let huge = BigInt::from(u128::MAX) * BigInt::from(u128::MAX) + BigInt::from(6);
    assert_eq!(
        "115792089237316195423570985008687907852589419931798687112530834793049593217031st",
        Ordinal(Numeral::parse(&huge.to_string()).unwrap()).to_string()
    );
}

#[test]
fn test_numeral_equality_and_clone() {
    let a = Numeral::parse("-42").unwrap();
    let b = Numeral::parse("-42").unwrap();
    let c = Numeral::parse("42").unwrap();
    assert_eq!(a, b);
    assert_ne!(a, c);
    assert_eq!(a, a.clone());
    assert_eq!("-42nd", Ordinal(a).to_string());
}

#[test]
fn test_suffix_of_text() {
    assert_eq!("st", suffix_of_decimal("1"));
    assert_eq!("nd", suffix_of_decimal("2"));
    assert_eq!("rd", suffix_of_decimal("3"));
    assert_eq!("th", suffix_of_decimal("4"));
    assert_eq!("th", suffix_of_decimal("0"));
    assert_eq!("th", suffix_of_decimal("11"));
    assert_eq!("th", suffix_of_decimal("12"));
    assert_eq!("th", suffix_of_decimal("13"));
    assert_eq!("st", suffix_of_decimal("-1"));
    assert_eq!("th", suffix_of_decimal("-11"));
    assert_eq!("st", suffix_of_decimal("31"));
    assert_eq!("th", suffix_of_decimal(""));
    assert_eq!("th", suffix_of_decimal("x"));
    assert_eq!("st", suffix_of_decimal("é1"));
    assert_eq!("th", suffix_of_decimal("é11"));
}

#[test]
fn test_format_of_text() {
    assert_eq!("1st", format_decimal("1"));
    assert_eq!("-12th", format_decimal("-12"));
    assert_eq!("22nd", format_decimal("22"));
    assert_eq!("1003rd", format_decimal("1003"));
    assert_eq!("th", format_decimal(""));
}
