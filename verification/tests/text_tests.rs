use star_positions::text::{parse_decimal, parse_real, parse_unsigned, trim, Decimal, Real};

fn decimal(negative: bool, digits: u64, scale: usize) -> Option<Decimal> {
    Some(Decimal { negative, digits, scale, exponent: 0 })
}

#[test]
fn trim_takes_white_space_off_both_ends() {
    assert_eq!(trim(b"  1Alp UMi"), b"1Alp UMi");
    assert_eq!(trim(b" 424"), b"424");
    assert_eq!(trim(b"\t 2.02 \r\n"), b"2.02");
    assert_eq!(trim(b"a b"), b"a b");
    assert_eq!(trim(b"\x0b\x0cx\x0c\x0b"), b"x");
}

#[test]
fn trim_of_blank_text_is_empty() {
    assert_eq!(trim(b""), b"");
    assert_eq!(trim(b"    "), b"");
    assert_eq!(trim(b" \t\n"), b"");
}

#[test]
fn trim_keeps_other_control_bytes() {
    assert_eq!(trim(b"\x08x\x0e"), b"\x08x\x0e");
    assert_eq!(trim(b"\x00 x"), b"\x00 x");
}

#[test]
fn unsigned_numbers() {
    assert_eq!(parse_unsigned(b"424"), Some(424));
    assert_eq!(parse_unsigned(b"0"), Some(0));
    assert_eq!(parse_unsigned(b"02"), Some(2));
    assert_eq!(parse_unsigned(b"+89"), Some(89));
    assert_eq!(parse_unsigned(b"4294967295"), Some(4294967295));
    assert_eq!(parse_unsigned(b"0000000000000000000000042"), Some(42));
}

#[test]
fn unsigned_rejects_what_is_no_number() {
    assert_eq!(parse_unsigned(b""), None);
    assert_eq!(parse_unsigned(b"+"), None);
    assert_eq!(parse_unsigned(b"-45"), None);
    assert_eq!(parse_unsigned(b"-0"), None);
    assert_eq!(parse_unsigned(b"4 2"), None);
    assert_eq!(parse_unsigned(b" 42"), None);
    assert_eq!(parse_unsigned(b"4.2"), None);
    assert_eq!(parse_unsigned(b"++4"), None);
    assert_eq!(parse_unsigned(b"12a"), None);
}

#[test]
fn unsigned_rejects_what_is_too_great() {
    assert_eq!(parse_unsigned(b"4294967296"), None);
    assert_eq!(parse_unsigned(b"18446744073709551616"), None);
    assert_eq!(parse_unsigned(b"99999999999999999999999999"), None);
}

#[test]
fn decimal_numbers() {
    assert_eq!(parse_decimal(b"48.7"), decimal(false, 487, 1));
    assert_eq!(parse_decimal(b"2.02"), decimal(false, 202, 2));
    assert_eq!(parse_decimal(b"+0.038"), decimal(false, 38, 3));
    assert_eq!(parse_decimal(b"-0.015"), decimal(true, 15, 3));
    assert_eq!(parse_decimal(b"7"), decimal(false, 7, 0));
    assert_eq!(parse_decimal(b"-12"), decimal(true, 12, 0));
    assert_eq!(parse_decimal(b"5."), decimal(false, 5, 0));
    assert_eq!(parse_decimal(b".5"), decimal(false, 5, 1));
    assert_eq!(parse_decimal(b"-.007"), decimal(true, 7, 3));
    assert_eq!(parse_decimal(b"0.00"), decimal(false, 0, 2));
    assert_eq!(parse_decimal(b"18446744073709551.615"), decimal(false, u64::MAX, 3));
}

#[test]
fn decimal_rejects_what_is_no_number() {
    assert_eq!(parse_decimal(b""), None);
    assert_eq!(parse_decimal(b"."), None);
    assert_eq!(parse_decimal(b"+"), None);
    assert_eq!(parse_decimal(b"-."), None);
    assert_eq!(parse_decimal(b"1.2.3"), None);
    assert_eq!(parse_decimal(b"1,2"), None);
    assert_eq!(parse_decimal(b"--1"), None);
    assert_eq!(parse_decimal(b"1-"), None);
    assert_eq!(parse_decimal(b" 1"), None);
    assert_eq!(parse_decimal(b"abc"), None);
    assert_eq!(parse_decimal(b"1.5x"), None);
}

#[test]
fn decimal_rejects_digits_beyond_64_bits() {
    assert_eq!(parse_decimal(b"18446744073709551616"), None);
    assert_eq!(parse_decimal(b"1844674407370955161.6"), None);
    assert_eq!(parse_decimal(b"99999999999999999999.5"), None);
}

fn scientific(negative: bool, digits: u64, scale: usize, exponent: i64) -> Option<Decimal> {
    Some(Decimal { negative, digits, scale, exponent })
}

#[test]
fn decimal_with_exponent() {
    assert_eq!(parse_decimal(b"1e3"), scientific(false, 1, 0, 3));
    assert_eq!(parse_decimal(b"2.5E3"), scientific(false, 25, 1, 3));
    assert_eq!(parse_decimal(b"-2.5e-3"), scientific(true, 25, 1, -3));
    assert_eq!(parse_decimal(b"+.5e+07"), scientific(false, 5, 1, 7));
    assert_eq!(parse_decimal(b"7.e0"), scientific(false, 7, 0, 0));
    assert_eq!(parse_decimal(b"1e-0"), scientific(false, 1, 0, 0));
    assert_eq!(
        parse_decimal(b"1e9223372036854775807"),
        scientific(false, 1, 0, i64::MAX)
    );
    assert_eq!(
        parse_decimal(b"1e-9223372036854775807"),
        scientific(false, 1, 0, -i64::MAX)
    );
}

#[test]
fn decimal_rejects_broken_exponents() {
    assert_eq!(parse_decimal(b"1e"), None);
    assert_eq!(parse_decimal(b"1e+"), None);
    assert_eq!(parse_decimal(b"1e-"), None);
    assert_eq!(parse_decimal(b"e5"), None);
    assert_eq!(parse_decimal(b".e5"), None);
    assert_eq!(parse_decimal(b"-e5"), None);
    assert_eq!(parse_decimal(b"1e5.0"), None);
    assert_eq!(parse_decimal(b"1e5e5"), None);
    assert_eq!(parse_decimal(b"1e+-5"), None);
    assert_eq!(parse_decimal(b"1 e5"), None);
    assert_eq!(parse_decimal(b"1e9223372036854775808"), None);
    assert_eq!(parse_decimal(b"1e99999999999999999999"), None);
}

#[test]
fn decimal_is_no_word() {
    assert_eq!(parse_decimal(b"inf"), None);
    assert_eq!(parse_decimal(b"nan"), None);
}

#[test]
fn real_numbers() {
    assert_eq!(
        parse_real(b"48.7"),
        Some(Real::Finite(Decimal { negative: false, digits: 487, scale: 1, exponent: 0 }))
    );
    assert_eq!(
        parse_real(b"-1.5e2"),
        Some(Real::Finite(Decimal { negative: true, digits: 15, scale: 1, exponent: 2 }))
    );
    assert_eq!(parse_real(b"inf"), Some(Real::Infinite { negative: false }));
    assert_eq!(parse_real(b"+INF"), Some(Real::Infinite { negative: false }));
    assert_eq!(parse_real(b"-Inf"), Some(Real::Infinite { negative: true }));
    assert_eq!(parse_real(b"infinity"), Some(Real::Infinite { negative: false }));
    assert_eq!(parse_real(b"-iNfInItY"), Some(Real::Infinite { negative: true }));
    assert_eq!(parse_real(b"nan"), Some(Real::NotANumber));
    assert_eq!(parse_real(b"NaN"), Some(Real::NotANumber));
    assert_eq!(parse_real(b"-nan"), Some(Real::NotANumber));
}

#[test]
fn real_rejects_what_is_no_number() {
    assert_eq!(parse_real(b""), None);
    assert_eq!(parse_real(b"+"), None);
    assert_eq!(parse_real(b"in"), None);
    assert_eq!(parse_real(b"infi"), None);
    assert_eq!(parse_real(b"infinit"), None);
    assert_eq!(parse_real(b"infinity "), None);
    assert_eq!(parse_real(b"infinitx"), None);
    assert_eq!(parse_real(b"na"), None);
    assert_eq!(parse_real(b"nano"), None);
    assert_eq!(parse_real(b"--inf"), None);
    assert_eq!(parse_real(b"1inf"), None);
    assert_eq!(parse_real(b"@nf"), None);
    assert_eq!(parse_real(b"[nf"), None);
    assert_eq!(parse_real(b"\x49\x6e\x46"), Some(Real::Infinite { negative: false }));
    assert_eq!(parse_real(b"\x09nf"), None);
    assert_eq!(parse_real(b"1.2.3"), None);
}
