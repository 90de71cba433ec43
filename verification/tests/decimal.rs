use price_fetch::decimal::fixed_from_decimal;
use price_fetch::error::FetchError;
use price_fetch::record::{de_float_to_price, de_string_to_bytes};

#[test]
fn whole_number_is_scaled_by_ten_to_the_eighteenth() {
    assert_eq!(fixed_from_decimal(b"1"), Ok(1_000_000_000_000_000_000));
    assert_eq!(fixed_from_decimal(b"0"), Ok(0));
    assert_eq!(fixed_from_decimal(b"42"), Ok(42_000_000_000_000_000_000));
}

#[test]
fn fraction_keeps_eighteen_places() {
    assert_eq!(fixed_from_decimal(b"1234.5"), Ok(1_234_500_000_000_000_000_000));
    assert_eq!(fixed_from_decimal(b"0.000000000000000001"), Ok(1));
    assert_eq!(fixed_from_decimal(b"0.5"), Ok(500_000_000_000_000_000));
}

#[test]
fn places_past_the_eighteenth_are_cut_off_not_rounded() {
    assert_eq!(fixed_from_decimal(b"0.0000000000000000019"), Ok(1));
    assert_eq!(fixed_from_decimal(b"0.0000000000000000009"), Ok(0));
    assert_eq!(fixed_from_decimal(b"1.9999999999999999999"), Ok(1_999_999_999_999_999_999));
}

#[test]
fn exponent_moves_the_point() {
    assert_eq!(fixed_from_decimal(b"1.2345e3"), Ok(1_234_500_000_000_000_000_000));
    assert_eq!(fixed_from_decimal(b"12345E-1"), Ok(1_234_500_000_000_000_000_000));
    assert_eq!(fixed_from_decimal(b"1e+2"), Ok(100_000_000_000_000_000_000));
    assert_eq!(fixed_from_decimal(b"1e-18"), Ok(1));
    assert_eq!(fixed_from_decimal(b"1e-19"), Ok(0));
    assert_eq!(fixed_from_decimal(b"25e-20"), Ok(0));
    assert_eq!(fixed_from_decimal(b"250e-20"), Ok(2));
}

#[test]
fn largest_price_fits_and_the_next_overflows() {
    // 2^128 - 1 = 340282366920938463463.374607431768211455 * 10^18
    assert_eq!(
        fixed_from_decimal(b"340282366920938463463.374607431768211455"),
        Ok(u128::MAX)
    );
    assert_eq!(
        fixed_from_decimal(b"340282366920938463463.374607431768211456"),
        Err(FetchError::Overflow)
    );
    assert_eq!(
        fixed_from_decimal(b"340282366920938463463.3746074317682114559"),
        Ok(u128::MAX)
    );
    assert_eq!(fixed_from_decimal(b"1e21"), Err(FetchError::Overflow));
    assert_eq!(fixed_from_decimal(b"1e20"), Ok(100_000_000_000_000_000_000_000_000_000_000_000_000));
}

#[test]
fn huge_exponents_do_not_wrap() {
    assert_eq!(
        fixed_from_decimal(b"1e99999999999999999999999999999999999999999999"),
        Err(FetchError::Overflow)
    );
    assert_eq!(fixed_from_decimal(b"0e99999999999999999999999999999999999999999999"), Ok(0));
    assert_eq!(fixed_from_decimal(b"0.0e340282366920938463463374607431768211456"), Ok(0));
    assert_eq!(fixed_from_decimal(b"7e-99999999999999999999999999999999999999999999"), Ok(0));
    assert_eq!(fixed_from_decimal(b"7e-340282366920938463463374607431768211438"), Ok(0));
}

#[test]
fn long_mantissas_are_read_exactly() {
    assert_eq!(
        fixed_from_decimal(b"0.00000000000000000000000000000000000000000000000001e50"),
        Ok(1_000_000_000_000_000_000)
    );
    assert_eq!(
        fixed_from_decimal(b"000000000000000000000000000000000000000000000000000007"),
        Ok(7_000_000_000_000_000_000)
    );
    assert_eq!(
        fixed_from_decimal(b"123456789012345678901234567890123456789012345678901234567890e-50"),
        Ok(1_234_567_890_123_456_789_012_345_678)
    );
}

#[test]
fn number_below_zero_counts_as_zero() {
    assert_eq!(fixed_from_decimal(b"-1.5"), Ok(0));
    assert_eq!(fixed_from_decimal(b"-0"), Ok(0));
    assert_eq!(fixed_from_decimal(b"-1e400"), Ok(0));
}

#[test]
fn text_that_is_no_decimal_number_is_malformed() {
    for text in [
        &b""[..], b"-", b".", b".5", b"5.", b"1e", b"1e+", b"1e-", b"e5", b"1.5x", b" 1", b"1 ",
        b"+1", b"1,5", b"0x10", b"1.2.3", b"1e5e5", b"--1", b"NaN", b"inf", b"1e5.5",
    ] {
        assert_eq!(fixed_from_decimal(text), Err(FetchError::Malformed), "{:?}", text);
    }
}

#[test]
fn price_text_converts_like_its_bytes() {
    assert_eq!(de_float_to_price("1234.5"), Ok(1_234_500_000_000_000_000_000));
    assert_eq!(de_float_to_price("1234.5"), de_float_to_price("1234.5"));
    assert_eq!(de_float_to_price("12\u{e9}"), Err(FetchError::Malformed));
    assert_eq!(de_float_to_price("1e21"), Err(FetchError::Overflow));
}

#[test]
fn text_field_becomes_its_utf8_bytes() {
    assert_eq!(de_string_to_bytes("ETH"), b"ETH".to_vec());
    assert_eq!(de_string_to_bytes(""), Vec::<u8>::new());
    assert_eq!(de_string_to_bytes("\u{e9}"), vec![0xc3, 0xa9]);
}
