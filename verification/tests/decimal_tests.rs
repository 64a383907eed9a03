use stock_calc::decimal::{divide_up, Decimal, SCALE};

fn micros(text: &str) -> Option<i64> {
    Decimal::parse(text).map(|d| d.micros)
}

fn dec(text: &str) -> Decimal {
    Decimal::parse(text).unwrap()
}

#[test]
fn parses_plain_numerals() {
    assert_eq!(micros("2.172"), Some(2_172_000));
    assert_eq!(micros("-0.030"), Some(-30_000));
    assert_eq!(micros("15.5"), Some(15_500_000));
    assert_eq!(micros("1000.0"), Some(1_000_000_000));
    assert_eq!(micros("0"), Some(0));
    assert_eq!(micros("-0"), Some(0));
    assert_eq!(micros("+1"), Some(1_000_000));
    assert_eq!(micros(".5"), Some(500_000));
    assert_eq!(micros("7."), Some(7_000_000));
    assert_eq!(micros("007.250"), Some(7_250_000));
    assert_eq!(micros("38995.6010"), Some(38_995_601_000));
    assert_eq!(micros("9792638600"), Some(9_792_638_600_000_000));
}

#[test]
fn cuts_off_beyond_the_sixth_place() {
    assert_eq!(micros("0.1234567"), Some(123_456));
    assert_eq!(micros("0.9999999"), Some(999_999));
    assert_eq!(micros("-0.0000019"), Some(-1));
    assert_eq!(micros("0.0000009"), Some(0));
    assert_eq!(micros("-0.0000009"), Some(0));
    assert_eq!(micros("1.00000000000000000000000000000000000001"), Some(1_000_000));
}

#[test]
fn parses_exponents() {
    assert_eq!(micros("1e3"), Some(1_000_000_000));
    assert_eq!(micros("1.2e3"), Some(1_200_000_000));
    assert_eq!(micros("1.2E3"), Some(1_200_000_000));
    assert_eq!(micros("1.2e+3"), Some(1_200_000_000));
    assert_eq!(micros("1E-2"), Some(10_000));
    assert_eq!(micros("-2.5e-1"), Some(-250_000));
    assert_eq!(micros("5e-7"), Some(0));
    assert_eq!(micros("5e-6"), Some(5));
    assert_eq!(micros("12345678e-10"), Some(1_234));
    assert_eq!(micros(".5e1"), Some(5_000_000));
    assert_eq!(micros("5.e1"), Some(50_000_000));
    assert_eq!(micros("1e0"), Some(1_000_000));
    assert_eq!(micros("1e-0"), Some(1_000_000));
    assert_eq!(micros("1e12"), Some(1_000_000_000_000_000_000));
    assert_eq!(micros("0.000000000000000000001e21"), Some(1_000_000));
    assert_eq!(micros("100000000000000000000e-20"), Some(1_000_000));
}

#[test]
fn huge_exponents_need_no_huge_work() {
    assert_eq!(micros("0e99999999999999999999999999999999999999"), Some(0));
    assert_eq!(micros("0.000e99999999999999999999999999999999999999"), Some(0));
    assert_eq!(micros("1e99999999999999999999999999999999999999"), None);
    assert_eq!(micros("1e-99999999999999999999999999999999999999"), Some(0));
    assert_eq!(micros("-7e-99999999999999999999999999999999999999"), Some(0));
    assert_eq!(micros("1e1000000000000000000000000000000"), None);
    assert_eq!(micros("1e999999999999999999999999999999"), None);
}

#[test]
fn rejects_what_is_no_numeral() {
    for text in [
        "", "+", "-", ".", "+.", "e5", ".e5", "1e", "1e+", "1e-", "abc", "1.2.3", " 1", "1 ", " ",
        "inf", "-inf", "infinity", "NaN", "nan", "1,5", "0x10", "１２", "1_000", "--1", "+-1",
        "1e1.5", "1e1e1", "2.172\"", "¥5",
    ] {
        assert_eq!(micros(text), None, "{:?}", text);
    }
}

#[test]
fn parses_up_to_the_bounds() {
    assert_eq!(micros("9223372036854.775807"), Some(i64::MAX));
    assert_eq!(micros("9223372036854.775808"), None);
    assert_eq!(micros("9223372036854.7758079"), Some(i64::MAX));
    assert_eq!(micros("-9223372036854.775808"), Some(i64::MIN));
    assert_eq!(micros("-9223372036854.775809"), None);
    assert_eq!(micros("9223372036855"), None);
    assert_eq!(micros("1e13"), None);
    assert_eq!(micros("-1e13"), None);
    assert_eq!(micros("9.223372036854775807e12"), Some(i64::MAX));
    assert_eq!(micros("99999999999999999999999999999999999999999999"), None);
    assert_eq!(micros("00000000000000000000000000000000000000000001"), Some(1_000_000));
}

#[test]
fn parse_chars_agrees_with_parse() {
    for text in ["2.172", "-1e-3", "x", "", "1e400"] {
        let chars: Vec<char> = text.chars().collect();
        assert_eq!(Decimal::parse_chars(&chars), Decimal::parse(text));
    }
}

#[test]
fn constructors() {
    assert_eq!(SCALE, 1_000_000);
    assert_eq!(Decimal::zero().micros, 0);
    assert_eq!(Decimal::from_micros(-5).micros, -5);
    assert_eq!(Decimal::from_units(3), dec("3"));
    assert_eq!(Decimal::from_units(-10_000), dec("-10000"));
    assert_eq!(Decimal::from_units(i32::MAX).micros, 2_147_483_647_000_000);
    assert_eq!(Decimal::from_units(i32::MIN).micros, -2_147_483_648_000_000);
}

#[test]
fn sums_and_differences() {
    assert_eq!(dec("1.5").plus(dec("2.25")), dec("3.75"));
    assert_eq!(dec("1.5").minus(dec("2.25")), dec("-0.75"));
    assert_eq!(dec("-1.5").plus(dec("1.5")), Decimal::zero());
    let max = Decimal::from_micros(i64::MAX);
    let min = Decimal::from_micros(i64::MIN);
    assert_eq!(max.plus(max), max);
    assert_eq!(max.plus(Decimal::from_micros(1)), max);
    assert_eq!(min.plus(min), min);
    assert_eq!(min.minus(max), min);
    assert_eq!(max.minus(min), max);
    assert_eq!(min.minus(min), Decimal::zero());
    assert_eq!(max.plus(min), Decimal::from_micros(-1));
}

#[test]
fn products_round_toward_zero() {
    assert_eq!(dec("1.5").times(dec("2.5")), dec("3.75"));
    assert_eq!(dec("-1.5").times(dec("2.5")), dec("-3.75"));
    assert_eq!(dec("-1.5").times(dec("-2.5")), dec("3.75"));
    assert_eq!(dec("1000").times(dec("15.5")), dec("15500"));
    assert_eq!(dec("0.000001").times(dec("0.5")), Decimal::zero());
    assert_eq!(dec("-0.000001").times(dec("0.5")), Decimal::zero());
    assert_eq!(dec("0.000003").times(dec("0.5")), dec("0.000001"));
    assert_eq!(dec("-0.000003").times(dec("0.5")), dec("-0.000001"));
    assert_eq!(dec("20.5").times(dec("0.95")), dec("19.475"));
    assert_eq!(dec("13.5").times(dec("1.05")), dec("14.175"));
    let max = Decimal::from_micros(i64::MAX);
    let min = Decimal::from_micros(i64::MIN);
    assert_eq!(max.times(max), max);
    assert_eq!(max.times(min), min);
    assert_eq!(min.times(min), max);
    assert_eq!(max.times(dec("1")), max);
    assert_eq!(min.times(dec("1")), min);
    assert_eq!(min.times(dec("-1")), max);
}

#[test]
fn quotients_round_toward_zero() {
    assert_eq!(dec("5000").divided_by(dec("1000")), dec("5"));
    assert_eq!(dec("1").divided_by(dec("3")), dec("0.333333"));
    assert_eq!(dec("-1").divided_by(dec("3")), dec("-0.333333"));
    assert_eq!(dec("1").divided_by(dec("-3")), dec("-0.333333"));
    assert_eq!(dec("-1").divided_by(dec("-3")), dec("0.333333"));
    assert_eq!(dec("2").divided_by(dec("3")), dec("0.666666"));
    assert_eq!(dec("0").divided_by(dec("3")), Decimal::zero());
    assert_eq!(dec("5000").divided_by(dec("2000")), dec("2.5"));
    let max = Decimal::from_micros(i64::MAX);
    let min = Decimal::from_micros(i64::MIN);
    assert_eq!(max.divided_by(dec("0.000001")), max);
    assert_eq!(min.divided_by(dec("0.000001")), min);
    assert_eq!(min.divided_by(dec("-0.000001")), max);
    assert_eq!(max.divided_by(max), dec("1"));
    assert_eq!(min.divided_by(min), dec("1"));
    assert_eq!(dec("0.000001").divided_by(max), Decimal::zero());
}

#[test]
fn percentages_round_toward_zero() {
    assert_eq!(dec("0.7").percent_of(dec("15.5")), dec("4.516129"));
    assert_eq!(dec("-1.5").percent_of(dec("15.5")), dec("-9.677419"));
    assert_eq!(dec("1").percent_of(dec("4")), dec("25"));
    assert_eq!(dec("1").percent_of(dec("-4")), dec("-25"));
    assert_eq!(dec("0").percent_of(dec("4")), Decimal::zero());
    let max = Decimal::from_micros(i64::MAX);
    let min = Decimal::from_micros(i64::MIN);
    assert_eq!(max.percent_of(dec("1")), max);
    assert_eq!(min.percent_of(dec("1")), min);
    assert_eq!(max.percent_of(max), dec("100"));
}

#[test]
fn numerals_are_the_finite_floating_point_literals() {
    let tokens = ["+", "-", "1", "0", "25", "07", ".", "e", "E", "e-", "e+", "3"];
    let count = tokens.len();
    for length in 0..=4u32 {
        for mut code in 0..count.pow(length) {
            let mut text = String::new();
            for _ in 0..length {
                text.push_str(tokens[code % count]);
                code /= count;
            }
            let read = micros(&text);
            match text.parse::<f64>() {
                Ok(value) if value.is_finite() && value.abs() < 9.0e12 => {
                    let found = read.unwrap_or_else(|| panic!("{:?} is not read", text));
                    let exact = value * 1_000_000.0;
                    assert!(
                        (found as f64 - exact).abs() <= 1.0 + exact.abs() * 1e-12,
                        "{:?} is read as {}",
                        text,
                        found
                    );
                    assert!((found as f64).abs() <= exact.abs() * (1.0 + 1e-12), "{:?}", text);
                }
                Ok(value) if value.is_finite() => {}
                Ok(_) => assert_eq!(read, None, "{:?}", text),
                Err(_) => assert_eq!(read, None, "{:?}", text),
            }
        }
    }
}

#[test]
fn quotients_rounded_up() {
    assert_eq!(dec("5000").divided_up_by(dec("1000")), dec("5"));
    assert_eq!(dec("1").divided_up_by(dec("3")), dec("0.333334"));
    assert_eq!(dec("2").divided_up_by(dec("3")), dec("0.666667"));
    assert_eq!(dec("-1").divided_up_by(dec("3")), dec("-0.333333"));
    assert_eq!(dec("1").divided_up_by(dec("-3")), dec("-0.333333"));
    assert_eq!(dec("-1").divided_up_by(dec("-3")), dec("0.333334"));
    assert_eq!(dec("0").divided_up_by(dec("3")), Decimal::zero());
    assert_eq!(dec("0").divided_up_by(dec("-3")), Decimal::zero());
    assert_eq!(dec("0.000001").divided_up_by(dec("1000000")), dec("0.000001"));
    let max = Decimal::from_micros(i64::MAX);
    let min = Decimal::from_micros(i64::MIN);
    assert_eq!(max.divided_up_by(dec("0.5")), max);
    assert_eq!(min.divided_up_by(dec("0.5")), min);
    assert_eq!(max.divided_up_by(max), dec("1"));
    assert_eq!(divide_up(7, 2), 4);
    assert_eq!(divide_up(-7, 2), -3);
    assert_eq!(divide_up(7, -2), -3);
    assert_eq!(divide_up(-7, -2), 4);
    assert_eq!(divide_up(6, 2), 3);
    assert_eq!(divide_up(0, 5), 0);
}

#[test]
fn percentages_rounded_away_from_zero() {
    assert_eq!(dec("0.7").percent_outward_of(dec("15.5")), dec("4.516130"));
    assert_eq!(dec("-1.5").percent_outward_of(dec("15.5")), dec("-9.677420"));
    assert_eq!(dec("1").percent_outward_of(dec("4")), dec("25"));
    assert_eq!(dec("1").percent_outward_of(dec("-4")), dec("-25"));
    assert_eq!(dec("0").percent_outward_of(dec("4")), Decimal::zero());
    assert_eq!(dec("0.000001").percent_outward_of(dec("1000000")), dec("0.000001"));
    assert_eq!(dec("-0.000001").percent_outward_of(dec("1000000")), dec("-0.000001"));
    assert_eq!(dec("0.000001").percent_outward_of(dec("-1000000")), dec("-0.000001"));
    assert_eq!(dec("0.000001").percent_of(dec("1000000")), Decimal::zero());
    let max = Decimal::from_micros(i64::MAX);
    let min = Decimal::from_micros(i64::MIN);
    assert_eq!(max.percent_outward_of(dec("1")), max);
    assert_eq!(min.percent_outward_of(dec("1")), min);
    assert_eq!(min.percent_outward_of(min), dec("100"));
}
