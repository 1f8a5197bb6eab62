use isd_parser::number::decimal_string;
use isd_parser::number::natural_string;
use isd_parser::number::parse_decimal;
use isd_parser::number::parse_integer;
use isd_parser::number::truncated_quotient;
use isd_parser::number::Numeric;
use isd_parser::number::Ratio;

#[test]
fn an_integer_literal_is_a_sign_and_digits() {
    assert_eq!(parse_integer("220", 10, true, -1000, 1000), Some(220));
    assert_eq!(parse_integer("+0072", 10, true, -1000, 1000), Some(72));
    assert_eq!(parse_integer("-0072", 10, true, -1000, 1000), Some(-72));
    assert_eq!(parse_integer("0", 10, true, -1000, 1000), Some(0));
    assert_eq!(parse_integer("-0", 10, true, -1000, 1000), Some(0));
    assert_eq!(parse_integer("000000000000000000000000000000000000000007", 10, true, -9, 9), Some(7));
}

#[test]
fn what_is_no_integer_literal_is_refused() {
    assert_eq!(parse_integer("", 10, true, -1000, 1000), None);
    assert_eq!(parse_integer("+", 10, true, -1000, 1000), None);
    assert_eq!(parse_integer("-", 10, true, -1000, 1000), None);
    assert_eq!(parse_integer("12a", 10, true, -1000, 1000), None);
    assert_eq!(parse_integer("1.5", 10, true, -1000, 1000), None);
    assert_eq!(parse_integer(" 12", 10, true, -1000, 1000), None);
    assert_eq!(parse_integer("12 ", 10, true, -1000, 1000), None);
    assert_eq!(parse_integer("+-12", 10, true, -1000, 1000), None);
    assert_eq!(parse_integer("1+2", 10, true, -1000, 1000), None);
    assert_eq!(parse_integer("\u{663}", 10, true, -1000, 1000), None);
}

#[test]
fn an_integer_literal_beyond_the_bounds_is_refused() {
    assert_eq!(parse_integer("1000", 10, true, -1000, 1000), Some(1000));
    assert_eq!(parse_integer("1001", 10, true, -1000, 1000), None);
    assert_eq!(parse_integer("-1000", 10, true, -1000, 1000), Some(-1000));
    assert_eq!(parse_integer("-1001", 10, true, -1000, 1000), None);
    assert_eq!(parse_integer("-5", 10, true, 0, 1000), None);
    assert_eq!(parse_integer("5", 10, true, -1000, 0), None);
    assert_eq!(
        parse_integer("9223372036854775807", 10, true, i64::MIN as i128, i64::MAX as i128),
        Some(9223372036854775807)
    );
    assert_eq!(
        parse_integer("9223372036854775808", 10, true, i64::MIN as i128, i64::MAX as i128),
        None
    );
    assert_eq!(
        parse_integer("-9223372036854775808", 10, true, i64::MIN as i128, i64::MAX as i128),
        Some(-9223372036854775808)
    );
    assert_eq!(
        parse_integer("99999999999999999999999999999999999999999999", 10, true, -5, 5),
        None
    );
}

#[test]
fn a_minus_is_a_sign_only_where_the_type_is_signed() {
    assert_eq!(parse_integer("-0", 10, false, 0, 255), None);
    assert_eq!(parse_integer("-7", 10, false, 0, 255), None);
    assert_eq!(parse_integer("+7", 10, false, 0, 255), Some(7));
    assert_eq!(parse_integer("7", 10, false, 0, 255), Some(7));
}

#[test]
fn a_binary_literal_has_the_digits_zero_and_one() {
    assert_eq!(parse_integer("0", 2, true, -100000, 100000), Some(0));
    assert_eq!(parse_integer("1", 2, true, -100000, 100000), Some(1));
    assert_eq!(parse_integer("0101", 2, true, -100000, 100000), Some(5));
    assert_eq!(parse_integer("-110", 2, true, -100000, 100000), Some(-6));
    assert_eq!(parse_integer("10000000000000", 2, true, -100000, 100000), Some(8192));
    assert_eq!(parse_integer("2", 2, true, -100000, 100000), None);
    assert_eq!(parse_integer("9999", 2, true, -100000, 100000), None);
    assert_eq!(parse_integer("17", 8, true, -100000, 100000), Some(15));
    assert_eq!(parse_integer("18", 8, true, -100000, 100000), None);
}

#[test]
fn a_fixed_point_literal_is_a_mantissa_over_a_power_of_ten() {
    assert_eq!(parse_decimal("0072"), Some((72, 1)));
    assert_eq!(parse_decimal("+34.300"), Some((34300, 1000)));
    assert_eq!(parse_decimal("-118.25"), Some((-11825, 100)));
    assert_eq!(parse_decimal("7."), Some((7, 1)));
    assert_eq!(parse_decimal(".5"), Some((5, 10)));
    assert_eq!(parse_decimal("-.5"), Some((-5, 10)));
    assert_eq!(parse_decimal("0.0"), Some((0, 10)));
    assert_eq!(parse_decimal("-0"), Some((0, 1)));
}

#[test]
fn what_is_no_fixed_point_literal_is_refused() {
    assert_eq!(parse_decimal(""), None);
    assert_eq!(parse_decimal("+"), None);
    assert_eq!(parse_decimal("."), None);
    assert_eq!(parse_decimal("-."), None);
    assert_eq!(parse_decimal("1.2.3"), None);
    assert_eq!(parse_decimal("1..2"), None);
    assert_eq!(parse_decimal("1e3"), None);
    assert_eq!(parse_decimal("12a"), None);
    assert_eq!(parse_decimal(" 1"), None);
    assert_eq!(parse_decimal("1,5"), None);
    assert_eq!(parse_decimal("--1"), None);
}

#[test]
fn a_fixed_point_literal_must_fit_in_64_bits() {
    assert_eq!(parse_decimal("9223372036854775807"), Some((9223372036854775807, 1)));
    assert_eq!(parse_decimal("9223372036854775808"), None);
    assert_eq!(parse_decimal("-9223372036854775808"), Some((-9223372036854775808, 1)));
    assert_eq!(parse_decimal("-9223372036854775809"), None);
    assert_eq!(parse_decimal("0.000000000000000001"), Some((1, 1000000000000000000)));
    assert_eq!(parse_decimal("0.0000000000000000001"), None);
    assert_eq!(parse_decimal("922337203685477580.7"), Some((9223372036854775807, 10)));
    assert_eq!(parse_decimal("922337203685477580.8"), None);
}

#[test]
fn a_number_is_written_without_leading_zeros() {
    assert_eq!(natural_string(0), "0");
    assert_eq!(natural_string(7), "7");
    assert_eq!(natural_string(10), "10");
    assert_eq!(natural_string(8192), "8192");
    assert_eq!(natural_string(u64::MAX), "18446744073709551615");
    assert_eq!(decimal_string(0), "0");
    assert_eq!(decimal_string(-1), "-1");
    assert_eq!(decimal_string(4096), "4096");
    assert_eq!(decimal_string(i64::MAX), "9223372036854775807");
    assert_eq!(decimal_string(i64::MIN), "-9223372036854775808");
}

#[test]
fn a_written_number_reads_back() {
    for v in [0i64, 1, -1, 9, 10, 99, -100, 12345, -98765, i64::MAX, i64::MIN] {
        let text = decimal_string(v);
        assert_eq!(text, v.to_string());
        assert_eq!(
            parse_integer(&text, 10, true, i64::MIN as i128, i64::MAX as i128),
            Some(v as i128)
        );
    }
}

#[test]
fn division_rounds_toward_zero() {
    assert_eq!(truncated_quotient(72, 10), 7);
    assert_eq!(truncated_quotient(-72, 10), -7);
    assert_eq!(truncated_quotient(72, -10), -7);
    assert_eq!(truncated_quotient(-72, -10), 7);
    assert_eq!(truncated_quotient(79, 10), 7);
    assert_eq!(truncated_quotient(-79, 10), -7);
    assert_eq!(truncated_quotient(5, 10), 0);
    assert_eq!(truncated_quotient(-5, 10), 0);
    assert_eq!(truncated_quotient(0, 3), 0);
    assert_eq!(truncated_quotient(-9223372036854775808, -1), 9223372036854775808);
}

#[test]
fn each_integer_type_reads_what_it_holds() {
    assert_eq!(<i8 as Numeric>::parse("127"), Some(127));
    assert_eq!(<i8 as Numeric>::parse("128"), None);
    assert_eq!(<i8 as Numeric>::parse("-128"), Some(-128));
    assert_eq!(<i8 as Numeric>::parse("-129"), None);
    assert_eq!(<i16 as Numeric>::parse("32767"), Some(32767));
    assert_eq!(<i16 as Numeric>::parse("32768"), None);
    assert_eq!(<i16 as Numeric>::parse("-32768"), Some(-32768));
    assert_eq!(<i32 as Numeric>::parse("2147483647"), Some(2147483647));
    assert_eq!(<i32 as Numeric>::parse("2147483648"), None);
    assert_eq!(<i32 as Numeric>::parse("-2147483648"), Some(-2147483648));
    assert_eq!(<i32 as Numeric>::parse("-2147483649"), None);
    assert_eq!(<isize as Numeric>::parse("001440"), Some(1440));
    assert_eq!(<isize as Numeric>::parse("-001440"), Some(-1440));
    assert_eq!(<isize as Numeric>::parse("99999999999999999999"), None);
    assert_eq!(<u8 as Numeric>::parse("255"), Some(255));
    assert_eq!(<u8 as Numeric>::parse("256"), None);
    assert_eq!(<u8 as Numeric>::parse("+60"), Some(60));
    assert_eq!(<u8 as Numeric>::parse("-0"), None);
    assert_eq!(<i32 as Numeric>::parse("1.0"), None);
}

#[test]
fn each_integer_type_divides_as_the_machine_does() {
    assert_eq!(Numeric::divide(-75i32, 10), Some(-7));
    assert_eq!(Numeric::divide(75i32, 10), Some(7));
    assert_eq!(Numeric::divide(75i32, -10), Some(-7));
    assert_eq!(Numeric::divide(75i32, 0), None);
    assert_eq!(Numeric::divide(i32::MIN, -1), None);
    assert_eq!(Numeric::divide(i32::MIN, 1), Some(i32::MIN));
    assert_eq!(Numeric::divide(i8::MIN, -1), None);
    assert_eq!(Numeric::divide(-128i8, 2), Some(-64));
    assert_eq!(Numeric::divide(i16::MIN, -1), None);
    assert_eq!(Numeric::divide(1000i16, 7), Some(142));
    assert_eq!(Numeric::divide(isize::MIN, -1), None);
    assert_eq!(Numeric::divide(-7isize, 2), Some(-3));
    assert_eq!(Numeric::divide(200u8, 3), Some(66));
    assert_eq!(Numeric::divide(200u8, 0), None);
}

#[test]
fn a_ratio_reads_a_fixed_point_literal() {
    assert_eq!(<Ratio as Numeric>::parse("0072"), Some(Ratio { numerator: 72, denominator: 1 }));
    assert_eq!(<Ratio as Numeric>::parse("-1.5"), Some(Ratio { numerator: -15, denominator: 10 }));
    assert_eq!(<Ratio as Numeric>::parse("1e5"), None);
    assert_eq!(<Ratio as Numeric>::parse("nan"), None);
}

#[test]
fn a_ratio_divides_exactly() {
    let n = Ratio::whole(72);
    assert_eq!(n, Ratio::new(72, 1));
    assert_eq!(n.divide(Ratio::whole(1000)), Some(Ratio { numerator: 72, denominator: 1000 }));
    assert_eq!(n.divide(Ratio::new(1, 10)), Some(Ratio { numerator: 720, denominator: 1 }));
    assert_eq!(n.divide(Ratio::whole(-10)), Some(Ratio { numerator: -72, denominator: 10 }));
    assert_eq!(
        Ratio::new(-15, 10).divide(Ratio::new(3, 2)),
        Some(Ratio { numerator: -30, denominator: 30 })
    );
    assert_eq!(Ratio::whole(0).divide(Ratio::whole(7)), Some(Ratio { numerator: 0, denominator: 7 }));
}

#[test]
fn a_ratio_has_no_quotient_by_zero_or_beyond_64_bits() {
    assert_eq!(Ratio::whole(72).divide(Ratio::whole(0)), None);
    assert_eq!(Ratio::whole(72).divide(Ratio::new(0, 5)), None);
    assert_eq!(Ratio::new(1, 0).divide(Ratio::whole(3)), None);
    assert_eq!(Ratio::whole(i64::MAX).divide(Ratio::new(1, 2)), None);
    assert_eq!(Ratio::new(1, i64::MAX).divide(Ratio::whole(2)), None);
    assert_eq!(Ratio::whole(i64::MIN).divide(Ratio::whole(-1)), None);
    assert_eq!(
        Ratio::whole(i64::MIN).divide(Ratio::whole(1)),
        Some(Ratio { numerator: i64::MIN, denominator: 1 })
    );
}
