use isd_parser::model::NumberError;
use isd_parser::model::RecordValue;
use isd_parser::number::Ratio;

#[test]
fn a_token_of_nines_has_no_value() {
    for s in ["", "999", "9", "+999999", "-9999", "9999,9", "999,9,9,9999,9", "+", "N"] {
        assert_eq!(RecordValue::<i32>::new(s, "m", 1), Ok(None));
        assert_eq!(RecordValue::<i8>::new(s, "h", 1), Ok(None));
        assert_eq!(RecordValue::<Ratio>::new(s, "m/s", Ratio::whole(10)), Ok(None));
    }
}

#[test]
fn a_token_of_nines_has_no_value_whatever_the_divisor() {
    assert_eq!(RecordValue::<i32>::new("99999", "m", 0), Ok(None));
    assert_eq!(RecordValue::<i32>::new("99999", "m", -1), Ok(None));
    assert_eq!(RecordValue::<Ratio>::new("+9999", "hPa", Ratio::whole(0)), Ok(None));
}

#[test]
fn a_token_with_another_digit_has_a_value() {
    assert_eq!(
        RecordValue::<i32>::new("929", "m", 1),
        Ok(Some(RecordValue { value: 929, unit: "m".to_string() }))
    );
    assert_eq!(
        RecordValue::<i32>::new("9990", "m", 1),
        Ok(Some(RecordValue { value: 9990, unit: "m".to_string() }))
    );
    assert_eq!(
        RecordValue::<i32>::new("0", "", 1),
        Ok(Some(RecordValue { value: 0, unit: "".to_string() }))
    );
    assert_eq!(
        RecordValue::<Ratio>::new("0999", "mm", Ratio::whole(10)),
        Ok(Some(RecordValue { value: Ratio { numerator: 999, denominator: 10 }, unit: "mm".to_string() }))
    );
}

#[test]
fn the_value_is_the_literal_divided_by_the_divisor() {
    assert_eq!(RecordValue::<i32>::new("0072", "m/s", 10).unwrap().unwrap().value, 7);
    assert_eq!(RecordValue::<i32>::new("+0123", "\u{b0}C", 10).unwrap().unwrap().value, 12);
    assert_eq!(RecordValue::<i32>::new("-0123", "\u{b0}C", 10).unwrap().unwrap().value, -12);
    assert_eq!(RecordValue::<i32>::new("-0005", "\u{b0}C", 10).unwrap().unwrap().value, 0);
    assert_eq!(RecordValue::<i32>::new("10132", "hPa", 10).unwrap().unwrap().value, 1013);
    assert_eq!(RecordValue::<i32>::new("10132", "hPa", 1).unwrap().unwrap().value, 10132);
    assert_eq!(RecordValue::<i16>::new("1200", "cm", 7).unwrap().unwrap().value, 171);
    assert_eq!(RecordValue::<i8>::new("24", "Hours", 1).unwrap().unwrap().value, 24);
    assert_eq!(RecordValue::<u8>::new("60", "Minutes", 1).unwrap().unwrap().value, 60);
    assert_eq!(RecordValue::<isize>::new("001440", "minutes", 1).unwrap().unwrap().value, 1440);
}

#[test]
fn a_round_trip_gives_the_integer_over_the_divisor() {
    for r in [0i32, 1, 7, 10, 72, 123, 1000, 10132, -1, -45, -123, 2147483647, -2147483648] {
        for d in [1i32, 10, 100, 1000, 7, -3] {
            let expected = r / d;
            assert_eq!(RecordValue::<i32>::new(&r.to_string(), "u", d).unwrap().unwrap().value, expected);
        }
    }
}

#[test]
fn a_round_trip_is_exact_in_a_ratio() {
    for r in [0i64, 1, 72, 123, 10132, -45, -123] {
        for d in [1i64, 10, 100, 1000] {
            let v = RecordValue::<Ratio>::new(&r.to_string(), "u", Ratio::whole(d)).unwrap().unwrap();
            assert_eq!(v.value, Ratio { numerator: r, denominator: d });
            assert_eq!(v.value.numerator as f64 / v.value.denominator as f64, r as f64 / d as f64);
        }
    }
}

#[test]
fn the_unit_is_the_label_that_was_given() {
    let v = RecordValue::<i32>::new("220", "\u{b0}", 1).unwrap().unwrap();
    assert_eq!(v.unit, "\u{b0}");
    let w = RecordValue::<i32>::new("220", "Heating or Cooling Degree Days", 1).unwrap().unwrap();
    assert_eq!(w.unit, "Heating or Cooling Degree Days");
}

#[test]
fn a_present_token_that_is_no_literal_is_malformed() {
    assert_eq!(RecordValue::<i32>::new("12a", "m", 1), Err(NumberError::Malformed));
    assert_eq!(RecordValue::<i32>::new("1.5", "m", 1), Err(NumberError::Malformed));
    assert_eq!(RecordValue::<i32>::new(" 12", "m", 1), Err(NumberError::Malformed));
    assert_eq!(RecordValue::<i32>::new("999,0", "m", 1), Err(NumberError::Malformed));
    assert_eq!(RecordValue::<i32>::new("2147483648", "m", 1), Err(NumberError::Malformed));
    assert_eq!(RecordValue::<i8>::new("300", "h", 1), Err(NumberError::Malformed));
    assert_eq!(RecordValue::<u8>::new("-1", "min", 1), Err(NumberError::Malformed));
    assert_eq!(RecordValue::<Ratio>::new("1e3", "m", Ratio::whole(1)), Err(NumberError::Malformed));
    assert_eq!(RecordValue::<Ratio>::new("1.2.3", "m", Ratio::whole(1)), Err(NumberError::Malformed));
    assert_eq!(RecordValue::<i32>::new("\u{663}", "m", 1), Err(NumberError::Malformed));
}

#[test]
fn a_quotient_that_the_type_lacks_is_unrepresentable() {
    assert_eq!(RecordValue::<i32>::new("72", "m", 0), Err(NumberError::Unrepresentable));
    assert_eq!(RecordValue::<i32>::new("-2147483648", "m", -1), Err(NumberError::Unrepresentable));
    assert_eq!(RecordValue::<i8>::new("-128", "h", -1), Err(NumberError::Unrepresentable));
    assert_eq!(RecordValue::<u8>::new("7", "min", 0), Err(NumberError::Unrepresentable));
    assert_eq!(
        RecordValue::<Ratio>::new("72", "m", Ratio::whole(0)),
        Err(NumberError::Unrepresentable)
    );
    assert_eq!(
        RecordValue::<Ratio>::new("9223372036854775807", "m", Ratio::new(1, 10)),
        Err(NumberError::Unrepresentable)
    );
}

#[test]
fn a_ratio_keeps_a_fractional_literal() {
    assert_eq!(
        RecordValue::<Ratio>::new("1.5", "m", Ratio::whole(10)).unwrap().unwrap().value,
        Ratio { numerator: 15, denominator: 100 }
    );
    assert_eq!(
        RecordValue::<Ratio>::new("09", "\u{b0}", Ratio::new(1, 10)).unwrap().unwrap().value,
        Ratio { numerator: 90, denominator: 1 }
    );
}
