use isd_parser::fields::codes::CodeRecord;
use isd_parser::fields::mandatory::Ceiling;
use isd_parser::fields::mandatory::Dew;
use isd_parser::fields::mandatory::GeoPhysicalPoint;
use isd_parser::fields::mandatory::SeaLevelPressure;
use isd_parser::fields::mandatory::Temperature;
use isd_parser::fields::mandatory::Visibility;
use isd_parser::fields::mandatory::Wind;
use isd_parser::fields::schema::Fault;
use isd_parser::fields::schema::FieldError;
use isd_parser::fields::schema::FieldGroup;
use isd_parser::model::NumberError;
use isd_parser::model::RecordValue;
use isd_parser::number::Ratio;

fn mandatory_code(value: &str, description: &str) -> CodeRecord {
    CodeRecord { value: value.to_string(), description: description.to_string() }
}

fn mandatory_failure(text: &str, fault: Fault, position: usize, token: &str) -> FieldError {
    FieldError { fault, position, token: token.to_string(), text: text.to_string() }
}

#[test]
fn a_wind_group_decodes_member_by_member() {
    let wind = Wind::from_str("220,1,N,0072,1").unwrap();
    assert_eq!(wind.direction_angle, Some(RecordValue { value: 220, unit: "\u{b0}".to_string() }));
    assert_eq!(wind.direction_quality_code, mandatory_code("1", "Passed all quality control checks"));
    assert_eq!(wind.type_code, mandatory_code("N", "Normal"));
    let speed = wind.speed_rate.unwrap();
    assert_eq!(speed.value, Ratio { numerator: 72, denominator: 1000 });
    assert_eq!(speed.unit, "m/s");
    assert_eq!(speed.value.numerator as f64 / speed.value.denominator as f64, 0.072);
}

#[test]
fn a_wind_group_of_sentinels_keeps_its_codes() {
    let wind = Wind::from_str("999,9,9,9999,9").unwrap();
    assert_eq!(wind.direction_angle, None);
    assert_eq!(wind.speed_rate, None);
    assert_eq!(
        wind.direction_quality_code,
        mandatory_code("9", "Passed gross limits check if element is present")
    );
    assert_eq!(wind.type_code, mandatory_code("9", "Missing"));
}

#[test]
fn a_wind_group_reads_no_further_than_its_schema() {
    assert_eq!(Wind::from_str("220,1,N,0072"), Wind::from_str("220,1,N,0072,1"));
    assert_eq!(Wind::from_str("220,1,N,0072,1,extra,tokens"), Wind::from_str("220,1,N,0072,1"));
}

#[test]
fn a_group_with_too_few_tokens_fails_at_the_first_that_is_missing() {
    assert_eq!(Wind::from_str("220,1,N"), Err(mandatory_failure("220,1,N", Fault::MissingToken, 3, "")));
    assert_eq!(Wind::from_str("220"), Err(mandatory_failure("220", Fault::MissingToken, 1, "")));
    assert_eq!(Wind::from_str(""), Err(mandatory_failure("", Fault::MissingToken, 1, "")));
    assert_eq!(Temperature::from_str("+0123"), Err(mandatory_failure("+0123", Fault::MissingToken, 1, "")));
}

#[test]
fn a_group_fails_with_the_failure_of_its_first_failing_member() {
    assert_eq!(Wind::from_str("22a,1,N,0072,1"), Err(mandatory_failure("22a,1,N,0072,1", Fault::Malformed, 0, "22a")));
    assert_eq!(Wind::from_str("220,X,N,0072,1"), Err(mandatory_failure("220,X,N,0072,1", Fault::UnknownCode, 1, "X")));
    assert_eq!(Wind::from_str("220,1,Z,0072,1"), Err(mandatory_failure("220,1,Z,0072,1", Fault::UnknownCode, 2, "Z")));
    assert_eq!(Wind::from_str("220,1,N,7e1,1"), Err(mandatory_failure("220,1,N,7e1,1", Fault::Malformed, 3, "7e1")));
    assert_eq!(Wind::from_str("22a,X,Z,7e1"), Err(mandatory_failure("22a,X,Z,7e1", Fault::Malformed, 0, "22a")));
    assert_eq!(Wind::from_str("220,X,Z"), Err(mandatory_failure("220,X,Z", Fault::UnknownCode, 1, "X")));
    assert_eq!(Wind::from_str("220,1,Z"), Err(mandatory_failure("220,1,Z", Fault::UnknownCode, 2, "Z")));
}

#[test]
fn a_failure_carries_the_token_as_it_was_read() {
    assert_eq!(Wind::from_str("220, X ,N,0072,1"), Err(mandatory_failure("220, X ,N,0072,1", Fault::UnknownCode, 1, " X ")));
    assert_eq!(
        Wind::from_str("99999999999,1,N,0072,1"),
        Ok(Wind {
            direction_angle: None,
            direction_quality_code: mandatory_code("1", "Passed all quality control checks"),
            type_code: mandatory_code("N", "Normal"),
            speed_rate: Some(RecordValue {
                value: Ratio { numerator: 72, denominator: 1000 },
                unit: "m/s".to_string()
            }),
        })
    );
    assert_eq!(
        Wind::from_str("99999999990,1,N,0072,1"),
        Err(mandatory_failure("99999999990,1,N,0072,1", Fault::Malformed, 0, "99999999990"))
    );
}

#[test]
fn a_ceiling_group_decodes() {
    assert_eq!(
        Ceiling::from_str("22000,5,9,N"),
        Ok(Ceiling {
            height: Some(RecordValue { value: 22000, unit: "m".to_string() }),
            quality_code: mandatory_code(
                "5",
                "Passed all quality control checks, data originate from an NCEI data source"
            ),
            determination_code: mandatory_code("9", "Missing"),
            cavok: mandatory_code("N", "No"),
        })
    );
    let missing = Ceiling::from_str("99999,9,M,Y").unwrap();
    assert_eq!(missing.height, None);
    assert_eq!(missing.determination_code, mandatory_code("M", "Measured"));
    assert_eq!(missing.cavok, mandatory_code("Y", "Yes"));
}

#[test]
fn a_visibility_group_decodes() {
    assert_eq!(
        Visibility::from_str("016000,1,N,1"),
        Ok(Visibility {
            distance: Some(RecordValue { value: 16000, unit: "m".to_string() }),
            distance_quality_code: mandatory_code("1", "Passed all quality control checks"),
            variability: mandatory_code("N", "Not variable"),
            variability_quality_code: mandatory_code("1", "Passed all quality control checks"),
        })
    );
    assert_eq!(
        Visibility::from_str("016000,1,N"),
        Err(mandatory_failure("016000,1,N", Fault::MissingToken, 3, ""))
    );
}

#[test]
fn a_temperature_is_scaled_by_ten_and_rounded_toward_zero() {
    let warm = Temperature::from_str("+0123,1").unwrap();
    assert_eq!(warm.air_temperature, Some(RecordValue { value: 12, unit: "\u{b0}C".to_string() }));
    assert_eq!(warm.air_temperature_quality_code, mandatory_code("1", "Passed all quality control checks"));
    let cold = Temperature::from_str("-0045,1").unwrap();
    assert_eq!(cold.air_temperature, Some(RecordValue { value: -4, unit: "\u{b0}C".to_string() }));
    let none = Temperature::from_str("+9999,9").unwrap();
    assert_eq!(none.air_temperature, None);
}

#[test]
fn a_dew_point_group_decodes() {
    let dew = Dew::from_str("-0010,5").unwrap();
    assert_eq!(dew.dew_point_temperature, Some(RecordValue { value: -1, unit: "\u{b0}C".to_string() }));
    assert_eq!(
        dew.dew_point_temperature_quality_code,
        mandatory_code("5", "Passed all quality control checks, data originate from an NCEI data source")
    );
    assert_eq!(Dew::from_str("-0010,8"), Err(mandatory_failure("-0010,8", Fault::UnknownCode, 1, "8")));
}

#[test]
fn a_pressure_group_decodes() {
    let slp = SeaLevelPressure::from_str("10132,1").unwrap();
    assert_eq!(slp.pressure, Some(RecordValue { value: 1013, unit: "hPa".to_string() }));
    let none = SeaLevelPressure::from_str("99999,9").unwrap();
    assert_eq!(none.pressure, None);
    assert_eq!(
        none.pressure_quality_code,
        mandatory_code("9", "Passed gross limits check if element is present")
    );
}

#[test]
fn a_coordinate_is_a_fixed_point_number_or_missing() {
    assert_eq!(
        GeoPhysicalPoint::from_str("+34.300"),
        Ok(GeoPhysicalPoint(Some(Ratio { numerator: 34300, denominator: 1000 })))
    );
    assert_eq!(
        GeoPhysicalPoint::from_str("-118"),
        Ok(GeoPhysicalPoint(Some(Ratio { numerator: -118, denominator: 1 })))
    );
    assert_eq!(GeoPhysicalPoint::from_str("+99.999"), Ok(GeoPhysicalPoint(None)));
    assert_eq!(GeoPhysicalPoint::from_str(""), Ok(GeoPhysicalPoint(None)));
    assert_eq!(GeoPhysicalPoint::from_str("north 34"), Err(NumberError::Malformed));
    assert_eq!(GeoPhysicalPoint::from_str("3.4e1"), Err(NumberError::Malformed));
}
