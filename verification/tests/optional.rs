use isd_parser::fields::codes::CodeRecord;
use isd_parser::fields::optional::climate_reference_network::door_flag;
use isd_parser::fields::optional::climate_reference_network::CBX;
use isd_parser::fields::optional::climate_reference_network::CHX;
use isd_parser::fields::optional::climate_reference_network::CN4;
use isd_parser::fields::optional::cloud_solar::GAX;
use isd_parser::fields::optional::cloud_solar::GH1;
use isd_parser::fields::optional::cloud_solar::GM1;
use isd_parser::fields::optional::ground_surface::IA1;
use isd_parser::fields::optional::ground_surface::IA2;
use isd_parser::fields::optional::marine::UA1;
use isd_parser::fields::optional::marine::UGX;
use isd_parser::fields::optional::network_metadata::CO1;
use isd_parser::fields::optional::network_metadata::COX;
use isd_parser::fields::optional::network_metadata::CR1;
use isd_parser::fields::optional::network_metadata::CVX;
use isd_parser::fields::optional::precipitation::dates;
use isd_parser::fields::optional::precipitation::AAX;
use isd_parser::fields::optional::precipitation::AD1;
use isd_parser::fields::optional::precipitation::AE1;
use isd_parser::fields::optional::precipitation::AHX;
use isd_parser::fields::optional::precipitation::AK1;
use isd_parser::fields::optional::precipitation::AM1;
use isd_parser::fields::optional::pressure::MA1;
use isd_parser::fields::optional::pressure::MK1;
use isd_parser::fields::optional::runway_visual_range::ED1;
use isd_parser::fields::optional::sea_surface_temperature::SA1;
use isd_parser::fields::optional::temperature::KDX;
use isd_parser::fields::optional::temperature::KE1;
use isd_parser::fields::optional::weather_occurrence::ATX;
use isd_parser::fields::optional::weather_occurrence::AXX;
use isd_parser::fields::optional::weather_occurrence::MWX;
use isd_parser::fields::optional::wind::OAX;
use isd_parser::fields::optional::wind::RHX;
use isd_parser::fields::schema::coded;
use isd_parser::fields::schema::measure;
use isd_parser::fields::schema::present_text;
use isd_parser::fields::schema::text;
use isd_parser::fields::schema::trimmed_text;
use isd_parser::fields::schema::Fault;
use isd_parser::fields::schema::FieldError;
use isd_parser::fields::schema::FieldGroup;
use isd_parser::model::RecordValue;
use isd_parser::number::Ratio;

fn optional_code(value: &str, description: &str) -> CodeRecord {
    CodeRecord { value: value.to_string(), description: description.to_string() }
}

fn optional_failure(text: &str, fault: Fault, position: usize, token: &str) -> FieldError {
    FieldError { fault, position, token: token.to_string(), text: text.to_string() }
}

fn optional_ratio(numerator: i64, denominator: i64, unit: &str) -> Option<RecordValue<Ratio>> {
    Some(RecordValue { value: Ratio { numerator, denominator }, unit: unit.to_string() })
}

fn optional_parts(tokens: &[&str]) -> Vec<String> {
    tokens.iter().map(|t| t.to_string()).collect()
}

const PASSED: &str = "Passed all quality control checks";

#[test]
fn a_member_is_read_at_its_position() {
    let parts = optional_parts(&["0072", " N ", "9999", " 0831 "]);
    assert_eq!(measure::<i32>(&parts, 0, "m", 10), Ok(Some(RecordValue { value: 7, unit: "m".to_string() })));
    assert_eq!(measure::<i32>(&parts, 2, "m", 10), Ok(None));
    assert_eq!(measure::<i32>(&parts, 1, "m", 10), Ok(None));
    assert_eq!(measure::<i32>(&parts, 3, "m", 10), Err(optional_failure("0072, N ,9999, 0831 ", Fault::Malformed, 3, " 0831 ")));
    assert_eq!(measure::<i32>(&parts, 0, "m", 0), Err(optional_failure("0072, N ,9999, 0831 ", Fault::Unrepresentable, 0, "0072")));
    assert_eq!(measure::<i32>(&parts, 4, "m", 10), Err(optional_failure("0072, N ,9999, 0831 ", Fault::MissingToken, 4, "")));
    assert_eq!(
        coded(&parts, 1, &isd_parser::fields::codes::BOOL_CODES),
        Ok(optional_code("N", "No"))
    );
    assert_eq!(
        coded(&parts, 0, &isd_parser::fields::codes::BOOL_CODES),
        Err(optional_failure("0072, N ,9999, 0831 ", Fault::UnknownCode, 0, "0072"))
    );
    assert_eq!(
        coded(&parts, 9, &isd_parser::fields::codes::BOOL_CODES),
        Err(optional_failure("0072, N ,9999, 0831 ", Fault::MissingToken, 9, ""))
    );
    assert_eq!(text(&parts, 3), Ok(" 0831 ".to_string()));
    assert_eq!(text(&parts, 4), Err(optional_failure("0072, N ,9999, 0831 ", Fault::MissingToken, 4, "")));
    assert_eq!(present_text(&parts, 3), Ok(Some(" 0831 ".to_string())));
    assert_eq!(present_text(&parts, 2), Ok(None));
    assert_eq!(present_text(&parts, 5), Err(optional_failure("0072, N ,9999, 0831 ", Fault::MissingToken, 5, "")));
    assert_eq!(trimmed_text(&parts, 3), Ok(Some("0831".to_string())));
    assert_eq!(trimmed_text(&parts, 2), Ok(None));
    assert_eq!(trimmed_text(&parts, 6), Err(optional_failure("0072, N ,9999, 0831 ", Fault::MissingToken, 6, "")));
}

#[test]
fn liquid_precipitation_decodes() {
    assert_eq!(
        AAX::from_str("01,0010,9,5"),
        Ok(AAX {
            period_quantity: Some(RecordValue { value: 1, unit: "Hours".to_string() }),
            depth_dimension: optional_ratio(10, 10, "mm"),
            condition_code: optional_code("9", "Missing"),
            quality_code: optional_code(
                "5",
                "Passed all quality control checks, data originate from an NCEI data source"
            ),
        })
    );
    let none = AAX::from_str("99,9999,9,9").unwrap();
    assert_eq!(none.period_quantity, None);
    assert_eq!(none.depth_dimension, None);
    assert_eq!(AAX::from_str("200,0010,9,5"), Err(optional_failure("200,0010,9,5", Fault::Malformed, 0, "200")));
}

#[test]
fn the_dates_of_the_greatest_precipitation_get_a_hyphen() {
    let both = AD1::from_str("00123,2,0102,1112,0000,1").unwrap();
    assert_eq!(both.depth_dimension, optional_ratio(123, 10, "mm"));
    assert_eq!(both.dates_of_occurrence, vec!["01-02", "11-12"]);
    assert_eq!(both.condition_code, optional_code("2", "Trace"));
    assert_eq!(both.quality_code, optional_code("1", PASSED));
    let one = AD1::from_str("00123,2,9999,1112,0000,1").unwrap();
    assert_eq!(one.dates_of_occurrence, vec!["11-12"]);
    let none = AD1::from_str("00123,2,9999,9999,9999,1").unwrap();
    assert!(none.dates_of_occurrence.is_empty());
}

#[test]
fn a_double_date_is_split_in_the_middle() {
    assert_eq!(dates(&optional_parts(&["010203", "12"]), 0, 1), Ok(vec!["010-203".to_string(), "1-2".to_string()]));
    assert_eq!(dates(&optional_parts(&["01020", "1"]), 0, 1), Ok(vec!["01-020".to_string(), "-1".to_string()]));
    assert_eq!(dates(&optional_parts(&["99", "0102"]), 1, 0), Ok(vec!["01-02".to_string()]));
    assert_eq!(dates(&optional_parts(&["0102"]), 0, 0), Ok(vec!["01-02".to_string(), "01-02".to_string()]));
    assert_eq!(dates(&optional_parts(&["0102"]), 0, 1), Err(optional_failure("0102", Fault::MissingToken, 1, "")));
    assert_eq!(dates(&optional_parts(&["0102"]), 3, 0), Err(optional_failure("0102", Fault::MissingToken, 3, "")));
}

#[test]
fn a_double_date_counts_its_middle_in_characters() {
    // Three characters, two of them of two bytes each: the hyphen goes before the second.
    assert_eq!(
        dates(&optional_parts(&["\u{e9}\u{e9}1", "99"]), 0, 1),
        Ok(vec!["\u{e9}-\u{e9}1".to_string()])
    );
    // Four characters, three of them of three bytes each: the hyphen goes before the third.
    assert_eq!(
        dates(&optional_parts(&["1\u{20ac}\u{20ac}\u{20ac}", "99"]), 0, 1),
        Ok(vec!["1\u{20ac}-\u{20ac}\u{20ac}".to_string()])
    );
}

#[test]
fn the_greatest_precipitation_fails_in_the_order_of_its_members() {
    assert_eq!(AD1::from_str("00123,2,0102"), Err(optional_failure("00123,2,0102", Fault::MissingToken, 3, "")));
    assert_eq!(AD1::from_str("00123,X,0102"), Err(optional_failure("00123,X,0102", Fault::MissingToken, 3, "")));
    assert_eq!(AD1::from_str("00123,X,0102,1112,0000,1"), Err(optional_failure("00123,X,0102,1112,0000,1", Fault::UnknownCode, 1, "X")));
    assert_eq!(AD1::from_str("00123,2,0102,1112,0000"), Err(optional_failure("00123,2,0102,1112,0000", Fault::MissingToken, 5, "")));
}

#[test]
fn the_days_with_precipitation_decode() {
    let days = AE1::from_str("05,1,03,1,01,1,00,1").unwrap();
    assert_eq!(days.days_01, Some(RecordValue { value: 5, unit: "Days".to_string() }));
    assert_eq!(days.days_10, Some(RecordValue { value: 3, unit: "Days".to_string() }));
    assert_eq!(days.days_50, Some(RecordValue { value: 1, unit: "Days".to_string() }));
    assert_eq!(days.days_100, Some(RecordValue { value: 0, unit: "Days".to_string() }));
    assert_eq!(days.days_100_quality, optional_code("1", PASSED));
    assert_eq!(AE1::from_str("05,1,03,1,01,1,00"), Err(optional_failure("05,1,03,1,01,1,00", Fault::MissingToken, 7, "")));
}

#[test]
fn the_end_of_a_short_duration_is_kept_as_trimmed_text() {
    let group = AHX::from_str("015,0123,1, 051234 ,1").unwrap();
    assert_eq!(group.period_quantity, Some(RecordValue { value: 15, unit: "minutes".to_string() }));
    assert_eq!(group.depth_dimension, optional_ratio(123, 10, "mm"));
    assert_eq!(group.condition_code, optional_code("1", "Measurement impossible or inaccurate"));
    assert_eq!(group.end_date_time, Some("051234".to_string()));
    let none = AHX::from_str("015,0123,1,999999,1").unwrap();
    assert_eq!(none.end_date_time, None);
}

#[test]
fn the_dates_of_the_greatest_snow_depth_pass_through() {
    let group = AK1::from_str("0100,1,010203,9999, 12 ,4").unwrap();
    assert_eq!(group.depth_dimension, Some(RecordValue { value: 100, unit: "cm".to_string() }));
    assert_eq!(
        group.dates_of_occourence,
        ["010203".to_string(), "9999".to_string(), " 12 ".to_string()]
    );
    assert_eq!(group.quality_code, optional_code("4", "Passed gross limits check, data originate from an NCEI data source"));
    assert_eq!(AK1::from_str("0100,1,010203,9999"), Err(optional_failure("0100,1,010203,9999", Fault::MissingToken, 4, "")));
}

#[test]
fn the_greatest_snow_accumulation_reads_its_quality_at_the_fifth_token() {
    let group = AM1::from_str("0100,1,0102,0304,5").unwrap();
    assert_eq!(group.depth_dimension, optional_ratio(100, 10, "cm"));
    assert_eq!(group.dates_of_occourence, ["0102".to_string(), "0304".to_string(), "5".to_string()]);
    assert_eq!(
        group.quality_code,
        optional_code("5", "Passed all quality control checks, data originate from an NCEI data source")
    );
    assert_eq!(AM1::from_str("0100,1,0102,0304,0506,1"), Err(optional_failure("0100,1,0102,0304,0506,1", Fault::UnknownCode, 4, "0506")));
}

#[test]
fn present_weather_decodes() {
    let group = ATX::from_str("AU,03,TS,1").unwrap();
    assert_eq!(group.source_element, optional_code("AU", "sourced from automated ASOS/AWOS sensors"));
    assert_eq!(group.weather_type, optional_code("03", "Thunder"));
    assert_eq!(group.weather_type_abbreviation, optional_code("TS", "Thunder"));
    assert_eq!(ATX::from_str("AU,03,ts,1"), Err(optional_failure("AU,03,ts,1", Fault::UnknownCode, 2, "ts")));
    let past = AXX::from_str("03,1,24,1").unwrap();
    assert_eq!(past.atmospheric_condition_code, optional_code("03", "thunder"));
    assert_eq!(past.period_quantity, Some(RecordValue { value: 24, unit: "h".to_string() }));
    let manual = MWX::from_str("10,1").unwrap();
    assert_eq!(manual.manual_atmospheric_condition_code, optional_code("10", "Mist"));
}

#[test]
fn the_reference_network_precipitation_decodes() {
    let group = CBX::from_str("05,+000123,1,0").unwrap();
    assert_eq!(group.period_quantity, Some(RecordValue { value: 5, unit: "Minutes".to_string() }));
    assert_eq!(group.liquid_depth, optional_ratio(123, 10, "mm"));
    assert_eq!(group.quality_flag, optional_code("0", PASSED));
    let humid = CHX::from_str("60,-0012,1,0,0873,1,0").unwrap();
    assert_eq!(humid.period_quantity, Some(RecordValue { value: 60u8, unit: "Minutes".to_string() }));
    assert_eq!(humid.avg_air_temp, optional_ratio(-12, 10, "\u{b0}C"));
    assert_eq!(humid.avg_rh, optional_ratio(873, 10, "%"));
    assert_eq!(CHX::from_str("-5,-0012,1,0,0873,1,0"), Err(optional_failure("-5,-0012,1,0,0873,1,0", Fault::Malformed, 0, "-5")));
    assert_eq!(CHX::from_str("256,-0012,1,0,0873,1,0"), Err(optional_failure("256,-0012,1,0,0873,1,0", Fault::Malformed, 0, "256")));
}

#[test]
fn a_door_flag_is_a_binary_numeral() {
    let closed = door_flag(&optional_parts(&["0"]), 0).unwrap();
    assert_eq!(closed, optional_code("0", "closed"));
    assert_eq!(door_flag(&optional_parts(&["0000"]), 0), Ok(optional_code("0", "closed")));
    assert_eq!(door_flag(&optional_parts(&["1"]), 0), Ok(optional_code("1", "open")));
    assert_eq!(door_flag(&optional_parts(&["0101"]), 0), Ok(optional_code("5", "open")));
    assert_eq!(door_flag(&optional_parts(&["10000000000000"]), 0), Ok(optional_code("8192", "open")));
    assert_eq!(door_flag(&optional_parts(&["10000000000001"]), 0), Ok(optional_code("8193", "missing")));
    assert_eq!(door_flag(&optional_parts(&["10011100001111"]), 0), Ok(optional_code("9999", "missing")));
    assert_eq!(door_flag(&optional_parts(&["-1"]), 0), Ok(optional_code("-1", "missing")));
    assert_eq!(door_flag(&optional_parts(&["x", "+11"]), 1), Ok(optional_code("3", "open")));
}

#[test]
fn a_door_flag_that_is_no_binary_numeral_is_malformed() {
    assert_eq!(door_flag(&optional_parts(&["9999"]), 0), Err(optional_failure("9999", Fault::Malformed, 0, "9999")));
    assert_eq!(door_flag(&optional_parts(&["2"]), 0), Err(optional_failure("2", Fault::Malformed, 0, "2")));
    assert_eq!(door_flag(&optional_parts(&[""]), 0), Err(optional_failure("", Fault::Malformed, 0, "")));
    assert_eq!(door_flag(&optional_parts(&[" 1"]), 0), Err(optional_failure(" 1", Fault::Malformed, 0, " 1")));
    assert_eq!(door_flag(&optional_parts(&["1"]), 1), Err(optional_failure("1", Fault::MissingToken, 1, "")));
}

#[test]
fn the_station_diagnostics_decode() {
    let group = CN4::from_str("1,1,0,0110,1,0,0123,1,0045,1,0").unwrap();
    assert_eq!(group.gague_heater_flag, optional_code("1", "On"));
    assert_eq!(group.door_flag, optional_code("6", "open"));
    assert_eq!(group.fort_trans, optional_ratio(123, 10, "watts"));
    assert_eq!(group.refl_trans, optional_ratio(45, 10, "watts"));
    assert_eq!(group.refl_trans_quality_flag, optional_code("0", PASSED));
    assert_eq!(
        CN4::from_str("1,1,0,9999,1,0,0123,1,0045,1,0"),
        Err(optional_failure("1,1,0,9999,1,0,0123,1,0045,1,0", Fault::Malformed, 3, "9999"))
    );
    assert_eq!(
        CN4::from_str("1,1,7,0,1,0,0123,1,0045,1,0").unwrap().gague_heater_quality_flag,
        optional_code("7", "Did not pass all quality check")
    );
}

#[test]
fn network_metadata_decodes() {
    let meta = CO1::from_str("05,-06").unwrap();
    assert_eq!(meta.climate_division, Some(RecordValue { value: 5, unit: "".to_string() }));
    assert_eq!(meta.time_conversion, Some(RecordValue { value: -6, unit: "h".to_string() }));
    let offset = COX::from_str("T1,+05").unwrap();
    assert_eq!(offset.element_id, Some("T1".to_string()));
    assert_eq!(offset.time_offset, optional_ratio(5, 10, "h"));
    // An element without a digit in its name reads as missing.
    assert_eq!(COX::from_str("TMP,+05").unwrap().element_id, None);
    let version = CR1::from_str("01234,1,0").unwrap();
    assert_eq!(version.version, optional_ratio(1234, 1000, ""));
    assert_eq!(CR1::from_str("01234,2,0"), Err(optional_failure("01234,2,0", Fault::UnknownCode, 1, "2")));
}

#[test]
fn the_times_of_the_temperature_extremes_are_kept_as_they_stand() {
    let group = CVX::from_str("-0012,1,0, 0612,1,0,+0234,1,0,9999,1,0").unwrap();
    assert_eq!(group.air_temp_min, optional_ratio(-12, 10, "\u{b0}C"));
    assert_eq!(group.air_temp_min_time, Some(" 0612".to_string()));
    assert_eq!(group.air_temp_max, optional_ratio(234, 10, "\u{b0}C"));
    assert_eq!(group.air_temp_max_time, None);
}

#[test]
fn a_runway_direction_is_scaled_up() {
    let group = ED1::from_str("09,L,1200,1").unwrap();
    assert_eq!(group.direction_angle, optional_ratio(90, 1, "\u{b0}"));
    assert_eq!(group.designator_code, optional_code("L", "left"));
    assert_eq!(group.visibility_dimension, optional_ratio(1200, 1, "m"));
    assert_eq!(ED1::from_str("99,9,9999,9").unwrap().direction_angle, None);
}

#[test]
fn a_sky_cover_layer_decodes() {
    assert_eq!(
        GAX::from_str("04,1,+01500,1,00,1"),
        Ok(GAX {
            coverage_code: optional_code("04", "Four oktas - 5/10, or SCT"),
            coverage_quality_code: optional_code("1", PASSED),
            base_height: Some(RecordValue { value: 1500, unit: "meters".to_string() }),
            base_height_quality_code: optional_code("1", PASSED),
            cloud_type_code: optional_code("00", "Cirrus (Ci)"),
            cloud_type_quality_code: optional_code("1", PASSED),
        })
    );
    assert_eq!(GAX::from_str("04,1,+01500,1,00"), Err(optional_failure("04,1,+01500,1,00", Fault::MissingToken, 5, "")));
}

#[test]
fn solar_radiation_is_scaled_in_whole_numbers() {
    let group = GH1::from_str("01234,1,0,00019,1,0,-0019,1,0,99999,9,9").unwrap();
    assert_eq!(group.avg_solar_radiation, Some(RecordValue { value: 123, unit: "W/m^2".to_string() }));
    assert_eq!(group.min_solar_radiation, Some(RecordValue { value: 1, unit: "W/m^2".to_string() }));
    assert_eq!(group.max_solar_radiation, Some(RecordValue { value: -1, unit: "W/m^2".to_string() }));
    assert_eq!(group.std_solar_radiation, None);
}

#[test]
fn solar_irradiance_decodes_all_its_members() {
    let group = GM1::from_str("0060,0123,00,1,0456,01,1,0789,02,1,0012,03,1").unwrap();
    assert_eq!(group.solar_irradiance_period, Some(RecordValue { value: 60, unit: "minutes".to_string() }));
    assert_eq!(group.global_irradiance, Some(RecordValue { value: 123, unit: "W/m^2".to_string() }));
    assert_eq!(group.global_irradiance_data_flag, optional_code("00", "Untested (raw data)"));
    assert_eq!(group.direct_beam_irradiance, Some(RecordValue { value: 456, unit: "W/m^2".to_string() }));
    assert_eq!(group.diffuse_irradiance, Some(RecordValue { value: 789, unit: "W/m^2".to_string() }));
    assert_eq!(group.uvb_global_irradiance, Some(RecordValue { value: 12, unit: "W/m^2".to_string() }));
    assert_eq!(group.uvb_global_irradiance_quality_code, optional_code("1", PASSED));
    assert_eq!(
        GM1::from_str("0060,0123,00,1,0456,01,1,0789,02,1,0012,03"),
        Err(optional_failure("0060,0123,00,1,0456,01,1,0789,02,1,0012,03", Fault::MissingToken, 12, ""))
    );
    assert_eq!(
        GM1::from_str("0060,0123,00,1,0456,01,1,0789,02,1,0012,zz,1"),
        Err(optional_failure("0060,0123,00,1,0456,01,1,0789,02,1,0012,zz,1", Fault::UnknownCode, 11, "zz"))
    );
}

#[test]
fn the_ground_surface_decodes() {
    let state = IA1::from_str("00,1").unwrap();
    assert_eq!(
        state.observation_code,
        optional_code("00", "Surface of ground dry (no appreciable amount of dust or loose sand)")
    );
    let low = IA2::from_str("120,-0035,1").unwrap();
    assert_eq!(low.min_temp_period, optional_ratio(120, 1, "h"));
    assert_eq!(low.min_temp, optional_ratio(-35, 10, "\u{b0}C"));
}

#[test]
fn waves_and_swell_decode() {
    let wave = UA1::from_str("M,05,012,x,1,03,1").unwrap();
    assert_eq!(wave.method_code, optional_code("M", "Manual"));
    assert_eq!(wave.wave_period_quantity, Some(RecordValue { value: 5isize, unit: "s".to_string() }));
    assert_eq!(wave.wave_height_dimension, optional_ratio(12, 10, "m"));
    assert_eq!(wave.sea_state_code, optional_code("03", "Slight, wave height = 0.5-1.25 meters"));
    let swell = UGX::from_str("08,015,270,1").unwrap();
    assert_eq!(swell.direction_angle, Some(RecordValue { value: 270isize, unit: "\u{c2}\u{b0}".to_string() }));
}

#[test]
fn pressure_groups_decode() {
    let group = MA1::from_str("10132,1,09876,1").unwrap();
    assert_eq!(group.altimeter_setting_rate, optional_ratio(10132, 10, "hPa"));
    assert_eq!(group.station_pressure_rate, optional_ratio(9876, 10, "hPa"));
    let month = MK1::from_str("10350,051230,1,09820,211805,1").unwrap();
    assert_eq!(month.max_sea_level_pressure_month, optional_ratio(10350, 10, "hPa"));
    assert_eq!(
        month.max_sea_level_pressure_month_date_time,
        Some(RecordValue { value: 51230isize, unit: "".to_string() })
    );
    assert_eq!(
        month.min_sea_level_pressure_month_date_time,
        Some(RecordValue { value: 211805isize, unit: "".to_string() })
    );
}

#[test]
fn temperature_groups_decode() {
    let days = KDX::from_str("024,H,0035,1").unwrap();
    assert_eq!(days.period_quantity, Some(RecordValue { value: 24isize, unit: "hours".to_string() }));
    assert_eq!(days.code, optional_code("H", "Heating Degree Days"));
    assert_eq!(
        days.value,
        Some(RecordValue { value: 35isize, unit: "Heating or Cooling Degree Days".to_string() })
    );
    let extremes = KE1::from_str("01,1,02,1,03,1,04").unwrap();
    assert_eq!(extremes.max_temp_32_f_days, Some(RecordValue { value: 1isize, unit: "Days".to_string() }));
    assert_eq!(extremes.min_temp_0_f_days, Some(RecordValue { value: 4isize, unit: "Days".to_string() }));
    assert_eq!(KE1::from_str("01,1,02,1,03,1"), Err(optional_failure("01,1,02,1,03,1", Fault::MissingToken, 6, "")));
    let sea = SA1::from_str("+0215,1").unwrap();
    assert_eq!(sea.temperature, optional_ratio(215, 10, "\u{b0}C"));
}

#[test]
fn supplementary_wind_and_humidity_decode() {
    let wind = OAX::from_str("1,03,0045,1").unwrap();
    assert_eq!(wind.type_code, optional_code("1", "Average speed of prevailing wind"));
    assert_eq!(wind.period_quantity, optional_ratio(3, 1, "hours"));
    assert_eq!(wind.speed_rate, optional_ratio(45, 10, "m/s"));
    let humidity = RHX::from_str("024,M,087,D,1").unwrap();
    assert_eq!(humidity.period_quantity, optional_ratio(24, 1, "hours"));
    assert_eq!(humidity.code, optional_code("M", "Mean relative humidity"));
    assert_eq!(humidity.percentage, optional_ratio(87, 1, "%"));
    assert_eq!(humidity.derrived_code, optional_code("D", "Derived from hourly values"));
    assert_eq!(RHX::from_str("024,M,087,E,1"), Err(optional_failure("024,M,087,E,1", Fault::UnknownCode, 3, "E")));
}
