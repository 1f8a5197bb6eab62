use isd_parser::fields::codes::CodeRecord;
use isd_parser::fields::group::decode_group;
use isd_parser::fields::group::OptionalGroup;
use isd_parser::fields::group::Shape;
use isd_parser::fields::group::SLOTS;
use isd_parser::fields::mandatory::Wind;
use isd_parser::fields::optional::cloud_solar::GAX;
use isd_parser::fields::optional::precipitation::AAX;
use isd_parser::fields::schema::Fault;
use isd_parser::fields::schema::FieldError;
use isd_parser::fields::schema::FieldGroup;
use isd_parser::model::find_column;
use isd_parser::model::decode_slot;
use isd_parser::model::decode_slots;
use isd_parser::model::Column;
use isd_parser::model::Record;
use isd_parser::model::RecordValue;
use isd_parser::model::RowError;
use isd_parser::model::RowFault;
use isd_parser::model::Slot;
use isd_parser::number::Ratio;
use isd_parser::util::naive_date_time_from_str;

fn record_row(columns: &[(&str, &str)]) -> Vec<Column> {
    columns
        .iter()
        .map(|(name, value)| Column { name: name.to_string(), value: value.to_string() })
        .collect()
}

fn record_mandatory() -> Vec<(&'static str, &'static str)> {
    vec![
        ("STATION", "72295023174"),
        ("DATE", "2020-01-01T00:53:00"),
        ("SOURCE", "7"),
        ("LATITUDE", "33.9381"),
        ("LONGITUDE", "-118.3889"),
        ("ELEVATION", "29.6"),
        ("NAME", "LOS ANGELES INTERNATIONAL AIRPORT, CA US"),
        ("REPORT_TYPE", "FM-15"),
        ("CALL_SIGN", "KLAX "),
        ("QUALITY_CONTROL", "V020"),
        ("WND", "220,1,N,0072,1"),
        ("CIG", "22000,5,9,N"),
        ("VIS", "016093,5,N,5"),
        ("TMP", "+0117,5"),
        ("SLP", "10199,5"),
    ]
}

fn record_with(extra: &[(&'static str, &'static str)]) -> Vec<Column> {
    let mut columns = record_mandatory();
    columns.extend_from_slice(extra);
    record_row(&columns)
}

fn record_without(name: &str) -> Vec<Column> {
    let columns: Vec<(&str, &str)> =
        record_mandatory().into_iter().filter(|(n, _)| *n != name).collect();
    record_row(&columns)
}

fn record_replacing(name: &'static str, value: &'static str) -> Vec<Column> {
    let columns: Vec<(&str, &str)> = record_mandatory()
        .into_iter()
        .map(|(n, v)| if n == name { (n, value) } else { (n, v) })
        .collect();
    record_row(&columns)
}

fn record_field_failure(
    column: &str,
    text: &str,
    fault: Fault,
    position: usize,
    token: &str,
) -> RowError {
    RowError {
        column: column.to_string(),
        fault: RowFault::Field(FieldError {
            fault,
            position,
            token: token.to_string(),
            text: text.to_string(),
        }),
    }
}

#[test]
fn a_row_assembles_to_a_record() {
    let record = Record::from_row(&record_with(&[])).unwrap();
    assert_eq!(record.station, "72295023174");
    assert_eq!(record.date, naive_date_time_from_str("2020-01-01T00:53:00").unwrap());
    assert_eq!(record.source, "7");
    assert_eq!(record.latitude, Ratio { numerator: 339381, denominator: 10000 });
    assert_eq!(record.longitude, Ratio { numerator: -1183889, denominator: 10000 });
    assert_eq!(record.elevation, Ratio { numerator: 296, denominator: 10 });
    assert_eq!(record.name, "LOS ANGELES INTERNATIONAL AIRPORT, CA US");
    assert_eq!(record.report_type, "FM-15");
    assert_eq!(record.call_sign, "KLAX");
    assert_eq!(record.quality_control, "V020");
    assert_eq!(record.wnd, Wind::from_str("220,1,N,0072,1").unwrap());
    assert_eq!(record.wnd.direction_angle, Some(RecordValue { value: 220, unit: "\u{b0}".to_string() }));
    assert_eq!(record.cig.height, Some(RecordValue { value: 22000, unit: "m".to_string() }));
    assert_eq!(record.vis.distance, Some(RecordValue { value: 16093, unit: "m".to_string() }));
    assert_eq!(record.tmp.air_temperature, Some(RecordValue { value: 11, unit: "\u{b0}C".to_string() }));
    assert_eq!(record.slp.pressure, Some(RecordValue { value: 1019, unit: "hPa".to_string() }));
    assert!(record.optional.is_empty());
}

#[test]
fn a_row_of_sentinels_assembles_with_empty_measurements() {
    let mut row = record_replacing("WND", "999,9,9,9999,9");
    for c in row.iter_mut() {
        if c.name == "SLP" {
            c.value = "99999,9".to_string();
        }
    }
    let record = Record::from_row(&row).unwrap();
    assert_eq!(record.wnd.direction_angle, None);
    assert_eq!(record.wnd.speed_rate, None);
    assert_eq!(
        record.wnd.type_code,
        CodeRecord { value: "9".to_string(), description: "Missing".to_string() }
    );
    assert_eq!(record.slp.pressure, None);
}

#[test]
fn the_optional_slots_of_a_record_are_those_that_the_row_holds() {
    let row = record_with(&[
        ("GA1", "04,1,+01500,1,00,1"),
        ("AA2", ""),
        ("REM", "MET070METAR KLAX"),
        ("AA1", "01,0010,9,5"),
        ("GA3", "08,1,+00300,1,99,9"),
    ]);
    let record = Record::from_row(&row).unwrap();
    let names: Vec<&str> = record.optional.iter().map(|s| s.name).collect();
    assert_eq!(names, vec!["AA1", "GA1", "GA3"]);
    assert_eq!(
        record.optional[0],
        Slot { name: "AA1", group: OptionalGroup::AAX(AAX::from_str("01,0010,9,5").unwrap()) }
    );
    assert_eq!(
        record.optional[1],
        Slot { name: "GA1", group: OptionalGroup::GAX(GAX::from_str("04,1,+01500,1,00,1").unwrap()) }
    );
    match &record.optional[2].group {
        OptionalGroup::GAX(layer) => {
            assert_eq!(layer.base_height, Some(RecordValue { value: 300, unit: "meters".to_string() }));
            assert_eq!(layer.cloud_type_code.description, "Missing");
        }
        other => panic!("a sky cover layer was expected, not {:?}", other),
    }
}

#[test]
fn a_slot_is_decided_by_its_own_column() {
    let row = record_with(&[("AA1", "01,0010,9,5"), ("GA1", "04,1,+01500,1,zz,1")]);
    // A: present and valid.
    assert_eq!(
        decode_slot(&row, "AA1", Shape::AAX),
        Ok(Some(OptionalGroup::AAX(AAX::from_str("01,0010,9,5").unwrap())))
    );
    // B: no such column.
    assert_eq!(decode_slot(&row, "AA2", Shape::AAX), Ok(None));
    // C: present and invalid.
    assert_eq!(
        decode_slot(&row, "GA1", Shape::GAX),
        Err(FieldError {
            fault: Fault::UnknownCode,
            position: 4,
            token: "zz".to_string(),
            text: "04,1,+01500,1,zz,1".to_string(),
        })
    );
    // A and B come to the same in a row without C and in a row whose C is valid.
    for other in [record_with(&[("AA1", "01,0010,9,5")]), record_with(&[("GA1", "04,1,+01500,1,00,1"), ("AA1", "01,0010,9,5")])] {
        assert_eq!(decode_slot(&other, "AA1", Shape::AAX), decode_slot(&row, "AA1", Shape::AAX));
        assert_eq!(decode_slot(&other, "AA2", Shape::AAX), decode_slot(&row, "AA2", Shape::AAX));
    }
}

#[test]
fn a_failing_slot_fails_the_row_and_is_named() {
    let row = record_with(&[("AA1", "01,0010,9,5"), ("GA1", "04,1,+01500,1,zz,1")]);
    assert_eq!(Record::from_row(&row), Err(record_field_failure("GA1", "04,1,+01500,1,zz,1", Fault::UnknownCode, 4, "zz")));
    let short = record_with(&[("MW1", "10")]);
    assert_eq!(Record::from_row(&short), Err(record_field_failure("MW1", "10", Fault::MissingToken, 1, "")));
}

#[test]
fn the_first_failing_slot_of_the_table_is_the_one_that_is_named() {
    let row = record_with(&[
        ("GA1", "04,1,+01500,1,zz,1"),
        ("AA3", "xx1,0010,9,5"),
        ("AA1", "01,0010,9,5"),
    ]);
    assert_eq!(Record::from_row(&row), Err(record_field_failure("AA3", "xx1,0010,9,5", Fault::Malformed, 0, "xx1")));
}

#[test]
fn an_empty_or_absent_optional_column_leaves_its_slot_out() {
    let row = record_with(&[("AA1", ""), ("GA1", "04,1,+01500,1,00,1")]);
    assert_eq!(decode_slot(&row, "AA1", Shape::AAX), Ok(None));
    assert_eq!(decode_slot(&row, "AB1", Shape::AB1), Ok(None));
    let record = Record::from_row(&row).unwrap();
    assert_eq!(record.optional.len(), 1);
    assert_eq!(record.optional[0].name, "GA1");
    // White space is text like any other.
    let blank = record_with(&[("AA1", " ")]);
    assert_eq!(
        decode_slot(&blank, "AA1", Shape::AAX),
        Err(FieldError {
            fault: Fault::MissingToken,
            position: 1,
            token: "".to_string(),
            text: " ".to_string(),
        })
    );
}

#[test]
fn a_row_without_a_mandatory_column_fails() {
    for name in [
        "STATION", "DATE", "SOURCE", "LATITUDE", "LONGITUDE", "ELEVATION", "NAME", "REPORT_TYPE",
        "CALL_SIGN", "QUALITY_CONTROL", "WND", "CIG", "VIS", "TMP", "SLP",
    ] {
        assert_eq!(
            Record::from_row(&record_without(name)),
            Err(RowError { column: name.to_string(), fault: RowFault::MissingColumn })
        );
    }
    assert_eq!(
        Record::from_row(&Vec::new()),
        Err(RowError { column: "STATION".to_string(), fault: RowFault::MissingColumn })
    );
}

#[test]
fn a_mandatory_column_decodes_even_where_it_is_empty() {
    assert_eq!(
        Record::from_row(&record_replacing("WND", "")),
        Err(record_field_failure("WND", "", Fault::MissingToken, 1, ""))
    );
    assert_eq!(
        Record::from_row(&record_replacing("TMP", "+0117")),
        Err(record_field_failure("TMP", "+0117", Fault::MissingToken, 1, ""))
    );
    assert_eq!(
        Record::from_row(&record_replacing("CIG", "22000,5,Q,N")),
        Err(record_field_failure("CIG", "22000,5,Q,N", Fault::UnknownCode, 2, "Q"))
    );
    let empty = Record::from_row(&record_replacing("STATION", "")).unwrap();
    assert_eq!(empty.station, "");
}

#[test]
fn a_row_with_a_bad_timestamp_or_number_fails() {
    assert_eq!(
        Record::from_row(&record_replacing("DATE", "2020-01-01 00:53:00")),
        Err(RowError {
            column: "DATE".to_string(),
            fault: RowFault::Timestamp("2020-01-01 00:53:00".to_string())
        })
    );
    assert_eq!(
        Record::from_row(&record_replacing("LATITUDE", "north")),
        Err(RowError { column: "LATITUDE".to_string(), fault: RowFault::Number("north".to_string()) })
    );
    assert_eq!(
        Record::from_row(&record_replacing("LONGITUDE", "")),
        Err(RowError { column: "LONGITUDE".to_string(), fault: RowFault::Number("".to_string()) })
    );
    assert_eq!(
        Record::from_row(&record_replacing("ELEVATION", "1e2")),
        Err(RowError { column: "ELEVATION".to_string(), fault: RowFault::Number("1e2".to_string()) })
    );
}

#[test]
fn the_failure_of_a_row_is_that_of_its_first_failing_member() {
    let mut row = record_with(&[("AA1", "bad0")]);
    for c in row.iter_mut() {
        if c.name == "SLP" {
            c.value = "10199,Q".to_string();
        }
        if c.name == "VIS" {
            c.value = "01x".to_string();
        }
    }
    assert_eq!(Record::from_row(&row), Err(record_field_failure("VIS", "01x", Fault::Malformed, 0, "01x")));
    for c in row.iter_mut() {
        if c.name == "LATITUDE" {
            c.value = "?".to_string();
        }
    }
    assert_eq!(
        Record::from_row(&row),
        Err(RowError { column: "LATITUDE".to_string(), fault: RowFault::Number("?".to_string()) })
    );
}

#[test]
fn the_first_column_of_a_name_is_the_one_that_counts() {
    let row = record_row(&[("A", "1"), ("B", "2"), ("A", "3"), ("", "4")]);
    assert_eq!(find_column(&row, "A"), Some("1"));
    assert_eq!(find_column(&row, "B"), Some("2"));
    assert_eq!(find_column(&row, ""), Some("4"));
    assert_eq!(find_column(&row, "C"), None);
    assert_eq!(find_column(&row, "a"), None);
    assert_eq!(find_column(&Vec::new(), "A"), None);
}

#[test]
fn the_call_sign_loses_its_white_space() {
    let record = Record::from_row(&record_replacing("CALL_SIGN", " K L A X ")).unwrap();
    assert_eq!(record.call_sign, "KLAX");
    let none = Record::from_row(&record_replacing("CALL_SIGN", "99999")).unwrap();
    assert_eq!(none.call_sign, "99999");
}

#[test]
fn slots_decode_under_any_table() {
    let row = record_row(&[("X", "01,0010,9,5"), ("Z", "04,1,+01500,1,00,1"), ("Y", "")]);
    let table = [("Z", Shape::GAX), ("Y", Shape::AAX), ("W", Shape::AAX), ("X", Shape::AAX)];
    let slots = decode_slots(&row, &table).unwrap();
    assert_eq!(slots.len(), 2);
    assert_eq!(slots[0].name, "Z");
    assert_eq!(slots[1].name, "X");
    assert_eq!(slots[1].group, OptionalGroup::AAX(AAX::from_str("01,0010,9,5").unwrap()));
    assert_eq!(decode_slots(&row, &[]), Ok(Vec::new()));
    let wrong = [("Z", Shape::GAX), ("X", Shape::GAX)];
    assert_eq!(
        decode_slots(&row, &wrong),
        Err(record_field_failure("X", "01,0010,9,5", Fault::UnknownCode, 1, "0010"))
    );
}

#[test]
fn the_table_of_slots_names_each_slot_once() {
    assert_eq!(SLOTS.len(), 140);
    for (i, (name, _)) in SLOTS.iter().enumerate() {
        assert_eq!(name.len(), 3);
        assert_eq!(*name, name.to_uppercase());
        for (other, _) in &SLOTS[..i] {
            assert_ne!(other, name);
        }
    }
    assert_eq!(SLOTS[0], ("AA1", Shape::AAX));
    assert_eq!(SLOTS[139], ("GR1", Shape::GR1));
    assert!(SLOTS.contains(&("CO1", Shape::CO1)));
    assert!(SLOTS.contains(&("CO9", Shape::COX)));
    assert!(SLOTS.contains(&("MW7", Shape::MWX)));
}

#[test]
fn a_group_decodes_under_the_schema_of_its_shape() {
    assert_eq!(
        decode_group(Shape::AAX, "01,0010,9,5"),
        Ok(OptionalGroup::AAX(AAX::from_str("01,0010,9,5").unwrap()))
    );
    assert_eq!(
        decode_group(Shape::GAX, "04,1,+01500,1,00,1"),
        Ok(OptionalGroup::GAX(GAX::from_str("04,1,+01500,1,00,1").unwrap()))
    );
    assert_eq!(
        decode_group(Shape::GAX, "01,0010,9,5"),
        Err(FieldError {
            fault: Fault::UnknownCode,
            position: 1,
            token: "0010".to_string(),
            text: "01,0010,9,5".to_string(),
        })
    );
    assert_eq!(
        decode_group(Shape::GAX, "01,1,9,5"),
        Err(FieldError {
            fault: Fault::MissingToken,
            position: 4,
            token: "".to_string(),
            text: "01,1,9,5".to_string(),
        })
    );
    assert!(matches!(decode_group(Shape::CN4, "1,1,0,0110,1,0,0123,1,0045,1,0"), Ok(OptionalGroup::CN4(_))));
    assert!(matches!(decode_group(Shape::MWX, "10,1"), Ok(OptionalGroup::MWX(_))));
    assert!(matches!(decode_group(Shape::ED1, "09,L,1200,1"), Ok(OptionalGroup::ED1(_))));
    assert!(matches!(decode_group(Shape::CO1, "05,-06"), Ok(OptionalGroup::CO1(_))));
    assert!(matches!(decode_group(Shape::COX, "T1,+05"), Ok(OptionalGroup::COX(_))));
}

#[test]
fn a_failure_names_the_column_and_holds_its_raw_text() {
    // The sunshine group needs two sub-tokens and the column holds one.
    assert_eq!(
        isd_parser::fields::optional::cloud_solar::GL1::from_str("0060"),
        Err(FieldError {
            fault: Fault::MissingToken,
            position: 1,
            token: "".to_string(),
            text: "0060".to_string(),
        })
    );
    let row = record_with(&[("AA1", "01,0010,9,5"), ("GL1", "0060")]);
    assert_eq!(
        decode_slot(&row, "GL1", Shape::GL1),
        Err(FieldError {
            fault: Fault::MissingToken,
            position: 1,
            token: "".to_string(),
            text: "0060".to_string(),
        })
    );
    assert_eq!(
        Record::from_row(&row),
        Err(record_field_failure("GL1", "0060", Fault::MissingToken, 1, ""))
    );
    // The valid and the absent columns decode as they do without it.
    let other = record_with(&[("AA1", "01,0010,9,5")]);
    assert_eq!(decode_slot(&row, "AA1", Shape::AAX), decode_slot(&other, "AA1", Shape::AAX));
    assert_eq!(decode_slot(&row, "AA2", Shape::AAX), Ok(None));
}
