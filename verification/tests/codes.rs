use isd_parser::fields::codes::describe;
use isd_parser::fields::codes::CodeRecord;
use isd_parser::fields::codes::BOOL_CODES;
use isd_parser::fields::codes::DERIVE_CODES;
use isd_parser::fields::codes::DL_QUALITY_CODES;
use isd_parser::fields::codes::DL_QUALITY_FLAG;
use isd_parser::fields::codes::QUALITY_CODES;
use isd_parser::fields::codes::_REPORT_TYPE_CODE;
use isd_parser::fields::codes::_SOURCE_FLAG;
use isd_parser::units::_UNITS;

fn codes_every_key_is_found(table: &[(&'static str, &'static str)]) {
    for (i, (key, description)) in table.iter().enumerate() {
        // Keys are unique, so each is found with its own description.
        for (other, _) in &table[..i] {
            assert_ne!(other, key);
        }
        let padded = format!(" {}\t", key);
        for raw in [key.to_string(), padded] {
            let found = CodeRecord::new(&raw, table).unwrap();
            assert_eq!(found.value, *key);
            assert_eq!(found.description, *description);
        }
    }
}

#[test]
fn a_code_gets_the_meaning_that_its_table_gives() {
    assert_eq!(
        CodeRecord::new("N", &BOOL_CODES),
        Some(CodeRecord { value: "N".to_string(), description: "No".to_string() })
    );
    assert_eq!(
        CodeRecord::new("1", &QUALITY_CODES),
        Some(CodeRecord {
            value: "1".to_string(),
            description: "Passed all quality control checks".to_string()
        })
    );
    assert_eq!(
        CodeRecord::new("FM-15", &_REPORT_TYPE_CODE).unwrap().description,
        "METAR Aviation routine weather report"
    );
}

#[test]
fn a_code_is_trimmed_before_it_is_looked_up() {
    assert_eq!(
        CodeRecord::new(" Y ", &BOOL_CODES),
        Some(CodeRecord { value: "Y".to_string(), description: "Yes".to_string() })
    );
    assert_eq!(
        CodeRecord::new("\t9\n", &BOOL_CODES),
        Some(CodeRecord { value: "9".to_string(), description: "Missing".to_string() })
    );
}

#[test]
fn a_code_that_the_table_lacks_gets_no_meaning() {
    assert_eq!(CodeRecord::new("X", &BOOL_CODES), None);
    assert_eq!(CodeRecord::new("", &BOOL_CODES), None);
    assert_eq!(CodeRecord::new("n", &BOOL_CODES), None);
    assert_eq!(CodeRecord::new("N N", &BOOL_CODES), None);
    assert_eq!(CodeRecord::new("8", &QUALITY_CODES), None);
    assert_eq!(CodeRecord::new("99", &QUALITY_CODES), None);
    assert_eq!(CodeRecord::new("N", &[]), None);
}

#[test]
fn describe_looks_at_the_key_as_it_stands() {
    assert_eq!(describe(&BOOL_CODES, "Y"), Some("Yes"));
    assert_eq!(describe(&BOOL_CODES, " Y"), None);
    assert_eq!(describe(&_UNITS, "Degrees Celsius"), Some("\u{b0}C"));
    assert_eq!(describe(&_UNITS, ""), Some(""));
    assert_eq!(describe(&[("a", "first"), ("a", "second")], "a"), Some("first"));
}

#[test]
fn the_sentinel_code_is_an_entry_like_any_other() {
    assert_eq!(CodeRecord::new("9", &BOOL_CODES).unwrap().description, "Missing");
    assert_eq!(
        CodeRecord::new("9", &QUALITY_CODES).unwrap().description,
        "Passed gross limits check if element is present"
    );
    assert_eq!(CodeRecord::new("9", &DL_QUALITY_CODES).unwrap().description, "Missing");
    assert_eq!(CodeRecord::new("9", &_SOURCE_FLAG).unwrap().description, "Missing");
    assert_eq!(CodeRecord::new("99999", &_REPORT_TYPE_CODE).unwrap().description, "Missing");
    assert_eq!(CodeRecord::new("9", &DERIVE_CODES).unwrap().description, "missing");
}

#[test]
fn every_code_of_the_common_tables_is_found() {
    codes_every_key_is_found(&BOOL_CODES);
    codes_every_key_is_found(&QUALITY_CODES);
    codes_every_key_is_found(&DL_QUALITY_CODES);
    codes_every_key_is_found(&DL_QUALITY_FLAG);
    codes_every_key_is_found(&_SOURCE_FLAG);
    codes_every_key_is_found(&_REPORT_TYPE_CODE);
    codes_every_key_is_found(&DERIVE_CODES);
    codes_every_key_is_found(&_UNITS);
}
