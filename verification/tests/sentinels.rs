use isd_parser::fields::codes::CodeRecord;
use isd_parser::fields::optional::pressure::MD1;
use isd_parser::fields::schema::FieldGroup;

fn sentinels_code_is_found(table: &[(&'static str, &'static str)], code: &str) {
    assert!(!code.is_empty() && code.chars().all(|c| c == '9'));
    let found = CodeRecord::new(code, table).unwrap();
    assert_eq!(found.value, code);
    let padded = format!(" {} ", code);
    assert_eq!(CodeRecord::new(&padded, table), Some(found));
}

fn sentinels_has_one(table: &[(&'static str, &'static str)]) {
    assert!(table.iter().any(|(key, _)| !key.is_empty() && key.chars().all(|c| c == '9')));
}

#[test]
fn every_table_of_codes_lists_its_sentinel() {
    sentinels_has_one(&isd_parser::fields::codes::BOOL_CODES);
    sentinels_code_is_found(&isd_parser::fields::codes::BOOL_CODES, "9");
    sentinels_has_one(&isd_parser::fields::codes::QUALITY_CODES);
    sentinels_code_is_found(&isd_parser::fields::codes::QUALITY_CODES, "9");
    sentinels_has_one(&isd_parser::fields::codes::DL_QUALITY_CODES);
    sentinels_code_is_found(&isd_parser::fields::codes::DL_QUALITY_CODES, "9");
    sentinels_has_one(&isd_parser::fields::codes::DL_QUALITY_FLAG);
    sentinels_code_is_found(&isd_parser::fields::codes::DL_QUALITY_FLAG, "9");
    sentinels_has_one(&isd_parser::fields::codes::_SOURCE_FLAG);
    sentinels_code_is_found(&isd_parser::fields::codes::_SOURCE_FLAG, "9");
    sentinels_has_one(&isd_parser::fields::codes::_REPORT_TYPE_CODE);
    sentinels_code_is_found(&isd_parser::fields::codes::_REPORT_TYPE_CODE, "99999");
    sentinels_has_one(&isd_parser::fields::codes::DERIVE_CODES);
    sentinels_code_is_found(&isd_parser::fields::codes::DERIVE_CODES, "9");
}

#[test]
fn every_table_of_mandatory_lists_its_sentinel() {
    sentinels_has_one(&isd_parser::fields::mandatory::WIND_OBSERVATION_TYPE_CODES);
    sentinels_code_is_found(&isd_parser::fields::mandatory::WIND_OBSERVATION_TYPE_CODES, "9");
    sentinels_has_one(&isd_parser::fields::mandatory::CEILING_DETERMINATION_CODE);
    sentinels_code_is_found(&isd_parser::fields::mandatory::CEILING_DETERMINATION_CODE, "9");
    sentinels_has_one(&isd_parser::fields::mandatory::VISIBILITY_VARIABILITY_CODE);
    sentinels_code_is_found(&isd_parser::fields::mandatory::VISIBILITY_VARIABILITY_CODE, "9");
}

#[test]
fn every_table_of_climate_reference_network_lists_its_sentinel() {
    sentinels_has_one(&isd_parser::fields::optional::climate_reference_network::QUALITY_FLAG);
    sentinels_code_is_found(&isd_parser::fields::optional::climate_reference_network::QUALITY_FLAG, "9");
    sentinels_has_one(&isd_parser::fields::optional::climate_reference_network::GAGUE_HEATER_FLAG);
    sentinels_code_is_found(&isd_parser::fields::optional::climate_reference_network::GAGUE_HEATER_FLAG, "9");
}

#[test]
fn every_table_of_cloud_solar_lists_its_sentinel() {
    sentinels_has_one(&isd_parser::fields::optional::cloud_solar::COVERAGE_CODES);
    sentinels_code_is_found(&isd_parser::fields::optional::cloud_solar::COVERAGE_CODES, "99");
    sentinels_code_is_found(&isd_parser::fields::optional::cloud_solar::COVERAGE_CODES, "9");
    sentinels_has_one(&isd_parser::fields::optional::cloud_solar::CLOUD_TYPE_CODES);
    sentinels_code_is_found(&isd_parser::fields::optional::cloud_solar::CLOUD_TYPE_CODES, "99");
    sentinels_has_one(&isd_parser::fields::optional::cloud_solar::CLOUD_ATTRIBURE_CODES);
    sentinels_code_is_found(&isd_parser::fields::optional::cloud_solar::CLOUD_ATTRIBURE_CODES, "9");
    sentinels_has_one(&isd_parser::fields::optional::cloud_solar::VERTICAL_DATUM_ATTRIBUTE_CODES);
    sentinels_code_is_found(&isd_parser::fields::optional::cloud_solar::VERTICAL_DATUM_ATTRIBUTE_CODES, "999999");
    sentinels_has_one(&isd_parser::fields::optional::cloud_solar::LOW_CLOUD_GENUS_CODES);
    sentinels_code_is_found(&isd_parser::fields::optional::cloud_solar::LOW_CLOUD_GENUS_CODES, "99");
    sentinels_has_one(&isd_parser::fields::optional::cloud_solar::MID_CLOUD_GENUS_CODES);
    sentinels_code_is_found(&isd_parser::fields::optional::cloud_solar::MID_CLOUD_GENUS_CODES, "99");
    sentinels_has_one(&isd_parser::fields::optional::cloud_solar::HIGH_CLOUD_GENUS_CODES);
    sentinels_code_is_found(&isd_parser::fields::optional::cloud_solar::HIGH_CLOUD_GENUS_CODES, "99");
    sentinels_has_one(&isd_parser::fields::optional::cloud_solar::TOP_CODES);
    sentinels_code_is_found(&isd_parser::fields::optional::cloud_solar::TOP_CODES, "99");
    sentinels_has_one(&isd_parser::fields::optional::cloud_solar::CHARACTERISTIC_CODES);
    sentinels_code_is_found(&isd_parser::fields::optional::cloud_solar::CHARACTERISTIC_CODES, "9");
    sentinels_has_one(&isd_parser::fields::optional::cloud_solar::QUALITY_FLAG_CODES);
    sentinels_code_is_found(&isd_parser::fields::optional::cloud_solar::QUALITY_FLAG_CODES, "9");
    sentinels_has_one(&isd_parser::fields::optional::cloud_solar::DATA_FLAG_CODES);
    sentinels_code_is_found(&isd_parser::fields::optional::cloud_solar::DATA_FLAG_CODES, "99");
    sentinels_has_one(&isd_parser::fields::optional::cloud_solar::MOD_GLOBAL_HORIZONTAL_SOURCE_FLAGS);
    sentinels_code_is_found(&isd_parser::fields::optional::cloud_solar::MOD_GLOBAL_HORIZONTAL_SOURCE_FLAGS, "99");
}

#[test]
fn every_table_of_ground_surface_lists_its_sentinel() {
    sentinels_has_one(&isd_parser::fields::optional::ground_surface::OBSERVATION_CODES);
    sentinels_code_is_found(&isd_parser::fields::optional::ground_surface::OBSERVATION_CODES, "99");
    sentinels_has_one(&isd_parser::fields::optional::ground_surface::CONDITION_CODES);
    sentinels_code_is_found(&isd_parser::fields::optional::ground_surface::CONDITION_CODES, "9");
}

#[test]
fn every_table_of_marine_lists_its_sentinel() {
    sentinels_has_one(&isd_parser::fields::optional::marine::METHOD_CODES);
    sentinels_code_is_found(&isd_parser::fields::optional::marine::METHOD_CODES, "9");
    sentinels_has_one(&isd_parser::fields::optional::marine::SEA_STATE_CODES);
    sentinels_code_is_found(&isd_parser::fields::optional::marine::SEA_STATE_CODES, "99");
    sentinels_has_one(&isd_parser::fields::optional::marine::ICE_ACCRETION_SOURCE_CODES);
    sentinels_code_is_found(&isd_parser::fields::optional::marine::ICE_ACCRETION_SOURCE_CODES, "9");
    sentinels_has_one(&isd_parser::fields::optional::marine::ICE_ACCRETION_TENDENCY_CODES);
    sentinels_code_is_found(&isd_parser::fields::optional::marine::ICE_ACCRETION_TENDENCY_CODES, "9");
    sentinels_has_one(&isd_parser::fields::optional::marine::EDGE_BEARING_CODES);
    sentinels_code_is_found(&isd_parser::fields::optional::marine::EDGE_BEARING_CODES, "99");
    sentinels_has_one(&isd_parser::fields::optional::marine::EDGE_ORIENTATION_CODES);
    sentinels_code_is_found(&isd_parser::fields::optional::marine::EDGE_ORIENTATION_CODES, "99");
    sentinels_has_one(&isd_parser::fields::optional::marine::NON_UNIFORM_CONCENTRATION_CODES);
    sentinels_code_is_found(&isd_parser::fields::optional::marine::NON_UNIFORM_CONCENTRATION_CODES, "99");
    sentinels_has_one(&isd_parser::fields::optional::marine::SHIP_RELATIVE_POSITION_CODES);
    sentinels_code_is_found(&isd_parser::fields::optional::marine::SHIP_RELATIVE_POSITION_CODES, "9");
    sentinels_has_one(&isd_parser::fields::optional::marine::SHIP_PENETRABILITY_CODES);
    sentinels_code_is_found(&isd_parser::fields::optional::marine::SHIP_PENETRABILITY_CODES, "9");
    sentinels_has_one(&isd_parser::fields::optional::marine::FORMATION_TYPE_CODES);
    sentinels_code_is_found(&isd_parser::fields::optional::marine::FORMATION_TYPE_CODES, "99");
    sentinels_has_one(&isd_parser::fields::optional::marine::NAVIGATION_EFFECT_CODES);
    sentinels_code_is_found(&isd_parser::fields::optional::marine::NAVIGATION_EFFECT_CODES, "99");
    sentinels_has_one(&isd_parser::fields::optional::marine::ICE_TREND_CODES);
    sentinels_code_is_found(&isd_parser::fields::optional::marine::ICE_TREND_CODES, "9");
    sentinels_has_one(&isd_parser::fields::optional::marine::DEVELOPMENT_CODES);
    sentinels_code_is_found(&isd_parser::fields::optional::marine::DEVELOPMENT_CODES, "99");
    sentinels_has_one(&isd_parser::fields::optional::marine::GROWLER_BERGY_BIT_PRESENCE_CODE);
    sentinels_code_is_found(&isd_parser::fields::optional::marine::GROWLER_BERGY_BIT_PRESENCE_CODE, "9");
    sentinels_has_one(&isd_parser::fields::optional::marine::ICE_PHENOMENA_CODES);
    sentinels_code_is_found(&isd_parser::fields::optional::marine::ICE_PHENOMENA_CODES, "99");
    sentinels_has_one(&isd_parser::fields::optional::marine::UNDER_ICE_SLUSH_CONDITION_CODES);
    sentinels_code_is_found(&isd_parser::fields::optional::marine::UNDER_ICE_SLUSH_CONDITION_CODES, "9");
    sentinels_has_one(&isd_parser::fields::optional::marine::WATER_LEVEL_CODES);
    sentinels_code_is_found(&isd_parser::fields::optional::marine::WATER_LEVEL_CODES, "9");
}

#[test]
fn every_table_of_precipitation_lists_its_sentinel() {
    sentinels_has_one(&isd_parser::fields::optional::precipitation::CONDITION_CODES);
    sentinels_code_is_found(&isd_parser::fields::optional::precipitation::CONDITION_CODES, "9");
    sentinels_has_one(&isd_parser::fields::optional::precipitation::DURATION_CODES);
    sentinels_code_is_found(&isd_parser::fields::optional::precipitation::DURATION_CODES, "9");
    sentinels_has_one(&isd_parser::fields::optional::precipitation::CHARACTERISTIC_CODES);
    sentinels_code_is_found(&isd_parser::fields::optional::precipitation::CHARACTERISTIC_CODES, "9");
    sentinels_has_one(&isd_parser::fields::optional::precipitation::DISCREPANCY_CODES);
    sentinels_code_is_found(&isd_parser::fields::optional::precipitation::DISCREPANCY_CODES, "9");
}

#[test]
fn every_table_of_pressure_lists_its_sentinel() {
    sentinels_has_one(&isd_parser::fields::optional::pressure::TENDENCY_CODES);
    sentinels_code_is_found(&isd_parser::fields::optional::pressure::TENDENCY_CODES, "9");
    sentinels_has_one(&isd_parser::fields::optional::pressure::ISOBARIC_LEVEL_CODE);
    sentinels_code_is_found(&isd_parser::fields::optional::pressure::ISOBARIC_LEVEL_CODE, "9");
}

#[test]
fn every_table_of_runway_visual_range_lists_its_sentinel() {
    sentinels_has_one(&isd_parser::fields::optional::runway_visual_range::RANGE_OBSERVATION);
    sentinels_code_is_found(&isd_parser::fields::optional::runway_visual_range::RANGE_OBSERVATION, "9");
}

#[test]
fn every_table_of_temperature_lists_its_sentinel() {
    sentinels_has_one(&isd_parser::fields::optional::temperature::CODES);
    sentinels_code_is_found(&isd_parser::fields::optional::temperature::CODES, "9");
    sentinels_has_one(&isd_parser::fields::optional::temperature::CONDITION_CODES);
    sentinels_code_is_found(&isd_parser::fields::optional::temperature::CONDITION_CODES, "9");
    sentinels_has_one(&isd_parser::fields::optional::temperature::HEATING_COOLING_DAY_CODES);
    sentinels_code_is_found(&isd_parser::fields::optional::temperature::HEATING_COOLING_DAY_CODES, "9");
    sentinels_has_one(&isd_parser::fields::optional::temperature::AVERAGE_DEW_POINT_AND_WET_BULB_TEMPERATURE_CODE);
    sentinels_code_is_found(&isd_parser::fields::optional::temperature::AVERAGE_DEW_POINT_AND_WET_BULB_TEMPERATURE_CODE, "9");
    sentinels_has_one(&isd_parser::fields::optional::temperature::AVERAGE_DEW_POINT_AND_WET_BULB_TEMPERATURE_DERIVED_CODE);
    sentinels_code_is_found(&isd_parser::fields::optional::temperature::AVERAGE_DEW_POINT_AND_WET_BULB_TEMPERATURE_DERIVED_CODE, "9");
}

#[test]
fn every_table_of_weather_occurrence_lists_its_sentinel() {
    sentinels_has_one(&isd_parser::fields::optional::weather_occurrence::SOURCE_ELEMENTS);
    sentinels_code_is_found(&isd_parser::fields::optional::weather_occurrence::SOURCE_ELEMENTS, "99");
    sentinels_has_one(&isd_parser::fields::optional::weather_occurrence::WEATHER_TYPES);
    sentinels_code_is_found(&isd_parser::fields::optional::weather_occurrence::WEATHER_TYPES, "99");
    sentinels_has_one(&isd_parser::fields::optional::weather_occurrence::WEATHER_TYPE_ABBREVIATIONS);
    sentinels_code_is_found(&isd_parser::fields::optional::weather_occurrence::WEATHER_TYPE_ABBREVIATIONS, "9999");
    sentinels_has_one(&isd_parser::fields::optional::weather_occurrence::INTENSITY_PROXIMITY_CODES);
    sentinels_code_is_found(&isd_parser::fields::optional::weather_occurrence::INTENSITY_PROXIMITY_CODES, "9");
    sentinels_has_one(&isd_parser::fields::optional::weather_occurrence::DESCRIPTOR_CODES);
    sentinels_code_is_found(&isd_parser::fields::optional::weather_occurrence::DESCRIPTOR_CODES, "9");
    sentinels_has_one(&isd_parser::fields::optional::weather_occurrence::PRECIPITATION_CODES);
    sentinels_code_is_found(&isd_parser::fields::optional::weather_occurrence::PRECIPITATION_CODES, "99");
    sentinels_has_one(&isd_parser::fields::optional::weather_occurrence::OBSCURATION_CODES);
    sentinels_code_is_found(&isd_parser::fields::optional::weather_occurrence::OBSCURATION_CODES, "9");
    sentinels_has_one(&isd_parser::fields::optional::weather_occurrence::OTHER_WEATHER_PHENOMENA_CODES);
    sentinels_code_is_found(&isd_parser::fields::optional::weather_occurrence::OTHER_WEATHER_PHENOMENA_CODES, "9");
    sentinels_has_one(&isd_parser::fields::optional::weather_occurrence::COMBINATION_INDICATOR_CODES);
    sentinels_code_is_found(&isd_parser::fields::optional::weather_occurrence::COMBINATION_INDICATOR_CODES, "9");
    sentinels_has_one(&isd_parser::fields::optional::weather_occurrence::AUTOMATED_ATMOSPHERIC_CONDITION_CODES);
    sentinels_code_is_found(&isd_parser::fields::optional::weather_occurrence::AUTOMATED_ATMOSPHERIC_CONDITION_CODES, "99");
    sentinels_has_one(&isd_parser::fields::optional::weather_occurrence::ATMOSPHERIC_CONDITION_CODES);
    sentinels_code_is_found(&isd_parser::fields::optional::weather_occurrence::ATMOSPHERIC_CONDITION_CODES, "99");
    sentinels_has_one(&isd_parser::fields::optional::weather_occurrence::MANUAL_ATMOSPHERIC_CONDITION_CODES);
    sentinels_code_is_found(&isd_parser::fields::optional::weather_occurrence::MANUAL_ATMOSPHERIC_CONDITION_CODES, "9");
    sentinels_code_is_found(&isd_parser::fields::optional::weather_occurrence::MANUAL_ATMOSPHERIC_CONDITION_CODES, "99");
}

#[test]
fn every_table_of_wind_lists_its_sentinel() {
    sentinels_has_one(&isd_parser::fields::optional::wind::TYPE_CODES);
    sentinels_code_is_found(&isd_parser::fields::optional::wind::TYPE_CODES, "9");
    sentinels_has_one(&isd_parser::fields::optional::wind::SUMMARY_TYPE_CODES);
    sentinels_code_is_found(&isd_parser::fields::optional::wind::SUMMARY_TYPE_CODES, "9");
    sentinels_has_one(&isd_parser::fields::optional::wind::RH_CODES);
    sentinels_code_is_found(&isd_parser::fields::optional::wind::RH_CODES, "9");
}

#[test]
fn the_tables_that_were_completed_describe_their_sentinels() {
    let tendency = &isd_parser::fields::optional::pressure::TENDENCY_CODES;
    assert_eq!(CodeRecord::new("9", tendency).unwrap().description, "Missing");
    assert_eq!(
        CodeRecord::new("8", tendency).unwrap().description,
        "Steady or increasing, then decreasing; or decreasing, then decreasing more rapidly; atmospheric pressure now lower than 3 hours ago"
    );
    assert_eq!(
        CodeRecord::new("9", &isd_parser::fields::optional::temperature::HEATING_COOLING_DAY_CODES)
            .unwrap()
            .description,
        "Missing"
    );
    assert_eq!(
        CodeRecord::new("9", &isd_parser::fields::optional::wind::SUMMARY_TYPE_CODES).unwrap().description,
        "Missing"
    );
    assert_eq!(
        CodeRecord::new("99", &isd_parser::fields::optional::weather_occurrence::SOURCE_ELEMENTS)
            .unwrap()
            .description,
        "Missing"
    );
    assert_eq!(
        CodeRecord::new("99", &isd_parser::fields::optional::weather_occurrence::WEATHER_TYPES)
            .unwrap()
            .description,
        "Missing"
    );
    assert_eq!(
        CodeRecord::new("9999", &isd_parser::fields::optional::weather_occurrence::WEATHER_TYPE_ABBREVIATIONS)
            .unwrap()
            .description,
        "Missing"
    );
}

#[test]
fn a_pressure_change_of_sentinels_decodes() {
    let change = MD1::from_str("9,9,999,9,+999,9").unwrap();
    assert_eq!(change.tendency_code.value, "9");
    assert_eq!(change.tendency_code.description, "Missing");
    assert_eq!(change.three_hour_quantity, None);
    assert_eq!(change.twenty_four_hour_quantity, None);
    let falling = MD1::from_str("8,1,012,1,-034,1").unwrap();
    assert_eq!(falling.tendency_code.value, "8");
}
