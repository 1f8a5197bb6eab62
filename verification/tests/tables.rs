use isd_parser::fields::codes::CodeRecord;

fn tables_every_key_is_found(table: &[(&'static str, &'static str)]) {
    assert!(!table.is_empty());
    for (i, (key, description)) in table.iter().enumerate() {
        for (other, _) in &table[..i] {
            assert_ne!(other, key);
        }
        let found = CodeRecord::new(key, table).unwrap();
        assert_eq!(found.value, *key);
        assert_eq!(found.description, *description);
    }
}

#[test]
fn every_code_of_mandatory_is_found() {
    tables_every_key_is_found(&isd_parser::fields::mandatory::WIND_OBSERVATION_TYPE_CODES);
    tables_every_key_is_found(&isd_parser::fields::mandatory::CEILING_DETERMINATION_CODE);
    tables_every_key_is_found(&isd_parser::fields::mandatory::VISIBILITY_VARIABILITY_CODE);
}

#[test]
fn every_code_of_climate_reference_network_is_found() {
    tables_every_key_is_found(&isd_parser::fields::optional::climate_reference_network::QUALITY_FLAG);
    tables_every_key_is_found(&isd_parser::fields::optional::climate_reference_network::GAGUE_HEATER_FLAG);
}

#[test]
fn every_code_of_cloud_solar_is_found() {
    tables_every_key_is_found(&isd_parser::fields::optional::cloud_solar::COVERAGE_CODES);
    tables_every_key_is_found(&isd_parser::fields::optional::cloud_solar::CLOUD_TYPE_CODES);
    tables_every_key_is_found(&isd_parser::fields::optional::cloud_solar::CLOUD_ATTRIBURE_CODES);
    tables_every_key_is_found(&isd_parser::fields::optional::cloud_solar::VERTICAL_DATUM_ATTRIBUTE_CODES);
    tables_every_key_is_found(&isd_parser::fields::optional::cloud_solar::LOW_CLOUD_GENUS_CODES);
    tables_every_key_is_found(&isd_parser::fields::optional::cloud_solar::MID_CLOUD_GENUS_CODES);
    tables_every_key_is_found(&isd_parser::fields::optional::cloud_solar::HIGH_CLOUD_GENUS_CODES);
    tables_every_key_is_found(&isd_parser::fields::optional::cloud_solar::TOP_CODES);
    tables_every_key_is_found(&isd_parser::fields::optional::cloud_solar::CHARACTERISTIC_CODES);
    tables_every_key_is_found(&isd_parser::fields::optional::cloud_solar::QUALITY_FLAG_CODES);
    tables_every_key_is_found(&isd_parser::fields::optional::cloud_solar::DATA_FLAG_CODES);
    tables_every_key_is_found(&isd_parser::fields::optional::cloud_solar::MOD_GLOBAL_HORIZONTAL_SOURCE_FLAGS);
}

#[test]
fn every_code_of_ground_surface_is_found() {
    tables_every_key_is_found(&isd_parser::fields::optional::ground_surface::OBSERVATION_CODES);
    tables_every_key_is_found(&isd_parser::fields::optional::ground_surface::CONDITION_CODES);
}

#[test]
fn every_code_of_marine_is_found() {
    tables_every_key_is_found(&isd_parser::fields::optional::marine::METHOD_CODES);
    tables_every_key_is_found(&isd_parser::fields::optional::marine::SEA_STATE_CODES);
    tables_every_key_is_found(&isd_parser::fields::optional::marine::ICE_ACCRETION_SOURCE_CODES);
    tables_every_key_is_found(&isd_parser::fields::optional::marine::ICE_ACCRETION_TENDENCY_CODES);
    tables_every_key_is_found(&isd_parser::fields::optional::marine::EDGE_BEARING_CODES);
    tables_every_key_is_found(&isd_parser::fields::optional::marine::EDGE_ORIENTATION_CODES);
    tables_every_key_is_found(&isd_parser::fields::optional::marine::NON_UNIFORM_CONCENTRATION_CODES);
    tables_every_key_is_found(&isd_parser::fields::optional::marine::SHIP_RELATIVE_POSITION_CODES);
    tables_every_key_is_found(&isd_parser::fields::optional::marine::SHIP_PENETRABILITY_CODES);
    tables_every_key_is_found(&isd_parser::fields::optional::marine::FORMATION_TYPE_CODES);
    tables_every_key_is_found(&isd_parser::fields::optional::marine::NAVIGATION_EFFECT_CODES);
    tables_every_key_is_found(&isd_parser::fields::optional::marine::ICE_TREND_CODES);
    tables_every_key_is_found(&isd_parser::fields::optional::marine::DEVELOPMENT_CODES);
    tables_every_key_is_found(&isd_parser::fields::optional::marine::GROWLER_BERGY_BIT_PRESENCE_CODE);
    tables_every_key_is_found(&isd_parser::fields::optional::marine::ICE_PHENOMENA_CODES);
    tables_every_key_is_found(&isd_parser::fields::optional::marine::UNDER_ICE_SLUSH_CONDITION_CODES);
    tables_every_key_is_found(&isd_parser::fields::optional::marine::WATER_LEVEL_CODES);
}

#[test]
fn every_code_of_precipitation_is_found() {
    tables_every_key_is_found(&isd_parser::fields::optional::precipitation::CONDITION_CODES);
    tables_every_key_is_found(&isd_parser::fields::optional::precipitation::DURATION_CODES);
    tables_every_key_is_found(&isd_parser::fields::optional::precipitation::CHARACTERISTIC_CODES);
    tables_every_key_is_found(&isd_parser::fields::optional::precipitation::DISCREPANCY_CODES);
}

#[test]
fn every_code_of_pressure_is_found() {
    tables_every_key_is_found(&isd_parser::fields::optional::pressure::TENDENCY_CODES);
    tables_every_key_is_found(&isd_parser::fields::optional::pressure::ISOBARIC_LEVEL_CODE);
}

#[test]
fn every_code_of_runway_visual_range_is_found() {
    tables_every_key_is_found(&isd_parser::fields::optional::runway_visual_range::RANGE_OBSERVATION);
}

#[test]
fn every_code_of_temperature_is_found() {
    tables_every_key_is_found(&isd_parser::fields::optional::temperature::CODES);
    tables_every_key_is_found(&isd_parser::fields::optional::temperature::CONDITION_CODES);
    tables_every_key_is_found(&isd_parser::fields::optional::temperature::HEATING_COOLING_DAY_CODES);
    tables_every_key_is_found(&isd_parser::fields::optional::temperature::AVERAGE_DEW_POINT_AND_WET_BULB_TEMPERATURE_CODE);
    tables_every_key_is_found(&isd_parser::fields::optional::temperature::AVERAGE_DEW_POINT_AND_WET_BULB_TEMPERATURE_DERIVED_CODE);
}

#[test]
fn every_code_of_weather_occurrence_is_found() {
    tables_every_key_is_found(&isd_parser::fields::optional::weather_occurrence::SOURCE_ELEMENTS);
    tables_every_key_is_found(&isd_parser::fields::optional::weather_occurrence::WEATHER_TYPES);
    tables_every_key_is_found(&isd_parser::fields::optional::weather_occurrence::WEATHER_TYPE_ABBREVIATIONS);
    tables_every_key_is_found(&isd_parser::fields::optional::weather_occurrence::INTENSITY_PROXIMITY_CODES);
    tables_every_key_is_found(&isd_parser::fields::optional::weather_occurrence::DESCRIPTOR_CODES);
    tables_every_key_is_found(&isd_parser::fields::optional::weather_occurrence::PRECIPITATION_CODES);
    tables_every_key_is_found(&isd_parser::fields::optional::weather_occurrence::OBSCURATION_CODES);
    tables_every_key_is_found(&isd_parser::fields::optional::weather_occurrence::OTHER_WEATHER_PHENOMENA_CODES);
    tables_every_key_is_found(&isd_parser::fields::optional::weather_occurrence::COMBINATION_INDICATOR_CODES);
    tables_every_key_is_found(&isd_parser::fields::optional::weather_occurrence::AUTOMATED_ATMOSPHERIC_CONDITION_CODES);
    tables_every_key_is_found(&isd_parser::fields::optional::weather_occurrence::ATMOSPHERIC_CONDITION_CODES);
    tables_every_key_is_found(&isd_parser::fields::optional::weather_occurrence::MANUAL_ATMOSPHERIC_CONDITION_CODES);
}

#[test]
fn every_code_of_wind_is_found() {
    tables_every_key_is_found(&isd_parser::fields::optional::wind::TYPE_CODES);
    tables_every_key_is_found(&isd_parser::fields::optional::wind::SUMMARY_TYPE_CODES);
    tables_every_key_is_found(&isd_parser::fields::optional::wind::RH_CODES);
}
