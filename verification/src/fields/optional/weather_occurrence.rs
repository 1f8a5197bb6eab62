//! Weather that occurs: present and past weather.

use crate::fields::codes::lemma_sentinel_is_listed;
use crate::fields::codes::CodeRecord;
use crate::fields::codes::QUALITY_CODES;
use crate::fields::schema::code_at;
use crate::fields::schema::code_cell;
use crate::fields::schema::coded;
use crate::fields::schema::first_failure;
use crate::fields::schema::measure;
use crate::fields::schema::measure_at;
use crate::fields::schema::measure_cell;
use crate::fields::schema::Cell;
use crate::fields::schema::FieldError;
use crate::fields::schema::FieldGroup;
use crate::fields::schema::Outcome;
use crate::model::RecordValue;
use crate::util::tokenize;
use vstd::prelude::*;

verus! {

pub const SOURCE_ELEMENTS: [(&'static str, &'static str); 4] = [
    ("AU", "sourced from automated ASOS/AWOS sensors"),
    ("AW", "sourced from automated sensors"),
    ("MW", "sourced from manually reported present weather"),
    ("99", "Missing"),
];

pub const WEATHER_TYPES: [(&'static str, &'static str); 22] = [
    ("01", "Fog, ice fog or freezing fog (may include heavy fog)"),
    ("02", "Heavy fog or heavy freezing fog (not always distinguished from fog)"),
    ("03", "Thunder"),
    ("04", "Ice pellets, sleet, snow pellets or small hail"),
    ("05", "Hail (may include small hail)"),
    ("06", "Glaze or rime"),
    ("07", "Dust, volcanic ash, blowing dust, blowing sand or blowing obstruction"),
    ("08", "Smoke or haze"),
    ("09", "Blowing or drifting snow"),
    ("10", "Tornado, water spout or funnel cloud"),
    ("11", "High or damaging winds"),
    ("12", "Blowing spray"),
    ("13", "Mist"),
    ("14", "Drizzle"),
    ("15", "Freezing drizzle"),
    ("16", "Rain"),
    ("17", "Freezing rain"),
    ("18", "Snow, snow pellets, snow grains or ice crystals"),
    ("19", "Unknown precipitation"),
    ("21", "Ground fog"),
    ("22", "Ice fog or freezing fog"),
    ("99", "Missing"),
];

pub const WEATHER_TYPE_ABBREVIATIONS: [(&'static str, &'static str); 22] = [
    ("FG", "Fog, ice fog or freezing fog (may include heavy fog)"),
    ("FG+", "Heavy fog or heavy freezing fog (not always distinguished from fog)"),
    ("TS", "Thunder"),
    ("PL", "Ice pellets, sleet, snow pellets or small hail"),
    ("GR", "Hail (may include small hail)"),
    ("GL", "Glaze or rime"),
    ("DU", "Dust, volcanic ash, blowing dust, blowing sand or blowing obstruction"),
    ("HZ", "Smoke or haze"),
    ("BLSN", "Blowing or drifting snow"),
    ("FC", "Tornado, water spout or funnel cloud"),
    ("WIND", "High or damaging winds"),
    ("BLPY", "Blowing spray"),
    ("BR", "Mist"),
    ("DZ", "Drizzle"),
    ("FZDZ", "Freezing drizzle"),
    ("RA", "Rain"),
    ("FZRA", "Freezing rain"),
    ("SN", "Snow, snow pellets, snow grains or ice crystals"),
    ("UP", "Unknown precipitation"),
    ("MIFG", "Ground fog"),
    ("FZFG", "Ice fog or freezing fog"),
    ("9999", "Missing"),
];

pub const INTENSITY_PROXIMITY_CODES: [(&'static str, &'static str); 6] = [
    ("0", "Not Reported"),
    ("1", "Light (-)"),
    ("2", "Moderate or Not Reported (no entry in original observation)"),
    ("3", "Heavy (+)"),
    ("4", "Vicinity (VC)"),
    ("9", "Missing"),
];

pub const DESCRIPTOR_CODES: [(&'static str, &'static str); 10] = [
    ("0", "No Descriptor"),
    ("1", "Shallow (MI)"),
    ("2", "Partial (PR)"),
    ("3", "Patches (BC)"),
    ("4", "Low Drifting (DR)"),
    ("5", "Blowing (BL)"),
    ("6", "Shower(s) (SH)"),
    ("7", "Thunderstorm (TS)"),
    ("8", "Freezing (FZ)"),
    ("9", "Missing"),
];

pub const PRECIPITATION_CODES: [(&'static str, &'static str); 11] = [
    ("00", "No Precipitation"),
    ("01", "Drizzle (DZ)"),
    ("02", "Rain (RA)"),
    ("03", "Snow (SN)"),
    ("04", "Snow Grains (SG)"),
    ("05", "Ice Crystals (IC)"),
    ("06", "Ice Pellets (PL)"),
    ("07", "Hail (GR)"),
    ("08", "Small Hail and/or Snow Pellets (GS)"),
    ("09", "Unknown Precipitation (UP)"),
    ("99", "Missing"),
];

pub const OBSCURATION_CODES: [(&'static str, &'static str); 10] = [
    ("0", "No Obscuration"),
    ("1", "Mist (BR)"),
    ("2", "Fog (FG)"),
    ("3", "Smoke (FU)"),
    ("4", "Volcanic Ash (VA)"),
    ("5", "Widespread Dust (DU)"),
    ("6", "Sand (SA)"),
    ("7", "Haze (HZ)"),
    ("8", "Spray (PY)"),
    ("9", "Missing"),
];

pub const OTHER_WEATHER_PHENOMENA_CODES: [(&'static str, &'static str); 7] = [
    ("0", "None Reported"),
    ("1", "Well-Developed Dust/Sand Whirls (PO)"),
    ("2", "Squalls (SQ)"),
    ("3", "Funnel Cloud, Tornado, Waterspout (FC)"),
    ("4", "Sandstorm (SS)"),
    ("5", "Duststorm (DS)"),
    ("9", "Missing"),
];

pub const COMBINATION_INDICATOR_CODES: [(&'static str, &'static str); 4] = [
    ("1", "Not part of combined weather elements"),
    ("2", "Beginning element of combined weather elements"),
    ("3", "Combined with previous weather element to form a single weather report"),
    ("9", "Missing"),
];

pub const AUTOMATED_ATMOSPHERIC_CONDITION_CODES: [(&'static str, &'static str); 80] = [
    ("00", "No significant weather observed"),
    ("01", "Clouds generally dissolving or becoming less developed"),
    ("02", "State of sky on the whole unchanged during the past hour"),
    ("03", "Clouds generally forming or developing during the past hour"),
    ("04", "Haze, smoke, or dust in suspension in the air, visibility equal to or greater than 1km"),
    ("05", "Smoke"),
    ("07", "Dust or sand raised by wind at or near the station at the time of observation, but no well-developed dust irl(s) whirls(s) or sand whirl(s), and no duststorm or sandstorm seen or, in the case of ships, blowing spray at the station"),
    ("10", "Mist"),
    ("11", "Diamond dust"),
    ("12", "Distant lightning"),
    ("18", "Squalls"),
    ("20", "Fog"),
    ("21", "Precipitation"),
    ("22", "Drizzle (not freezing) or snow grains"),
    ("23", "Rain (not freezing)"),
    ("24", "Snow"),
    ("25", "Freezing drizzle or freezing rain"),
    ("26", "Thunderstorm (with or without precipitation)"),
    ("27", "Blowing or drifting snow or sand"),
    ("28", "Blowing or drifting snow or sand, visibility equal to or greater than 1 km"),
    ("29", "Blowing or drifting snow or sand, visibility less than 1 km"),
    ("30", "Fog"),
    ("31", "Fog or ice fog in patches"),
    ("32", "Fog or ice fog, has become thinner during the past hour"),
    ("33", "Fog or ice fog, no appreciable change during the past hour"),
    ("34", "Fog or ice fog, has begun or become thicker during the past hour"),
    ("35", "Fog, depositing rime"),
    ("40", "Precipitation"),
    ("41", "Precipitation, slight or moderate"),
    ("42", "Precipitation, heavy"),
    ("43", "Liquid precipitation, slight or moderate"),
    ("44", "Liquid precipitation, heavy"),
    ("45", "Solid precipitation, slight or moderate"),
    ("46", "Solid precipitation, heavy"),
    ("47", "Freezing precipitation, slight or moderate"),
    ("48", "Freezing precipitation, heavy"),
    ("50", "Drizzle"),
    ("51", "Drizzle, not freezing, slight"),
    ("52", "Drizzle, not freezing, moderate"),
    ("53", "Drizzle, not freezing, heavy"),
    ("54", "Drizzle, freezing, slight"),
    ("55", "Drizzle, freezing, moderate"),
    ("56", "Drizzle, freezing, heavy"),
    ("57", "Drizzle and rain, slight"),
    ("58", "Drizzle and rain, moderate or heavy"),
    ("60", "Rain"),
    ("61", "Rain, not freezing, slight"),
    ("62", "Rain, not freezing, moderate"),
    ("63", "Rain, not freezing, heavy"),
    ("64", "Rain, freezing, slight"),
    ("65", "Rain, freezing, moderate"),
    ("66", "Rain, freezing, heavy"),
    ("67", "Rain or drizzle and snow, slight"),
    ("68", "Rain or drizzle and snow, moderate or heavy"),
    ("70", "Snow"),
    ("71", "Snow, slight"),
    ("72", "Snow, moderate"),
    ("73", "Snow, heavy"),
    ("74", "Ice pellets, slight"),
    ("75", "Ice pellets, moderate"),
    ("76", "Ice pellets, heavy"),
    ("77", "Snow grains"),
    ("78", "Ice crystals"),
    ("80", "Showers or intermittent precipitation"),
    ("81", "Rain showers or intermittent rain, slight"),
    ("82", "Rain showers or intermittent rain, moderate"),
    ("83", "Rain showers or intermittent rain, heavy"),
    ("84", "Rain showers or intermittent rain, violent"),
    ("85", "Snow showers or intermittent snow, slight"),
    ("86", "Snow showers or intermittent snow, moderate"),
    ("87", "Snow showers or intermittent snow, heavy"),
    ("89", "Hail"),
    ("90", "Thunderstorm"),
    ("91", "Thunderstorm, slight or moderate, with no precipitation"),
    ("92", "Thunderstorm, slight or moderate, with rain showers and/or snow showers"),
    ("93", "Thunderstorm, slight or moderate, with hail"),
    ("94", "Thunderstorm, heavy, with no precipitation"),
    ("95", "Thunderstorm, heavy, with rain showers and/or snow"),
    ("96", "Thunderstorm, heavy, with hail"),
    ("99", "Tornado"),
];

pub const ATMOSPHERIC_CONDITION_CODES: [(&'static str, &'static str); 13] = [
    ("00", "none to report"),
    ("01", "fog"),
    ("02", "fog reducing visibility to ¼ mile or less"),
    ("03", "thunder"),
    ("04", "ice pellets"),
    ("05", "hail"),
    ("06", "glaze or rime"),
    ("07", "blowing dust or sand, visibility ½ mile or less"),
    ("08", "smoke or haze"),
    ("09", "blowing snow"),
    ("10", "tornado"),
    ("11", "high or damaging winds"),
    ("99", "missing"),
];

pub const MANUAL_ATMOSPHERIC_CONDITION_CODES: [(&'static str, &'static str); 110] = [
    ("0", "Cloud covering 1/2 or less of the sky throughout the appropriate period"),
    ("1", "Cloud covering more than ½ of the sky during part of the appropriate period and covering ½ or less during part of the period"),
    ("2", "Cloud covering more than 1/2 of the sky throughout the appropriate period"),
    ("3", "Sandstorm, duststorm or blowing snow"),
    ("4", "Fog or ice fog or thick haze"),
    ("5", "Drizzle"),
    ("6", "Rain"),
    ("7", "Snow, or rain and snow mixed"),
    ("8", "Shower(s)"),
    ("9", "Thunderstorm(s) with or without precipitation"),
    ("00", "Cloud development not observed or not observable"),
    ("01", "Clouds generally dissolving or becoming less developed"),
    ("02", "State of sky on the whole unchanged"),
    ("03", "Clouds generally forming or developing"),
    ("04", "Visibility reduced by smoke, e.g. veldt or forest fires, industrial smoke or volcanic ashes"),
    ("05", "Haze"),
    ("06", "Widespread dust in suspension in the air, not raised by wind at or near the station at the time of observation"),
    ("07", "Dust or sand raised by wind at or near the station at the time of observation, but no well-developed dust whirl(s) sand whirl(s), and no duststorm or sandstorm seen or, in the case of ships, blowing spray at the station"),
    ("08", "Well developed dust whirl(s) or sand whirl(s) seen at or near the station during the preceding hour or at the time of observation, but no duststorm or sandstorm"),
    ("09", "Duststorm or sandstorm within sight at the time of observation, or at the station during the preceding hour"),
    ("10", "Mist"),
    ("11", "Patches of shallow fog or ice fog at the station, whether on land or sea, not deeper than about 2 meters on land or 10 meters at sea"),
    ("12", "More or less continuous shallow fog or ice fog at the station, whether on land or sea, not deeper than about 2 meters on land or 10 meters at sea"),
    ("13", "Lightning visible, no thunder heard"),
    ("14", "Precipitation within sight, not reaching the ground or the surface of the sea"),
    ("15", "Precipitation within sight, reaching the ground or the surface of the sea, but distant, i.e., estimated to be more than 5 km from the station"),
    ("16", "Precipitation within sight, reaching the ground or the surface of the sea, near to, but not at the station"),
    ("17", "Thunderstorm, but no precipitation at the time of observation"),
    ("18", "Squalls at or within sight of the station during the preceding hour or at the time of observation"),
    ("19", "Funnel cloud(s) (Tornado cloud or waterspout) at or within sight of the station during the preceding hour or at the time of observation,"),
    ("20", "Drizzle (not freezing) or snow grains not falling as shower(s)"),
    ("21", "Rain (not freezing) not falling as shower(s)"),
    ("22", "Snow not falling as shower(s)"),
    ("23", "Rain and snow or ice pellets not falling as shower(s)"),
    ("24", "Freezing drizzle or freezing rain not falling as shower(s)"),
    ("25", "Shower(s) of rain"),
    ("26", "Shower(s) of snow or of rain and snow"),
    ("27", "Shower(s) of hail (Hail, small hail, snow pellets), or rain and hail"),
    ("28", "Fog or ice fog"),
    ("29", "Thunderstorm (with or without precipitation),"),
    ("30", "Slight or moderate duststorm or sandstorm has decreased during the preceding hour"),
    ("31", "Slight or moderate duststorm or sandstorm no appreciable change during the preceding hour"),
    ("32", "Slight or moderate duststorm or sandstorm has begun or has increased during the preceding hour"),
    ("33", "Severe duststorm or sandstorm has decreased during the preceding hour"),
    ("34", "Severe duststorm or sandstorm no appreciable change during the preceding hour"),
    ("35", "Severe duststorm or sandstorm has begun or has increased during the preceding hour"),
    ("36", "Slight or moderate drifting snow generally low (below eye level)"),
    ("37", "Heavy drifting snow generally low (below eye level)"),
    ("38", "Slight or moderate blowing snow generally high (above eye level)"),
    ("39", "Heavy blowing snow generally high (above eye level)"),
    ("40", "Fog or ice fog at a distance at the time of observation, but not at the station during the preceding hour, the fog or ice fog extending to a level above that of the observer"),
    ("41", "Fog or ice fog in patches"),
    ("42", "Fog or ice fog, sky visible, has become thinner during the preceding hour"),
    ("43", "Fog or ice fog, sky invisible, has become thinner during the preceding hour"),
    ("44", "Fog or ice fog, sky visible, no appreciable change during the preceding hour"),
    ("45", "Fog or ice fog, sky invisible, no appreciable change during the preceding hour"),
    ("46", "Fog or ice fog, sky visible, has begun or has become thicker during the preceding hour"),
    ("47", "Fog or ice fog, sky invisible, has begun or has become thicker during the preceding hour"),
    ("48", "Fog, depositing rime, sky visible"),
    ("49", "Fog, depositing rime, sky invisible"),
    ("50", "Drizzle, not freezing, intermittent, slight at time of observation"),
    ("51", "Drizzle, not freezing, continuous, slight at time of observation"),
    ("52", "Drizzle, not freezing, intermittent, moderate at time of observation"),
    ("53", "Drizzle, not freezing, continuous, moderate at time of observation"),
    ("54", "Drizzle, not freezing, intermittent, heavy (dense) at time of observation"),
    ("55", "Drizzle, not freezing, continuous, heavy (dense) at time of observation"),
    ("56", "Drizzle, freezing, slight"),
    ("57", "Drizzle, freezing, moderate or heavy (dense)"),
    ("58", "Drizzle and rain, slight"),
    ("59", "Drizzle and rain, moderate or heavy"),
    ("60", "Rain, not freezing, intermittent, slight at time of observation"),
    ("61", "Rain, not freezing, continuous, slight at time of observation"),
    ("62", "Rain, not freezing, intermittent, moderate at time of observation"),
    ("63", "Rain, not freezing, continuous, moderate at time of observation"),
    ("64", "Rain, not freezing, intermittent, heavy at time of observation"),
    ("65", "Rain, not freezing, continuous, heavy at time of observation"),
    ("66", "Rain, freezing, slight"),
    ("67", "Rain, freezing, moderate or heavy"),
    ("68", "Rain or drizzle and snow, slight"),
    ("69", "Rain or drizzle and snow, moderate or heavy"),
    ("70", "Intermittent fall of snowflakes, slight at time of observation"),
    ("71", "Continuous fall of snowflakes, slight at time of observation"),
    ("72", "Intermittent fall of snowflakes, moderate at time of observation"),
    ("73", "Continuous fall of snowflakes, moderate at time of observation"),
    ("74", "Intermittent fall of snowflakes, heavy at time of observation"),
    ("75", "Continuous fall of snowflakes, heavy at time of observation"),
    ("76", "Diamond dust (with or without fog)"),
    ("77", "Snow grains (with or without fog)"),
    ("78", "Isolated star-like snow crystals (with or without fog)"),
    ("79", "Ice pellets"),
    ("80", "Rain shower(s), slight"),
    ("81", "Rain shower(s), moderate or heavy"),
    ("82", "Rain shower(s), violent"),
    ("83", "Shower(s) of rain and snow mixed, slight"),
    ("84", "Shower(s) of rain and snow mixed, moderate or heavy"),
    ("85", "Show shower(s), slight"),
    ("86", "Snow shower(s), moderate or heavy"),
    ("87", "Shower(s) of snow pellets or small hail, with or without rain or rain and snow mixed, slight"),
    ("88", "Shower(s) of snow pellets or small hail, with or without rain or rain and snow mixed, moderate or heavy"),
    ("89", "Shower(s) of hail (hail, small hail, snow pellets), with or without rain or rain and snow mixed, not associated with thunder, slight"),
    ("90", "Shower(s) of hail (hail, small hail, snow pellets), with or without rain or rain and snow mixed, not associated with thunder, moderate or heavy"),
    ("91", "Slight rain at time of observation, thunderstorm during the preceding hour but not at time of observation"),
    ("92", "Moderate or heavy rain at time of observation, thunderstorm during the preceding hour but not at time of observation"),
    ("93", "Slight snow, or rain and snow mixed or hail (Hail, small hail, snow pellets), at time of observation, thunderstorm during the preceding hour but not at time of observation"),
    ("94", "Moderate or heavy snow, or rain and snow mixed or hail(Hail, small hail, snow pellets) at time of observation, thunderstorm during the preceding hour but not at time of observation"),
    ("95", "Thunderstorm, slight or moderate, without hail (Hail, small hail, snow pellets), but with rain and/or snow at time of observation, thunderstorm at time of observation"),
    ("96", "Thunderstorm, slight or moderate, with hail (hail, small hail, snow pellets) at time of observation, thunderstorm at time of observation"),
    ("97", "Thunderstorm, heavy, without hail (Hail, small hail, snow pellets), but with rain and/or snow at time of observation, thunderstorm at time of observation"),
    ("98", "Thunderstorm combined with duststorm or sandstorm at time of observation, thunderstorm at time of observation"),
    ("99", "Thunderstorm, heavy, with hail (Hail, small hail, snow pellets) at time of observation, thunderstorm at time of observation"),
];

/// Present weather of the day, by its source (AT1 to AT8).
#[derive(Debug, PartialEq)]
pub struct ATX {
    pub source_element: CodeRecord,
    pub weather_type: CodeRecord,
    pub weather_type_abbreviation: CodeRecord,
    pub quality_code: CodeRecord,
}

impl View for ATX {
    type V = Seq<Cell>;

    open spec fn view(&self) -> Seq<Cell> {
        seq![
            code_cell(self.source_element),
            code_cell(self.weather_type),
            code_cell(self.weather_type_abbreviation),
            code_cell(self.quality_code),
        ]
    }
}

impl FieldGroup for ATX {
    open spec fn schema(parts: Seq<Seq<char>>) -> Seq<Outcome> {
        seq![
            code_at(parts, 0, SOURCE_ELEMENTS@),
            code_at(parts, 1, WEATHER_TYPES@),
            code_at(parts, 2, WEATHER_TYPE_ABBREVIATIONS@),
            code_at(parts, 3, QUALITY_CODES@),
        ]
    }

    fn from_str(s: &str) -> (r: Result<ATX, FieldError>) {
        proof {
            reveal_with_fuel(first_failure, 5);
        }
        let parts = tokenize(s);
        let source_element = coded(&parts, 0, &SOURCE_ELEMENTS)?;
        let weather_type = coded(&parts, 1, &WEATHER_TYPES)?;
        let weather_type_abbreviation = coded(&parts, 2, &WEATHER_TYPE_ABBREVIATIONS)?;
        let quality_code = coded(&parts, 3, &QUALITY_CODES)?;
        Ok(ATX { source_element, weather_type, weather_type_abbreviation, quality_code })
    }
}

/// Present weather as an automated station reports it (AU1 to AU9).
#[derive(Debug, PartialEq)]
pub struct AUX {
    pub intensity_code: CodeRecord,
    pub descriptor_code: CodeRecord,
    pub precipitation_code: CodeRecord,
    pub obscuration_code: CodeRecord,
    pub weather_phenomena_code: CodeRecord,
    pub combination_indicator_code: CodeRecord,
    pub quality_code: CodeRecord,
}

impl View for AUX {
    type V = Seq<Cell>;

    open spec fn view(&self) -> Seq<Cell> {
        seq![
            code_cell(self.intensity_code),
            code_cell(self.descriptor_code),
            code_cell(self.precipitation_code),
            code_cell(self.obscuration_code),
            code_cell(self.weather_phenomena_code),
            code_cell(self.combination_indicator_code),
            code_cell(self.quality_code),
        ]
    }
}

impl FieldGroup for AUX {
    open spec fn schema(parts: Seq<Seq<char>>) -> Seq<Outcome> {
        seq![
            code_at(parts, 0, INTENSITY_PROXIMITY_CODES@),
            code_at(parts, 1, DESCRIPTOR_CODES@),
            code_at(parts, 2, PRECIPITATION_CODES@),
            code_at(parts, 3, OBSCURATION_CODES@),
            code_at(parts, 4, OTHER_WEATHER_PHENOMENA_CODES@),
            code_at(parts, 5, COMBINATION_INDICATOR_CODES@),
            code_at(parts, 6, QUALITY_CODES@),
        ]
    }

    fn from_str(s: &str) -> (r: Result<AUX, FieldError>) {
        proof {
            reveal_with_fuel(first_failure, 8);
        }
        let parts = tokenize(s);
        let intensity_code = coded(&parts, 0, &INTENSITY_PROXIMITY_CODES)?;
        let descriptor_code = coded(&parts, 1, &DESCRIPTOR_CODES)?;
        let precipitation_code = coded(&parts, 2, &PRECIPITATION_CODES)?;
        let obscuration_code = coded(&parts, 3, &OBSCURATION_CODES)?;
        let weather_phenomena_code = coded(&parts, 4, &OTHER_WEATHER_PHENOMENA_CODES)?;
        let combination_indicator_code = coded(&parts, 5, &COMBINATION_INDICATOR_CODES)?;
        let quality_code = coded(&parts, 6, &QUALITY_CODES)?;
        Ok(
            AUX {
                intensity_code,
                descriptor_code,
                precipitation_code,
                obscuration_code,
                weather_phenomena_code,
                combination_indicator_code,
                quality_code,
            },
        )
    }
}

/// Present weather, automated (AW1 to AW4).
#[derive(Debug, PartialEq)]
pub struct AWX {
    pub atmospheric_condition_code: CodeRecord,
}

impl View for AWX {
    type V = Seq<Cell>;

    open spec fn view(&self) -> Seq<Cell> {
        seq![
            code_cell(self.atmospheric_condition_code),
        ]
    }
}

impl FieldGroup for AWX {
    open spec fn schema(parts: Seq<Seq<char>>) -> Seq<Outcome> {
        seq![
            code_at(parts, 0, AUTOMATED_ATMOSPHERIC_CONDITION_CODES@),
        ]
    }

    fn from_str(s: &str) -> (r: Result<AWX, FieldError>) {
        proof {
            reveal_with_fuel(first_failure, 2);
        }
        let parts = tokenize(s);
        let atmospheric_condition_code = coded(&parts, 0, &AUTOMATED_ATMOSPHERIC_CONDITION_CODES)?;
        Ok(AWX { atmospheric_condition_code })
    }
}

/// Past weather, summarised over a period (AX1 to AX6).
#[derive(Debug, PartialEq)]
pub struct AXX {
    pub atmospheric_condition_code: CodeRecord,
    pub atmospheric_condition_quality_code: CodeRecord,
    pub period_quantity: Option<RecordValue<i8>>,
    pub period_quality_code: CodeRecord,
}

impl View for AXX {
    type V = Seq<Cell>;

    open spec fn view(&self) -> Seq<Cell> {
        seq![
            code_cell(self.atmospheric_condition_code),
            code_cell(self.atmospheric_condition_quality_code),
            measure_cell(self.period_quantity),
            code_cell(self.period_quality_code),
        ]
    }
}

impl FieldGroup for AXX {
    open spec fn schema(parts: Seq<Seq<char>>) -> Seq<Outcome> {
        seq![
            code_at(parts, 0, ATMOSPHERIC_CONDITION_CODES@),
            code_at(parts, 1, QUALITY_CODES@),
            measure_at::<i8>(parts, 2, "h"@, 1),
            code_at(parts, 3, QUALITY_CODES@),
        ]
    }

    fn from_str(s: &str) -> (r: Result<AXX, FieldError>) {
        proof {
            reveal_with_fuel(first_failure, 5);
        }
        let parts = tokenize(s);
        let atmospheric_condition_code = coded(&parts, 0, &ATMOSPHERIC_CONDITION_CODES)?;
        let atmospheric_condition_quality_code = coded(&parts, 1, &QUALITY_CODES)?;
        let period_quantity = measure::<i8>(&parts, 2, "h", 1)?;
        let period_quality_code = coded(&parts, 3, &QUALITY_CODES)?;
        Ok(
            AXX {
                atmospheric_condition_code,
                atmospheric_condition_quality_code,
                period_quantity,
                period_quality_code,
            },
        )
    }
}

/// Past weather, observed by hand (AY1 to AY2).
#[derive(Debug, PartialEq)]
pub struct AYX {
    pub manual_atmospheric_condition_code: CodeRecord,
    pub manual_atmospheric_condition_quality_code: CodeRecord,
    pub period_quantity: Option<RecordValue<i8>>,
    pub period_quality_code: CodeRecord,
}

impl View for AYX {
    type V = Seq<Cell>;

    open spec fn view(&self) -> Seq<Cell> {
        seq![
            code_cell(self.manual_atmospheric_condition_code),
            code_cell(self.manual_atmospheric_condition_quality_code),
            measure_cell(self.period_quantity),
            code_cell(self.period_quality_code),
        ]
    }
}

impl FieldGroup for AYX {
    open spec fn schema(parts: Seq<Seq<char>>) -> Seq<Outcome> {
        seq![
            code_at(parts, 0, MANUAL_ATMOSPHERIC_CONDITION_CODES@),
            code_at(parts, 1, QUALITY_CODES@),
            measure_at::<i8>(parts, 2, "h"@, 1),
            code_at(parts, 3, QUALITY_CODES@),
        ]
    }

    fn from_str(s: &str) -> (r: Result<AYX, FieldError>) {
        proof {
            reveal_with_fuel(first_failure, 5);
        }
        let parts = tokenize(s);
        let manual_atmospheric_condition_code = coded(&parts, 0, &MANUAL_ATMOSPHERIC_CONDITION_CODES)?;
        let manual_atmospheric_condition_quality_code = coded(&parts, 1, &QUALITY_CODES)?;
        let period_quantity = measure::<i8>(&parts, 2, "h", 1)?;
        let period_quality_code = coded(&parts, 3, &QUALITY_CODES)?;
        Ok(
            AYX {
                manual_atmospheric_condition_code,
                manual_atmospheric_condition_quality_code,
                period_quantity,
                period_quality_code,
            },
        )
    }
}

/// Past weather, automated (AZ1 to AZ2).
#[derive(Debug, PartialEq)]
pub struct AZX {
    pub automated_atmospheric_condition_code: CodeRecord,
    pub automated_atmospheric_condition_quality_code: CodeRecord,
    pub period_quantity: Option<RecordValue<i8>>,
    pub period_quality_code: CodeRecord,
}

impl View for AZX {
    type V = Seq<Cell>;

    open spec fn view(&self) -> Seq<Cell> {
        seq![
            code_cell(self.automated_atmospheric_condition_code),
            code_cell(self.automated_atmospheric_condition_quality_code),
            measure_cell(self.period_quantity),
            code_cell(self.period_quality_code),
        ]
    }
}

impl FieldGroup for AZX {
    open spec fn schema(parts: Seq<Seq<char>>) -> Seq<Outcome> {
        seq![
            code_at(parts, 0, AUTOMATED_ATMOSPHERIC_CONDITION_CODES@),
            code_at(parts, 1, QUALITY_CODES@),
            measure_at::<i8>(parts, 2, "h"@, 1),
            code_at(parts, 3, QUALITY_CODES@),
        ]
    }

    fn from_str(s: &str) -> (r: Result<AZX, FieldError>) {
        proof {
            reveal_with_fuel(first_failure, 5);
        }
        let parts = tokenize(s);
        let automated_atmospheric_condition_code = coded(&parts, 0, &AUTOMATED_ATMOSPHERIC_CONDITION_CODES)?;
        let automated_atmospheric_condition_quality_code = coded(&parts, 1, &QUALITY_CODES)?;
        let period_quantity = measure::<i8>(&parts, 2, "h", 1)?;
        let period_quality_code = coded(&parts, 3, &QUALITY_CODES)?;
        Ok(
            AZX {
                automated_atmospheric_condition_code,
                automated_atmospheric_condition_quality_code,
                period_quantity,
                period_quality_code,
            },
        )
    }
}

/// Present weather, observed by hand (MW1 to MW7).
#[derive(Debug, PartialEq)]
pub struct MWX {
    pub manual_atmospheric_condition_code: CodeRecord,
    pub manual_atmospheric_condition_quality_code: CodeRecord,
}

impl View for MWX {
    type V = Seq<Cell>;

    open spec fn view(&self) -> Seq<Cell> {
        seq![
            code_cell(self.manual_atmospheric_condition_code),
            code_cell(self.manual_atmospheric_condition_quality_code),
        ]
    }
}

impl FieldGroup for MWX {
    open spec fn schema(parts: Seq<Seq<char>>) -> Seq<Outcome> {
        seq![
            code_at(parts, 0, MANUAL_ATMOSPHERIC_CONDITION_CODES@),
            code_at(parts, 1, QUALITY_CODES@),
        ]
    }

    fn from_str(s: &str) -> (r: Result<MWX, FieldError>) {
        proof {
            reveal_with_fuel(first_failure, 3);
        }
        let parts = tokenize(s);
        let manual_atmospheric_condition_code = coded(&parts, 0, &MANUAL_ATMOSPHERIC_CONDITION_CODES)?;
        let manual_atmospheric_condition_quality_code = coded(&parts, 1, &QUALITY_CODES)?;
        Ok(MWX { manual_atmospheric_condition_code, manual_atmospheric_condition_quality_code })
    }
}

/// Every table of this module lists its sentinel code, the one of nines
/// only: looking it up gives its entry and never fails.
pub proof fn lemma_tables_list_their_sentinels()
    ensures
        CodeRecord::lookup("99"@, SOURCE_ELEMENTS@) is Some,
        CodeRecord::lookup("99"@, WEATHER_TYPES@) is Some,
        CodeRecord::lookup("9999"@, WEATHER_TYPE_ABBREVIATIONS@) is Some,
        CodeRecord::lookup("9"@, INTENSITY_PROXIMITY_CODES@) is Some,
        CodeRecord::lookup("9"@, DESCRIPTOR_CODES@) is Some,
        CodeRecord::lookup("99"@, PRECIPITATION_CODES@) is Some,
        CodeRecord::lookup("9"@, OBSCURATION_CODES@) is Some,
        CodeRecord::lookup("9"@, OTHER_WEATHER_PHENOMENA_CODES@) is Some,
        CodeRecord::lookup("9"@, COMBINATION_INDICATOR_CODES@) is Some,
        CodeRecord::lookup("99"@, AUTOMATED_ATMOSPHERIC_CONDITION_CODES@) is Some,
        CodeRecord::lookup("99"@, ATMOSPHERIC_CONDITION_CODES@) is Some,
        CodeRecord::lookup("9"@, MANUAL_ATMOSPHERIC_CONDITION_CODES@) is Some,
        CodeRecord::lookup("99"@, MANUAL_ATMOSPHERIC_CONDITION_CODES@) is Some,
{
    reveal_strlit("9");
    reveal_strlit("99");
    reveal_strlit("9999");
    assert(SOURCE_ELEMENTS@[3].0@ == "99"@);
    lemma_sentinel_is_listed(SOURCE_ELEMENTS@, 3, "99"@);
    assert(WEATHER_TYPES@[21].0@ == "99"@);
    lemma_sentinel_is_listed(WEATHER_TYPES@, 21, "99"@);
    assert(WEATHER_TYPE_ABBREVIATIONS@[21].0@ == "9999"@);
    lemma_sentinel_is_listed(WEATHER_TYPE_ABBREVIATIONS@, 21, "9999"@);
    assert(INTENSITY_PROXIMITY_CODES@[5].0@ == "9"@);
    lemma_sentinel_is_listed(INTENSITY_PROXIMITY_CODES@, 5, "9"@);
    assert(DESCRIPTOR_CODES@[9].0@ == "9"@);
    lemma_sentinel_is_listed(DESCRIPTOR_CODES@, 9, "9"@);
    assert(PRECIPITATION_CODES@[10].0@ == "99"@);
    lemma_sentinel_is_listed(PRECIPITATION_CODES@, 10, "99"@);
    assert(OBSCURATION_CODES@[9].0@ == "9"@);
    lemma_sentinel_is_listed(OBSCURATION_CODES@, 9, "9"@);
    assert(OTHER_WEATHER_PHENOMENA_CODES@[6].0@ == "9"@);
    lemma_sentinel_is_listed(OTHER_WEATHER_PHENOMENA_CODES@, 6, "9"@);
    assert(COMBINATION_INDICATOR_CODES@[3].0@ == "9"@);
    lemma_sentinel_is_listed(COMBINATION_INDICATOR_CODES@, 3, "9"@);
    assert(AUTOMATED_ATMOSPHERIC_CONDITION_CODES@[79].0@ == "99"@);
    lemma_sentinel_is_listed(AUTOMATED_ATMOSPHERIC_CONDITION_CODES@, 79, "99"@);
    assert(ATMOSPHERIC_CONDITION_CODES@[12].0@ == "99"@);
    lemma_sentinel_is_listed(ATMOSPHERIC_CONDITION_CODES@, 12, "99"@);
    assert(MANUAL_ATMOSPHERIC_CONDITION_CODES@[9].0@ == "9"@);
    lemma_sentinel_is_listed(MANUAL_ATMOSPHERIC_CONDITION_CODES@, 9, "9"@);
    assert(MANUAL_ATMOSPHERIC_CONDITION_CODES@[109].0@ == "99"@);
    lemma_sentinel_is_listed(MANUAL_ATMOSPHERIC_CONDITION_CODES@, 109, "99"@);
}

} // verus!
