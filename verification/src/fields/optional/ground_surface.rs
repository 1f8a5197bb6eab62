//! The ground surface.

use crate::fields::codes::lemma_sentinel_is_listed;
use crate::fields::codes::CodeRecord;
use crate::fields::codes::DL_QUALITY_CODES;
use crate::fields::codes::DL_QUALITY_FLAG;
use crate::fields::codes::QUALITY_CODES;
use crate::fields::schema::code_at;
use crate::fields::schema::code_cell;
use crate::fields::schema::coded;
use crate::fields::schema::first_failure;
use crate::fields::schema::measure;
use crate::fields::schema::measure_at;
use crate::fields::schema::measure_cell;
use crate::fields::schema::Cell;
use crate::fields::schema::FieldError;
use crate::fields::schema::FieldGroup;
use crate::fields::schema::Outcome;
use crate::model::RecordValue;
use crate::number::Ratio;
use crate::util::tokenize;
use vstd::prelude::*;

verus! {

/// The code that denotes the physical condition of the ground's surface.
///  NOTE: Code values 10-19 indicate the state of the ground without snow or measurable ice cover.
pub const OBSERVATION_CODES: [(&'static str, &'static str); 33] = [
    ("00", "Surface of ground dry (no appreciable amount of dust or loose sand)"),
    ("01", "Surface of ground dry (without cracks and no appreciable amount of dust or loose sand and without snow or measurable ice cover)"),
    ("02", "Extremely dry with cracks (without snow or measurable ice cover)"),
    ("03", "Loose dry dust or sand not covering ground completely (without snow or measurable ice cover)"),
    ("04", "Loose dry dust or sand covering more than one-half of ground (but not completely)"),
    ("05", "Loose dry dust or sand covering ground completely"),
    ("06", "Thin cover of loose dry dust or sand covering ground completely (without snow or measurable ice cover)"),
    ("07", "Moderate or thick cover of loose dry dust or sand covering ground completely (without snow or measurable ice cover)"),
    ("08", "Surface of ground moist"),
    ("09", "Surface of ground moist (without snow or measurable ice cover)"),
    ("10", "Surface of ground wet (standing water in small or large pools on surface)"),
    ("11", "Surface of ground wet (standing water in small or large pools on surface without snow or measurable ice cover)"),
    ("12", "Flooded (without snow or measurable ice cover)"),
    ("13", "Surface of ground frozen"),
    ("14", "Surface of ground frozen (without snow or measurable ice cover)"),
    ("15", "Glaze or ice on ground, but no snow or melting snow"),
    ("16", "Glaze on ground (without snow or measurable ice cover)"),
    ("17", "Ground predominantly covered by ice"),
    ("18", "Snow or melting snow (with or without ice) covering less than one-half of the ground"),
    ("19", "Snow or melting snow (with or without ice) covering more than one-half of the ground but ground not completely covered"),
    ("20", "Snow or melting snow (with or without ice) covering ground completely"),
    ("21", "Loose dry snow covering less than one-half of the ground"),
    ("22", "Loose dry snow covering at least one half of the ground (but not completely)"),
    ("23", "Even layer of loose dry snow covering ground completely"),
    ("24", "Uneven layer of loose dry snow covering ground completely"),
    ("25", "Compact or wet snow (with or without ice) covering less than one-half of the ground"),
    ("26", "Compact or wet snow (with or without ice) covering at least one-half of the ground but ground not completely covered"),
    ("27", "Even layer of compact or wet snow covering ground completely"),
    ("28", "Uneven layer of compact or wet snow covering ground completely"),
    ("29", "Snow covering ground completely; deep drifts"),
    ("30", "Lose dry dust or sand covering one-half of the ground (but not completely)"),
    ("31", "Loose dry snow, dust or sand covering ground completely"),
    ("99", "Missing"),
];

pub const CONDITION_CODES: [(&'static str, &'static str); 4] = [
    ("1", "No special conditions"),
    ("2", "Data will be included in subsequent observation"),
    ("3", "Data are accumulated from previous observation(s), so cover a longer than typical time period"),
    ("9", "Missing"),
];

/// The state of the ground surface.
#[derive(Debug, PartialEq)]
pub struct IA1 {
    pub observation_code: CodeRecord,
    pub quality_code: CodeRecord,
}

impl View for IA1 {
    type V = Seq<Cell>;

    open spec fn view(&self) -> Seq<Cell> {
        seq![
            code_cell(self.observation_code),
            code_cell(self.quality_code),
        ]
    }
}

impl FieldGroup for IA1 {
    open spec fn schema(parts: Seq<Seq<char>>) -> Seq<Outcome> {
        seq![
            code_at(parts, 0, OBSERVATION_CODES@),
            code_at(parts, 1, QUALITY_CODES@),
        ]
    }

    fn from_str(s: &str) -> (r: Result<IA1, FieldError>) {
        proof {
            reveal_with_fuel(first_failure, 3);
        }
        let parts = tokenize(s);
        let observation_code = coded(&parts, 0, &OBSERVATION_CODES)?;
        let quality_code = coded(&parts, 1, &QUALITY_CODES)?;
        Ok(IA1 { observation_code, quality_code })
    }
}

///GROUND-SURFACE-OBSERVATION minimum-temperature identifier
///The identifier that denotes the availability of GROUND-SURFACE-OBSERVATION minimum temperature data.
#[derive(Debug, PartialEq)]
pub struct IA2 {
    pub min_temp_period: Option<RecordValue<Ratio>>,
    pub min_temp: Option<RecordValue<Ratio>>,
    pub min_temp_quality_code: CodeRecord,
}

impl View for IA2 {
    type V = Seq<Cell>;

    open spec fn view(&self) -> Seq<Cell> {
        seq![
            measure_cell(self.min_temp_period),
            measure_cell(self.min_temp),
            code_cell(self.min_temp_quality_code),
        ]
    }
}

impl FieldGroup for IA2 {
    open spec fn schema(parts: Seq<Seq<char>>) -> Seq<Outcome> {
        seq![
            measure_at::<Ratio>(parts, 0, "h"@, Ratio::whole(1)),
            measure_at::<Ratio>(parts, 1, "°C"@, Ratio::whole(10)),
            code_at(parts, 2, QUALITY_CODES@),
        ]
    }

    fn from_str(s: &str) -> (r: Result<IA2, FieldError>) {
        proof {
            reveal_with_fuel(first_failure, 4);
        }
        let parts = tokenize(s);
        let min_temp_period = measure::<Ratio>(&parts, 0, "h", Ratio::whole(1))?;
        let min_temp = measure::<Ratio>(&parts, 1, "°C", Ratio::whole(10))?;
        let min_temp_quality_code = coded(&parts, 2, &QUALITY_CODES)?;
        Ok(IA2 { min_temp_period, min_temp, min_temp_quality_code })
    }
}

///Hourly Surface Temperature Section identifier
///The identifier that indicates an hourly observation of surface temperature as measured by a radiation sensor for the
///ground surface. This section appears in the last ISD record of the hour.
#[derive(Debug, PartialEq)]
pub struct IB1 {
    /// The hourly average surface temperature.
    pub surftemp: Option<RecordValue<Ratio>>,
    /// The code that indicates ISD’s evaluation of the quality status of the hourly average surface temperature.
    pub surftemp_qc: CodeRecord,
    /// The code that indicates the network’s internal evaluation of the quality status of the hourly average surface temperature. Most users will find the preceding quality code SURFTEMP_QC to be the simplest and most useful quality indicator.
    pub surftemp_flag: CodeRecord,
    /// The minimum 10 second surface temperature for the hour.
    pub surftemp_min: Option<RecordValue<Ratio>>,
    /// The code that indicates ISD’s evaluation of the quality status of the hourly minimum surface temperature.
    pub surftemp_min_qc: CodeRecord,
    /// The code that indicates the network’s internal evaluation of the quality status of the hourly minimum surface temperature. Most users will find the preceding quality code SURFTEMP_MIN_QC to be the simplest and most useful quality indicator.
    pub surftemp_min_flag: CodeRecord,
    /// The maximum 10 second surface temperature for the hour.
    pub surftemp_max: Option<RecordValue<Ratio>>,
    /// The code that indicates ISD’s evaluation of the quality status of the hourly maximum surface temperature.
    pub surftemp_max_qc: CodeRecord,
    ///The code that indicates the network’s internal evaluation of the quality status of the hourly maximum surface temperature. Most users will find the preceding quality code SURFTEMP_MAX_QC to be the simplest and most useful quality indicator.
    pub surftemp_max_flag: CodeRecord,
}

impl View for IB1 {
    type V = Seq<Cell>;

    open spec fn view(&self) -> Seq<Cell> {
        seq![
            measure_cell(self.surftemp),
            code_cell(self.surftemp_qc),
            code_cell(self.surftemp_flag),
            measure_cell(self.surftemp_min),
            code_cell(self.surftemp_min_qc),
            code_cell(self.surftemp_min_flag),
            measure_cell(self.surftemp_max),
            code_cell(self.surftemp_max_qc),
            code_cell(self.surftemp_max_flag),
        ]
    }
}

impl FieldGroup for IB1 {
    open spec fn schema(parts: Seq<Seq<char>>) -> Seq<Outcome> {
        seq![
            measure_at::<Ratio>(parts, 0, "°C"@, Ratio::whole(10)),
            code_at(parts, 1, DL_QUALITY_CODES@),
            code_at(parts, 2, DL_QUALITY_FLAG@),
            measure_at::<Ratio>(parts, 3, "°C"@, Ratio::whole(10)),
            code_at(parts, 4, DL_QUALITY_CODES@),
            code_at(parts, 5, DL_QUALITY_FLAG@),
            measure_at::<Ratio>(parts, 6, "°C"@, Ratio::whole(10)),
            code_at(parts, 7, DL_QUALITY_CODES@),
            code_at(parts, 8, DL_QUALITY_FLAG@),
        ]
    }

    fn from_str(s: &str) -> (r: Result<IB1, FieldError>) {
        proof {
            reveal_with_fuel(first_failure, 10);
        }
        let parts = tokenize(s);
        let surftemp = measure::<Ratio>(&parts, 0, "°C", Ratio::whole(10))?;
        let surftemp_qc = coded(&parts, 1, &DL_QUALITY_CODES)?;
        let surftemp_flag = coded(&parts, 2, &DL_QUALITY_FLAG)?;
        let surftemp_min = measure::<Ratio>(&parts, 3, "°C", Ratio::whole(10))?;
        let surftemp_min_qc = coded(&parts, 4, &DL_QUALITY_CODES)?;
        let surftemp_min_flag = coded(&parts, 5, &DL_QUALITY_FLAG)?;
        let surftemp_max = measure::<Ratio>(&parts, 6, "°C", Ratio::whole(10))?;
        let surftemp_max_qc = coded(&parts, 7, &DL_QUALITY_CODES)?;
        let surftemp_max_flag = coded(&parts, 8, &DL_QUALITY_FLAG)?;
        Ok(
            IB1 {
                surftemp,
                surftemp_qc,
                surftemp_flag,
                surftemp_min,
                surftemp_min_qc,
                surftemp_min_flag,
                surftemp_max,
                surftemp_max_qc,
                surftemp_max_flag,
            },
        )
    }
}

/// Pan evaporation at the ground surface.
#[derive(Debug, PartialEq)]
pub struct IC1 {
    pub time_period: Option<RecordValue<isize>>,
    pub wind_movement: Option<RecordValue<isize>>,
    pub wind_movement_condition_code: CodeRecord,
    pub wind_movement_quality_code: CodeRecord,
    pub evaporation_data: Option<RecordValue<Ratio>>,
    pub evaporation_condition_code: CodeRecord,
    pub evaporation_quality_code: CodeRecord,
    pub max_pan_water_temp: Option<RecordValue<Ratio>>,
    pub max_pan_water_temp_condition_code: CodeRecord,
    pub max_pan_water_temp_quality_code: CodeRecord,
    pub min_pan_water_temp: Option<RecordValue<Ratio>>,
    pub min_pan_water_temp_condition_code: CodeRecord,
    pub min_pan_water_temp_quality_code: CodeRecord,
}

impl View for IC1 {
    type V = Seq<Cell>;

    open spec fn view(&self) -> Seq<Cell> {
        seq![
            measure_cell(self.time_period),
            measure_cell(self.wind_movement),
            code_cell(self.wind_movement_condition_code),
            code_cell(self.wind_movement_quality_code),
            measure_cell(self.evaporation_data),
            code_cell(self.evaporation_condition_code),
            code_cell(self.evaporation_quality_code),
            measure_cell(self.max_pan_water_temp),
            code_cell(self.max_pan_water_temp_condition_code),
            code_cell(self.max_pan_water_temp_quality_code),
            measure_cell(self.min_pan_water_temp),
            code_cell(self.min_pan_water_temp_condition_code),
            code_cell(self.min_pan_water_temp_quality_code),
        ]
    }
}

impl FieldGroup for IC1 {
    open spec fn schema(parts: Seq<Seq<char>>) -> Seq<Outcome> {
        seq![
            measure_at::<isize>(parts, 0, "h"@, 1),
            measure_at::<isize>(parts, 1, "mi"@, 1),
            code_at(parts, 2, CONDITION_CODES@),
            code_at(parts, 3, QUALITY_CODES@),
            measure_at::<Ratio>(parts, 4, "in"@, Ratio::whole(1)),
            code_at(parts, 5, CONDITION_CODES@),
            code_at(parts, 6, QUALITY_CODES@),
            measure_at::<Ratio>(parts, 7, "°C"@, Ratio::whole(10)),
            code_at(parts, 8, CONDITION_CODES@),
            code_at(parts, 9, QUALITY_CODES@),
            measure_at::<Ratio>(parts, 10, "°C"@, Ratio::whole(10)),
            code_at(parts, 11, CONDITION_CODES@),
            code_at(parts, 12, QUALITY_CODES@),
        ]
    }

    fn from_str(s: &str) -> (r: Result<IC1, FieldError>) {
        proof {
            reveal_with_fuel(first_failure, 14);
        }
        let parts = tokenize(s);
        let time_period = measure::<isize>(&parts, 0, "h", 1)?;
        let wind_movement = measure::<isize>(&parts, 1, "mi", 1)?;
        let wind_movement_condition_code = coded(&parts, 2, &CONDITION_CODES)?;
        let wind_movement_quality_code = coded(&parts, 3, &QUALITY_CODES)?;
        let evaporation_data = measure::<Ratio>(&parts, 4, "in", Ratio::whole(1))?;
        let evaporation_condition_code = coded(&parts, 5, &CONDITION_CODES)?;
        let evaporation_quality_code = coded(&parts, 6, &QUALITY_CODES)?;
        let max_pan_water_temp = measure::<Ratio>(&parts, 7, "°C", Ratio::whole(10))?;
        let max_pan_water_temp_condition_code = coded(&parts, 8, &CONDITION_CODES)?;
        let max_pan_water_temp_quality_code = coded(&parts, 9, &QUALITY_CODES)?;
        let min_pan_water_temp = measure::<Ratio>(&parts, 10, "°C", Ratio::whole(10))?;
        let min_pan_water_temp_condition_code = coded(&parts, 11, &CONDITION_CODES)?;
        let min_pan_water_temp_quality_code = coded(&parts, 12, &QUALITY_CODES)?;
        Ok(
            IC1 {
                time_period,
                wind_movement,
                wind_movement_condition_code,
                wind_movement_quality_code,
                evaporation_data,
                evaporation_condition_code,
                evaporation_quality_code,
                max_pan_water_temp,
                max_pan_water_temp_condition_code,
                max_pan_water_temp_quality_code,
                min_pan_water_temp,
                min_pan_water_temp_condition_code,
                min_pan_water_temp_quality_code,
            },
        )
    }
}

/// Every table of this module lists its sentinel code, the one of nines
/// only: looking it up gives its entry and never fails.
pub proof fn lemma_tables_list_their_sentinels()
    ensures
        CodeRecord::lookup("99"@, OBSERVATION_CODES@) is Some,
        CodeRecord::lookup("9"@, CONDITION_CODES@) is Some,
{
    reveal_strlit("9");
    reveal_strlit("99");
    assert(OBSERVATION_CODES@[32].0@ == "99"@);
    lemma_sentinel_is_listed(OBSERVATION_CODES@, 32, "99"@);
    assert(CONDITION_CODES@[3].0@ == "9"@);
    lemma_sentinel_is_listed(CONDITION_CODES@, 3, "9"@);
}

} // verus!
