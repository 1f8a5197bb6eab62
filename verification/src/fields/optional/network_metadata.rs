//! Network metadata and the data logger's temperatures.

use crate::fields::codes::CodeRecord;
use crate::fields::codes::DL_QUALITY_CODES;
use crate::fields::codes::DL_QUALITY_FLAG;
use crate::fields::schema::code_at;
use crate::fields::schema::code_cell;
use crate::fields::schema::coded;
use crate::fields::schema::first_failure;
use crate::fields::schema::measure;
use crate::fields::schema::measure_at;
use crate::fields::schema::measure_cell;
use crate::fields::schema::optional_text_cell;
use crate::fields::schema::present_text;
use crate::fields::schema::present_text_at;
use crate::fields::schema::Cell;
use crate::fields::schema::FieldError;
use crate::fields::schema::FieldGroup;
use crate::fields::schema::Outcome;
use crate::model::RecordValue;
use crate::number::Ratio;
use crate::util::tokenize;
use vstd::prelude::*;

verus! {

/// Network metadata: climate division and time conversion.
#[derive(Debug, PartialEq)]
pub struct CO1 {
    pub climate_division: Option<RecordValue<i32>>,
    pub time_conversion: Option<RecordValue<i32>>,
}

impl View for CO1 {
    type V = Seq<Cell>;

    open spec fn view(&self) -> Seq<Cell> {
        seq![
            measure_cell(self.climate_division),
            measure_cell(self.time_conversion),
        ]
    }
}

impl FieldGroup for CO1 {
    open spec fn schema(parts: Seq<Seq<char>>) -> Seq<Outcome> {
        seq![
            measure_at::<i32>(parts, 0, ""@, 1),
            measure_at::<i32>(parts, 1, "h"@, 1),
        ]
    }

    fn from_str(s: &str) -> (r: Result<CO1, FieldError>) {
        proof {
            reveal_with_fuel(first_failure, 3);
        }
        let parts = tokenize(s);
        let climate_division = measure::<i32>(&parts, 0, "", 1)?;
        let time_conversion = measure::<i32>(&parts, 1, "h", 1)?;
        Ok(CO1 { climate_division, time_conversion })
    }
}

/// The time offset of one element (CO2 to CO9).
#[derive(Debug, PartialEq)]
pub struct COX {
    pub element_id: Option<String>,
    pub time_offset: Option<RecordValue<Ratio>>,
}

impl View for COX {
    type V = Seq<Cell>;

    open spec fn view(&self) -> Seq<Cell> {
        seq![
            optional_text_cell(self.element_id),
            measure_cell(self.time_offset),
        ]
    }
}

impl FieldGroup for COX {
    open spec fn schema(parts: Seq<Seq<char>>) -> Seq<Outcome> {
        seq![
            present_text_at(parts, 0),
            measure_at::<Ratio>(parts, 1, "h"@, Ratio::whole(10)),
        ]
    }

    fn from_str(s: &str) -> (r: Result<COX, FieldError>) {
        proof {
            reveal_with_fuel(first_failure, 3);
        }
        let parts = tokenize(s);
        let element_id = present_text(&parts, 0)?;
        let time_offset = measure::<Ratio>(&parts, 1, "h", Ratio::whole(10))?;
        Ok(COX { element_id, time_offset })
    }
}

/// The version of the data logger.
#[derive(Debug, PartialEq)]
pub struct CR1 {
    pub version: Option<RecordValue<Ratio>>,
    pub quality_code: CodeRecord,
    pub quality_flag: CodeRecord,
}

impl View for CR1 {
    type V = Seq<Cell>;

    open spec fn view(&self) -> Seq<Cell> {
        seq![
            measure_cell(self.version),
            code_cell(self.quality_code),
            code_cell(self.quality_flag),
        ]
    }
}

impl FieldGroup for CR1 {
    open spec fn schema(parts: Seq<Seq<char>>) -> Seq<Outcome> {
        seq![
            measure_at::<Ratio>(parts, 0, ""@, Ratio::whole(1000)),
            code_at(parts, 1, DL_QUALITY_CODES@),
            code_at(parts, 2, DL_QUALITY_FLAG@),
        ]
    }

    fn from_str(s: &str) -> (r: Result<CR1, FieldError>) {
        proof {
            reveal_with_fuel(first_failure, 4);
        }
        let parts = tokenize(s);
        let version = measure::<Ratio>(&parts, 0, "", Ratio::whole(1000))?;
        let quality_code = coded(&parts, 1, &DL_QUALITY_CODES)?;
        let quality_flag = coded(&parts, 2, &DL_QUALITY_FLAG)?;
        Ok(CR1 { version, quality_code, quality_flag })
    }
}

/// The air temperature below the hour (CT1 to CT3).
#[derive(Debug, PartialEq)]
pub struct CTX {
    pub air_temp: Option<RecordValue<Ratio>>,
    pub air_temp_quality_code: CodeRecord,
    pub air_temp_quality_flag: CodeRecord,
}

impl View for CTX {
    type V = Seq<Cell>;

    open spec fn view(&self) -> Seq<Cell> {
        seq![
            measure_cell(self.air_temp),
            code_cell(self.air_temp_quality_code),
            code_cell(self.air_temp_quality_flag),
        ]
    }
}

impl FieldGroup for CTX {
    open spec fn schema(parts: Seq<Seq<char>>) -> Seq<Outcome> {
        seq![
            measure_at::<Ratio>(parts, 0, "°C"@, Ratio::whole(10)),
            code_at(parts, 1, DL_QUALITY_CODES@),
            code_at(parts, 2, DL_QUALITY_FLAG@),
        ]
    }

    fn from_str(s: &str) -> (r: Result<CTX, FieldError>) {
        proof {
            reveal_with_fuel(first_failure, 4);
        }
        let parts = tokenize(s);
        let air_temp = measure::<Ratio>(&parts, 0, "°C", Ratio::whole(10))?;
        let air_temp_quality_code = coded(&parts, 1, &DL_QUALITY_CODES)?;
        let air_temp_quality_flag = coded(&parts, 2, &DL_QUALITY_FLAG)?;
        Ok(CTX { air_temp, air_temp_quality_code, air_temp_quality_flag })
    }
}

/// The air temperature of the hour and its deviation (CU1 to CU3).
#[derive(Debug, PartialEq)]
pub struct CUX {
    pub air_temp: Option<RecordValue<Ratio>>,
    pub air_temp_quality_code: CodeRecord,
    pub air_temp_quality_flag: CodeRecord,
    pub air_temp_std_dev: Option<RecordValue<Ratio>>,
    pub air_temp_std_dev_quality_code: CodeRecord,
    pub air_temp_std_dev_quality_flag: CodeRecord,
}

impl View for CUX {
    type V = Seq<Cell>;

    open spec fn view(&self) -> Seq<Cell> {
        seq![
            measure_cell(self.air_temp),
            code_cell(self.air_temp_quality_code),
            code_cell(self.air_temp_quality_flag),
            measure_cell(self.air_temp_std_dev),
            code_cell(self.air_temp_std_dev_quality_code),
            code_cell(self.air_temp_std_dev_quality_flag),
        ]
    }
}

impl FieldGroup for CUX {
    open spec fn schema(parts: Seq<Seq<char>>) -> Seq<Outcome> {
        seq![
            measure_at::<Ratio>(parts, 0, "°C"@, Ratio::whole(10)),
            code_at(parts, 1, DL_QUALITY_CODES@),
            code_at(parts, 2, DL_QUALITY_FLAG@),
            measure_at::<Ratio>(parts, 3, "°C"@, Ratio::whole(10)),
            code_at(parts, 4, DL_QUALITY_CODES@),
            code_at(parts, 5, DL_QUALITY_FLAG@),
        ]
    }

    fn from_str(s: &str) -> (r: Result<CUX, FieldError>) {
        proof {
            reveal_with_fuel(first_failure, 7);
        }
        let parts = tokenize(s);
        let air_temp = measure::<Ratio>(&parts, 0, "°C", Ratio::whole(10))?;
        let air_temp_quality_code = coded(&parts, 1, &DL_QUALITY_CODES)?;
        let air_temp_quality_flag = coded(&parts, 2, &DL_QUALITY_FLAG)?;
        let air_temp_std_dev = measure::<Ratio>(&parts, 3, "°C", Ratio::whole(10))?;
        let air_temp_std_dev_quality_code = coded(&parts, 4, &DL_QUALITY_CODES)?;
        let air_temp_std_dev_quality_flag = coded(&parts, 5, &DL_QUALITY_FLAG)?;
        Ok(
            CUX {
                air_temp,
                air_temp_quality_code,
                air_temp_quality_flag,
                air_temp_std_dev,
                air_temp_std_dev_quality_code,
                air_temp_std_dev_quality_flag,
            },
        )
    }
}

/// The extremes of the air temperature of the hour (CV1 to CV3).
#[derive(Debug, PartialEq)]
pub struct CVX {
    pub air_temp_min: Option<RecordValue<Ratio>>,
    pub air_temp_min_quality_code: CodeRecord,
    pub air_temp_min_quality_flag: CodeRecord,
    pub air_temp_min_time: Option<String>,
    pub air_temp_min_time_quality_code: CodeRecord,
    pub air_temp_min_time_quality_flag: CodeRecord,
    pub air_temp_max: Option<RecordValue<Ratio>>,
    pub air_temp_max_quality_code: CodeRecord,
    pub air_temp_max_quality_flag: CodeRecord,
    pub air_temp_max_time: Option<String>,
    pub air_temp_max_time_quality_code: CodeRecord,
    pub air_temp_max_time_quality_flag: CodeRecord,
}

impl View for CVX {
    type V = Seq<Cell>;

    open spec fn view(&self) -> Seq<Cell> {
        seq![
            measure_cell(self.air_temp_min),
            code_cell(self.air_temp_min_quality_code),
            code_cell(self.air_temp_min_quality_flag),
            optional_text_cell(self.air_temp_min_time),
            code_cell(self.air_temp_min_time_quality_code),
            code_cell(self.air_temp_min_time_quality_flag),
            measure_cell(self.air_temp_max),
            code_cell(self.air_temp_max_quality_code),
            code_cell(self.air_temp_max_quality_flag),
            optional_text_cell(self.air_temp_max_time),
            code_cell(self.air_temp_max_time_quality_code),
            code_cell(self.air_temp_max_time_quality_flag),
        ]
    }
}

impl FieldGroup for CVX {
    open spec fn schema(parts: Seq<Seq<char>>) -> Seq<Outcome> {
        seq![
            measure_at::<Ratio>(parts, 0, "°C"@, Ratio::whole(10)),
            code_at(parts, 1, DL_QUALITY_CODES@),
            code_at(parts, 2, DL_QUALITY_FLAG@),
            present_text_at(parts, 3),
            code_at(parts, 4, DL_QUALITY_CODES@),
            code_at(parts, 5, DL_QUALITY_FLAG@),
            measure_at::<Ratio>(parts, 6, "°C"@, Ratio::whole(10)),
            code_at(parts, 7, DL_QUALITY_CODES@),
            code_at(parts, 8, DL_QUALITY_FLAG@),
            present_text_at(parts, 9),
            code_at(parts, 10, DL_QUALITY_CODES@),
            code_at(parts, 11, DL_QUALITY_FLAG@),
        ]
    }

    fn from_str(s: &str) -> (r: Result<CVX, FieldError>) {
        proof {
            reveal_with_fuel(first_failure, 13);
        }
        let parts = tokenize(s);
        let air_temp_min = measure::<Ratio>(&parts, 0, "°C", Ratio::whole(10))?;
        let air_temp_min_quality_code = coded(&parts, 1, &DL_QUALITY_CODES)?;
        let air_temp_min_quality_flag = coded(&parts, 2, &DL_QUALITY_FLAG)?;
        let air_temp_min_time = present_text(&parts, 3)?;
        let air_temp_min_time_quality_code = coded(&parts, 4, &DL_QUALITY_CODES)?;
        let air_temp_min_time_quality_flag = coded(&parts, 5, &DL_QUALITY_FLAG)?;
        let air_temp_max = measure::<Ratio>(&parts, 6, "°C", Ratio::whole(10))?;
        let air_temp_max_quality_code = coded(&parts, 7, &DL_QUALITY_CODES)?;
        let air_temp_max_quality_flag = coded(&parts, 8, &DL_QUALITY_FLAG)?;
        let air_temp_max_time = present_text(&parts, 9)?;
        let air_temp_max_time_quality_code = coded(&parts, 10, &DL_QUALITY_CODES)?;
        let air_temp_max_time_quality_flag = coded(&parts, 11, &DL_QUALITY_FLAG)?;
        Ok(
            CVX {
                air_temp_min,
                air_temp_min_quality_code,
                air_temp_min_quality_flag,
                air_temp_min_time,
                air_temp_min_time_quality_code,
                air_temp_min_time_quality_flag,
                air_temp_max,
                air_temp_max_quality_code,
                air_temp_max_quality_flag,
                air_temp_max_time,
                air_temp_max_time_quality_code,
                air_temp_max_time_quality_flag,
            },
        )
    }
}

/// The wetness below the hour.
#[derive(Debug, PartialEq)]
pub struct CW1 {
    pub wetness_1: Option<RecordValue<Ratio>>,
    pub wetness_1_quality_code: CodeRecord,
    pub wetness_1_quality_flag: CodeRecord,
    pub wetness_2: Option<RecordValue<Ratio>>,
    pub wetness_2_quality_code: CodeRecord,
    pub wetness_2_quality_flag: CodeRecord,
}

impl View for CW1 {
    type V = Seq<Cell>;

    open spec fn view(&self) -> Seq<Cell> {
        seq![
            measure_cell(self.wetness_1),
            code_cell(self.wetness_1_quality_code),
            code_cell(self.wetness_1_quality_flag),
            measure_cell(self.wetness_2),
            code_cell(self.wetness_2_quality_code),
            code_cell(self.wetness_2_quality_flag),
        ]
    }
}

impl FieldGroup for CW1 {
    open spec fn schema(parts: Seq<Seq<char>>) -> Seq<Outcome> {
        seq![
            measure_at::<Ratio>(parts, 0, ""@, Ratio::whole(10)),
            code_at(parts, 1, DL_QUALITY_CODES@),
            code_at(parts, 2, DL_QUALITY_FLAG@),
            measure_at::<Ratio>(parts, 3, ""@, Ratio::whole(10)),
            code_at(parts, 4, DL_QUALITY_CODES@),
            code_at(parts, 5, DL_QUALITY_FLAG@),
        ]
    }

    fn from_str(s: &str) -> (r: Result<CW1, FieldError>) {
        proof {
            reveal_with_fuel(first_failure, 7);
        }
        let parts = tokenize(s);
        let wetness_1 = measure::<Ratio>(&parts, 0, "", Ratio::whole(10))?;
        let wetness_1_quality_code = coded(&parts, 1, &DL_QUALITY_CODES)?;
        let wetness_1_quality_flag = coded(&parts, 2, &DL_QUALITY_FLAG)?;
        let wetness_2 = measure::<Ratio>(&parts, 3, "", Ratio::whole(10))?;
        let wetness_2_quality_code = coded(&parts, 4, &DL_QUALITY_CODES)?;
        let wetness_2_quality_flag = coded(&parts, 5, &DL_QUALITY_FLAG)?;
        Ok(
            CW1 {
                wetness_1,
                wetness_1_quality_code,
                wetness_1_quality_flag,
                wetness_2,
                wetness_2_quality_code,
                wetness_2_quality_flag,
            },
        )
    }
}

/// The precipitation gauge of the hour (CX1 to CX3).
#[derive(Debug, PartialEq)]
pub struct CXX {
    pub precipitation_total_hourly: Option<RecordValue<Ratio>>,
    pub precipitation_total_hourly_quality_code: CodeRecord,
    pub precipitation_total_hourly_quality_flag: CodeRecord,
    pub avg_frequency: Option<RecordValue<Ratio>>,
    pub avg_frequency_quality_code: CodeRecord,
    pub avg_frequency_quality_flag: CodeRecord,
    pub min_frequency: Option<RecordValue<Ratio>>,
    pub min_frequency_quality_code: CodeRecord,
    pub min_frequency_quality_flag: CodeRecord,
    pub max_frequency: Option<RecordValue<Ratio>>,
    pub max_frequency_quality_code: CodeRecord,
    pub max_frequency_quality_flag: CodeRecord,
}

impl View for CXX {
    type V = Seq<Cell>;

    open spec fn view(&self) -> Seq<Cell> {
        seq![
            measure_cell(self.precipitation_total_hourly),
            code_cell(self.precipitation_total_hourly_quality_code),
            code_cell(self.precipitation_total_hourly_quality_flag),
            measure_cell(self.avg_frequency),
            code_cell(self.avg_frequency_quality_code),
            code_cell(self.avg_frequency_quality_flag),
            measure_cell(self.min_frequency),
            code_cell(self.min_frequency_quality_code),
            code_cell(self.min_frequency_quality_flag),
            measure_cell(self.max_frequency),
            code_cell(self.max_frequency_quality_code),
            code_cell(self.max_frequency_quality_flag),
        ]
    }
}

impl FieldGroup for CXX {
    open spec fn schema(parts: Seq<Seq<char>>) -> Seq<Outcome> {
        seq![
            measure_at::<Ratio>(parts, 0, "mm"@, Ratio::whole(10)),
            code_at(parts, 1, DL_QUALITY_CODES@),
            code_at(parts, 2, DL_QUALITY_FLAG@),
            measure_at::<Ratio>(parts, 3, "Hz"@, Ratio::whole(10)),
            code_at(parts, 4, DL_QUALITY_CODES@),
            code_at(parts, 5, DL_QUALITY_FLAG@),
            measure_at::<Ratio>(parts, 6, "Hz"@, Ratio::whole(10)),
            code_at(parts, 7, DL_QUALITY_CODES@),
            code_at(parts, 8, DL_QUALITY_FLAG@),
            measure_at::<Ratio>(parts, 9, "Hz"@, Ratio::whole(10)),
            code_at(parts, 10, DL_QUALITY_CODES@),
            code_at(parts, 11, DL_QUALITY_FLAG@),
        ]
    }

    fn from_str(s: &str) -> (r: Result<CXX, FieldError>) {
        proof {
            reveal_with_fuel(first_failure, 13);
        }
        let parts = tokenize(s);
        let precipitation_total_hourly = measure::<Ratio>(&parts, 0, "mm", Ratio::whole(10))?;
        let precipitation_total_hourly_quality_code = coded(&parts, 1, &DL_QUALITY_CODES)?;
        let precipitation_total_hourly_quality_flag = coded(&parts, 2, &DL_QUALITY_FLAG)?;
        let avg_frequency = measure::<Ratio>(&parts, 3, "Hz", Ratio::whole(10))?;
        let avg_frequency_quality_code = coded(&parts, 4, &DL_QUALITY_CODES)?;
        let avg_frequency_quality_flag = coded(&parts, 5, &DL_QUALITY_FLAG)?;
        let min_frequency = measure::<Ratio>(&parts, 6, "Hz", Ratio::whole(10))?;
        let min_frequency_quality_code = coded(&parts, 7, &DL_QUALITY_CODES)?;
        let min_frequency_quality_flag = coded(&parts, 8, &DL_QUALITY_FLAG)?;
        let max_frequency = measure::<Ratio>(&parts, 9, "Hz", Ratio::whole(10))?;
        let max_frequency_quality_code = coded(&parts, 10, &DL_QUALITY_CODES)?;
        let max_frequency_quality_flag = coded(&parts, 11, &DL_QUALITY_FLAG)?;
        Ok(
            CXX {
                precipitation_total_hourly,
                precipitation_total_hourly_quality_code,
                precipitation_total_hourly_quality_flag,
                avg_frequency,
                avg_frequency_quality_code,
                avg_frequency_quality_flag,
                min_frequency,
                min_frequency_quality_code,
                min_frequency_quality_flag,
                max_frequency,
                max_frequency_quality_code,
                max_frequency_quality_flag,
            },
        )
    }
}

} // verus!
