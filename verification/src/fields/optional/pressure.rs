//! Atmospheric pressure.

use crate::fields::codes::lemma_sentinel_is_listed;
use crate::fields::codes::CodeRecord;
use crate::fields::codes::QUALITY_CODES;
use crate::fields::schema::code_at;
use crate::fields::schema::code_cell;
use crate::fields::schema::coded;
use crate::fields::schema::first_failure;
use crate::fields::schema::measure;
use crate::fields::schema::measure_at;
use crate::fields::schema::measure_cell;
use crate::fields::schema::Cell;
use crate::fields::schema::FieldError;
use crate::fields::schema::FieldGroup;
use crate::fields::schema::Outcome;
use crate::model::RecordValue;
use crate::number::Ratio;
use crate::util::tokenize;
use vstd::prelude::*;

verus! {

pub const TENDENCY_CODES: [(&'static str, &'static str); 10] = [
    ("0", "Increasing, then decreasing; atmospheric pressure the same or higher than 3 hours ago"),
    ("1", "Increasing then steady; or increasing, then increasing more slowly; atmospheric pressure now higher than 3 hours ago"),
    ("2", "Increasing (steadily or unsteadily); atmospheric pressure now higher than 3 hours ago"),
    ("3", "Decreasing or steady, then increasing; or increasing, then increasing more rapidly; atmospheric pressure now higher than 3 hours ago"),
    ("4", "Steady; atmospheric pressure the same as 3 hours ago"),
    ("5", "Decreasing, then increasing; atmospheric pressure the same or lower than 3 hours ago"),
    ("6", "Decreasing, then steady; or decreasing, then decreasing more slowly; atmospheric pressure now lower than 3 hours ago"),
    ("7", "Decreasing (steadily or unsteadily); atmospheric pressure now lower than 3 hours ago"),
    ("8", "Steady or increasing, then decreasing; or decreasing, then decreasing more rapidly; atmospheric pressure now lower than 3 hours ago"),
    ("9", "Missing"),
];

pub const ISOBARIC_LEVEL_CODE: [(&'static str, &'static str); 6] = [
    ("1", "1000 hectopascals"),
    ("2", "925 hectopascals"),
    ("3", "850 hectopascals"),
    ("4", "700 hectopascals"),
    ("5", "500 hectopascals"),
    ("9", "Missing"),
];

/// The atmospheric pressure: altimeter setting and station pressure.
#[derive(Debug, PartialEq)]
pub struct MA1 {
    pub altimeter_setting_rate: Option<RecordValue<Ratio>>,
    pub altimeter_quality_code: CodeRecord,
    pub station_pressure_rate: Option<RecordValue<Ratio>>,
    pub station_pressure_quality_code: CodeRecord,
}

impl View for MA1 {
    type V = Seq<Cell>;

    open spec fn view(&self) -> Seq<Cell> {
        seq![
            measure_cell(self.altimeter_setting_rate),
            code_cell(self.altimeter_quality_code),
            measure_cell(self.station_pressure_rate),
            code_cell(self.station_pressure_quality_code),
        ]
    }
}

impl FieldGroup for MA1 {
    open spec fn schema(parts: Seq<Seq<char>>) -> Seq<Outcome> {
        seq![
            measure_at::<Ratio>(parts, 0, "hPa"@, Ratio::whole(10)),
            code_at(parts, 1, QUALITY_CODES@),
            measure_at::<Ratio>(parts, 2, "hPa"@, Ratio::whole(10)),
            code_at(parts, 3, QUALITY_CODES@),
        ]
    }

    fn from_str(s: &str) -> (r: Result<MA1, FieldError>) {
        proof {
            reveal_with_fuel(first_failure, 5);
        }
        let parts = tokenize(s);
        let altimeter_setting_rate = measure::<Ratio>(&parts, 0, "hPa", Ratio::whole(10))?;
        let altimeter_quality_code = coded(&parts, 1, &QUALITY_CODES)?;
        let station_pressure_rate = measure::<Ratio>(&parts, 2, "hPa", Ratio::whole(10))?;
        let station_pressure_quality_code = coded(&parts, 3, &QUALITY_CODES)?;
        Ok(
            MA1 {
                altimeter_setting_rate,
                altimeter_quality_code,
                station_pressure_rate,
                station_pressure_quality_code,
            },
        )
    }
}

/// The change of atmospheric pressure.
#[derive(Debug, PartialEq)]
pub struct MD1 {
    pub tendency_code: CodeRecord,
    pub tendency_quality_code: CodeRecord,
    pub three_hour_quantity: Option<RecordValue<Ratio>>,
    pub three_hour_quantity_quality_code: CodeRecord,
    pub twenty_four_hour_quantity: Option<RecordValue<Ratio>>,
    pub twenty_four_hour_quantity_quality_code: CodeRecord,
}

impl View for MD1 {
    type V = Seq<Cell>;

    open spec fn view(&self) -> Seq<Cell> {
        seq![
            code_cell(self.tendency_code),
            code_cell(self.tendency_quality_code),
            measure_cell(self.three_hour_quantity),
            code_cell(self.three_hour_quantity_quality_code),
            measure_cell(self.twenty_four_hour_quantity),
            code_cell(self.twenty_four_hour_quantity_quality_code),
        ]
    }
}

impl FieldGroup for MD1 {
    open spec fn schema(parts: Seq<Seq<char>>) -> Seq<Outcome> {
        seq![
            code_at(parts, 0, TENDENCY_CODES@),
            code_at(parts, 1, QUALITY_CODES@),
            measure_at::<Ratio>(parts, 2, "hPa"@, Ratio::whole(10)),
            code_at(parts, 3, QUALITY_CODES@),
            measure_at::<Ratio>(parts, 4, "hPa"@, Ratio::whole(10)),
            code_at(parts, 5, QUALITY_CODES@),
        ]
    }

    fn from_str(s: &str) -> (r: Result<MD1, FieldError>) {
        proof {
            reveal_with_fuel(first_failure, 7);
        }
        let parts = tokenize(s);
        let tendency_code = coded(&parts, 0, &TENDENCY_CODES)?;
        let tendency_quality_code = coded(&parts, 1, &QUALITY_CODES)?;
        let three_hour_quantity = measure::<Ratio>(&parts, 2, "hPa", Ratio::whole(10))?;
        let three_hour_quantity_quality_code = coded(&parts, 3, &QUALITY_CODES)?;
        let twenty_four_hour_quantity = measure::<Ratio>(&parts, 4, "hPa", Ratio::whole(10))?;
        let twenty_four_hour_quantity_quality_code = coded(&parts, 5, &QUALITY_CODES)?;
        Ok(
            MD1 {
                tendency_code,
                tendency_quality_code,
                three_hour_quantity,
                three_hour_quantity_quality_code,
                twenty_four_hour_quantity,
                twenty_four_hour_quantity_quality_code,
            },
        )
    }
}

/// The geopotential height of an isobaric level.
#[derive(Debug, PartialEq)]
pub struct ME1 {
    pub code: CodeRecord,
    pub height_dimension: Option<RecordValue<Ratio>>,
    pub height_dimension_quality_code: CodeRecord,
}

impl View for ME1 {
    type V = Seq<Cell>;

    open spec fn view(&self) -> Seq<Cell> {
        seq![
            code_cell(self.code),
            measure_cell(self.height_dimension),
            code_cell(self.height_dimension_quality_code),
        ]
    }
}

impl FieldGroup for ME1 {
    open spec fn schema(parts: Seq<Seq<char>>) -> Seq<Outcome> {
        seq![
            code_at(parts, 0, ISOBARIC_LEVEL_CODE@),
            measure_at::<Ratio>(parts, 1, "m"@, Ratio::whole(1)),
            code_at(parts, 2, QUALITY_CODES@),
        ]
    }

    fn from_str(s: &str) -> (r: Result<ME1, FieldError>) {
        proof {
            reveal_with_fuel(first_failure, 4);
        }
        let parts = tokenize(s);
        let code = coded(&parts, 0, &ISOBARIC_LEVEL_CODE)?;
        let height_dimension = measure::<Ratio>(&parts, 1, "m", Ratio::whole(1))?;
        let height_dimension_quality_code = coded(&parts, 2, &QUALITY_CODES)?;
        Ok(ME1 { code, height_dimension, height_dimension_quality_code })
    }
}

/// The atmospheric pressure of the day.
#[derive(Debug, PartialEq)]
pub struct MF1 {
    pub avg_station_pressure_day: Option<RecordValue<Ratio>>,
    pub avg_station_pressure_day_quality_code: CodeRecord,
    pub avg_sea_level_pressure_day: Option<RecordValue<Ratio>>,
    pub avg_sea_level_pressure_day_quality_code: CodeRecord,
}

impl View for MF1 {
    type V = Seq<Cell>;

    open spec fn view(&self) -> Seq<Cell> {
        seq![
            measure_cell(self.avg_station_pressure_day),
            code_cell(self.avg_station_pressure_day_quality_code),
            measure_cell(self.avg_sea_level_pressure_day),
            code_cell(self.avg_sea_level_pressure_day_quality_code),
        ]
    }
}

impl FieldGroup for MF1 {
    open spec fn schema(parts: Seq<Seq<char>>) -> Seq<Outcome> {
        seq![
            measure_at::<Ratio>(parts, 0, "hPa"@, Ratio::whole(10)),
            code_at(parts, 1, QUALITY_CODES@),
            measure_at::<Ratio>(parts, 2, "hPa"@, Ratio::whole(10)),
            code_at(parts, 3, QUALITY_CODES@),
        ]
    }

    fn from_str(s: &str) -> (r: Result<MF1, FieldError>) {
        proof {
            reveal_with_fuel(first_failure, 5);
        }
        let parts = tokenize(s);
        let avg_station_pressure_day = measure::<Ratio>(&parts, 0, "hPa", Ratio::whole(10))?;
        let avg_station_pressure_day_quality_code = coded(&parts, 1, &QUALITY_CODES)?;
        let avg_sea_level_pressure_day = measure::<Ratio>(&parts, 2, "hPa", Ratio::whole(10))?;
        let avg_sea_level_pressure_day_quality_code = coded(&parts, 3, &QUALITY_CODES)?;
        Ok(
            MF1 {
                avg_station_pressure_day,
                avg_station_pressure_day_quality_code,
                avg_sea_level_pressure_day,
                avg_sea_level_pressure_day_quality_code,
            },
        )
    }
}

/// The atmospheric pressure of the day.
#[derive(Debug, PartialEq)]
pub struct MG1 {
    pub avg_station_pressure_day: Option<RecordValue<Ratio>>,
    pub avg_station_pressure_day_quality_code: CodeRecord,
    pub avg_sea_level_pressure_day: Option<RecordValue<Ratio>>,
    pub avg_sea_level_pressure_day_quality_code: CodeRecord,
}

impl View for MG1 {
    type V = Seq<Cell>;

    open spec fn view(&self) -> Seq<Cell> {
        seq![
            measure_cell(self.avg_station_pressure_day),
            code_cell(self.avg_station_pressure_day_quality_code),
            measure_cell(self.avg_sea_level_pressure_day),
            code_cell(self.avg_sea_level_pressure_day_quality_code),
        ]
    }
}

impl FieldGroup for MG1 {
    open spec fn schema(parts: Seq<Seq<char>>) -> Seq<Outcome> {
        seq![
            measure_at::<Ratio>(parts, 0, "hPa"@, Ratio::whole(10)),
            code_at(parts, 1, QUALITY_CODES@),
            measure_at::<Ratio>(parts, 2, "hPa"@, Ratio::whole(10)),
            code_at(parts, 3, QUALITY_CODES@),
        ]
    }

    fn from_str(s: &str) -> (r: Result<MG1, FieldError>) {
        proof {
            reveal_with_fuel(first_failure, 5);
        }
        let parts = tokenize(s);
        let avg_station_pressure_day = measure::<Ratio>(&parts, 0, "hPa", Ratio::whole(10))?;
        let avg_station_pressure_day_quality_code = coded(&parts, 1, &QUALITY_CODES)?;
        let avg_sea_level_pressure_day = measure::<Ratio>(&parts, 2, "hPa", Ratio::whole(10))?;
        let avg_sea_level_pressure_day_quality_code = coded(&parts, 3, &QUALITY_CODES)?;
        Ok(
            MG1 {
                avg_station_pressure_day,
                avg_station_pressure_day_quality_code,
                avg_sea_level_pressure_day,
                avg_sea_level_pressure_day_quality_code,
            },
        )
    }
}

/// The atmospheric pressure of the month.
#[derive(Debug, PartialEq)]
pub struct MH1 {
    pub avg_station_pressure_month: Option<RecordValue<Ratio>>,
    pub avg_station_pressure_month_quality_code: CodeRecord,
    pub avg_sea_level_pressure_month: Option<RecordValue<Ratio>>,
    pub avg_sea_level_pressure_month_quality_code: CodeRecord,
}

impl View for MH1 {
    type V = Seq<Cell>;

    open spec fn view(&self) -> Seq<Cell> {
        seq![
            measure_cell(self.avg_station_pressure_month),
            code_cell(self.avg_station_pressure_month_quality_code),
            measure_cell(self.avg_sea_level_pressure_month),
            code_cell(self.avg_sea_level_pressure_month_quality_code),
        ]
    }
}

impl FieldGroup for MH1 {
    open spec fn schema(parts: Seq<Seq<char>>) -> Seq<Outcome> {
        seq![
            measure_at::<Ratio>(parts, 0, "hPa"@, Ratio::whole(10)),
            code_at(parts, 1, QUALITY_CODES@),
            measure_at::<Ratio>(parts, 2, "hPa"@, Ratio::whole(10)),
            code_at(parts, 3, QUALITY_CODES@),
        ]
    }

    fn from_str(s: &str) -> (r: Result<MH1, FieldError>) {
        proof {
            reveal_with_fuel(first_failure, 5);
        }
        let parts = tokenize(s);
        let avg_station_pressure_month = measure::<Ratio>(&parts, 0, "hPa", Ratio::whole(10))?;
        let avg_station_pressure_month_quality_code = coded(&parts, 1, &QUALITY_CODES)?;
        let avg_sea_level_pressure_month = measure::<Ratio>(&parts, 2, "hPa", Ratio::whole(10))?;
        let avg_sea_level_pressure_month_quality_code = coded(&parts, 3, &QUALITY_CODES)?;
        Ok(
            MH1 {
                avg_station_pressure_month,
                avg_station_pressure_month_quality_code,
                avg_sea_level_pressure_month,
                avg_sea_level_pressure_month_quality_code,
            },
        )
    }
}

/// The extremes of the sea level pressure of the month.
#[derive(Debug, PartialEq)]
pub struct MK1 {
    pub max_sea_level_pressure_month: Option<RecordValue<Ratio>>,
    pub max_sea_level_pressure_month_date_time: Option<RecordValue<isize>>,
    pub max_sea_level_pressure_month_quality_code: CodeRecord,
    pub min_sea_level_pressure_month: Option<RecordValue<Ratio>>,
    pub min_sea_level_pressure_month_date_time: Option<RecordValue<isize>>,
    pub min_sea_level_pressure_month_quality_code: CodeRecord,
}

impl View for MK1 {
    type V = Seq<Cell>;

    open spec fn view(&self) -> Seq<Cell> {
        seq![
            measure_cell(self.max_sea_level_pressure_month),
            measure_cell(self.max_sea_level_pressure_month_date_time),
            code_cell(self.max_sea_level_pressure_month_quality_code),
            measure_cell(self.min_sea_level_pressure_month),
            measure_cell(self.min_sea_level_pressure_month_date_time),
            code_cell(self.min_sea_level_pressure_month_quality_code),
        ]
    }
}

impl FieldGroup for MK1 {
    open spec fn schema(parts: Seq<Seq<char>>) -> Seq<Outcome> {
        seq![
            measure_at::<Ratio>(parts, 0, "hPa"@, Ratio::whole(10)),
            measure_at::<isize>(parts, 1, ""@, 1),
            code_at(parts, 2, QUALITY_CODES@),
            measure_at::<Ratio>(parts, 3, "hPa"@, Ratio::whole(10)),
            measure_at::<isize>(parts, 4, ""@, 1),
            code_at(parts, 5, QUALITY_CODES@),
        ]
    }

    fn from_str(s: &str) -> (r: Result<MK1, FieldError>) {
        proof {
            reveal_with_fuel(first_failure, 7);
        }
        let parts = tokenize(s);
        let max_sea_level_pressure_month = measure::<Ratio>(&parts, 0, "hPa", Ratio::whole(10))?;
        let max_sea_level_pressure_month_date_time = measure::<isize>(&parts, 1, "", 1)?;
        let max_sea_level_pressure_month_quality_code = coded(&parts, 2, &QUALITY_CODES)?;
        let min_sea_level_pressure_month = measure::<Ratio>(&parts, 3, "hPa", Ratio::whole(10))?;
        let min_sea_level_pressure_month_date_time = measure::<isize>(&parts, 4, "", 1)?;
        let min_sea_level_pressure_month_quality_code = coded(&parts, 5, &QUALITY_CODES)?;
        Ok(
            MK1 {
                max_sea_level_pressure_month,
                max_sea_level_pressure_month_date_time,
                max_sea_level_pressure_month_quality_code,
                min_sea_level_pressure_month,
                min_sea_level_pressure_month_date_time,
                min_sea_level_pressure_month_quality_code,
            },
        )
    }
}

/// Every table of this module lists its sentinel code, the one of nines
/// only: looking it up gives its entry and never fails.
pub proof fn lemma_tables_list_their_sentinels()
    ensures
        CodeRecord::lookup("9"@, TENDENCY_CODES@) is Some,
        CodeRecord::lookup("9"@, ISOBARIC_LEVEL_CODE@) is Some,
{
    reveal_strlit("9");
    assert(TENDENCY_CODES@[9].0@ == "9"@);
    lemma_sentinel_is_listed(TENDENCY_CODES@, 9, "9"@);
    assert(ISOBARIC_LEVEL_CODE@[5].0@ == "9"@);
    lemma_sentinel_is_listed(ISOBARIC_LEVEL_CODE@, 5, "9"@);
}

} // verus!
