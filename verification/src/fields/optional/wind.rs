//! Supplementary wind observations and relative humidity.

use crate::fields::codes::lemma_sentinel_is_listed;
use crate::fields::codes::CodeRecord;
use crate::fields::codes::DERIVE_CODES;
use crate::fields::codes::DL_QUALITY_CODES;
use crate::fields::codes::DL_QUALITY_FLAG;
use crate::fields::codes::QUALITY_CODES;
use crate::fields::schema::code_at;
use crate::fields::schema::code_cell;
use crate::fields::schema::coded;
use crate::fields::schema::first_failure;
use crate::fields::schema::measure;
use crate::fields::schema::measure_at;
use crate::fields::schema::measure_cell;
use crate::fields::schema::Cell;
use crate::fields::schema::FieldError;
use crate::fields::schema::FieldGroup;
use crate::fields::schema::Outcome;
use crate::model::RecordValue;
use crate::number::Ratio;
use crate::util::tokenize;
use vstd::prelude::*;

verus! {

pub const TYPE_CODES: [(&'static str, &'static str); 7] = [
    ("1", "Average speed of prevailing wind"),
    ("2", "Mean wind speed"),
    ("3", "Maximum instantaneous wind speed"),
    ("4", "Maximum gust speed"),
    ("5", "Maximum mean wind speed"),
    ("6", "Maximum 1-minute mean wind speed"),
    ("9", "Missing"),
];

pub const SUMMARY_TYPE_CODES: [(&'static str, &'static str); 6] = [
    ("1", "Peak wind speed for the day"),
    ("2", "Fastest 2-minute wind speed for the day"),
    ("3", "Average wind speed for the day"),
    ("4", "Fastest 5-minute wind speed for the day"),
    ("5", "Fastest mile wind speed for the day"),
    ("9", "Missing"),
];

pub const RH_CODES: [(&'static str, &'static str); 4] = [
    ("M", "Mean relative humidity"),
    ("N", "Minimum relative humidity"),
    ("X", "Maximum relative humidity"),
    ("9", "missing"),
];

/// A supplementary wind observation (OA1 to OA3).
#[derive(Debug, PartialEq)]
pub struct OAX {
    pub type_code: CodeRecord,
    pub period_quantity: Option<RecordValue<Ratio>>,
    pub speed_rate: Option<RecordValue<Ratio>>,
    pub speed_quality_code: CodeRecord,
}

impl View for OAX {
    type V = Seq<Cell>;

    open spec fn view(&self) -> Seq<Cell> {
        seq![
            code_cell(self.type_code),
            measure_cell(self.period_quantity),
            measure_cell(self.speed_rate),
            code_cell(self.speed_quality_code),
        ]
    }
}

impl FieldGroup for OAX {
    open spec fn schema(parts: Seq<Seq<char>>) -> Seq<Outcome> {
        seq![
            code_at(parts, 0, TYPE_CODES@),
            measure_at::<Ratio>(parts, 1, "hours"@, Ratio::whole(1)),
            measure_at::<Ratio>(parts, 2, "m/s"@, Ratio::whole(10)),
            code_at(parts, 3, QUALITY_CODES@),
        ]
    }

    fn from_str(s: &str) -> (r: Result<OAX, FieldError>) {
        proof {
            reveal_with_fuel(first_failure, 5);
        }
        let parts = tokenize(s);
        let type_code = coded(&parts, 0, &TYPE_CODES)?;
        let period_quantity = measure::<Ratio>(&parts, 1, "hours", Ratio::whole(1))?;
        let speed_rate = measure::<Ratio>(&parts, 2, "m/s", Ratio::whole(10))?;
        let speed_quality_code = coded(&parts, 3, &QUALITY_CODES)?;
        Ok(OAX { type_code, period_quantity, speed_rate, speed_quality_code })
    }
}

/// The wind of the hour or below (OB1 to OB2).
#[derive(Debug, PartialEq)]
pub struct OBX {
    pub wind_avg_time: Option<RecordValue<Ratio>>,
    pub wind_max_gust: Option<RecordValue<Ratio>>,
    pub wind_max_quality_code: CodeRecord,
    pub wind_max_quality_flag: CodeRecord,
    pub wind_max_direction: Option<RecordValue<Ratio>>,
    pub wind_max_direction_quality_code: CodeRecord,
    pub wind_max_direction_quality_flag: CodeRecord,
    pub wind_speed_std_dev: Option<RecordValue<Ratio>>,
    pub wind_speed_std_dev_quality_code: CodeRecord,
    pub wind_speed_std_dev_quality_flag: CodeRecord,
    pub wind_direction_std_dev: Option<RecordValue<Ratio>>,
    pub wind_direction_std_dev_quality_code: CodeRecord,
    pub wind_direction_std_dev_quality_flag: CodeRecord,
}

impl View for OBX {
    type V = Seq<Cell>;

    open spec fn view(&self) -> Seq<Cell> {
        seq![
            measure_cell(self.wind_avg_time),
            measure_cell(self.wind_max_gust),
            code_cell(self.wind_max_quality_code),
            code_cell(self.wind_max_quality_flag),
            measure_cell(self.wind_max_direction),
            code_cell(self.wind_max_direction_quality_code),
            code_cell(self.wind_max_direction_quality_flag),
            measure_cell(self.wind_speed_std_dev),
            code_cell(self.wind_speed_std_dev_quality_code),
            code_cell(self.wind_speed_std_dev_quality_flag),
            measure_cell(self.wind_direction_std_dev),
            code_cell(self.wind_direction_std_dev_quality_code),
            code_cell(self.wind_direction_std_dev_quality_flag),
        ]
    }
}

impl FieldGroup for OBX {
    open spec fn schema(parts: Seq<Seq<char>>) -> Seq<Outcome> {
        seq![
            measure_at::<Ratio>(parts, 0, "minutes"@, Ratio::whole(1)),
            measure_at::<Ratio>(parts, 1, "m/s"@, Ratio::whole(10)),
            code_at(parts, 2, DL_QUALITY_CODES@),
            code_at(parts, 3, DL_QUALITY_FLAG@),
            measure_at::<Ratio>(parts, 4, "degrees"@, Ratio::whole(1)),
            code_at(parts, 5, DL_QUALITY_CODES@),
            code_at(parts, 6, DL_QUALITY_FLAG@),
            measure_at::<Ratio>(parts, 7, "m/s"@, Ratio::whole(100)),
            code_at(parts, 8, DL_QUALITY_CODES@),
            code_at(parts, 9, DL_QUALITY_FLAG@),
            measure_at::<Ratio>(parts, 10, "degrees"@, Ratio::whole(100)),
            code_at(parts, 11, DL_QUALITY_CODES@),
            code_at(parts, 12, DL_QUALITY_FLAG@),
        ]
    }

    fn from_str(s: &str) -> (r: Result<OBX, FieldError>) {
        proof {
            reveal_with_fuel(first_failure, 14);
        }
        let parts = tokenize(s);
        let wind_avg_time = measure::<Ratio>(&parts, 0, "minutes", Ratio::whole(1))?;
        let wind_max_gust = measure::<Ratio>(&parts, 1, "m/s", Ratio::whole(10))?;
        let wind_max_quality_code = coded(&parts, 2, &DL_QUALITY_CODES)?;
        let wind_max_quality_flag = coded(&parts, 3, &DL_QUALITY_FLAG)?;
        let wind_max_direction = measure::<Ratio>(&parts, 4, "degrees", Ratio::whole(1))?;
        let wind_max_direction_quality_code = coded(&parts, 5, &DL_QUALITY_CODES)?;
        let wind_max_direction_quality_flag = coded(&parts, 6, &DL_QUALITY_FLAG)?;
        let wind_speed_std_dev = measure::<Ratio>(&parts, 7, "m/s", Ratio::whole(100))?;
        let wind_speed_std_dev_quality_code = coded(&parts, 8, &DL_QUALITY_CODES)?;
        let wind_speed_std_dev_quality_flag = coded(&parts, 9, &DL_QUALITY_FLAG)?;
        let wind_direction_std_dev = measure::<Ratio>(&parts, 10, "degrees", Ratio::whole(100))?;
        let wind_direction_std_dev_quality_code = coded(&parts, 11, &DL_QUALITY_CODES)?;
        let wind_direction_std_dev_quality_flag = coded(&parts, 12, &DL_QUALITY_FLAG)?;
        Ok(
            OBX {
                wind_avg_time,
                wind_max_gust,
                wind_max_quality_code,
                wind_max_quality_flag,
                wind_max_direction,
                wind_max_direction_quality_code,
                wind_max_direction_quality_flag,
                wind_speed_std_dev,
                wind_speed_std_dev_quality_code,
                wind_speed_std_dev_quality_flag,
                wind_direction_std_dev,
                wind_direction_std_dev_quality_code,
                wind_direction_std_dev_quality_flag,
            },
        )
    }
}

/// A wind gust.
#[derive(Debug, PartialEq)]
pub struct OC1 {
    pub speed_rate: Option<RecordValue<Ratio>>,
    pub speed_quality_code: CodeRecord,
}

impl View for OC1 {
    type V = Seq<Cell>;

    open spec fn view(&self) -> Seq<Cell> {
        seq![
            measure_cell(self.speed_rate),
            code_cell(self.speed_quality_code),
        ]
    }
}

impl FieldGroup for OC1 {
    open spec fn schema(parts: Seq<Seq<char>>) -> Seq<Outcome> {
        seq![
            measure_at::<Ratio>(parts, 0, "m/s"@, Ratio::whole(10)),
            code_at(parts, 1, DL_QUALITY_CODES@),
        ]
    }

    fn from_str(s: &str) -> (r: Result<OC1, FieldError>) {
        proof {
            reveal_with_fuel(first_failure, 3);
        }
        let parts = tokenize(s);
        let speed_rate = measure::<Ratio>(&parts, 0, "m/s", Ratio::whole(10))?;
        let speed_quality_code = coded(&parts, 1, &DL_QUALITY_CODES)?;
        Ok(OC1 { speed_rate, speed_quality_code })
    }
}

/// A supplementary wind observation with its direction (OD1 to OD3).
#[derive(Debug, PartialEq)]
pub struct ODX {
    pub type_code: CodeRecord,
    pub period_quantity: Option<RecordValue<Ratio>>,
    pub direction_quantity: Option<RecordValue<Ratio>>,
    pub speed_rate: Option<RecordValue<Ratio>>,
    pub speed_quality_code: CodeRecord,
}

impl View for ODX {
    type V = Seq<Cell>;

    open spec fn view(&self) -> Seq<Cell> {
        seq![
            code_cell(self.type_code),
            measure_cell(self.period_quantity),
            measure_cell(self.direction_quantity),
            measure_cell(self.speed_rate),
            code_cell(self.speed_quality_code),
        ]
    }
}

impl FieldGroup for ODX {
    open spec fn schema(parts: Seq<Seq<char>>) -> Seq<Outcome> {
        seq![
            code_at(parts, 0, TYPE_CODES@),
            measure_at::<Ratio>(parts, 1, "hours"@, Ratio::whole(1)),
            measure_at::<Ratio>(parts, 2, "degrees"@, Ratio::whole(1)),
            measure_at::<Ratio>(parts, 3, "m/s"@, Ratio::whole(10)),
            code_at(parts, 4, QUALITY_CODES@),
        ]
    }

    fn from_str(s: &str) -> (r: Result<ODX, FieldError>) {
        proof {
            reveal_with_fuel(first_failure, 6);
        }
        let parts = tokenize(s);
        let type_code = coded(&parts, 0, &TYPE_CODES)?;
        let period_quantity = measure::<Ratio>(&parts, 1, "hours", Ratio::whole(1))?;
        let direction_quantity = measure::<Ratio>(&parts, 2, "degrees", Ratio::whole(1))?;
        let speed_rate = measure::<Ratio>(&parts, 3, "m/s", Ratio::whole(10))?;
        let speed_quality_code = coded(&parts, 4, &QUALITY_CODES)?;
        Ok(ODX { type_code, period_quantity, direction_quantity, speed_rate, speed_quality_code })
    }
}

/// The wind summarised over the day (OE1 to OE3).
#[derive(Debug, PartialEq)]
pub struct OEX {
    pub type_code: CodeRecord,
    pub period_quantity: Option<RecordValue<Ratio>>,
    pub speed_rate: Option<RecordValue<Ratio>>,
    pub direction: Option<RecordValue<Ratio>>,
    pub time: Option<RecordValue<Ratio>>,
    pub quality_code: CodeRecord,
}

impl View for OEX {
    type V = Seq<Cell>;

    open spec fn view(&self) -> Seq<Cell> {
        seq![
            code_cell(self.type_code),
            measure_cell(self.period_quantity),
            measure_cell(self.speed_rate),
            measure_cell(self.direction),
            measure_cell(self.time),
            code_cell(self.quality_code),
        ]
    }
}

impl FieldGroup for OEX {
    open spec fn schema(parts: Seq<Seq<char>>) -> Seq<Outcome> {
        seq![
            code_at(parts, 0, SUMMARY_TYPE_CODES@),
            measure_at::<Ratio>(parts, 1, "hours"@, Ratio::whole(1)),
            measure_at::<Ratio>(parts, 2, "m/s"@, Ratio::whole(100)),
            measure_at::<Ratio>(parts, 3, "degrees"@, Ratio::whole(1)),
            measure_at::<Ratio>(parts, 4, "hh:mm"@, Ratio::whole(1)),
            code_at(parts, 5, QUALITY_CODES@),
        ]
    }

    fn from_str(s: &str) -> (r: Result<OEX, FieldError>) {
        proof {
            reveal_with_fuel(first_failure, 7);
        }
        let parts = tokenize(s);
        let type_code = coded(&parts, 0, &SUMMARY_TYPE_CODES)?;
        let period_quantity = measure::<Ratio>(&parts, 1, "hours", Ratio::whole(1))?;
        let speed_rate = measure::<Ratio>(&parts, 2, "m/s", Ratio::whole(100))?;
        let direction = measure::<Ratio>(&parts, 3, "degrees", Ratio::whole(1))?;
        let time = measure::<Ratio>(&parts, 4, "hh:mm", Ratio::whole(1))?;
        let quality_code = coded(&parts, 5, &QUALITY_CODES)?;
        Ok(OEX { type_code, period_quantity, speed_rate, direction, time, quality_code })
    }
}

/// The relative humidity (RH1 to RH3).
#[derive(Debug, PartialEq)]
pub struct RHX {
    pub period_quantity: Option<RecordValue<Ratio>>,
    pub code: CodeRecord,
    pub percentage: Option<RecordValue<Ratio>>,
    pub derrived_code: CodeRecord,
    pub quality_code: CodeRecord,
}

impl View for RHX {
    type V = Seq<Cell>;

    open spec fn view(&self) -> Seq<Cell> {
        seq![
            measure_cell(self.period_quantity),
            code_cell(self.code),
            measure_cell(self.percentage),
            code_cell(self.derrived_code),
            code_cell(self.quality_code),
        ]
    }
}

impl FieldGroup for RHX {
    open spec fn schema(parts: Seq<Seq<char>>) -> Seq<Outcome> {
        seq![
            measure_at::<Ratio>(parts, 0, "hours"@, Ratio::whole(1)),
            code_at(parts, 1, RH_CODES@),
            measure_at::<Ratio>(parts, 2, "%"@, Ratio::whole(1)),
            code_at(parts, 3, DERIVE_CODES@),
            code_at(parts, 4, QUALITY_CODES@),
        ]
    }

    fn from_str(s: &str) -> (r: Result<RHX, FieldError>) {
        proof {
            reveal_with_fuel(first_failure, 6);
        }
        let parts = tokenize(s);
        let period_quantity = measure::<Ratio>(&parts, 0, "hours", Ratio::whole(1))?;
        let code = coded(&parts, 1, &RH_CODES)?;
        let percentage = measure::<Ratio>(&parts, 2, "%", Ratio::whole(1))?;
        let derrived_code = coded(&parts, 3, &DERIVE_CODES)?;
        let quality_code = coded(&parts, 4, &QUALITY_CODES)?;
        Ok(RHX { period_quantity, code, percentage, derrived_code, quality_code })
    }
}

/// Every table of this module lists its sentinel code, the one of nines
/// only: looking it up gives its entry and never fails.
pub proof fn lemma_tables_list_their_sentinels()
    ensures
        CodeRecord::lookup("9"@, TYPE_CODES@) is Some,
        CodeRecord::lookup("9"@, SUMMARY_TYPE_CODES@) is Some,
        CodeRecord::lookup("9"@, RH_CODES@) is Some,
{
    reveal_strlit("9");
    assert(TYPE_CODES@[6].0@ == "9"@);
    lemma_sentinel_is_listed(TYPE_CODES@, 6, "9"@);
    assert(SUMMARY_TYPE_CODES@[5].0@ == "9"@);
    lemma_sentinel_is_listed(SUMMARY_TYPE_CODES@, 5, "9"@);
    assert(RH_CODES@[3].0@ == "9"@);
    lemma_sentinel_is_listed(RH_CODES@, 3, "9"@);
}

} // verus!
