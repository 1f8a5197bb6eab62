//! Temperature: extremes, degree days and averages.

use crate::fields::codes::lemma_sentinel_is_listed;
use crate::fields::codes::CodeRecord;
use crate::fields::codes::QUALITY_CODES;
use crate::fields::schema::code_at;
use crate::fields::schema::code_cell;
use crate::fields::schema::coded;
use crate::fields::schema::first_failure;
use crate::fields::schema::measure;
use crate::fields::schema::measure_at;
use crate::fields::schema::measure_cell;
use crate::fields::schema::Cell;
use crate::fields::schema::FieldError;
use crate::fields::schema::FieldGroup;
use crate::fields::schema::Outcome;
use crate::model::RecordValue;
use crate::number::Ratio;
use crate::util::tokenize;
use vstd::prelude::*;

verus! {

pub const CODES: [(&'static str, &'static str); 5] = [
    ("N", "Minimum temperature"),
    ("M", "Maximum temperature"),
    ("O", "Estimated minimum temperature"),
    ("P", "Estimated maximum temperature"),
    ("9", "Missing"),
];

pub const CONDITION_CODES: [(&'static str, &'static str); 2] = [
    ("1", "The value occurred on other dates in addition to those listed"),
    ("9", "Missing or not applicable"),
];

pub const HEATING_COOLING_DAY_CODES: [(&'static str, &'static str); 3] = [
    ("H", "Heating Degree Days"),
    ("C", "Cooling Degree Days"),
    ("9", "Missing"),
];

pub const AVERAGE_DEW_POINT_AND_WET_BULB_TEMPERATURE_CODE: [(&'static str, &'static str); 3] = [
    ("D", "Average dew point temperature"),
    ("W", "Average wet bulb temperature"),
    ("9", "missing"),
];

pub const AVERAGE_DEW_POINT_AND_WET_BULB_TEMPERATURE_DERIVED_CODE: [(&'static str, &'static str); 2] = [
    ("D", "Derived from hourly values"),
    ("9", "missing"),
];

/// An extreme of the air temperature (KA1 to KA4).
#[derive(Debug, PartialEq)]
pub struct KAX {
    pub period_quantity: Option<RecordValue<Ratio>>,
    pub code: CodeRecord,
    pub air_temperature: Option<RecordValue<Ratio>>,
    pub air_temperature_quality_code: CodeRecord,
}

impl View for KAX {
    type V = Seq<Cell>;

    open spec fn view(&self) -> Seq<Cell> {
        seq![
            measure_cell(self.period_quantity),
            code_cell(self.code),
            measure_cell(self.air_temperature),
            code_cell(self.air_temperature_quality_code),
        ]
    }
}

impl FieldGroup for KAX {
    open spec fn schema(parts: Seq<Seq<char>>) -> Seq<Outcome> {
        seq![
            measure_at::<Ratio>(parts, 0, "hours"@, Ratio::whole(10)),
            code_at(parts, 1, CODES@),
            measure_at::<Ratio>(parts, 2, "°C"@, Ratio::whole(10)),
            code_at(parts, 3, QUALITY_CODES@),
        ]
    }

    fn from_str(s: &str) -> (r: Result<KAX, FieldError>) {
        proof {
            reveal_with_fuel(first_failure, 5);
        }
        let parts = tokenize(s);
        let period_quantity = measure::<Ratio>(&parts, 0, "hours", Ratio::whole(10))?;
        let code = coded(&parts, 1, &CODES)?;
        let air_temperature = measure::<Ratio>(&parts, 2, "°C", Ratio::whole(10))?;
        let air_temperature_quality_code = coded(&parts, 3, &QUALITY_CODES)?;
        Ok(KAX { period_quantity, code, air_temperature, air_temperature_quality_code })
    }
}

/// An extreme of the air temperature of the month (KC1 to KC2).
#[derive(Debug, PartialEq)]
pub struct KCX {
    pub code: CodeRecord,
    pub condition_code: CodeRecord,
    pub temperature: Option<RecordValue<Ratio>>,
    pub date: Option<RecordValue<i32>>,
    pub temperature_quality_code: CodeRecord,
}

impl View for KCX {
    type V = Seq<Cell>;

    open spec fn view(&self) -> Seq<Cell> {
        seq![
            code_cell(self.code),
            code_cell(self.condition_code),
            measure_cell(self.temperature),
            measure_cell(self.date),
            code_cell(self.temperature_quality_code),
        ]
    }
}

impl FieldGroup for KCX {
    open spec fn schema(parts: Seq<Seq<char>>) -> Seq<Outcome> {
        seq![
            code_at(parts, 0, CODES@),
            code_at(parts, 1, CONDITION_CODES@),
            measure_at::<Ratio>(parts, 2, "°C"@, Ratio::whole(10)),
            measure_at::<i32>(parts, 3, ""@, 1),
            code_at(parts, 4, QUALITY_CODES@),
        ]
    }

    fn from_str(s: &str) -> (r: Result<KCX, FieldError>) {
        proof {
            reveal_with_fuel(first_failure, 6);
        }
        let parts = tokenize(s);
        let code = coded(&parts, 0, &CODES)?;
        let condition_code = coded(&parts, 1, &CONDITION_CODES)?;
        let temperature = measure::<Ratio>(&parts, 2, "°C", Ratio::whole(10))?;
        let date = measure::<i32>(&parts, 3, "", 1)?;
        let temperature_quality_code = coded(&parts, 4, &QUALITY_CODES)?;
        Ok(KCX { code, condition_code, temperature, date, temperature_quality_code })
    }
}

/// Heating or cooling degree days (KD1 to KD2).
#[derive(Debug, PartialEq)]
pub struct KDX {
    pub period_quantity: Option<RecordValue<isize>>,
    pub code: CodeRecord,
    /// The total heating or cooling degree days for a given period, typically for the day or month, as reported by the station (ie,
    /// not derived from other data fields). These data use the 65-degree Fahrenheit base as raditionally used for degree days.
    pub value: Option<RecordValue<isize>>,
    pub quality_code: CodeRecord,
}

impl View for KDX {
    type V = Seq<Cell>;

    open spec fn view(&self) -> Seq<Cell> {
        seq![
            measure_cell(self.period_quantity),
            code_cell(self.code),
            measure_cell(self.value),
            code_cell(self.quality_code),
        ]
    }
}

impl FieldGroup for KDX {
    open spec fn schema(parts: Seq<Seq<char>>) -> Seq<Outcome> {
        seq![
            measure_at::<isize>(parts, 0, "hours"@, 1),
            code_at(parts, 1, HEATING_COOLING_DAY_CODES@),
            measure_at::<isize>(parts, 2, "Heating or Cooling Degree Days"@, 1),
            code_at(parts, 3, QUALITY_CODES@),
        ]
    }

    fn from_str(s: &str) -> (r: Result<KDX, FieldError>) {
        proof {
            reveal_with_fuel(first_failure, 5);
        }
        let parts = tokenize(s);
        let period_quantity = measure::<isize>(&parts, 0, "hours", 1)?;
        let code = coded(&parts, 1, &HEATING_COOLING_DAY_CODES)?;
        let value = measure::<isize>(&parts, 2, "Heating or Cooling Degree Days", 1)?;
        let quality_code = coded(&parts, 3, &QUALITY_CODES)?;
        Ok(KDX { period_quantity, code, value, quality_code })
    }
}

/// The days of the month with an extreme temperature.
#[derive(Debug, PartialEq)]
pub struct KE1 {
    pub max_temp_32_f_days: Option<RecordValue<isize>>,
    pub max_temp_32_f_days_quality_code: CodeRecord,
    pub max_temp_90_f_days: Option<RecordValue<isize>>,
    pub max_temp_90_f_days_quality_code: CodeRecord,
    pub min_temp_32_f_days: Option<RecordValue<isize>>,
    pub min_temp_32_f_days_quality_code: CodeRecord,
    pub min_temp_0_f_days: Option<RecordValue<isize>>,
}

impl View for KE1 {
    type V = Seq<Cell>;

    open spec fn view(&self) -> Seq<Cell> {
        seq![
            measure_cell(self.max_temp_32_f_days),
            code_cell(self.max_temp_32_f_days_quality_code),
            measure_cell(self.max_temp_90_f_days),
            code_cell(self.max_temp_90_f_days_quality_code),
            measure_cell(self.min_temp_32_f_days),
            code_cell(self.min_temp_32_f_days_quality_code),
            measure_cell(self.min_temp_0_f_days),
        ]
    }
}

impl FieldGroup for KE1 {
    open spec fn schema(parts: Seq<Seq<char>>) -> Seq<Outcome> {
        seq![
            measure_at::<isize>(parts, 0, "Days"@, 1),
            code_at(parts, 1, QUALITY_CODES@),
            measure_at::<isize>(parts, 2, "Days"@, 1),
            code_at(parts, 3, QUALITY_CODES@),
            measure_at::<isize>(parts, 4, "Days"@, 1),
            code_at(parts, 5, QUALITY_CODES@),
            measure_at::<isize>(parts, 6, "Days"@, 1),
        ]
    }

    fn from_str(s: &str) -> (r: Result<KE1, FieldError>) {
        proof {
            reveal_with_fuel(first_failure, 8);
        }
        let parts = tokenize(s);
        let max_temp_32_f_days = measure::<isize>(&parts, 0, "Days", 1)?;
        let max_temp_32_f_days_quality_code = coded(&parts, 1, &QUALITY_CODES)?;
        let max_temp_90_f_days = measure::<isize>(&parts, 2, "Days", 1)?;
        let max_temp_90_f_days_quality_code = coded(&parts, 3, &QUALITY_CODES)?;
        let min_temp_32_f_days = measure::<isize>(&parts, 4, "Days", 1)?;
        let min_temp_32_f_days_quality_code = coded(&parts, 5, &QUALITY_CODES)?;
        let min_temp_0_f_days = measure::<isize>(&parts, 6, "Days", 1)?;
        Ok(
            KE1 {
                max_temp_32_f_days,
                max_temp_32_f_days_quality_code,
                max_temp_90_f_days,
                max_temp_90_f_days_quality_code,
                min_temp_32_f_days,
                min_temp_32_f_days_quality_code,
                min_temp_0_f_days,
            },
        )
    }
}

/// The calculated air temperature of the hour.
#[derive(Debug, PartialEq)]
pub struct KF1 {
    pub air_temp: Option<RecordValue<Ratio>>,
    pub air_temp_quality_code: CodeRecord,
}

impl View for KF1 {
    type V = Seq<Cell>;

    open spec fn view(&self) -> Seq<Cell> {
        seq![
            measure_cell(self.air_temp),
            code_cell(self.air_temp_quality_code),
        ]
    }
}

impl FieldGroup for KF1 {
    open spec fn schema(parts: Seq<Seq<char>>) -> Seq<Outcome> {
        seq![
            measure_at::<Ratio>(parts, 0, "°C"@, Ratio::whole(10)),
            code_at(parts, 1, QUALITY_CODES@),
        ]
    }

    fn from_str(s: &str) -> (r: Result<KF1, FieldError>) {
        proof {
            reveal_with_fuel(first_failure, 3);
        }
        let parts = tokenize(s);
        let air_temp = measure::<Ratio>(&parts, 0, "°C", Ratio::whole(10))?;
        let air_temp_quality_code = coded(&parts, 1, &QUALITY_CODES)?;
        Ok(KF1 { air_temp, air_temp_quality_code })
    }
}

/// The average dew point or wet bulb temperature (KG1 to KG2).
#[derive(Debug, PartialEq)]
pub struct KGX {
    pub period_quantity: Option<RecordValue<isize>>,
    pub code: CodeRecord,
    pub temp: Option<RecordValue<Ratio>>,
    pub derived_code: CodeRecord,
    pub quality_code: CodeRecord,
}

impl View for KGX {
    type V = Seq<Cell>;

    open spec fn view(&self) -> Seq<Cell> {
        seq![
            measure_cell(self.period_quantity),
            code_cell(self.code),
            measure_cell(self.temp),
            code_cell(self.derived_code),
            code_cell(self.quality_code),
        ]
    }
}

impl FieldGroup for KGX {
    open spec fn schema(parts: Seq<Seq<char>>) -> Seq<Outcome> {
        seq![
            measure_at::<isize>(parts, 0, "hours"@, 1),
            code_at(parts, 1, AVERAGE_DEW_POINT_AND_WET_BULB_TEMPERATURE_CODE@),
            measure_at::<Ratio>(parts, 2, "°C"@, Ratio::whole(10)),
            code_at(parts, 3, AVERAGE_DEW_POINT_AND_WET_BULB_TEMPERATURE_DERIVED_CODE@),
            code_at(parts, 4, QUALITY_CODES@),
        ]
    }

    fn from_str(s: &str) -> (r: Result<KGX, FieldError>) {
        proof {
            reveal_with_fuel(first_failure, 6);
        }
        let parts = tokenize(s);
        let period_quantity = measure::<isize>(&parts, 0, "hours", 1)?;
        let code = coded(&parts, 1, &AVERAGE_DEW_POINT_AND_WET_BULB_TEMPERATURE_CODE)?;
        let temp = measure::<Ratio>(&parts, 2, "°C", Ratio::whole(10))?;
        let derived_code = coded(&parts, 3, &AVERAGE_DEW_POINT_AND_WET_BULB_TEMPERATURE_DERIVED_CODE)?;
        let quality_code = coded(&parts, 4, &QUALITY_CODES)?;
        Ok(KGX { period_quantity, code, temp, derived_code, quality_code })
    }
}

/// Every table of this module lists its sentinel code, the one of nines
/// only: looking it up gives its entry and never fails.
pub proof fn lemma_tables_list_their_sentinels()
    ensures
        CodeRecord::lookup("9"@, CODES@) is Some,
        CodeRecord::lookup("9"@, CONDITION_CODES@) is Some,
        CodeRecord::lookup("9"@, HEATING_COOLING_DAY_CODES@) is Some,
        CodeRecord::lookup("9"@, AVERAGE_DEW_POINT_AND_WET_BULB_TEMPERATURE_CODE@) is Some,
        CodeRecord::lookup("9"@, AVERAGE_DEW_POINT_AND_WET_BULB_TEMPERATURE_DERIVED_CODE@) is Some,
{
    reveal_strlit("9");
    assert(CODES@[4].0@ == "9"@);
    lemma_sentinel_is_listed(CODES@, 4, "9"@);
    assert(CONDITION_CODES@[1].0@ == "9"@);
    lemma_sentinel_is_listed(CONDITION_CODES@, 1, "9"@);
    assert(HEATING_COOLING_DAY_CODES@[2].0@ == "9"@);
    lemma_sentinel_is_listed(HEATING_COOLING_DAY_CODES@, 2, "9"@);
    assert(AVERAGE_DEW_POINT_AND_WET_BULB_TEMPERATURE_CODE@[2].0@ == "9"@);
    lemma_sentinel_is_listed(AVERAGE_DEW_POINT_AND_WET_BULB_TEMPERATURE_CODE@, 2, "9"@);
    assert(AVERAGE_DEW_POINT_AND_WET_BULB_TEMPERATURE_DERIVED_CODE@[1].0@ == "9"@);
    lemma_sentinel_is_listed(AVERAGE_DEW_POINT_AND_WET_BULB_TEMPERATURE_DERIVED_CODE@, 1, "9"@);
}

} // verus!
