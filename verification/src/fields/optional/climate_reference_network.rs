//! The Climate Reference Network: precipitation, temperature and the
//! diagnostics of its stations.

use crate::fields::codes::lemma_sentinel_is_listed;
use crate::fields::codes::CodeRecord;
use crate::fields::codes::QUALITY_CODES;
use crate::fields::schema::code_at;
use crate::fields::schema::code_cell;
use crate::fields::schema::coded;
use crate::fields::schema::failing;
use crate::fields::schema::failure;
use crate::fields::schema::first_failure;
use crate::fields::schema::measure;
use crate::fields::schema::measure_at;
use crate::fields::schema::measure_cell;
use crate::fields::schema::missing;
use crate::fields::schema::Cell;
use crate::fields::schema::Failure;
use crate::fields::schema::Fault;
use crate::fields::schema::FieldError;
use crate::fields::schema::FieldGroup;
use crate::fields::schema::Outcome;
use crate::model::RecordValue;
use crate::number::decimal_string;
use crate::number::decimal_text;
use crate::number::integer_literal;
use crate::number::parse_integer;
use crate::number::within;
use crate::number::Ratio;
use crate::util::join_commas;
use crate::util::tokenize;
use crate::util::views;
use vstd::prelude::*;

verus! {

pub const QUALITY_FLAG: [(&'static str, &'static str); 10] = [
    ("0", "Passed all quality control checks"),
    ("1", "Did not pass all quality check"),
    ("2", "Did not pass all quality check"),
    ("3", "Did not pass all quality check"),
    ("4", "Did not pass all quality check"),
    ("5", "Did not pass all quality check"),
    ("6", "Did not pass all quality check"),
    ("7", "Did not pass all quality check"),
    ("8", "Did not pass all quality check"),
    ("9", "Did not pass all quality check"),
];

pub const GAGUE_HEATER_FLAG: [(&'static str, &'static str); 3] = [
    ("0", "Off"),
    ("1", "On"),
    ("9", "Missing"),
];

/// What a door flag says: zero is closed, one to 8192 is open, and every
/// other number stands for missing.
pub open spec fn door_description(flag: int) -> Seq<char> {
    if flag == 0 {
        "closed"@
    } else if 1 <= flag <= 8192 {
        "open"@
    } else {
        "missing"@
    }
}

/// The door flag at position `i`: the sub-token read as a signed binary
/// numeral, as a coded value of the number in decimal notation and what it
/// says.
#[verifier::opaque]
pub open spec fn door_flag_at(parts: Seq<Seq<char>>, i: int) -> Outcome {
    if 0 <= i < parts.len() {
        match within(integer_literal(parts[i], 2, true), isize::MIN as int, isize::MAX as int) {
            Some(v) => Ok(Cell::Code { code: decimal_text(v), description: door_description(v) }),
            None => Err(failing(parts, i, Fault::Malformed)),
        }
    } else {
        Err(missing(parts, i))
    }
}

/// Decodes the door flag at position `i`.
pub fn door_flag(parts: &Vec<String>, i: usize) -> (r: Result<CodeRecord, FieldError>)
    ensures
        match r {
            Ok(c) => door_flag_at(views(parts@), i as int) == Ok::<Cell, Failure>(code_cell(c)),
            Err(e) => door_flag_at(views(parts@), i as int) == Err::<Cell, Failure>(e@),
        },
        r matches Err(e) ==> e.text@ == join_commas(views(parts@)),
{
    reveal(door_flag_at);
    if i >= parts.len() {
        return Err(failure(parts, i, Fault::MissingToken));
    }
    let token = parts[i].as_str();
    match parse_integer(token, 2, true, isize::MIN as i128, isize::MAX as i128) {
        Some(v) => {
            let message = if v == 0 {
                "closed"
            } else if 1 <= v && v <= 8192 {
                "open"
            } else {
                "missing"
            };
            Ok(CodeRecord { value: decimal_string(v as i64), description: message.to_owned() })
        },
        None => Err(failure(parts, i, Fault::Malformed)),
    }
}

/// Liquid precipitation below the hour, secondary sensor (CB1 to CB2).
#[derive(Debug, PartialEq)]
pub struct CBX {
    pub period_quantity: Option<RecordValue<isize>>,
    pub liquid_depth: Option<RecordValue<Ratio>>,
    pub quality_code: CodeRecord,
    pub quality_flag: CodeRecord,
}

impl View for CBX {
    type V = Seq<Cell>;

    open spec fn view(&self) -> Seq<Cell> {
        seq![
            measure_cell(self.period_quantity),
            measure_cell(self.liquid_depth),
            code_cell(self.quality_code),
            code_cell(self.quality_flag),
        ]
    }
}

impl FieldGroup for CBX {
    open spec fn schema(parts: Seq<Seq<char>>) -> Seq<Outcome> {
        seq![
            measure_at::<isize>(parts, 0, "Minutes"@, 1),
            measure_at::<Ratio>(parts, 1, "mm"@, Ratio::whole(10)),
            code_at(parts, 2, QUALITY_CODES@),
            code_at(parts, 3, QUALITY_FLAG@),
        ]
    }

    fn from_str(s: &str) -> (r: Result<CBX, FieldError>) {
        proof {
            reveal_with_fuel(first_failure, 5);
        }
        let parts = tokenize(s);
        let period_quantity = measure::<isize>(&parts, 0, "Minutes", 1)?;
        let liquid_depth = measure::<Ratio>(&parts, 1, "mm", Ratio::whole(10))?;
        let quality_code = coded(&parts, 2, &QUALITY_CODES)?;
        let quality_flag = coded(&parts, 3, &QUALITY_FLAG)?;
        Ok(CBX { period_quantity, liquid_depth, quality_code, quality_flag })
    }
}

/// The fan speed of the hour (CF1 to CF3).
#[derive(Debug, PartialEq)]
pub struct CFX {
    pub fan_speed: Option<RecordValue<i32>>,
    pub quality_code: CodeRecord,
    pub quality_flag: CodeRecord,
}

impl View for CFX {
    type V = Seq<Cell>;

    open spec fn view(&self) -> Seq<Cell> {
        seq![
            measure_cell(self.fan_speed),
            code_cell(self.quality_code),
            code_cell(self.quality_flag),
        ]
    }
}

impl FieldGroup for CFX {
    open spec fn schema(parts: Seq<Seq<char>>) -> Seq<Outcome> {
        seq![
            measure_at::<i32>(parts, 0, "RPM"@, 1),
            code_at(parts, 1, QUALITY_CODES@),
            code_at(parts, 2, QUALITY_FLAG@),
        ]
    }

    fn from_str(s: &str) -> (r: Result<CFX, FieldError>) {
        proof {
            reveal_with_fuel(first_failure, 4);
        }
        let parts = tokenize(s);
        let fan_speed = measure::<i32>(&parts, 0, "RPM", 1)?;
        let quality_code = coded(&parts, 1, &QUALITY_CODES)?;
        let quality_flag = coded(&parts, 2, &QUALITY_FLAG)?;
        Ok(CFX { fan_speed, quality_code, quality_flag })
    }
}

/// Liquid precipitation below the hour, primary sensor (CG1 to CG3).
#[derive(Debug, PartialEq)]
pub struct CGX {
    pub liquid_depth: Option<RecordValue<Ratio>>,
    pub quality_code: CodeRecord,
    pub quality_flag: CodeRecord,
}

impl View for CGX {
    type V = Seq<Cell>;

    open spec fn view(&self) -> Seq<Cell> {
        seq![
            measure_cell(self.liquid_depth),
            code_cell(self.quality_code),
            code_cell(self.quality_flag),
        ]
    }
}

impl FieldGroup for CGX {
    open spec fn schema(parts: Seq<Seq<char>>) -> Seq<Outcome> {
        seq![
            measure_at::<Ratio>(parts, 0, "mm"@, Ratio::whole(10)),
            code_at(parts, 1, QUALITY_CODES@),
            code_at(parts, 2, QUALITY_FLAG@),
        ]
    }

    fn from_str(s: &str) -> (r: Result<CGX, FieldError>) {
        proof {
            reveal_with_fuel(first_failure, 4);
        }
        let parts = tokenize(s);
        let liquid_depth = measure::<Ratio>(&parts, 0, "mm", Ratio::whole(10))?;
        let quality_code = coded(&parts, 1, &QUALITY_CODES)?;
        let quality_flag = coded(&parts, 2, &QUALITY_FLAG)?;
        Ok(CGX { liquid_depth, quality_code, quality_flag })
    }
}

/// Temperature and relative humidity below the hour (CH1 to CH2).
#[derive(Debug, PartialEq)]
pub struct CHX {
    pub period_quantity: Option<RecordValue<u8>>,
    pub avg_air_temp: Option<RecordValue<Ratio>>,
    pub avg_air_temp_quality_code: CodeRecord,
    pub avg_air_temp_quality_flag: CodeRecord,
    pub avg_rh: Option<RecordValue<Ratio>>,
    pub avg_rh_quality_code: CodeRecord,
    pub avg_rh_quality_flag: CodeRecord,
}

impl View for CHX {
    type V = Seq<Cell>;

    open spec fn view(&self) -> Seq<Cell> {
        seq![
            measure_cell(self.period_quantity),
            measure_cell(self.avg_air_temp),
            code_cell(self.avg_air_temp_quality_code),
            code_cell(self.avg_air_temp_quality_flag),
            measure_cell(self.avg_rh),
            code_cell(self.avg_rh_quality_code),
            code_cell(self.avg_rh_quality_flag),
        ]
    }
}

impl FieldGroup for CHX {
    open spec fn schema(parts: Seq<Seq<char>>) -> Seq<Outcome> {
        seq![
            measure_at::<u8>(parts, 0, "Minutes"@, 1),
            measure_at::<Ratio>(parts, 1, "°C"@, Ratio::whole(10)),
            code_at(parts, 2, QUALITY_CODES@),
            code_at(parts, 3, QUALITY_FLAG@),
            measure_at::<Ratio>(parts, 4, "%"@, Ratio::whole(10)),
            code_at(parts, 5, QUALITY_CODES@),
            code_at(parts, 6, QUALITY_FLAG@),
        ]
    }

    fn from_str(s: &str) -> (r: Result<CHX, FieldError>) {
        proof {
            reveal_with_fuel(first_failure, 8);
        }
        let parts = tokenize(s);
        let period_quantity = measure::<u8>(&parts, 0, "Minutes", 1)?;
        let avg_air_temp = measure::<Ratio>(&parts, 1, "°C", Ratio::whole(10))?;
        let avg_air_temp_quality_code = coded(&parts, 2, &QUALITY_CODES)?;
        let avg_air_temp_quality_flag = coded(&parts, 3, &QUALITY_FLAG)?;
        let avg_rh = measure::<Ratio>(&parts, 4, "%", Ratio::whole(10))?;
        let avg_rh_quality_code = coded(&parts, 5, &QUALITY_CODES)?;
        let avg_rh_quality_flag = coded(&parts, 6, &QUALITY_FLAG)?;
        Ok(
            CHX {
                period_quantity,
                avg_air_temp,
                avg_air_temp_quality_code,
                avg_air_temp_quality_flag,
                avg_rh,
                avg_rh_quality_code,
                avg_rh_quality_flag,
            },
        )
    }
}

/// Temperature and relative humidity of the hour.
#[derive(Debug, PartialEq)]
pub struct CI1 {
    pub hourly_min_air_temp: Option<RecordValue<Ratio>>,
    pub hourly_min_air_temp_quality_code: CodeRecord,
    pub hourly_min_air_temp_quality_flag: CodeRecord,
    pub hourly_max_air_temp: Option<RecordValue<Ratio>>,
    pub hourly_max_air_temp_quality_code: CodeRecord,
    pub hourly_max_air_temp_quality_flag: CodeRecord,
    pub std_dev_air_temp: Option<RecordValue<Ratio>>,
    pub std_dev_air_temp_quality_code: CodeRecord,
    pub std_dev_air_temp_quality_flag: CodeRecord,
    pub std_dev_rh: Option<RecordValue<Ratio>>,
    pub std_dev_rh_quality_code: CodeRecord,
    pub std_dev_rh_quality_flag: CodeRecord,
}

impl View for CI1 {
    type V = Seq<Cell>;

    open spec fn view(&self) -> Seq<Cell> {
        seq![
            measure_cell(self.hourly_min_air_temp),
            code_cell(self.hourly_min_air_temp_quality_code),
            code_cell(self.hourly_min_air_temp_quality_flag),
            measure_cell(self.hourly_max_air_temp),
            code_cell(self.hourly_max_air_temp_quality_code),
            code_cell(self.hourly_max_air_temp_quality_flag),
            measure_cell(self.std_dev_air_temp),
            code_cell(self.std_dev_air_temp_quality_code),
            code_cell(self.std_dev_air_temp_quality_flag),
            measure_cell(self.std_dev_rh),
            code_cell(self.std_dev_rh_quality_code),
            code_cell(self.std_dev_rh_quality_flag),
        ]
    }
}

impl FieldGroup for CI1 {
    open spec fn schema(parts: Seq<Seq<char>>) -> Seq<Outcome> {
        seq![
            measure_at::<Ratio>(parts, 0, "°C"@, Ratio::whole(10)),
            code_at(parts, 1, QUALITY_CODES@),
            code_at(parts, 2, QUALITY_FLAG@),
            measure_at::<Ratio>(parts, 3, "°C"@, Ratio::whole(10)),
            code_at(parts, 4, QUALITY_CODES@),
            code_at(parts, 5, QUALITY_FLAG@),
            measure_at::<Ratio>(parts, 6, "°C"@, Ratio::whole(10)),
            code_at(parts, 7, QUALITY_CODES@),
            code_at(parts, 8, QUALITY_FLAG@),
            measure_at::<Ratio>(parts, 9, "%"@, Ratio::whole(10)),
            code_at(parts, 10, QUALITY_CODES@),
            code_at(parts, 11, QUALITY_FLAG@),
        ]
    }

    fn from_str(s: &str) -> (r: Result<CI1, FieldError>) {
        proof {
            reveal_with_fuel(first_failure, 13);
        }
        let parts = tokenize(s);
        let hourly_min_air_temp = measure::<Ratio>(&parts, 0, "°C", Ratio::whole(10))?;
        let hourly_min_air_temp_quality_code = coded(&parts, 1, &QUALITY_CODES)?;
        let hourly_min_air_temp_quality_flag = coded(&parts, 2, &QUALITY_FLAG)?;
        let hourly_max_air_temp = measure::<Ratio>(&parts, 3, "°C", Ratio::whole(10))?;
        let hourly_max_air_temp_quality_code = coded(&parts, 4, &QUALITY_CODES)?;
        let hourly_max_air_temp_quality_flag = coded(&parts, 5, &QUALITY_FLAG)?;
        let std_dev_air_temp = measure::<Ratio>(&parts, 6, "°C", Ratio::whole(10))?;
        let std_dev_air_temp_quality_code = coded(&parts, 7, &QUALITY_CODES)?;
        let std_dev_air_temp_quality_flag = coded(&parts, 8, &QUALITY_FLAG)?;
        let std_dev_rh = measure::<Ratio>(&parts, 9, "%", Ratio::whole(10))?;
        let std_dev_rh_quality_code = coded(&parts, 10, &QUALITY_CODES)?;
        let std_dev_rh_quality_flag = coded(&parts, 11, &QUALITY_FLAG)?;
        Ok(
            CI1 {
                hourly_min_air_temp,
                hourly_min_air_temp_quality_code,
                hourly_min_air_temp_quality_flag,
                hourly_max_air_temp,
                hourly_max_air_temp_quality_code,
                hourly_max_air_temp_quality_flag,
                std_dev_air_temp,
                std_dev_air_temp_quality_code,
                std_dev_air_temp_quality_flag,
                std_dev_rh,
                std_dev_rh_quality_code,
                std_dev_rh_quality_flag,
            },
        )
    }
}

/// The battery voltages of the hour.
#[derive(Debug, PartialEq)]
pub struct CN1 {
    pub battery_voltage: Option<RecordValue<Ratio>>,
    pub battery_voltage_quality_code: CodeRecord,
    pub battery_voltage_quality_flag: CodeRecord,
    pub batter_voltage_full_load: Option<RecordValue<Ratio>>,
    pub battery_voltage_full_load_quality_code: CodeRecord,
    pub battery_voltage_full_load_quality_flag: CodeRecord,
    pub battery_voltage_data_logger: Option<RecordValue<Ratio>>,
    pub battery_voltage_data_logger_quality_code: CodeRecord,
    pub battery_voltage_data_logger_quality_flag: CodeRecord,
}

impl View for CN1 {
    type V = Seq<Cell>;

    open spec fn view(&self) -> Seq<Cell> {
        seq![
            measure_cell(self.battery_voltage),
            code_cell(self.battery_voltage_quality_code),
            code_cell(self.battery_voltage_quality_flag),
            measure_cell(self.batter_voltage_full_load),
            code_cell(self.battery_voltage_full_load_quality_code),
            code_cell(self.battery_voltage_full_load_quality_flag),
            measure_cell(self.battery_voltage_data_logger),
            code_cell(self.battery_voltage_data_logger_quality_code),
            code_cell(self.battery_voltage_data_logger_quality_flag),
        ]
    }
}

impl FieldGroup for CN1 {
    open spec fn schema(parts: Seq<Seq<char>>) -> Seq<Outcome> {
        seq![
            measure_at::<Ratio>(parts, 0, "V"@, Ratio::whole(10)),
            code_at(parts, 1, QUALITY_CODES@),
            code_at(parts, 2, QUALITY_FLAG@),
            measure_at::<Ratio>(parts, 3, "V"@, Ratio::whole(10)),
            code_at(parts, 4, QUALITY_CODES@),
            code_at(parts, 5, QUALITY_FLAG@),
            measure_at::<Ratio>(parts, 6, "V"@, Ratio::whole(10)),
            code_at(parts, 7, QUALITY_CODES@),
            code_at(parts, 8, QUALITY_FLAG@),
        ]
    }

    fn from_str(s: &str) -> (r: Result<CN1, FieldError>) {
        proof {
            reveal_with_fuel(first_failure, 10);
        }
        let parts = tokenize(s);
        let battery_voltage = measure::<Ratio>(&parts, 0, "V", Ratio::whole(10))?;
        let battery_voltage_quality_code = coded(&parts, 1, &QUALITY_CODES)?;
        let battery_voltage_quality_flag = coded(&parts, 2, &QUALITY_FLAG)?;
        let batter_voltage_full_load = measure::<Ratio>(&parts, 3, "V", Ratio::whole(10))?;
        let battery_voltage_full_load_quality_code = coded(&parts, 4, &QUALITY_CODES)?;
        let battery_voltage_full_load_quality_flag = coded(&parts, 5, &QUALITY_FLAG)?;
        let battery_voltage_data_logger = measure::<Ratio>(&parts, 6, "V", Ratio::whole(10))?;
        let battery_voltage_data_logger_quality_code = coded(&parts, 7, &QUALITY_CODES)?;
        let battery_voltage_data_logger_quality_flag = coded(&parts, 8, &QUALITY_FLAG)?;
        Ok(
            CN1 {
                battery_voltage,
                battery_voltage_quality_code,
                battery_voltage_quality_flag,
                batter_voltage_full_load,
                battery_voltage_full_load_quality_code,
                battery_voltage_full_load_quality_flag,
                battery_voltage_data_logger,
                battery_voltage_data_logger_quality_code,
                battery_voltage_data_logger_quality_flag,
            },
        )
    }
}

/// The diagnostics of the hour: inlet temperatures and door.
#[derive(Debug, PartialEq)]
pub struct CN2 {
    pub tinlet_temp: Option<RecordValue<Ratio>>,
    pub tinlet_temp_quality_code: CodeRecord,
    pub tinlet_temp_quality_flag: CodeRecord,
    pub tinlet_max_temp: Option<RecordValue<Ratio>>,
    pub tinlet_max_temp_quality_code: CodeRecord,
    pub tinlet_max_temp_quality_flag: CodeRecord,
    pub door_open_time: Option<RecordValue<i32>>,
    pub door_open_time_quality_code: CodeRecord,
    pub door_open_time_quality_flag: CodeRecord,
}

impl View for CN2 {
    type V = Seq<Cell>;

    open spec fn view(&self) -> Seq<Cell> {
        seq![
            measure_cell(self.tinlet_temp),
            code_cell(self.tinlet_temp_quality_code),
            code_cell(self.tinlet_temp_quality_flag),
            measure_cell(self.tinlet_max_temp),
            code_cell(self.tinlet_max_temp_quality_code),
            code_cell(self.tinlet_max_temp_quality_flag),
            measure_cell(self.door_open_time),
            code_cell(self.door_open_time_quality_code),
            code_cell(self.door_open_time_quality_flag),
        ]
    }
}

impl FieldGroup for CN2 {
    open spec fn schema(parts: Seq<Seq<char>>) -> Seq<Outcome> {
        seq![
            measure_at::<Ratio>(parts, 0, "°C"@, Ratio::whole(10)),
            code_at(parts, 1, QUALITY_CODES@),
            code_at(parts, 2, QUALITY_FLAG@),
            measure_at::<Ratio>(parts, 3, "°C"@, Ratio::whole(10)),
            code_at(parts, 4, QUALITY_CODES@),
            code_at(parts, 5, QUALITY_FLAG@),
            measure_at::<i32>(parts, 6, "minutes"@, 1),
            code_at(parts, 7, QUALITY_CODES@),
            code_at(parts, 8, QUALITY_FLAG@),
        ]
    }

    fn from_str(s: &str) -> (r: Result<CN2, FieldError>) {
        proof {
            reveal_with_fuel(first_failure, 10);
        }
        let parts = tokenize(s);
        let tinlet_temp = measure::<Ratio>(&parts, 0, "°C", Ratio::whole(10))?;
        let tinlet_temp_quality_code = coded(&parts, 1, &QUALITY_CODES)?;
        let tinlet_temp_quality_flag = coded(&parts, 2, &QUALITY_FLAG)?;
        let tinlet_max_temp = measure::<Ratio>(&parts, 3, "°C", Ratio::whole(10))?;
        let tinlet_max_temp_quality_code = coded(&parts, 4, &QUALITY_CODES)?;
        let tinlet_max_temp_quality_flag = coded(&parts, 5, &QUALITY_FLAG)?;
        let door_open_time = measure::<i32>(&parts, 6, "minutes", 1)?;
        let door_open_time_quality_code = coded(&parts, 7, &QUALITY_CODES)?;
        let door_open_time_quality_flag = coded(&parts, 8, &QUALITY_FLAG)?;
        Ok(
            CN2 {
                tinlet_temp,
                tinlet_temp_quality_code,
                tinlet_temp_quality_flag,
                tinlet_max_temp,
                tinlet_max_temp_quality_code,
                tinlet_max_temp_quality_flag,
                door_open_time,
                door_open_time_quality_code,
                door_open_time_quality_flag,
            },
        )
    }
}

/// The diagnostics of the hour: reference resistor and signature.
#[derive(Debug, PartialEq)]
pub struct CN3 {
    pub ref_res_avg: Option<RecordValue<Ratio>>,
    pub ref_res_avg_quality_code: CodeRecord,
    pub ref_res_avg_quality_flag: CodeRecord,
    pub d_signature: Option<RecordValue<Ratio>>,
    pub d_signature_quality_code: CodeRecord,
    pub d_signature_quality_flag: CodeRecord,
}

impl View for CN3 {
    type V = Seq<Cell>;

    open spec fn view(&self) -> Seq<Cell> {
        seq![
            measure_cell(self.ref_res_avg),
            code_cell(self.ref_res_avg_quality_code),
            code_cell(self.ref_res_avg_quality_flag),
            measure_cell(self.d_signature),
            code_cell(self.d_signature_quality_code),
            code_cell(self.d_signature_quality_flag),
        ]
    }
}

impl FieldGroup for CN3 {
    open spec fn schema(parts: Seq<Seq<char>>) -> Seq<Outcome> {
        seq![
            measure_at::<Ratio>(parts, 0, "ohms"@, Ratio::whole(10)),
            code_at(parts, 1, QUALITY_CODES@),
            code_at(parts, 2, QUALITY_FLAG@),
            measure_at::<Ratio>(parts, 3, ""@, Ratio::whole(10)),
            code_at(parts, 4, QUALITY_CODES@),
            code_at(parts, 5, QUALITY_FLAG@),
        ]
    }

    fn from_str(s: &str) -> (r: Result<CN3, FieldError>) {
        proof {
            reveal_with_fuel(first_failure, 7);
        }
        let parts = tokenize(s);
        let ref_res_avg = measure::<Ratio>(&parts, 0, "ohms", Ratio::whole(10))?;
        let ref_res_avg_quality_code = coded(&parts, 1, &QUALITY_CODES)?;
        let ref_res_avg_quality_flag = coded(&parts, 2, &QUALITY_FLAG)?;
        let d_signature = measure::<Ratio>(&parts, 3, "", Ratio::whole(10))?;
        let d_signature_quality_code = coded(&parts, 4, &QUALITY_CODES)?;
        let d_signature_quality_flag = coded(&parts, 5, &QUALITY_FLAG)?;
        Ok(
            CN3 {
                ref_res_avg,
                ref_res_avg_quality_code,
                ref_res_avg_quality_flag,
                d_signature,
                d_signature_quality_code,
                d_signature_quality_flag,
            },
        )
    }
}

/// The diagnostics of the hour: heater, door and transmitter power.
#[derive(Debug, PartialEq)]
pub struct CN4 {
    pub gague_heater_flag: CodeRecord,
    pub gague_heater_quality_code: CodeRecord,
    pub gague_heater_quality_flag: CodeRecord,
    /// How long the door stood open, read as a binary numeral: the number in
    /// decimal notation, and whether it says closed, open or missing.
    pub door_flag: CodeRecord,
    pub door_flag_quality_code: CodeRecord,
    pub door_flag_quality_flag: CodeRecord,
    pub fort_trans: Option<RecordValue<Ratio>>,
    pub fort_trans_quality_code: CodeRecord,
    pub refl_trans: Option<RecordValue<Ratio>>,
    pub refl_trans_quality_code: CodeRecord,
    pub refl_trans_quality_flag: CodeRecord,
}

impl View for CN4 {
    type V = Seq<Cell>;

    open spec fn view(&self) -> Seq<Cell> {
        seq![
            code_cell(self.gague_heater_flag),
            code_cell(self.gague_heater_quality_code),
            code_cell(self.gague_heater_quality_flag),
            code_cell(self.door_flag),
            code_cell(self.door_flag_quality_code),
            code_cell(self.door_flag_quality_flag),
            measure_cell(self.fort_trans),
            code_cell(self.fort_trans_quality_code),
            measure_cell(self.refl_trans),
            code_cell(self.refl_trans_quality_code),
            code_cell(self.refl_trans_quality_flag),
        ]
    }
}

impl FieldGroup for CN4 {
    open spec fn schema(parts: Seq<Seq<char>>) -> Seq<Outcome> {
        seq![
            code_at(parts, 0, GAGUE_HEATER_FLAG@),
            code_at(parts, 1, QUALITY_CODES@),
            code_at(parts, 2, QUALITY_FLAG@),
            door_flag_at(parts, 3),
            code_at(parts, 4, QUALITY_CODES@),
            code_at(parts, 5, QUALITY_FLAG@),
            measure_at::<Ratio>(parts, 6, "watts"@, Ratio::whole(10)),
            code_at(parts, 7, QUALITY_CODES@),
            measure_at::<Ratio>(parts, 8, "watts"@, Ratio::whole(10)),
            code_at(parts, 9, QUALITY_CODES@),
            code_at(parts, 10, QUALITY_FLAG@),
        ]
    }

    fn from_str(s: &str) -> (r: Result<CN4, FieldError>) {
        proof {
            reveal_with_fuel(first_failure, 12);
        }
        let parts = tokenize(s);
        let gague_heater_flag = coded(&parts, 0, &GAGUE_HEATER_FLAG)?;
        let gague_heater_quality_code = coded(&parts, 1, &QUALITY_CODES)?;
        let gague_heater_quality_flag = coded(&parts, 2, &QUALITY_FLAG)?;
        let door_flag = door_flag(&parts, 3)?;
        let door_flag_quality_code = coded(&parts, 4, &QUALITY_CODES)?;
        let door_flag_quality_flag = coded(&parts, 5, &QUALITY_FLAG)?;
        let fort_trans = measure::<Ratio>(&parts, 6, "watts", Ratio::whole(10))?;
        let fort_trans_quality_code = coded(&parts, 7, &QUALITY_CODES)?;
        let refl_trans = measure::<Ratio>(&parts, 8, "watts", Ratio::whole(10))?;
        let refl_trans_quality_code = coded(&parts, 9, &QUALITY_CODES)?;
        let refl_trans_quality_flag = coded(&parts, 10, &QUALITY_FLAG)?;
        Ok(
            CN4 {
                gague_heater_flag,
                gague_heater_quality_code,
                gague_heater_quality_flag,
                door_flag,
                door_flag_quality_code,
                door_flag_quality_flag,
                fort_trans,
                fort_trans_quality_code,
                refl_trans,
                refl_trans_quality_code,
                refl_trans_quality_flag,
            },
        )
    }
}

/// Every table of this module lists its sentinel code, the one of nines
/// only: looking it up gives its entry and never fails.
pub proof fn lemma_tables_list_their_sentinels()
    ensures
        CodeRecord::lookup("9"@, QUALITY_FLAG@) is Some,
        CodeRecord::lookup("9"@, GAGUE_HEATER_FLAG@) is Some,
{
    reveal_strlit("9");
    assert(QUALITY_FLAG@[9].0@ == "9"@);
    lemma_sentinel_is_listed(QUALITY_FLAG@, 9, "9"@);
    assert(GAGUE_HEATER_FLAG@[2].0@ == "9"@);
    lemma_sentinel_is_listed(GAGUE_HEATER_FLAG@, 2, "9"@);
}

} // verus!
