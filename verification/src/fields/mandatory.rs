//! The field groups that every observation carries.

use crate::fields::codes::lemma_sentinel_is_listed;
use crate::fields::codes::BOOL_CODES;
use crate::fields::codes::CodeRecord;
use crate::fields::codes::QUALITY_CODES;
use crate::fields::schema::code_at;
use crate::fields::schema::code_cell;
use crate::fields::schema::coded;
use crate::fields::schema::first_failure;
use crate::fields::schema::measure;
use crate::fields::schema::measure_at;
use crate::fields::schema::measure_cell;
use crate::fields::schema::Cell;
use crate::fields::schema::FieldError;
use crate::fields::schema::FieldGroup;
use crate::fields::schema::Outcome;
use crate::model::NumberError;
use crate::model::RecordValue;
use crate::number::Numeric;
use crate::number::Ratio;
use crate::util::is_null;
use crate::util::is_null_spec;
use crate::util::tokenize;
use vstd::prelude::*;

verus! {

pub const WIND_OBSERVATION_TYPE_CODES: [(&'static str, &'static str); 10] = [
    ("A", "Abridged Beaufort"),
    ("B", "Beaufort"),
    ("C", "Calm"),
    ("H", "5-Minute Average Speed"),
    ("N", "Normal"),
    ("R", "60-Minute Average Speed"),
    ("Q", "Squall"),
    ("T", "180 Minute Average Speed"),
    ("V", "Variable"),
    ("9", "Missing"),
];

/// The code that denotes the method used to determine the ceiling.
pub const CEILING_DETERMINATION_CODE: [(&'static str, &'static str); 13] = [
    ("A", "Aircraft"),
    ("B", "Balloon"),
    ("C", "Statistically derived"),
    ("D", "Persistent cirriform ceiling (pre-1950 data)"),
    ("E", "Estimated"),
    ("M", "Measured"),
    ("P", "Precipitation ceiling (pre-1950 data)"),
    ("R", "Radar"),
    ("S", "ASOS augmented"),
    ("U", "Unknown ceiling (pre-1950 data)"),
    ("V", "Variable ceiling (pre-1950 data)"),
    ("W", "Obscured"),
    ("9", "Missing"),
];

pub const VISIBILITY_VARIABILITY_CODE: [(&'static str, &'static str); 3] = [
    ("N", "Not variable"),
    ("V", "Variable"),
    ("9", "Missing"),
];

/// A coordinate of the station, absent where the text is sentinel-missing.
#[derive(Debug, PartialEq)]
pub struct GeoPhysicalPoint(pub Option<Ratio>);

impl GeoPhysicalPoint {
    /// What a text denotes as a coordinate: nothing where it is
    /// sentinel-missing, else the number of the fixed-point literal, and a
    /// failure where a present text is no such literal.
    pub open spec fn decoded(s: Seq<char>) -> Result<Option<Ratio>, NumberError> {
        if is_null_spec(s) {
            Ok(None)
        } else {
            match Ratio::parsed(s) {
                Some(v) => Ok(Some(v)),
                None => Err(NumberError::Malformed),
            }
        }
    }

    /// Reads a coordinate.
    pub fn from_str(s: &str) -> (r: Result<GeoPhysicalPoint, NumberError>)
        ensures
            match r {
                Ok(p) => Self::decoded(s@) == Ok::<Option<Ratio>, NumberError>(p.0),
                Err(e) => Self::decoded(s@) == Err::<Option<Ratio>, NumberError>(e),
            },
    {
        if is_null(s) {
            return Ok(GeoPhysicalPoint(None));
        }
        match Ratio::parse(s) {
            Some(v) => Ok(GeoPhysicalPoint(Some(v))),
            None => Err(NumberError::Malformed),
        }
    }
}

/// The wind observation.
#[derive(Debug, PartialEq)]
pub struct Wind {
    /// The angle, measured in a clockwise direction, between true north and the direction from which the wind is blowing.
    pub direction_angle: Option<RecordValue<i32>>,
    /// The code that denotes a quality status of a reported WIND-OBSERVATION direction angle.
    pub direction_quality_code: CodeRecord,
    /// The code that denotes the character of the WIND-OBSERVATION.
    pub type_code: CodeRecord,
    /// The rate of horizontal travel of air past a fixed point.
    pub speed_rate: Option<RecordValue<Ratio>>,
}

impl View for Wind {
    type V = Seq<Cell>;

    open spec fn view(&self) -> Seq<Cell> {
        seq![
            measure_cell(self.direction_angle),
            code_cell(self.direction_quality_code),
            code_cell(self.type_code),
            measure_cell(self.speed_rate),
        ]
    }
}

impl FieldGroup for Wind {
    open spec fn schema(parts: Seq<Seq<char>>) -> Seq<Outcome> {
        seq![
            measure_at::<i32>(parts, 0, "°"@, 1),
            code_at(parts, 1, QUALITY_CODES@),
            code_at(parts, 2, WIND_OBSERVATION_TYPE_CODES@),
            measure_at::<Ratio>(parts, 3, "m/s"@, Ratio::whole(1000)),
        ]
    }

    fn from_str(s: &str) -> (r: Result<Wind, FieldError>) {
        proof {
            reveal_with_fuel(first_failure, 5);
        }
        let parts = tokenize(s);
        let direction_angle = measure::<i32>(&parts, 0, "°", 1)?;
        let direction_quality_code = coded(&parts, 1, &QUALITY_CODES)?;
        let type_code = coded(&parts, 2, &WIND_OBSERVATION_TYPE_CODES)?;
        let speed_rate = measure::<Ratio>(&parts, 3, "m/s", Ratio::whole(1000))?;
        Ok(Wind { direction_angle, direction_quality_code, type_code, speed_rate })
    }
}

///The height above ground level (AGL) of the lowest cloud or obscuring phenomena layer aloft with 5/8 or more summation total sky cover,
///which may be predominantly opaque, or the vertical visibility into a surface-based obstruction.
///Unlimited = 22000.
#[derive(Debug, PartialEq)]
pub struct Ceiling {
    pub height: Option<RecordValue<i32>>,
    pub quality_code: CodeRecord,
    /// The code that denotes the method used to determine the ceiling.
    pub determination_code: CodeRecord,
    /// The code that represents whether the 'Ceiling and Visibility Okay' (CAVOK) condition has been reported.
    pub cavok: CodeRecord,
}

impl View for Ceiling {
    type V = Seq<Cell>;

    open spec fn view(&self) -> Seq<Cell> {
        seq![
            measure_cell(self.height),
            code_cell(self.quality_code),
            code_cell(self.determination_code),
            code_cell(self.cavok),
        ]
    }
}

impl FieldGroup for Ceiling {
    open spec fn schema(parts: Seq<Seq<char>>) -> Seq<Outcome> {
        seq![
            measure_at::<i32>(parts, 0, "m"@, 1),
            code_at(parts, 1, QUALITY_CODES@),
            code_at(parts, 2, CEILING_DETERMINATION_CODE@),
            code_at(parts, 3, BOOL_CODES@),
        ]
    }

    fn from_str(s: &str) -> (r: Result<Ceiling, FieldError>) {
        proof {
            reveal_with_fuel(first_failure, 5);
        }
        let parts = tokenize(s);
        let height = measure::<i32>(&parts, 0, "m", 1)?;
        let quality_code = coded(&parts, 1, &QUALITY_CODES)?;
        let determination_code = coded(&parts, 2, &CEILING_DETERMINATION_CODE)?;
        let cavok = coded(&parts, 3, &BOOL_CODES)?;
        Ok(Ceiling { height, quality_code, determination_code, cavok })
    }
}

/// The visibility observation.
#[derive(Debug, PartialEq)]
pub struct Visibility {
    /// The horizontal distance at which an object can be seen and identified.
    pub distance: Option<RecordValue<i32>>,
    pub distance_quality_code: CodeRecord,
    pub variability: CodeRecord,
    pub variability_quality_code: CodeRecord,
}

impl View for Visibility {
    type V = Seq<Cell>;

    open spec fn view(&self) -> Seq<Cell> {
        seq![
            measure_cell(self.distance),
            code_cell(self.distance_quality_code),
            code_cell(self.variability),
            code_cell(self.variability_quality_code),
        ]
    }
}

impl FieldGroup for Visibility {
    open spec fn schema(parts: Seq<Seq<char>>) -> Seq<Outcome> {
        seq![
            measure_at::<i32>(parts, 0, "m"@, 1),
            code_at(parts, 1, QUALITY_CODES@),
            code_at(parts, 2, VISIBILITY_VARIABILITY_CODE@),
            code_at(parts, 3, QUALITY_CODES@),
        ]
    }

    fn from_str(s: &str) -> (r: Result<Visibility, FieldError>) {
        proof {
            reveal_with_fuel(first_failure, 5);
        }
        let parts = tokenize(s);
        let distance = measure::<i32>(&parts, 0, "m", 1)?;
        let distance_quality_code = coded(&parts, 1, &QUALITY_CODES)?;
        let variability = coded(&parts, 2, &VISIBILITY_VARIABILITY_CODE)?;
        let variability_quality_code = coded(&parts, 3, &QUALITY_CODES)?;
        Ok(Visibility { distance, distance_quality_code, variability, variability_quality_code })
    }
}

/// The air temperature observation.
#[derive(Debug, PartialEq)]
pub struct Temperature {
    /// The temperature of the air.
    pub air_temperature: Option<RecordValue<i32>>,
    pub air_temperature_quality_code: CodeRecord,
}

impl View for Temperature {
    type V = Seq<Cell>;

    open spec fn view(&self) -> Seq<Cell> {
        seq![
            measure_cell(self.air_temperature),
            code_cell(self.air_temperature_quality_code),
        ]
    }
}

impl FieldGroup for Temperature {
    open spec fn schema(parts: Seq<Seq<char>>) -> Seq<Outcome> {
        seq![
            measure_at::<i32>(parts, 0, "°C"@, 10),
            code_at(parts, 1, QUALITY_CODES@),
        ]
    }

    fn from_str(s: &str) -> (r: Result<Temperature, FieldError>) {
        proof {
            reveal_with_fuel(first_failure, 3);
        }
        let parts = tokenize(s);
        let air_temperature = measure::<i32>(&parts, 0, "°C", 10)?;
        let air_temperature_quality_code = coded(&parts, 1, &QUALITY_CODES)?;
        Ok(Temperature { air_temperature, air_temperature_quality_code })
    }
}

/// The dew point observation.
#[derive(Debug, PartialEq)]
pub struct Dew {
    ///The temperature to which a given parcel of air must be cooled at constant pressure and water vapor content in order for saturation to occur.
    pub dew_point_temperature: Option<RecordValue<i32>>,
    pub dew_point_temperature_quality_code: CodeRecord,
}

impl View for Dew {
    type V = Seq<Cell>;

    open spec fn view(&self) -> Seq<Cell> {
        seq![
            measure_cell(self.dew_point_temperature),
            code_cell(self.dew_point_temperature_quality_code),
        ]
    }
}

impl FieldGroup for Dew {
    open spec fn schema(parts: Seq<Seq<char>>) -> Seq<Outcome> {
        seq![
            measure_at::<i32>(parts, 0, "°C"@, 10),
            code_at(parts, 1, QUALITY_CODES@),
        ]
    }

    fn from_str(s: &str) -> (r: Result<Dew, FieldError>) {
        proof {
            reveal_with_fuel(first_failure, 3);
        }
        let parts = tokenize(s);
        let dew_point_temperature = measure::<i32>(&parts, 0, "°C", 10)?;
        let dew_point_temperature_quality_code = coded(&parts, 1, &QUALITY_CODES)?;
        Ok(Dew { dew_point_temperature, dew_point_temperature_quality_code })
    }
}

/// The air pressure relative to Mean Sea Level (MSL).
#[derive(Debug, PartialEq)]
pub struct SeaLevelPressure {
    pub pressure: Option<RecordValue<i32>>,
    pub pressure_quality_code: CodeRecord,
}

impl View for SeaLevelPressure {
    type V = Seq<Cell>;

    open spec fn view(&self) -> Seq<Cell> {
        seq![
            measure_cell(self.pressure),
            code_cell(self.pressure_quality_code),
        ]
    }
}

impl FieldGroup for SeaLevelPressure {
    open spec fn schema(parts: Seq<Seq<char>>) -> Seq<Outcome> {
        seq![
            measure_at::<i32>(parts, 0, "hPa"@, 10),
            code_at(parts, 1, QUALITY_CODES@),
        ]
    }

    fn from_str(s: &str) -> (r: Result<SeaLevelPressure, FieldError>) {
        proof {
            reveal_with_fuel(first_failure, 3);
        }
        let parts = tokenize(s);
        let pressure = measure::<i32>(&parts, 0, "hPa", 10)?;
        let pressure_quality_code = coded(&parts, 1, &QUALITY_CODES)?;
        Ok(SeaLevelPressure { pressure, pressure_quality_code })
    }
}

/// Every table of this module lists its sentinel code, the one of nines
/// only: looking it up gives its entry and never fails.
pub proof fn lemma_tables_list_their_sentinels()
    ensures
        CodeRecord::lookup("9"@, WIND_OBSERVATION_TYPE_CODES@) is Some,
        CodeRecord::lookup("9"@, CEILING_DETERMINATION_CODE@) is Some,
        CodeRecord::lookup("9"@, VISIBILITY_VARIABILITY_CODE@) is Some,
{
    reveal_strlit("9");
    assert(WIND_OBSERVATION_TYPE_CODES@[9].0@ == "9"@);
    lemma_sentinel_is_listed(WIND_OBSERVATION_TYPE_CODES@, 9, "9"@);
    assert(CEILING_DETERMINATION_CODE@[12].0@ == "9"@);
    lemma_sentinel_is_listed(CEILING_DETERMINATION_CODE@, 12, "9"@);
    assert(VISIBILITY_VARIABILITY_CODE@[2].0@ == "9"@);
    lemma_sentinel_is_listed(VISIBILITY_VARIABILITY_CODE@, 2, "9"@);
}

} // verus!
