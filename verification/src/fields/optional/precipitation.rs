//! Precipitation: rain, snow and their records of the month.

use crate::fields::codes::lemma_sentinel_is_listed;
use crate::fields::codes::CodeRecord;
use crate::fields::codes::QUALITY_CODES;
use crate::fields::schema::code_at;
use crate::fields::schema::code_cell;
use crate::fields::schema::coded;
use crate::fields::schema::failure;
use crate::fields::schema::first_failure;
use crate::fields::schema::measure;
use crate::fields::schema::measure_at;
use crate::fields::schema::measure_cell;
use crate::fields::schema::missing;
use crate::fields::schema::optional_text_cell;
use crate::fields::schema::text;
use crate::fields::schema::text_at;
use crate::fields::schema::text_cell;
use crate::fields::schema::texts_cell;
use crate::fields::schema::trimmed_text;
use crate::fields::schema::trimmed_text_at;
use crate::fields::schema::Cell;
use crate::fields::schema::Failure;
use crate::fields::schema::Fault;
use crate::fields::schema::FieldError;
use crate::fields::schema::FieldGroup;
use crate::fields::schema::Outcome;
use crate::model::RecordValue;
use crate::number::Ratio;
use crate::util::is_null;
use crate::util::is_null_spec;
use crate::util::join_commas;
use crate::util::tokenize;
use crate::util::views;
use vstd::prelude::*;

verus! {

pub const CONDITION_CODES: [(&'static str, &'static str); 12] = [
    ("1", "Measurement impossible or inaccurate"),
    ("2", "Trace"),
    ("3", "Begin accumulated period (precipitation amount missing until end of accumulated period)"),
    ("4", "End accumulated period"),
    ("5", "Begin deleted period (precipitation amount missing due to data problem)"),
    ("6", "End deleted period"),
    ("7", "Begin missing period"),
    ("8", "End missing period"),
    ("E", "Estimated data value (eg, from nearby station)"),
    ("I", "Incomplete precipitation amount, excludes one or more missing reports, such as one or more 15-minute reports not included in the 1-hour precipitation total"),
    ("J", "Incomplete precipitation amount, excludes one or more erroneous reports, such as one or more 1-hour precipitation amounts excluded from the 24-hour total"),
    ("9", "Missing"),
];

pub const DURATION_CODES: [(&'static str, &'static str); 5] = [
    ("0", "Lasted less than 1 hour"),
    ("1", "Lasted 1 - 3 hours"),
    ("2", "Lasted 3 - 6 hours"),
    ("3", "Lasted more than 6 hours"),
    ("9", "Missing"),
];

pub const CHARACTERISTIC_CODES: [(&'static str, &'static str); 3] = [
    ("C", "Continuous"),
    ("I", "Intermittent"),
    ("9", "Missing"),
];

pub const DISCREPANCY_CODES: [(&'static str, &'static str); 7] = [
    ("0", "Reported amount of precipitation and reported weather agree"),
    ("1", "Precipitation missing or not reported and none inferred by weather"),
    ("2", "Precipitation missing, but precipitation inferred by weather"),
    ("3", "Precipitation reported, but none inferred by weather"),
    ("4", "Zero precipitation reported, but precipitation inferred by weather"),
    ("5", "Zero precipitation reported, no precipitation inferred and precipitation not occurring at the reporting station"),
    ("9", "Missing"),
];

/// A double date with a hyphen set between its halves: the hyphen goes
/// before the character in the middle, so a text of odd length has the
/// shorter half first.
pub open spec fn hyphenated(token: Seq<char>) -> Seq<char> {
    let k = token.len() / 2;
    token.take(k as int) + seq!['-'] + token.skip(k as int)
}

/// The double date at position `i`: nothing where the sub-token is
/// sentinel-missing, else the sub-token with a hyphen between its halves.
pub open spec fn date_at(parts: Seq<Seq<char>>, i: int) -> Result<Option<Seq<char>>, Failure> {
    if 0 <= i < parts.len() {
        if is_null_spec(parts[i]) {
            Ok(None)
        } else {
            Ok(Some(hyphenated(parts[i])))
        }
    } else {
        Err(missing(parts, i))
    }
}

/// A date as a list: empty where there is none.
pub open spec fn listed(d: Option<Seq<char>>) -> Seq<Seq<char>> {
    match d {
        Some(t) => seq![t],
        None => Seq::empty(),
    }
}

/// The member that lists the double dates at the positions `i` and `j`, in
/// that order and without those that are sentinel-missing.
#[verifier::opaque]
pub open spec fn dates_at(parts: Seq<Seq<char>>, i: int, j: int) -> Outcome {
    match date_at(parts, i) {
        Err(e) => Err(e),
        Ok(a) => match date_at(parts, j) {
            Err(e) => Err(e),
            Ok(b) => Ok(Cell::Texts(listed(a) + listed(b))),
        },
    }
}

/// Reads the double date at position `i`.
fn date(parts: &Vec<String>, i: usize) -> (r: Result<Option<String>, FieldError>)
    ensures
        match r {
            Ok(Some(d)) => date_at(views(parts@), i as int) == Ok::<Option<Seq<char>>, Failure>(
                Some(d@),
            ),
            Ok(None) => date_at(views(parts@), i as int) == Ok::<Option<Seq<char>>, Failure>(None),
            Err(e) => date_at(views(parts@), i as int) == Err::<Option<Seq<char>>, Failure>(e@),
        },
{
    if i >= parts.len() {
        return Err(failure(parts, i, Fault::MissingToken));
    }
    let token = parts[i].as_str();
    if is_null(token) {
        return Ok(None);
    }
    let n = token.unicode_len();
    let k = n / 2;
    let head = token.substring_char(0, k);
    let tail = token.substring_char(k, n);
    let mut d = String::from_str(head);
    d.append("-");
    d.append(tail);
    proof {
        reveal_strlit("-");
        assert("-"@ =~= seq!['-']);
        assert(head@ == token@.take(k as int));
        assert(tail@ == token@.skip(k as int));
        assert(d@ =~= token@.take(k as int) + seq!['-'] + token@.skip(k as int));
    }
    Ok(Some(d))
}

/// Lists the double dates at the positions `i` and `j`.
pub fn dates(parts: &Vec<String>, i: usize, j: usize) -> (r: Result<Vec<String>, FieldError>)
    ensures
        match r {
            Ok(v) => dates_at(views(parts@), i as int, j as int) == Ok::<Cell, Failure>(
                texts_cell(v),
            ),
            Err(e) => dates_at(views(parts@), i as int, j as int) == Err::<Cell, Failure>(e@),
        },
        r matches Err(e) ==> e.text@ == join_commas(views(parts@)),
{
    reveal(dates_at);
    let mut v: Vec<String> = Vec::new();
    let a = date(parts, i)?;
    let b = date(parts, j)?;
    assert(views(v@) =~= Seq::<Seq<char>>::empty());
    if let Some(d) = a {
        assert(views(v@.push(d)) =~= seq![d@]);
        v.push(d);
    }
    if let Some(d) = b {
        assert(views(v@.push(d)) =~= views(v@) + seq![d@]);
        v.push(d);
    }
    Ok(v)
}

/// Liquid precipitation over a period of hours (AA1 to AA4).
#[derive(Debug, PartialEq)]
pub struct AAX {
    pub period_quantity: Option<RecordValue<i8>>,
    pub depth_dimension: Option<RecordValue<Ratio>>,
    pub condition_code: CodeRecord,
    pub quality_code: CodeRecord,
}

impl View for AAX {
    type V = Seq<Cell>;

    open spec fn view(&self) -> Seq<Cell> {
        seq![
            measure_cell(self.period_quantity),
            measure_cell(self.depth_dimension),
            code_cell(self.condition_code),
            code_cell(self.quality_code),
        ]
    }
}

impl FieldGroup for AAX {
    open spec fn schema(parts: Seq<Seq<char>>) -> Seq<Outcome> {
        seq![
            measure_at::<i8>(parts, 0, "Hours"@, 1),
            measure_at::<Ratio>(parts, 1, "mm"@, Ratio::whole(10)),
            code_at(parts, 2, CONDITION_CODES@),
            code_at(parts, 3, QUALITY_CODES@),
        ]
    }

    fn from_str(s: &str) -> (r: Result<AAX, FieldError>) {
        proof {
            reveal_with_fuel(first_failure, 5);
        }
        let parts = tokenize(s);
        let period_quantity = measure::<i8>(&parts, 0, "Hours", 1)?;
        let depth_dimension = measure::<Ratio>(&parts, 1, "mm", Ratio::whole(10))?;
        let condition_code = coded(&parts, 2, &CONDITION_CODES)?;
        let quality_code = coded(&parts, 3, &QUALITY_CODES)?;
        Ok(AAX { period_quantity, depth_dimension, condition_code, quality_code })
    }
}

/// Liquid precipitation, the total of the month.
#[derive(Debug, PartialEq)]
pub struct AB1 {
    pub depth_dimension: Option<RecordValue<Ratio>>,
    pub condition_code: CodeRecord,
    pub quality_code: CodeRecord,
}

impl View for AB1 {
    type V = Seq<Cell>;

    open spec fn view(&self) -> Seq<Cell> {
        seq![
            measure_cell(self.depth_dimension),
            code_cell(self.condition_code),
            code_cell(self.quality_code),
        ]
    }
}

impl FieldGroup for AB1 {
    open spec fn schema(parts: Seq<Seq<char>>) -> Seq<Outcome> {
        seq![
            measure_at::<Ratio>(parts, 0, "mm"@, Ratio::whole(10)),
            code_at(parts, 1, CONDITION_CODES@),
            code_at(parts, 2, QUALITY_CODES@),
        ]
    }

    fn from_str(s: &str) -> (r: Result<AB1, FieldError>) {
        proof {
            reveal_with_fuel(first_failure, 4);
        }
        let parts = tokenize(s);
        let depth_dimension = measure::<Ratio>(&parts, 0, "mm", Ratio::whole(10))?;
        let condition_code = coded(&parts, 1, &CONDITION_CODES)?;
        let quality_code = coded(&parts, 2, &QUALITY_CODES)?;
        Ok(AB1 { depth_dimension, condition_code, quality_code })
    }
}

/// The history of precipitation: how long and how steady.
#[derive(Debug, PartialEq)]
pub struct AC1 {
    pub duration_code: CodeRecord,
    pub characteristic_code: CodeRecord,
    pub quality_code: CodeRecord,
}

impl View for AC1 {
    type V = Seq<Cell>;

    open spec fn view(&self) -> Seq<Cell> {
        seq![
            code_cell(self.duration_code),
            code_cell(self.characteristic_code),
            code_cell(self.quality_code),
        ]
    }
}

impl FieldGroup for AC1 {
    open spec fn schema(parts: Seq<Seq<char>>) -> Seq<Outcome> {
        seq![
            code_at(parts, 0, DURATION_CODES@),
            code_at(parts, 1, CHARACTERISTIC_CODES@),
            code_at(parts, 2, QUALITY_CODES@),
        ]
    }

    fn from_str(s: &str) -> (r: Result<AC1, FieldError>) {
        proof {
            reveal_with_fuel(first_failure, 4);
        }
        let parts = tokenize(s);
        let duration_code = coded(&parts, 0, &DURATION_CODES)?;
        let characteristic_code = coded(&parts, 1, &CHARACTERISTIC_CODES)?;
        let quality_code = coded(&parts, 2, &QUALITY_CODES)?;
        Ok(AC1 { duration_code, characteristic_code, quality_code })
    }
}

/// The greatest amount of liquid precipitation in 24 hours of the month.
#[derive(Debug, PartialEq)]
pub struct AD1 {
    pub depth_dimension: Option<RecordValue<Ratio>>,
    /// The dates on which the amount fell, each with a hyphen between its
    /// halves; a date that is sentinel-missing is left out.
    pub dates_of_occurrence: Vec<String>,
    pub condition_code: CodeRecord,
    pub quality_code: CodeRecord,
}

impl View for AD1 {
    type V = Seq<Cell>;

    open spec fn view(&self) -> Seq<Cell> {
        seq![
            measure_cell(self.depth_dimension),
            texts_cell(self.dates_of_occurrence),
            code_cell(self.condition_code),
            code_cell(self.quality_code),
        ]
    }
}

impl FieldGroup for AD1 {
    open spec fn schema(parts: Seq<Seq<char>>) -> Seq<Outcome> {
        seq![
            measure_at::<Ratio>(parts, 0, "mm"@, Ratio::whole(10)),
            dates_at(parts, 2, 3),
            code_at(parts, 1, CONDITION_CODES@),
            code_at(parts, 5, QUALITY_CODES@),
        ]
    }

    fn from_str(s: &str) -> (r: Result<AD1, FieldError>) {
        proof {
            reveal_with_fuel(first_failure, 5);
        }
        let parts = tokenize(s);
        let depth_dimension = measure::<Ratio>(&parts, 0, "mm", Ratio::whole(10))?;
        let dates_of_occurrence = dates(&parts, 2, 3)?;
        let condition_code = coded(&parts, 1, &CONDITION_CODES)?;
        let quality_code = coded(&parts, 5, &QUALITY_CODES)?;
        Ok(AD1 { depth_dimension, dates_of_occurrence, condition_code, quality_code })
    }
}

/// The days of the month with at least a given amount of precipitation.
#[derive(Debug, PartialEq)]
pub struct AE1 {
    pub days_01: Option<RecordValue<i8>>,
    pub days_01_quality: CodeRecord,
    pub days_10: Option<RecordValue<i8>>,
    pub days_10_quality: CodeRecord,
    pub days_50: Option<RecordValue<i8>>,
    pub days_50_quality: CodeRecord,
    pub days_100: Option<RecordValue<i8>>,
    pub days_100_quality: CodeRecord,
}

impl View for AE1 {
    type V = Seq<Cell>;

    open spec fn view(&self) -> Seq<Cell> {
        seq![
            measure_cell(self.days_01),
            code_cell(self.days_01_quality),
            measure_cell(self.days_10),
            code_cell(self.days_10_quality),
            measure_cell(self.days_50),
            code_cell(self.days_50_quality),
            measure_cell(self.days_100),
            code_cell(self.days_100_quality),
        ]
    }
}

impl FieldGroup for AE1 {
    open spec fn schema(parts: Seq<Seq<char>>) -> Seq<Outcome> {
        seq![
            measure_at::<i8>(parts, 0, "Days"@, 1),
            code_at(parts, 1, QUALITY_CODES@),
            measure_at::<i8>(parts, 2, "Days"@, 1),
            code_at(parts, 3, QUALITY_CODES@),
            measure_at::<i8>(parts, 4, "Days"@, 1),
            code_at(parts, 5, QUALITY_CODES@),
            measure_at::<i8>(parts, 6, "Days"@, 1),
            code_at(parts, 7, QUALITY_CODES@),
        ]
    }

    fn from_str(s: &str) -> (r: Result<AE1, FieldError>) {
        proof {
            reveal_with_fuel(first_failure, 9);
        }
        let parts = tokenize(s);
        let days_01 = measure::<i8>(&parts, 0, "Days", 1)?;
        let days_01_quality = coded(&parts, 1, &QUALITY_CODES)?;
        let days_10 = measure::<i8>(&parts, 2, "Days", 1)?;
        let days_10_quality = coded(&parts, 3, &QUALITY_CODES)?;
        let days_50 = measure::<i8>(&parts, 4, "Days", 1)?;
        let days_50_quality = coded(&parts, 5, &QUALITY_CODES)?;
        let days_100 = measure::<i8>(&parts, 6, "Days", 1)?;
        let days_100_quality = coded(&parts, 7, &QUALITY_CODES)?;
        Ok(
            AE1 {
                days_01,
                days_01_quality,
                days_10,
                days_10_quality,
                days_50,
                days_50_quality,
                days_100,
                days_100_quality,
            },
        )
    }
}

/// Precipitation that was estimated.
#[derive(Debug, PartialEq)]
pub struct AG1 {
    pub discrepancy_code: CodeRecord,
    pub estimated_water_depth_dimension: Option<RecordValue<Ratio>>,
}

impl View for AG1 {
    type V = Seq<Cell>;

    open spec fn view(&self) -> Seq<Cell> {
        seq![
            code_cell(self.discrepancy_code),
            measure_cell(self.estimated_water_depth_dimension),
        ]
    }
}

impl FieldGroup for AG1 {
    open spec fn schema(parts: Seq<Seq<char>>) -> Seq<Outcome> {
        seq![
            code_at(parts, 0, DISCREPANCY_CODES@),
            measure_at::<Ratio>(parts, 1, "mm"@, Ratio::whole(1)),
        ]
    }

    fn from_str(s: &str) -> (r: Result<AG1, FieldError>) {
        proof {
            reveal_with_fuel(first_failure, 3);
        }
        let parts = tokenize(s);
        let discrepancy_code = coded(&parts, 0, &DISCREPANCY_CODES)?;
        let estimated_water_depth_dimension = measure::<Ratio>(&parts, 1, "mm", Ratio::whole(1))?;
        Ok(AG1 { discrepancy_code, estimated_water_depth_dimension })
    }
}

/// The most liquid precipitation in a short time of the month (AH1 to AH6).
#[derive(Debug, PartialEq)]
pub struct AHX {
    pub period_quantity: Option<RecordValue<i8>>,
    pub depth_dimension: Option<RecordValue<Ratio>>,
    pub condition_code: CodeRecord,
    pub end_date_time: Option<String>,
    pub quality_code: CodeRecord,
}

impl View for AHX {
    type V = Seq<Cell>;

    open spec fn view(&self) -> Seq<Cell> {
        seq![
            measure_cell(self.period_quantity),
            measure_cell(self.depth_dimension),
            code_cell(self.condition_code),
            optional_text_cell(self.end_date_time),
            code_cell(self.quality_code),
        ]
    }
}

impl FieldGroup for AHX {
    open spec fn schema(parts: Seq<Seq<char>>) -> Seq<Outcome> {
        seq![
            measure_at::<i8>(parts, 0, "minutes"@, 1),
            measure_at::<Ratio>(parts, 1, "mm"@, Ratio::whole(10)),
            code_at(parts, 2, CONDITION_CODES@),
            trimmed_text_at(parts, 3),
            code_at(parts, 4, QUALITY_CODES@),
        ]
    }

    fn from_str(s: &str) -> (r: Result<AHX, FieldError>) {
        proof {
            reveal_with_fuel(first_failure, 6);
        }
        let parts = tokenize(s);
        let period_quantity = measure::<i8>(&parts, 0, "minutes", 1)?;
        let depth_dimension = measure::<Ratio>(&parts, 1, "mm", Ratio::whole(10))?;
        let condition_code = coded(&parts, 2, &CONDITION_CODES)?;
        let end_date_time = trimmed_text(&parts, 3)?;
        let quality_code = coded(&parts, 4, &QUALITY_CODES)?;
        Ok(AHX { period_quantity, depth_dimension, condition_code, end_date_time, quality_code })
    }
}

/// The most liquid precipitation in a short time of the month (AI1 to AI6).
#[derive(Debug, PartialEq)]
pub struct AIX {
    pub period_quantity: Option<RecordValue<i16>>,
    pub depth_dimension: Option<RecordValue<Ratio>>,
    pub condition_code: CodeRecord,
    pub end_date_time: Option<String>,
    pub quality_code: CodeRecord,
}

impl View for AIX {
    type V = Seq<Cell>;

    open spec fn view(&self) -> Seq<Cell> {
        seq![
            measure_cell(self.period_quantity),
            measure_cell(self.depth_dimension),
            code_cell(self.condition_code),
            optional_text_cell(self.end_date_time),
            code_cell(self.quality_code),
        ]
    }
}

impl FieldGroup for AIX {
    open spec fn schema(parts: Seq<Seq<char>>) -> Seq<Outcome> {
        seq![
            measure_at::<i16>(parts, 0, "minutes"@, 1),
            measure_at::<Ratio>(parts, 1, "mm"@, Ratio::whole(10)),
            code_at(parts, 2, CONDITION_CODES@),
            trimmed_text_at(parts, 3),
            code_at(parts, 4, QUALITY_CODES@),
        ]
    }

    fn from_str(s: &str) -> (r: Result<AIX, FieldError>) {
        proof {
            reveal_with_fuel(first_failure, 6);
        }
        let parts = tokenize(s);
        let period_quantity = measure::<i16>(&parts, 0, "minutes", 1)?;
        let depth_dimension = measure::<Ratio>(&parts, 1, "mm", Ratio::whole(10))?;
        let condition_code = coded(&parts, 2, &CONDITION_CODES)?;
        let end_date_time = trimmed_text(&parts, 3)?;
        let quality_code = coded(&parts, 4, &QUALITY_CODES)?;
        Ok(AIX { period_quantity, depth_dimension, condition_code, end_date_time, quality_code })
    }
}

/// The depth of snow on the ground.
#[derive(Debug, PartialEq)]
pub struct AJ1 {
    pub depth_dimension: Option<RecordValue<i16>>,
    pub condition_code: CodeRecord,
    pub quality_code: CodeRecord,
    pub equivalent_water_depth_dimension: Option<RecordValue<Ratio>>,
    pub equivalent_water_condition_code: CodeRecord,
    pub equivalent_water_condition_quality_code: CodeRecord,
}

impl View for AJ1 {
    type V = Seq<Cell>;

    open spec fn view(&self) -> Seq<Cell> {
        seq![
            measure_cell(self.depth_dimension),
            code_cell(self.condition_code),
            code_cell(self.quality_code),
            measure_cell(self.equivalent_water_depth_dimension),
            code_cell(self.equivalent_water_condition_code),
            code_cell(self.equivalent_water_condition_quality_code),
        ]
    }
}

impl FieldGroup for AJ1 {
    open spec fn schema(parts: Seq<Seq<char>>) -> Seq<Outcome> {
        seq![
            measure_at::<i16>(parts, 0, "cm"@, 1),
            code_at(parts, 1, CONDITION_CODES@),
            code_at(parts, 2, QUALITY_CODES@),
            measure_at::<Ratio>(parts, 3, "mm"@, Ratio::whole(10)),
            code_at(parts, 4, CONDITION_CODES@),
            code_at(parts, 5, QUALITY_CODES@),
        ]
    }

    fn from_str(s: &str) -> (r: Result<AJ1, FieldError>) {
        proof {
            reveal_with_fuel(first_failure, 7);
        }
        let parts = tokenize(s);
        let depth_dimension = measure::<i16>(&parts, 0, "cm", 1)?;
        let condition_code = coded(&parts, 1, &CONDITION_CODES)?;
        let quality_code = coded(&parts, 2, &QUALITY_CODES)?;
        let equivalent_water_depth_dimension = measure::<Ratio>(&parts, 3, "mm", Ratio::whole(10))?;
        let equivalent_water_condition_code = coded(&parts, 4, &CONDITION_CODES)?;
        let equivalent_water_condition_quality_code = coded(&parts, 5, &QUALITY_CODES)?;
        Ok(
            AJ1 {
                depth_dimension,
                condition_code,
                quality_code,
                equivalent_water_depth_dimension,
                equivalent_water_condition_code,
                equivalent_water_condition_quality_code,
            },
        )
    }
}

/// The greatest depth of snow on the ground of the month.
#[derive(Debug, PartialEq)]
pub struct AK1 {
    pub depth_dimension: Option<RecordValue<i16>>,
    pub condition_code: CodeRecord,
    /// The three dates on which the depth occurred, as they were read.
    pub dates_of_occourence: [String; 3],
    pub quality_code: CodeRecord,
}

impl View for AK1 {
    type V = Seq<Cell>;

    open spec fn view(&self) -> Seq<Cell> {
        seq![
            measure_cell(self.depth_dimension),
            code_cell(self.condition_code),
            text_cell(self.dates_of_occourence[0]),
            text_cell(self.dates_of_occourence[1]),
            text_cell(self.dates_of_occourence[2]),
            code_cell(self.quality_code),
        ]
    }
}

impl FieldGroup for AK1 {
    open spec fn schema(parts: Seq<Seq<char>>) -> Seq<Outcome> {
        seq![
            measure_at::<i16>(parts, 0, "cm"@, 1),
            code_at(parts, 1, CONDITION_CODES@),
            text_at(parts, 2),
            text_at(parts, 3),
            text_at(parts, 4),
            code_at(parts, 5, QUALITY_CODES@),
        ]
    }

    fn from_str(s: &str) -> (r: Result<AK1, FieldError>) {
        proof {
            reveal_with_fuel(first_failure, 7);
        }
        let parts = tokenize(s);
        let depth_dimension = measure::<i16>(&parts, 0, "cm", 1)?;
        let condition_code = coded(&parts, 1, &CONDITION_CODES)?;
        let first = text(&parts, 2)?;
        let second = text(&parts, 3)?;
        let third = text(&parts, 4)?;
        let quality_code = coded(&parts, 5, &QUALITY_CODES)?;
        Ok(
            AK1 {
                depth_dimension,
                condition_code,
                dates_of_occourence: [first, second, third],
                quality_code,
            },
        )
    }
}

/// The accumulation of snow over a period (AL1 to AL4).
#[derive(Debug, PartialEq)]
pub struct ALX {
    pub period_quantity: Option<RecordValue<i8>>,
    pub depth_dimension: Option<RecordValue<i16>>,
    pub condition_code: CodeRecord,
    pub quality_code: CodeRecord,
}

impl View for ALX {
    type V = Seq<Cell>;

    open spec fn view(&self) -> Seq<Cell> {
        seq![
            measure_cell(self.period_quantity),
            measure_cell(self.depth_dimension),
            code_cell(self.condition_code),
            code_cell(self.quality_code),
        ]
    }
}

impl FieldGroup for ALX {
    open spec fn schema(parts: Seq<Seq<char>>) -> Seq<Outcome> {
        seq![
            measure_at::<i8>(parts, 0, "hours"@, 1),
            measure_at::<i16>(parts, 1, "cm"@, 1),
            code_at(parts, 2, CONDITION_CODES@),
            code_at(parts, 3, QUALITY_CODES@),
        ]
    }

    fn from_str(s: &str) -> (r: Result<ALX, FieldError>) {
        proof {
            reveal_with_fuel(first_failure, 5);
        }
        let parts = tokenize(s);
        let period_quantity = measure::<i8>(&parts, 0, "hours", 1)?;
        let depth_dimension = measure::<i16>(&parts, 1, "cm", 1)?;
        let condition_code = coded(&parts, 2, &CONDITION_CODES)?;
        let quality_code = coded(&parts, 3, &QUALITY_CODES)?;
        Ok(ALX { period_quantity, depth_dimension, condition_code, quality_code })
    }
}

/// The greatest accumulation of snow in 24 hours of the month.
#[derive(Debug, PartialEq)]
pub struct AM1 {
    pub depth_dimension: Option<RecordValue<Ratio>>,
    pub condition_code: CodeRecord,
    /// The three dates on which the accumulation occurred, as they were read.
    pub dates_of_occourence: [String; 3],
    pub quality_code: CodeRecord,
}

impl View for AM1 {
    type V = Seq<Cell>;

    open spec fn view(&self) -> Seq<Cell> {
        seq![
            measure_cell(self.depth_dimension),
            code_cell(self.condition_code),
            text_cell(self.dates_of_occourence[0]),
            text_cell(self.dates_of_occourence[1]),
            text_cell(self.dates_of_occourence[2]),
            code_cell(self.quality_code),
        ]
    }
}

impl FieldGroup for AM1 {
    open spec fn schema(parts: Seq<Seq<char>>) -> Seq<Outcome> {
        seq![
            measure_at::<Ratio>(parts, 0, "cm"@, Ratio::whole(10)),
            code_at(parts, 1, CONDITION_CODES@),
            text_at(parts, 2),
            text_at(parts, 3),
            text_at(parts, 4),
            code_at(parts, 4, QUALITY_CODES@),
        ]
    }

    fn from_str(s: &str) -> (r: Result<AM1, FieldError>) {
        proof {
            reveal_with_fuel(first_failure, 7);
        }
        let parts = tokenize(s);
        let depth_dimension = measure::<Ratio>(&parts, 0, "cm", Ratio::whole(10))?;
        let condition_code = coded(&parts, 1, &CONDITION_CODES)?;
        let first = text(&parts, 2)?;
        let second = text(&parts, 3)?;
        let third = text(&parts, 4)?;
        let quality_code = coded(&parts, 4, &QUALITY_CODES)?;
        Ok(
            AM1 {
                depth_dimension,
                condition_code,
                dates_of_occourence: [first, second, third],
                quality_code,
            },
        )
    }
}

/// The accumulation of snow over the month.
#[derive(Debug, PartialEq)]
pub struct AN1 {
    pub period_quantity: Option<RecordValue<i8>>,
    pub depth_dimension: Option<RecordValue<Ratio>>,
    pub condition_code: CodeRecord,
    pub quality_code: CodeRecord,
}

impl View for AN1 {
    type V = Seq<Cell>;

    open spec fn view(&self) -> Seq<Cell> {
        seq![
            measure_cell(self.period_quantity),
            measure_cell(self.depth_dimension),
            code_cell(self.condition_code),
            code_cell(self.quality_code),
        ]
    }
}

impl FieldGroup for AN1 {
    open spec fn schema(parts: Seq<Seq<char>>) -> Seq<Outcome> {
        seq![
            measure_at::<i8>(parts, 0, "hours"@, 1),
            measure_at::<Ratio>(parts, 1, "cm"@, Ratio::whole(10)),
            code_at(parts, 2, CONDITION_CODES@),
            code_at(parts, 3, QUALITY_CODES@),
        ]
    }

    fn from_str(s: &str) -> (r: Result<AN1, FieldError>) {
        proof {
            reveal_with_fuel(first_failure, 5);
        }
        let parts = tokenize(s);
        let period_quantity = measure::<i8>(&parts, 0, "hours", 1)?;
        let depth_dimension = measure::<Ratio>(&parts, 1, "cm", Ratio::whole(10))?;
        let condition_code = coded(&parts, 2, &CONDITION_CODES)?;
        let quality_code = coded(&parts, 3, &QUALITY_CODES)?;
        Ok(AN1 { period_quantity, depth_dimension, condition_code, quality_code })
    }
}

/// Liquid precipitation over a period of minutes (AO1 to AO4).
#[derive(Debug, PartialEq)]
pub struct AOX {
    pub period_quantity: Option<RecordValue<i16>>,
    pub depth_dimension: Option<RecordValue<Ratio>>,
    pub condition_code: CodeRecord,
    pub quality_code: CodeRecord,
}

impl View for AOX {
    type V = Seq<Cell>;

    open spec fn view(&self) -> Seq<Cell> {
        seq![
            measure_cell(self.period_quantity),
            measure_cell(self.depth_dimension),
            code_cell(self.condition_code),
            code_cell(self.quality_code),
        ]
    }
}

impl FieldGroup for AOX {
    open spec fn schema(parts: Seq<Seq<char>>) -> Seq<Outcome> {
        seq![
            measure_at::<i16>(parts, 0, "minutes"@, 1),
            measure_at::<Ratio>(parts, 1, "mm"@, Ratio::whole(10)),
            code_at(parts, 2, CONDITION_CODES@),
            code_at(parts, 3, QUALITY_CODES@),
        ]
    }

    fn from_str(s: &str) -> (r: Result<AOX, FieldError>) {
        proof {
            reveal_with_fuel(first_failure, 5);
        }
        let parts = tokenize(s);
        let period_quantity = measure::<i16>(&parts, 0, "minutes", 1)?;
        let depth_dimension = measure::<Ratio>(&parts, 1, "mm", Ratio::whole(10))?;
        let condition_code = coded(&parts, 2, &CONDITION_CODES)?;
        let quality_code = coded(&parts, 3, &QUALITY_CODES)?;
        Ok(AOX { period_quantity, depth_dimension, condition_code, quality_code })
    }
}

/// Every table of this module lists its sentinel code, the one of nines
/// only: looking it up gives its entry and never fails.
pub proof fn lemma_tables_list_their_sentinels()
    ensures
        CodeRecord::lookup("9"@, CONDITION_CODES@) is Some,
        CodeRecord::lookup("9"@, DURATION_CODES@) is Some,
        CodeRecord::lookup("9"@, CHARACTERISTIC_CODES@) is Some,
        CodeRecord::lookup("9"@, DISCREPANCY_CODES@) is Some,
{
    reveal_strlit("9");
    assert(CONDITION_CODES@[11].0@ == "9"@);
    lemma_sentinel_is_listed(CONDITION_CODES@, 11, "9"@);
    assert(DURATION_CODES@[4].0@ == "9"@);
    lemma_sentinel_is_listed(DURATION_CODES@, 4, "9"@);
    assert(CHARACTERISTIC_CODES@[2].0@ == "9"@);
    lemma_sentinel_is_listed(CHARACTERISTIC_CODES@, 2, "9"@);
    assert(DISCREPANCY_CODES@[6].0@ == "9"@);
    lemma_sentinel_is_listed(DISCREPANCY_CODES@, 6, "9"@);
}

} // verus!
