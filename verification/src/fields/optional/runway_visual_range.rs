//! The visual range along a runway.

use crate::fields::codes::lemma_sentinel_is_listed;
use crate::fields::codes::CodeRecord;
use crate::fields::codes::QUALITY_CODES;
use crate::fields::schema::code_at;
use crate::fields::schema::code_cell;
use crate::fields::schema::coded;
use crate::fields::schema::first_failure;
use crate::fields::schema::measure;
use crate::fields::schema::measure_at;
use crate::fields::schema::measure_cell;
use crate::fields::schema::Cell;
use crate::fields::schema::FieldError;
use crate::fields::schema::FieldGroup;
use crate::fields::schema::Outcome;
use crate::model::RecordValue;
use crate::number::Ratio;
use crate::util::tokenize;
use vstd::prelude::*;

verus! {

pub const RANGE_OBSERVATION: [(&'static str, &'static str); 5] = [
    ("L", "left"),
    ("C", "center"),
    ("R", "right"),
    ("U", "unknown"),
    ("9", "missing"),
];

/// The visual range along a runway.
#[derive(Debug, PartialEq)]
pub struct ED1 {
    pub direction_angle: Option<RecordValue<Ratio>>,
    pub designator_code: CodeRecord,
    pub visibility_dimension: Option<RecordValue<Ratio>>,
    pub quality_code: CodeRecord,
}

impl View for ED1 {
    type V = Seq<Cell>;

    open spec fn view(&self) -> Seq<Cell> {
        seq![
            measure_cell(self.direction_angle),
            code_cell(self.designator_code),
            measure_cell(self.visibility_dimension),
            code_cell(self.quality_code),
        ]
    }
}

impl FieldGroup for ED1 {
    open spec fn schema(parts: Seq<Seq<char>>) -> Seq<Outcome> {
        seq![
            measure_at::<Ratio>(parts, 0, "°"@, Ratio::new(1, 10)),
            code_at(parts, 1, RANGE_OBSERVATION@),
            measure_at::<Ratio>(parts, 2, "m"@, Ratio::whole(1)),
            code_at(parts, 3, QUALITY_CODES@),
        ]
    }

    fn from_str(s: &str) -> (r: Result<ED1, FieldError>) {
        proof {
            reveal_with_fuel(first_failure, 5);
        }
        let parts = tokenize(s);
        let direction_angle = measure::<Ratio>(&parts, 0, "°", Ratio::new(1, 10))?;
        let designator_code = coded(&parts, 1, &RANGE_OBSERVATION)?;
        let visibility_dimension = measure::<Ratio>(&parts, 2, "m", Ratio::whole(1))?;
        let quality_code = coded(&parts, 3, &QUALITY_CODES)?;
        Ok(ED1 { direction_angle, designator_code, visibility_dimension, quality_code })
    }
}

/// Every table of this module lists its sentinel code, the one of nines
/// only: looking it up gives its entry and never fails.
pub proof fn lemma_tables_list_their_sentinels()
    ensures
        CodeRecord::lookup("9"@, RANGE_OBSERVATION@) is Some,
{
    reveal_strlit("9");
    assert(RANGE_OBSERVATION@[4].0@ == "9"@);
    lemma_sentinel_is_listed(RANGE_OBSERVATION@, 4, "9"@);
}

} // verus!
