//! The sea surface temperature.

use crate::fields::codes::CodeRecord;
use crate::fields::codes::QUALITY_CODES;
use crate::fields::schema::code_at;
use crate::fields::schema::code_cell;
use crate::fields::schema::coded;
use crate::fields::schema::first_failure;
use crate::fields::schema::measure;
use crate::fields::schema::measure_at;
use crate::fields::schema::measure_cell;
use crate::fields::schema::Cell;
use crate::fields::schema::FieldError;
use crate::fields::schema::FieldGroup;
use crate::fields::schema::Outcome;
use crate::model::RecordValue;
use crate::number::Ratio;
use crate::util::tokenize;
use vstd::prelude::*;

verus! {

/// The sea surface temperature.
#[derive(Debug, PartialEq)]
pub struct SA1 {
    pub temperature: Option<RecordValue<Ratio>>,
    pub temperature_quality_code: CodeRecord,
}

impl View for SA1 {
    type V = Seq<Cell>;

    open spec fn view(&self) -> Seq<Cell> {
        seq![
            measure_cell(self.temperature),
            code_cell(self.temperature_quality_code),
        ]
    }
}

impl FieldGroup for SA1 {
    open spec fn schema(parts: Seq<Seq<char>>) -> Seq<Outcome> {
        seq![
            measure_at::<Ratio>(parts, 0, "°C"@, Ratio::whole(10)),
            code_at(parts, 1, QUALITY_CODES@),
        ]
    }

    fn from_str(s: &str) -> (r: Result<SA1, FieldError>) {
        proof {
            reveal_with_fuel(first_failure, 3);
        }
        let parts = tokenize(s);
        let temperature = measure::<Ratio>(&parts, 0, "°C", Ratio::whole(10))?;
        let temperature_quality_code = coded(&parts, 1, &QUALITY_CODES)?;
        Ok(SA1 { temperature, temperature_quality_code })
    }
}

} // verus!
