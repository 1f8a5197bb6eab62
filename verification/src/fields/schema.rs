//! What the positions of a field group decode to. A group's schema lists, in
//! the order of its members, the outcome of each sub-token; the group decodes
//! to the values of all of them, or fails with the first failure among them.

use crate::fields::codes::CodeRecord;
use crate::model::NumberError;
use crate::model::RecordValue;
use crate::number::Numeric;
use crate::util::join;
use crate::util::join_commas;
use crate::util::lemma_join_of_split;
use crate::util::parse_null;
use crate::util::parse_null_spec;
use crate::util::parse_str;
use crate::util::parse_str_spec;
use crate::util::split_commas;
use crate::util::views;
use vstd::prelude::*;

verus! {

/// Why one sub-token of a field group does not decode.
#[derive(Clone, Copy, Debug, PartialEq, Eq)]
pub enum Fault {
    /// The group has no sub-token at the position that its schema reads.
    MissingToken,
    /// A numeric sub-token is present but is no literal of its type.
    Malformed,
    /// A numeric sub-token is present but its type has no value for the
    /// literal divided by the field's divisor.
    Unrepresentable,
    /// The field's table does not list the code.
    UnknownCode,
}

/// The failure of a field group to decode: what went wrong, at which
/// position, the raw sub-token that stood there (empty where none did), and
/// the raw text of the whole group.
#[derive(Debug, PartialEq, Eq)]
pub struct FieldError {
    pub fault: Fault,
    pub position: usize,
    pub token: String,
    pub text: String,
}

/// A `FieldError` as a plain value.
pub struct Failure {
    pub fault: Fault,
    pub position: int,
    pub token: Seq<char>,
    pub text: Seq<char>,
}

impl View for FieldError {
    type V = Failure;

    open spec fn view(&self) -> Failure {
        Failure {
            fault: self.fault,
            position: self.position as int,
            token: self.token@,
            text: self.text@,
        }
    }
}

/// A measurement as a plain value: an exact fraction and its unit.
pub struct Quantity {
    pub numerator: int,
    pub denominator: int,
    pub unit: Seq<char>,
}

/// One member of a decoded field group as a plain value.
pub enum Cell {
    /// A scaled numeric value, absent where the sub-token is
    /// sentinel-missing.
    Measure(Option<Quantity>),
    /// A coded value.
    Code { code: Seq<char>, description: Seq<char> },
    /// A raw sub-token, passed through.
    Text(Seq<char>),
    /// A sub-token kept as text, absent where it is sentinel-missing.
    OptionalText(Option<Seq<char>>),
    /// Several texts.
    Texts(Seq<Seq<char>>),
}

/// What one position of a schema comes to.
pub type Outcome = Result<Cell, Failure>;

/// The failure of a group with the given sub-tokens at position `i`: it
/// holds the sub-token at that position, or an empty one where the group has
/// none there, and the text that the sub-tokens join to, which is the raw text
/// of the group.
pub open spec fn failing(parts: Seq<Seq<char>>, i: int, fault: Fault) -> Failure {
    Failure {
        fault,
        position: i,
        token: if 0 <= i < parts.len() {
            parts[i]
        } else {
            Seq::empty()
        },
        text: join_commas(parts),
    }
}

/// A failure in a packed text holds that text: whatever the position and
/// the fault, a failure over the sub-tokens of a text carries the raw text
/// that they were split from.
pub proof fn lemma_failure_holds_the_text(text: Seq<char>, i: int, fault: Fault)
    ensures
        failing(split_commas(text), i, fault).text == text,
{
    lemma_join_of_split(text);
}

/// The failure of a schema to find a sub-token at position `i`.
pub open spec fn missing(parts: Seq<Seq<char>>, i: int) -> Failure {
    failing(parts, i, Fault::MissingToken)
}

/// The numeric member at position `i`: the sub-token decoded under the
/// field's divisor, with the field's unit.
#[verifier::opaque]
pub open spec fn measure_at<T: Numeric>(
    parts: Seq<Seq<char>>,
    i: int,
    unit: Seq<char>,
    divide: T,
) -> Outcome {
    if 0 <= i < parts.len() {
        match RecordValue::<T>::decoded(parts[i], divide) {
            Ok(None) => Ok(Cell::Measure(None)),
            Ok(Some(v)) => {
                let (numerator, denominator) = v.fraction();
                Ok(Cell::Measure(Some(Quantity { numerator, denominator, unit })))
            },
            Err(NumberError::Malformed) => Err(failing(parts, i, Fault::Malformed)),
            Err(NumberError::Unrepresentable) => Err(failing(parts, i, Fault::Unrepresentable)),
        }
    } else {
        Err(missing(parts, i))
    }
}

/// The coded member at position `i`: the sub-token looked up in the field's
/// table.
#[verifier::opaque]
pub open spec fn code_at(
    parts: Seq<Seq<char>>,
    i: int,
    table: Seq<(&'static str, &'static str)>,
) -> Outcome {
    if 0 <= i < parts.len() {
        match CodeRecord::lookup(parts[i], table) {
            Some((code, description)) => Ok(Cell::Code { code, description }),
            None => Err(failing(parts, i, Fault::UnknownCode)),
        }
    } else {
        Err(missing(parts, i))
    }
}

/// The member at position `i` that passes the raw sub-token through.
#[verifier::opaque]
pub open spec fn text_at(parts: Seq<Seq<char>>, i: int) -> Outcome {
    if 0 <= i < parts.len() {
        Ok(Cell::Text(parts[i]))
    } else {
        Err(missing(parts, i))
    }
}

/// The member at position `i` that keeps the sub-token as text unless it is
/// sentinel-missing.
#[verifier::opaque]
pub open spec fn present_text_at(parts: Seq<Seq<char>>, i: int) -> Outcome {
    if 0 <= i < parts.len() {
        Ok(Cell::OptionalText(parse_str_spec(parts[i])))
    } else {
        Err(missing(parts, i))
    }
}

/// The member at position `i` that keeps the sub-token as trimmed text
/// unless it is sentinel-missing.
#[verifier::opaque]
pub open spec fn trimmed_text_at(parts: Seq<Seq<char>>, i: int) -> Outcome {
    if 0 <= i < parts.len() {
        Ok(Cell::OptionalText(parse_null_spec(parts[i])))
    } else {
        Err(missing(parts, i))
    }
}

/// The first failure among the outcomes from position `k` on.
pub open spec fn first_failure(outcomes: Seq<Outcome>, k: int) -> Option<Failure>
    decreases outcomes.len() - k,
{
    if 0 <= k < outcomes.len() {
        match outcomes[k] {
            Err(e) => Some(e),
            Ok(_) => first_failure(outcomes, k + 1),
        }
    } else {
        None
    }
}

/// What a schema's outcomes come to together: the members' values in order
/// where every position decodes, else the failure of the first that does not.
pub open spec fn collected(outcomes: Seq<Outcome>) -> Result<Seq<Cell>, Failure> {
    match first_failure(outcomes, 0) {
        Some(e) => Err(e),
        None => Ok(Seq::new(outcomes.len(), |i: int| outcomes[i]->Ok_0)),
    }
}

/// A numeric member as a plain value.
pub open spec fn measure_cell<T: Numeric>(v: Option<RecordValue<T>>) -> Cell {
    match v {
        Some(m) => {
            let (numerator, denominator) = m.value.fraction();
            Cell::Measure(Some(Quantity { numerator, denominator, unit: m.unit@ }))
        },
        None => Cell::Measure(None),
    }
}

/// A coded member as a plain value.
pub open spec fn code_cell(c: CodeRecord) -> Cell {
    Cell::Code { code: c.value@, description: c.description@ }
}

/// A raw text member as a plain value.
pub open spec fn text_cell(t: String) -> Cell {
    Cell::Text(t@)
}

/// An optional text member as a plain value.
pub open spec fn optional_text_cell(t: Option<String>) -> Cell {
    match t {
        Some(s) => Cell::OptionalText(Some(s@)),
        None => Cell::OptionalText(None),
    }
}

/// A list of texts as a plain value.
pub open spec fn texts_cell(t: Vec<String>) -> Cell {
    Cell::Texts(views(t@))
}

/// Whether a decoded group, or the failure to decode it, is what a schema's
/// outcomes come to.
pub open spec fn yields<G: View<V = Seq<Cell>>>(
    r: Result<G, FieldError>,
    outcomes: Seq<Outcome>,
) -> bool {
    match r {
        Ok(g) => collected(outcomes) is Ok && g@ =~= collected(outcomes)->Ok_0,
        Err(e) => collected(outcomes) == Err::<Seq<Cell>, Failure>(e@),
    }
}

/// A field group: a fixed-shape aggregate of members, each decoded from the
/// sub-token at its position in the packed text.
pub trait FieldGroup: Sized + View<V = Seq<Cell>> {
    /// What the sub-tokens of the group decode to, member by member and in
    /// the members' order.
    spec fn schema(parts: Seq<Seq<char>>) -> Seq<Outcome>;

    /// Decodes the packed group: every member from the sub-token at its
    /// position, or the failure of the first member that does not decode. A
    /// failure holds the raw text of the group.
    fn from_str(s: &str) -> (r: Result<Self, FieldError>)
        ensures
            yields(r, Self::schema(split_commas(s@))),
            r matches Err(e) ==> e.text@ == s@,
    ;
}

/// The failure of a group with the given sub-tokens at position `i`.
pub fn failure(parts: &Vec<String>, i: usize, fault: Fault) -> (e: FieldError)
    ensures
        e@ == failing(views(parts@), i as int, fault),
{
    let token = if i < parts.len() {
        parts[i].clone()
    } else {
        String::new()
    };
    FieldError { fault, position: i, token, text: join(parts) }
}

/// Decodes the numeric member at position `i`.
pub fn measure<T: Numeric>(parts: &Vec<String>, i: usize, unit: &str, divide: T) -> (r: Result<
    Option<RecordValue<T>>,
    FieldError,
>)
    ensures
        match r {
            Ok(v) => measure_at(views(parts@), i as int, unit@, divide) == Ok::<Cell, Failure>(
                measure_cell(v),
            ),
            Err(e) => measure_at(views(parts@), i as int, unit@, divide) == Err::<Cell, Failure>(
                e@,
            ),
        },
        r matches Err(e) ==> e.text@ == join_commas(views(parts@)),
{
    reveal(measure_at);
    if i >= parts.len() {
        return Err(failure(parts, i, Fault::MissingToken));
    }
    let token = parts[i].as_str();
    match RecordValue::<T>::new(token, unit, divide) {
        Ok(v) => Ok(v),
        Err(NumberError::Malformed) => Err(failure(parts, i, Fault::Malformed)),
        Err(NumberError::Unrepresentable) => Err(failure(parts, i, Fault::Unrepresentable)),
    }
}

/// Decodes the coded member at position `i`.
pub fn coded(parts: &Vec<String>, i: usize, table: &[(&'static str, &'static str)]) -> (r: Result<
    CodeRecord,
    FieldError,
>)
    ensures
        match r {
            Ok(c) => code_at(views(parts@), i as int, table@) == Ok::<Cell, Failure>(code_cell(c)),
            Err(e) => code_at(views(parts@), i as int, table@) == Err::<Cell, Failure>(e@),
        },
        r matches Err(e) ==> e.text@ == join_commas(views(parts@)),
{
    reveal(code_at);
    if i >= parts.len() {
        return Err(failure(parts, i, Fault::MissingToken));
    }
    let token = parts[i].as_str();
    match CodeRecord::new(token, table) {
        Some(c) => Ok(c),
        None => Err(failure(parts, i, Fault::UnknownCode)),
    }
}

/// Passes the raw sub-token at position `i` through.
pub fn text(parts: &Vec<String>, i: usize) -> (r: Result<String, FieldError>)
    ensures
        match r {
            Ok(t) => text_at(views(parts@), i as int) == Ok::<Cell, Failure>(text_cell(t)),
            Err(e) => text_at(views(parts@), i as int) == Err::<Cell, Failure>(e@),
        },
        r matches Err(e) ==> e.text@ == join_commas(views(parts@)),
{
    reveal(text_at);
    if i >= parts.len() {
        return Err(failure(parts, i, Fault::MissingToken));
    }
    Ok(parts[i].clone())
}

/// Keeps the sub-token at position `i` as text unless it is
/// sentinel-missing.
pub fn present_text(parts: &Vec<String>, i: usize) -> (r: Result<Option<String>, FieldError>)
    ensures
        match r {
            Ok(t) => present_text_at(views(parts@), i as int) == Ok::<Cell, Failure>(
                optional_text_cell(t),
            ),
            Err(e) => present_text_at(views(parts@), i as int) == Err::<Cell, Failure>(e@),
        },
        r matches Err(e) ==> e.text@ == join_commas(views(parts@)),
{
    reveal(present_text_at);
    if i >= parts.len() {
        return Err(failure(parts, i, Fault::MissingToken));
    }
    Ok(parse_str(parts[i].as_str()))
}

/// Keeps the sub-token at position `i` as trimmed text unless it is
/// sentinel-missing.
pub fn trimmed_text(parts: &Vec<String>, i: usize) -> (r: Result<Option<String>, FieldError>)
    ensures
        match r {
            Ok(t) => trimmed_text_at(views(parts@), i as int) == Ok::<Cell, Failure>(
                optional_text_cell(t),
            ),
            Err(e) => trimmed_text_at(views(parts@), i as int) == Err::<Cell, Failure>(e@),
        },
        r matches Err(e) ==> e.text@ == join_commas(views(parts@)),
{
    reveal(trimmed_text_at);
    if i >= parts.len() {
        return Err(failure(parts, i, Fault::MissingToken));
    }
    Ok(parse_null(parts[i].as_str()))
}

} // verus!
