//! The scaled numeric value of one measurement, and the record that one row
//! of an observation file assembles to.

use crate::fields::group::decode_group;
use crate::fields::group::schema_of;
use crate::fields::group::OptionalGroup;
use crate::fields::group::Shape;
use crate::fields::group::SLOTS;
use crate::fields::mandatory::Ceiling;
use crate::fields::mandatory::SeaLevelPressure;
use crate::fields::mandatory::Temperature;
use crate::fields::mandatory::Visibility;
use crate::fields::mandatory::Wind;
use crate::fields::schema::collected;
use crate::fields::schema::Cell;
use crate::fields::schema::Failure;
use crate::fields::schema::FieldError;
use crate::fields::schema::FieldGroup;
use crate::number::decimal_text;
use crate::number::fraction_quotient;
use crate::number::lemma_decimal_text_is_whole;
use crate::number::lemma_decimal_text_reads_back;
use crate::number::lemma_truncated_div_bounds;
use crate::number::truncated_div;
use crate::number::Numeric;
use crate::number::Ratio;
use crate::util::date_time_of;
use crate::util::is_null;
use crate::util::is_null_spec;
use crate::util::is_numeric_char;
use crate::util::naive_date_time_from_str;
use crate::util::remove_whitespace;
use crate::util::same_text;
use crate::util::split_commas;
use crate::util::without_whitespace;
use chrono::NaiveDateTime;
use vstd::prelude::*;

verus! {

/// Why a sub-token that is present holds no number.
#[derive(Clone, Copy, Debug, PartialEq, Eq)]
pub enum NumberError {
    /// The text is no literal of the numeric type, or denotes a value beyond
    /// the type's range.
    Malformed,
    /// The type has no value for the literal divided by the divisor: the
    /// divisor is zero, or the quotient lies beyond the type's range.
    Unrepresentable,
}

/// One physical measurement: a number in the type's own arithmetic, and the
/// unit it is measured in.
#[derive(Debug, PartialEq)]
pub struct RecordValue<T> {
    pub value: T,
    pub unit: String,
}

impl<T: Numeric> RecordValue<T> {
    /// What a raw sub-token decodes to under a divisor: nothing where it is
    /// sentinel-missing, else the literal's value divided by the divisor, and
    /// a failure where a present token holds no such number.
    pub open spec fn decoded(s: Seq<char>, divide: T) -> Result<Option<T>, NumberError> {
        if is_null_spec(s) {
            Ok(None)
        } else {
            match T::parsed(s) {
                None => Err(NumberError::Malformed),
                Some(v) => match v.quotient(divide) {
                    None => Err(NumberError::Unrepresentable),
                    Some(q) => Ok(Some(q)),
                },
            }
        }
    }

    /// Decodes one numeric sub-token. The unit is the field's fixed label and
    /// is never read from the token.
    pub fn new(s: &str, unit: &str, divide: T) -> (r: Result<Option<RecordValue<T>>, NumberError>)
        ensures
            match r {
                Ok(Some(v)) => Self::decoded(s@, divide) == Ok::<Option<T>, NumberError>(
                    Some(v.value),
                ) && v.unit@ == unit@,
                Ok(None) => Self::decoded(s@, divide) == Ok::<Option<T>, NumberError>(None),
                Err(e) => Self::decoded(s@, divide) == Err::<Option<T>, NumberError>(e),
            },
    {
        if is_null(s) {
            return Ok(None);
        }
        match T::parse(s) {
            None => Err(NumberError::Malformed),
            Some(v) => match v.divide(divide) {
                None => Err(NumberError::Unrepresentable),
                Some(q) => Ok(Some(RecordValue { value: q, unit: unit.to_owned() })),
            },
        }
    }
}

/// A token none of whose digit characters differs from `'9'` decodes to no
/// value, whatever the numeric type and the divisor.
pub proof fn lemma_sentinel_decodes_to_none<T: Numeric>(s: Seq<char>, divide: T)
    requires
        forall|i: int| 0 <= i < s.len() && is_numeric_char(s[i]) ==> s[i] == '9',
    ensures
        RecordValue::<T>::decoded(s, divide) == Ok::<Option<T>, NumberError>(None),
{
}

/// A token with a digit character other than `'9'` is never taken for
/// missing: it decodes to a value or fails.
pub proof fn lemma_present_is_not_none<T: Numeric>(s: Seq<char>, divide: T)
    requires
        exists|i: int| 0 <= i < s.len() && is_numeric_char(s[i]) && s[i] != '9',
    ensures
        RecordValue::<T>::decoded(s, divide) != Ok::<Option<T>, NumberError>(None),
{
}

/// A token with a digit character other than `'9'` decodes to a value,
/// provided it is a literal of the type and the type holds its quotient by
/// the divisor.
pub proof fn lemma_present_decodes_to_value<T: Numeric>(s: Seq<char>, divide: T)
    requires
        exists|i: int| 0 <= i < s.len() && is_numeric_char(s[i]) && s[i] != '9',
        T::parsed(s) is Some,
        T::parsed(s)->0.quotient(divide) is Some,
    ensures
        RecordValue::<T>::decoded(s, divide) == Ok::<Option<T>, NumberError>(
            Some(T::parsed(s)->0.quotient(divide)->0),
        ),
{
}

/// Round trip of the scale: the decimal notation of an `i8` that is not
/// sentinel-missing decodes, under a divisor other than zero, to the integer
/// divided by the divisor and rounded toward zero, where the type holds
/// that quotient.
pub proof fn lemma_round_trip_i8(r: i8, d: i8)
    requires
        !is_null_spec(decimal_text(r as int)),
        d != 0,
        !(r == i8::MIN && d == -1),
    ensures
        RecordValue::<i8>::decoded(decimal_text(r as int), d) == Ok::<Option<i8>, NumberError>(
            Some(truncated_div(r as int, d as int) as i8),
        ),
{
    lemma_decimal_text_reads_back(r as int, true);
    lemma_truncated_div_bounds(r as int, d as int);
}

/// Round trip of the scale: the decimal notation of an `i16` that is not
/// sentinel-missing decodes, under a divisor other than zero, to the integer
/// divided by the divisor and rounded toward zero, where the type holds
/// that quotient.
pub proof fn lemma_round_trip_i16(r: i16, d: i16)
    requires
        !is_null_spec(decimal_text(r as int)),
        d != 0,
        !(r == i16::MIN && d == -1),
    ensures
        RecordValue::<i16>::decoded(decimal_text(r as int), d) == Ok::<Option<i16>, NumberError>(
            Some(truncated_div(r as int, d as int) as i16),
        ),
{
    lemma_decimal_text_reads_back(r as int, true);
    lemma_truncated_div_bounds(r as int, d as int);
}

/// Round trip of the scale: the decimal notation of an `i32` that is not
/// sentinel-missing decodes, under a divisor other than zero, to the integer
/// divided by the divisor and rounded toward zero, where the type holds
/// that quotient.
pub proof fn lemma_round_trip_i32(r: i32, d: i32)
    requires
        !is_null_spec(decimal_text(r as int)),
        d != 0,
        !(r == i32::MIN && d == -1),
    ensures
        RecordValue::<i32>::decoded(decimal_text(r as int), d) == Ok::<Option<i32>, NumberError>(
            Some(truncated_div(r as int, d as int) as i32),
        ),
{
    lemma_decimal_text_reads_back(r as int, true);
    lemma_truncated_div_bounds(r as int, d as int);
}

/// Round trip of the scale: the decimal notation of an `isize` that is not
/// sentinel-missing decodes, under a divisor other than zero, to the integer
/// divided by the divisor and rounded toward zero, where the type holds
/// that quotient.
pub proof fn lemma_round_trip_isize(r: isize, d: isize)
    requires
        !is_null_spec(decimal_text(r as int)),
        d != 0,
        !(r == isize::MIN && d == -1),
    ensures
        RecordValue::<isize>::decoded(decimal_text(r as int), d) == Ok::<Option<isize>, NumberError>(
            Some(truncated_div(r as int, d as int) as isize),
        ),
{
    lemma_decimal_text_reads_back(r as int, true);
    lemma_truncated_div_bounds(r as int, d as int);
}

/// Round trip of the scale: the decimal notation of an `u8` that is not
/// sentinel-missing decodes, under a divisor other than zero, to the integer
/// divided by the divisor and rounded toward zero.
pub proof fn lemma_round_trip_u8(r: u8, d: u8)
    requires
        !is_null_spec(decimal_text(r as int)),
        d != 0,
    ensures
        RecordValue::<u8>::decoded(decimal_text(r as int), d) == Ok::<Option<u8>, NumberError>(
            Some(truncated_div(r as int, d as int) as u8),
        ),
{
    lemma_decimal_text_reads_back(r as int, false);
    lemma_truncated_div_bounds(r as int, d as int);
}

/// Round trip of the scale in exact arithmetic: the decimal notation of an
/// integer that is not sentinel-missing decodes, under a fraction as divisor,
/// to the integer over one divided by that fraction, where 64 bits hold it.
pub proof fn lemma_round_trip_ratio(r: i64, d: Ratio)
    requires
        !is_null_spec(decimal_text(r as int)),
        fraction_quotient((r as int, 1), d.fraction()) is Some,
    ensures
        RecordValue::<Ratio>::decoded(decimal_text(r as int), d) == Ok::<Option<Ratio>, NumberError>(
            (Ratio::whole_spec(r)).quotient(d),
        ),
{
    lemma_decimal_text_is_whole(r as int);
}

/// One column of a row: its name and the raw text under it.
#[derive(Debug, PartialEq, Eq)]
pub struct Column {
    pub name: String,
    pub value: String,
}

/// Why a column keeps a row from assembling.
#[derive(Debug, PartialEq, Eq)]
pub enum RowFault {
    /// The record needs the column and the row has none of that name.
    MissingColumn,
    /// The column's text, which the failure holds, is no timestamp.
    Timestamp(String),
    /// The column's text, which the failure holds, is no fixed-point
    /// literal.
    Number(String),
    /// The column's field group does not decode; the failure holds the
    /// column's text.
    Field(FieldError),
}

/// The failure of a row to assemble: the column that it is due to, and why.
/// Where the column is there, the fault holds its raw text.
#[derive(Debug, PartialEq, Eq)]
pub struct RowError {
    pub column: String,
    pub fault: RowFault,
}

/// A `RowFault` as a plain value.
pub enum RowFaultView {
    MissingColumn,
    Timestamp(Seq<char>),
    Number(Seq<char>),
    Field(Failure),
}

/// A `RowError` as a plain value.
pub struct RowFailure {
    pub column: Seq<char>,
    pub fault: RowFaultView,
}

impl View for RowFault {
    type V = RowFaultView;

    open spec fn view(&self) -> RowFaultView {
        match self {
            RowFault::MissingColumn => RowFaultView::MissingColumn,
            RowFault::Timestamp(text) => RowFaultView::Timestamp(text@),
            RowFault::Number(text) => RowFaultView::Number(text@),
            RowFault::Field(e) => RowFaultView::Field(e@),
        }
    }
}

impl View for RowError {
    type V = RowFailure;

    open spec fn view(&self) -> RowFailure {
        RowFailure { column: self.column@, fault: self.fault@ }
    }
}

/// The text under the first column of the given name, where the row has one.
pub open spec fn column_of(row: Seq<Column>, name: Seq<char>) -> Option<Seq<char>>
    decreases row.len(),
{
    if row.len() == 0 {
        None
    } else if row[0].name@ == name {
        Some(row[0].value@)
    } else {
        column_of(row.drop_first(), name)
    }
}

/// Finds the text under the first column of the given name.
pub fn find_column<'a>(row: &'a Vec<Column>, name: &str) -> (r: Option<&'a str>)
    ensures
        match r {
            Some(v) => column_of(row@, name@) == Some(v@),
            None => column_of(row@, name@) is None,
        },
{
    let mut i: usize = 0;
    assert(row@.skip(0) == row@);
    while i < row.len()
        invariant
            i <= row.len(),
            column_of(row@, name@) == column_of(row@.skip(i as int), name@),
        decreases row.len() - i,
    {
        assert(row@.skip(i as int)[0] == row@[i as int]);
        if same_text(row[i].name.as_str(), name) {
            return Some(row[i].value.as_str());
        }
        assert(row@.skip(i as int).drop_first() == row@.skip(i + 1));
        i = i + 1;
    }
    None
}

/// Whether a failure tells where it comes from: it names a column that the
/// row lacks, or a column of the row together with the raw text under it.
pub open spec fn tells_its_text(failure: RowFailure, row: Seq<Column>) -> bool {
    match failure.fault {
        RowFaultView::MissingColumn => column_of(row, failure.column) is None,
        RowFaultView::Timestamp(text) => column_of(row, failure.column) == Some(text),
        RowFaultView::Number(text) => column_of(row, failure.column) == Some(text),
        RowFaultView::Field(e) => column_of(row, failure.column) == Some(e.text),
    }
}

/// The failure of a row that lacks a column.
pub open spec fn lacking(name: Seq<char>) -> RowFailure {
    RowFailure { column: name, fault: RowFaultView::MissingColumn }
}

/// The text of a column that the record needs.
#[verifier::opaque]
pub open spec fn text_of(row: Seq<Column>, name: Seq<char>) -> Result<Seq<char>, RowFailure> {
    match column_of(row, name) {
        Some(v) => Ok(v),
        None => Err(lacking(name)),
    }
}

/// The text of a column that the record needs, without its white space.
#[verifier::opaque]
pub open spec fn compact_of(row: Seq<Column>, name: Seq<char>) -> Result<Seq<char>, RowFailure> {
    match column_of(row, name) {
        Some(v) => Ok(without_whitespace(v)),
        None => Err(lacking(name)),
    }
}

/// The timestamp of a column that the record needs.
#[verifier::opaque]
pub open spec fn timestamp_of(row: Seq<Column>, name: Seq<char>) -> Result<
    NaiveDateTime,
    RowFailure,
> {
    match column_of(row, name) {
        Some(v) => match date_time_of(v) {
            Ok(t) => Ok(t),
            Err(_) => Err(RowFailure { column: name, fault: RowFaultView::Timestamp(v) }),
        },
        None => Err(lacking(name)),
    }
}

/// The number of a column that the record needs, read as a fixed-point
/// literal.
#[verifier::opaque]
pub open spec fn number_of(row: Seq<Column>, name: Seq<char>) -> Result<Ratio, RowFailure> {
    match column_of(row, name) {
        Some(v) => match Ratio::parsed(v) {
            Some(q) => Ok(q),
            None => Err(RowFailure { column: name, fault: RowFaultView::Number(v) }),
        },
        None => Err(lacking(name)),
    }
}

/// The field group of a column that the record needs: a mandatory slot
/// decodes whatever its text, and its failure is the row's.
#[verifier::opaque]
pub open spec fn group_of<G: FieldGroup>(row: Seq<Column>, name: Seq<char>) -> Result<
    Seq<Cell>,
    RowFailure,
> {
    match column_of(row, name) {
        Some(v) => match collected(G::schema(split_commas(v))) {
            Ok(cells) => Ok(cells),
            Err(e) => Err(RowFailure { column: name, fault: RowFaultView::Field(e) }),
        },
        None => Err(lacking(name)),
    }
}

/// What becomes of one optional slot of a row.
pub enum SlotOutcome {
    /// The row has no column of the slot's name, or an empty one.
    Absent,
    /// The column decodes to a field group.
    Decoded(Seq<Cell>),
    /// The column is there and does not decode.
    Failed(Failure),
}

/// The decision for one optional slot: it is skipped where its column is
/// absent or empty, and decoded under the schema of its shape otherwise. It
/// looks at no other column.
pub open spec fn slot_outcome(row: Seq<Column>, name: Seq<char>, shape: Shape) -> SlotOutcome {
    match column_of(row, name) {
        None => SlotOutcome::Absent,
        Some(v) => if v.len() == 0 {
            SlotOutcome::Absent
        } else {
            match collected(schema_of(shape, split_commas(v))) {
                Ok(cells) => SlotOutcome::Decoded(cells),
                Err(e) => SlotOutcome::Failed(e),
            }
        },
    }
}

/// Decodes one optional slot of a row: nothing where its column is absent or
/// empty, else the group or the failure to decode it.
pub fn decode_slot(row: &Vec<Column>, name: &str, shape: Shape) -> (r: Result<
    Option<OptionalGroup>,
    FieldError,
>)
    ensures
        match r {
            Ok(None) => slot_outcome(row@, name@, shape) == SlotOutcome::Absent,
            Ok(Some(g)) => slot_outcome(row@, name@, shape) == SlotOutcome::Decoded(g@)
                && g.shape() == shape,
            Err(e) => slot_outcome(row@, name@, shape) == SlotOutcome::Failed(e@),
        },
        r matches Err(e) ==> column_of(row@, name@) == Some(e.text@),
{
    match find_column(row, name) {
        None => Ok(None),
        Some(v) => {
            if v.unicode_len() == 0 {
                Ok(None)
            } else {
                match decode_group(shape, v) {
                    Ok(g) => Ok(Some(g)),
                    Err(e) => Err(e),
                }
            }
        },
    }
}

/// A field group in an optional slot of a record.
#[derive(Debug, PartialEq)]
pub struct Slot {
    /// The name of the column that the group was read from.
    pub name: &'static str,
    pub group: OptionalGroup,
}

/// A `Slot` as a plain value.
pub struct SlotView {
    pub name: Seq<char>,
    pub shape: Shape,
    pub cells: Seq<Cell>,
}

impl View for Slot {
    type V = SlotView;

    open spec fn view(&self) -> SlotView {
        SlotView { name: self.name@, shape: self.group.shape(), cells: self.group@ }
    }
}

/// The slots of a vector as plain values.
pub open spec fn slot_views(slots: Seq<Slot>) -> Seq<SlotView> {
    Seq::new(slots.len(), |i: int| slots[i]@)
}

/// What becomes of the slot at position `k` of a table.
pub open spec fn outcome_at(
    row: Seq<Column>,
    table: Seq<(&'static str, Shape)>,
    k: int,
) -> SlotOutcome {
    slot_outcome(row, table[k].0@, table[k].1)
}

/// The entry that a record keeps for the slot at position `k` of a table
/// where its column decodes to `cells`.
pub open spec fn entry_at(table: Seq<(&'static str, Shape)>, k: int, cells: Seq<Cell>) -> SlotView {
    SlotView { name: table[k].0@, shape: table[k].1, cells }
}

/// What the first `k` optional slots of a table come to for a row: the
/// groups of the columns that are present, in the table's order, or the
/// failure of the first column that does not decode.
pub open spec fn slots_of(row: Seq<Column>, table: Seq<(&'static str, Shape)>, k: int) -> Result<
    Seq<SlotView>,
    RowFailure,
>
    decreases k,
{
    if k <= 0 || k > table.len() {
        Ok(Seq::empty())
    } else {
        match slots_of(row, table, k - 1) {
            Err(e) => Err(e),
            Ok(v) => match outcome_at(row, table, k - 1) {
                SlotOutcome::Absent => Ok(v),
                SlotOutcome::Decoded(cells) => Ok(v.push(entry_at(table, k - 1, cells))),
                SlotOutcome::Failed(e) => Err(
                    RowFailure { column: table[k - 1].0@, fault: RowFaultView::Field(e) },
                ),
            },
        }
    }
}

/// Once a slot has failed, the slots after it change nothing.
pub proof fn lemma_slots_failure_stays(
    row: Seq<Column>,
    table: Seq<(&'static str, Shape)>,
    k: int,
    n: int,
)
    requires
        0 <= k <= n <= table.len(),
        slots_of(row, table, k) is Err,
    ensures
        slots_of(row, table, n) == slots_of(row, table, k),
    decreases n - k,
{
    if k < n {
        lemma_slots_failure_stays(row, table, k, n - 1);
    }
}

/// Optional slots are independent: what becomes of a slot depends on the
/// text under its own column alone. Two rows that agree on that column agree
/// on the slot, whatever their other columns hold.
pub proof fn lemma_slot_depends_on_its_column(
    first: Seq<Column>,
    second: Seq<Column>,
    name: Seq<char>,
    shape: Shape,
)
    requires
        column_of(first, name) == column_of(second, name),
    ensures
        slot_outcome(first, name, shape) == slot_outcome(second, name, shape),
{
}

/// Whether a failure among the slots of a table is due to the slot at
/// position `k`: that slot's column fails with it, the failure names that
/// column, and no slot before it fails.
pub open spec fn due_to(
    failure: RowFailure,
    row: Seq<Column>,
    table: Seq<(&'static str, Shape)>,
    k: int,
) -> bool {
    &&& failure.column == table[k].0@
    &&& failure.fault is Field
    &&& outcome_at(row, table, k) == SlotOutcome::Failed(failure.fault->Field_0)
    &&& forall|j: int| 0 <= j < k ==> !(#[trigger] outcome_at(row, table, j) is Failed)
}

/// A failure among the optional slots is due to one column and to no other:
/// it names the first slot of the table whose column does not decode, and
/// carries that column's own failure.
pub proof fn lemma_slots_failure_is_attributable(
    row: Seq<Column>,
    table: Seq<(&'static str, Shape)>,
    n: int,
)
    requires
        0 <= n <= table.len(),
        slots_of(row, table, n) is Err,
    ensures
        exists|k: int| 0 <= k < n && #[trigger] due_to(slots_of(row, table, n)->Err_0, row, table, k),
    decreases n,
{
    let failure = slots_of(row, table, n)->Err_0;
    if slots_of(row, table, n - 1) is Err {
        lemma_slots_failure_is_attributable(row, table, n - 1);
        let k = choose|k: int| 0 <= k < n - 1 && #[trigger] due_to(failure, row, table, k);
        assert(due_to(failure, row, table, k));
    } else {
        lemma_slots_hold_the_decoded(row, table, n - 1);
        assert(outcome_at(row, table, n - 1) is Failed);
        assert(due_to(failure, row, table, n - 1));
    }
}

/// Where the optional slots of a row decode, no column among them has
/// failed, every slot whose column is present has its group among them, and
/// each of them is the group of such a slot.
pub proof fn lemma_slots_hold_the_decoded(
    row: Seq<Column>,
    table: Seq<(&'static str, Shape)>,
    n: int,
)
    requires
        0 <= n <= table.len(),
        slots_of(row, table, n) is Ok,
    ensures
        forall|k: int|
            0 <= k < n ==> match #[trigger] outcome_at(row, table, k) {
                SlotOutcome::Absent => true,
                SlotOutcome::Decoded(cells) => slots_of(row, table, n)->Ok_0.contains(
                    entry_at(table, k, cells),
                ),
                SlotOutcome::Failed(_) => false,
            },
        forall|i: int|
            0 <= i < slots_of(row, table, n)->Ok_0.len() ==> exists|k: int|
                0 <= k < n && #[trigger] outcome_at(row, table, k) == SlotOutcome::Decoded(
                    slots_of(row, table, n)->Ok_0[i].cells,
                ) && (#[trigger] slots_of(row, table, n)->Ok_0[i]) == entry_at(
                    table,
                    k,
                    slots_of(row, table, n)->Ok_0[i].cells,
                ),
    decreases n,
{
    if n > 0 {
        lemma_slots_hold_the_decoded(row, table, n - 1);
        let before = slots_of(row, table, n - 1)->Ok_0;
        let now = slots_of(row, table, n)->Ok_0;
        let last = outcome_at(row, table, n - 1);
        assert forall|k: int| 0 <= k < n implies match #[trigger] outcome_at(row, table, k) {
            SlotOutcome::Absent => true,
            SlotOutcome::Decoded(cells) => now.contains(entry_at(table, k, cells)),
            SlotOutcome::Failed(_) => false,
        } by {
            if k < n - 1 {
                if let SlotOutcome::Decoded(cells) = outcome_at(row, table, k) {
                    let it = entry_at(table, k, cells);
                    let at = choose|at: int| 0 <= at < before.len() && before[at] == it;
                    if last is Decoded {
                        assert(now[at] == it);
                    }
                }
            } else {
                if let SlotOutcome::Decoded(cells) = last {
                    assert(now[now.len() - 1] == entry_at(table, k, cells));
                }
            }
        }
        assert forall|i: int| 0 <= i < now.len() implies exists|k: int|
            0 <= k < n && #[trigger] outcome_at(row, table, k) == SlotOutcome::Decoded(now[i].cells)
                && (#[trigger] now[i]) == entry_at(table, k, now[i].cells) by {
            if i < before.len() {
                assert(now[i] == before[i]);
                let k = choose|k: int|
                    0 <= k < n - 1 && #[trigger] outcome_at(row, table, k) == SlotOutcome::Decoded(
                        before[i].cells,
                    ) && before[i] == entry_at(table, k, before[i].cells);
                assert(0 <= k < n && outcome_at(row, table, k) == SlotOutcome::Decoded(
                    now[i].cells,
                ));
            } else {
                assert(outcome_at(row, table, n - 1) == SlotOutcome::Decoded(now[i].cells));
            }
        }
    }
}

/// The optional slots of a row under the record's table.
#[verifier::opaque]
pub open spec fn optional_of(row: Seq<Column>) -> Result<Seq<SlotView>, RowFailure> {
    slots_of(row, SLOTS@, SLOTS@.len() as int)
}

/// Reads the text of a column that the record needs.
fn text_column(row: &Vec<Column>, name: &str) -> (r: Result<String, RowError>)
    ensures
        match r {
            Ok(t) => text_of(row@, name@) == Ok::<Seq<char>, RowFailure>(t@),
            Err(e) => text_of(row@, name@) == Err::<Seq<char>, RowFailure>(e@),
        },
        r matches Err(e) ==> tells_its_text(e@, row@) && e.column@ == name@,
{
    reveal(text_of);
    match find_column(row, name) {
        Some(v) => Ok(v.to_owned()),
        None => Err(RowError { column: name.to_owned(), fault: RowFault::MissingColumn }),
    }
}

/// Reads the text of a column that the record needs and removes its white
/// space.
fn compact_column(row: &Vec<Column>, name: &str) -> (r: Result<String, RowError>)
    ensures
        match r {
            Ok(t) => compact_of(row@, name@) == Ok::<Seq<char>, RowFailure>(t@),
            Err(e) => compact_of(row@, name@) == Err::<Seq<char>, RowFailure>(e@),
        },
        r matches Err(e) ==> tells_its_text(e@, row@) && e.column@ == name@,
{
    reveal(compact_of);
    match find_column(row, name) {
        Some(v) => Ok(remove_whitespace(v)),
        None => Err(RowError { column: name.to_owned(), fault: RowFault::MissingColumn }),
    }
}

/// Reads the timestamp of a column that the record needs.
fn timestamp_column(row: &Vec<Column>, name: &str) -> (r: Result<NaiveDateTime, RowError>)
    ensures
        match r {
            Ok(t) => timestamp_of(row@, name@) == Ok::<NaiveDateTime, RowFailure>(t),
            Err(e) => timestamp_of(row@, name@) == Err::<NaiveDateTime, RowFailure>(e@),
        },
        r matches Err(e) ==> tells_its_text(e@, row@) && e.column@ == name@,
{
    reveal(timestamp_of);
    match find_column(row, name) {
        Some(v) => match naive_date_time_from_str(v) {
            Some(t) => Ok(t),
            None => Err(
                RowError { column: name.to_owned(), fault: RowFault::Timestamp(v.to_owned()) },
            ),
        },
        None => Err(RowError { column: name.to_owned(), fault: RowFault::MissingColumn }),
    }
}

/// Reads the number of a column that the record needs.
fn number_column(row: &Vec<Column>, name: &str) -> (r: Result<Ratio, RowError>)
    ensures
        match r {
            Ok(q) => number_of(row@, name@) == Ok::<Ratio, RowFailure>(q),
            Err(e) => number_of(row@, name@) == Err::<Ratio, RowFailure>(e@),
        },
        r matches Err(e) ==> tells_its_text(e@, row@) && e.column@ == name@,
{
    reveal(number_of);
    match find_column(row, name) {
        Some(v) => match Ratio::parse(v) {
            Some(q) => Ok(q),
            None => Err(RowError { column: name.to_owned(), fault: RowFault::Number(v.to_owned()) }),
        },
        None => Err(RowError { column: name.to_owned(), fault: RowFault::MissingColumn }),
    }
}

/// Decodes the field group of a column that the record needs.
fn group_column<G: FieldGroup>(row: &Vec<Column>, name: &str) -> (r: Result<G, RowError>)
    ensures
        match r {
            Ok(g) => group_of::<G>(row@, name@) == Ok::<Seq<Cell>, RowFailure>(g@),
            Err(e) => group_of::<G>(row@, name@) == Err::<Seq<Cell>, RowFailure>(e@),
        },
        r matches Err(e) ==> tells_its_text(e@, row@) && e.column@ == name@,
{
    reveal(group_of);
    match find_column(row, name) {
        Some(v) => match G::from_str(v) {
            Ok(g) => Ok(g),
            Err(e) => Err(RowError { column: name.to_owned(), fault: RowFault::Field(e) }),
        },
        None => Err(RowError { column: name.to_owned(), fault: RowFault::MissingColumn }),
    }
}

/// Decodes the optional slots of a row under a table, each for itself and in
/// the table's order.
pub fn decode_slots(row: &Vec<Column>, table: &[(&'static str, Shape)]) -> (r: Result<
    Vec<Slot>,
    RowError,
>)
    ensures
        match r {
            Ok(v) => slots_of(row@, table@, table@.len() as int) == Ok::<
                Seq<SlotView>,
                RowFailure,
            >(slot_views(v@)),
            Err(e) => slots_of(row@, table@, table@.len() as int) == Err::<
                Seq<SlotView>,
                RowFailure,
            >(e@),
        },
        r matches Err(e) ==> tells_its_text(e@, row@),
{
    let mut slots: Vec<Slot> = Vec::new();
    let mut i: usize = 0;
    assert(slot_views(slots@) =~= Seq::<SlotView>::empty());
    while i < table.len()
        invariant
            i <= table@.len(),
            slots_of(row@, table@, i as int) == Ok::<Seq<SlotView>, RowFailure>(slot_views(slots@)),
        decreases table@.len() - i,
    {
        let (name, shape) = table[i];
        match decode_slot(row, name, shape) {
            Ok(None) => {},
            Ok(Some(group)) => {
                let slot = Slot { name, group };
                assert(slot_views(slots@.push(slot)) =~= slot_views(slots@).push(slot@));
                slots.push(slot);
            },
            Err(e) => {
                let failure = RowError { column: name.to_owned(), fault: RowFault::Field(e) };
                proof {
                    assert(slots_of(row@, table@, i + 1) == Err::<Seq<SlotView>, RowFailure>(
                        failure@,
                    ));
                    lemma_slots_failure_stays(row@, table@, i + 1, table@.len() as int);
                }
                return Err(failure);
            },
        }
        i = i + 1;
    }
    Ok(slots)
}

/// Decodes the optional slots of a row under the record's table.
fn optional_slots(row: &Vec<Column>) -> (r: Result<Vec<Slot>, RowError>)
    ensures
        match r {
            Ok(v) => optional_of(row@) == Ok::<Seq<SlotView>, RowFailure>(slot_views(v@)),
            Err(e) => optional_of(row@) == Err::<Seq<SlotView>, RowFailure>(e@),
        },
        r matches Err(e) ==> tells_its_text(e@, row@),
{
    reveal(optional_of);
    decode_slots(row, &SLOTS)
}

/// One observation: where and when it was made, the field groups that every
/// observation carries, and those of the optional groups that its row held.
#[derive(Debug, PartialEq)]
pub struct Record {
    pub station: String,
    pub date: NaiveDateTime,
    pub source: String,
    pub latitude: Ratio,
    pub longitude: Ratio,
    pub elevation: Ratio,
    pub name: String,
    pub report_type: String,
    pub call_sign: String,
    pub quality_control: String,
    pub wnd: Wind,
    pub cig: Ceiling,
    pub vis: Visibility,
    pub tmp: Temperature,
    pub slp: SeaLevelPressure,
    /// The optional groups whose columns the row held, in the order of the
    /// record's table of slots. A slot whose column was absent or empty has
    /// no entry.
    pub optional: Vec<Slot>,
}

/// A `Record` as a plain value.
pub struct RecordView {
    pub station: Seq<char>,
    pub date: NaiveDateTime,
    pub source: Seq<char>,
    pub latitude: Ratio,
    pub longitude: Ratio,
    pub elevation: Ratio,
    pub name: Seq<char>,
    pub report_type: Seq<char>,
    pub call_sign: Seq<char>,
    pub quality_control: Seq<char>,
    pub wnd: Seq<Cell>,
    pub cig: Seq<Cell>,
    pub vis: Seq<Cell>,
    pub tmp: Seq<Cell>,
    pub slp: Seq<Cell>,
    pub optional: Seq<SlotView>,
}

impl View for Record {
    type V = RecordView;

    open spec fn view(&self) -> RecordView {
        RecordView {
            station: self.station@,
            date: self.date,
            source: self.source@,
            latitude: self.latitude,
            longitude: self.longitude,
            elevation: self.elevation,
            name: self.name@,
            report_type: self.report_type@,
            call_sign: self.call_sign@,
            quality_control: self.quality_control@,
            wnd: self.wnd@,
            cig: self.cig@,
            vis: self.vis@,
            tmp: self.tmp@,
            slp: self.slp@,
            optional: slot_views(self.optional@),
        }
    }
}

/// The failure of a column, where it fails.
pub open spec fn failure_in<T>(r: Result<T, RowFailure>) -> Option<RowFailure> {
    match r {
        Ok(_) => None,
        Err(e) => Some(e),
    }
}

/// The first failure of a list from position `k` on.
pub open spec fn first_of(failures: Seq<Option<RowFailure>>, k: int) -> Option<RowFailure>
    decreases failures.len() - k,
{
    if 0 <= k < failures.len() {
        match failures[k] {
            Some(e) => Some(e),
            None => first_of(failures, k + 1),
        }
    } else {
        None
    }
}

impl Record {
    /// What keeps a row from assembling: the failure of the first column
    /// that fails, in the order of the record's members. The mandatory
    /// columns come before the optional slots.
    pub open spec fn failure(row: Seq<Column>) -> Option<RowFailure> {
        first_of(
            seq![
                failure_in(text_of(row, "STATION"@)),
                failure_in(timestamp_of(row, "DATE"@)),
                failure_in(text_of(row, "SOURCE"@)),
                failure_in(number_of(row, "LATITUDE"@)),
                failure_in(number_of(row, "LONGITUDE"@)),
                failure_in(number_of(row, "ELEVATION"@)),
                failure_in(text_of(row, "NAME"@)),
                failure_in(text_of(row, "REPORT_TYPE"@)),
                failure_in(compact_of(row, "CALL_SIGN"@)),
                failure_in(text_of(row, "QUALITY_CONTROL"@)),
                failure_in(group_of::<Wind>(row, "WND"@)),
                failure_in(group_of::<Ceiling>(row, "CIG"@)),
                failure_in(group_of::<Visibility>(row, "VIS"@)),
                failure_in(group_of::<Temperature>(row, "TMP"@)),
                failure_in(group_of::<SeaLevelPressure>(row, "SLP"@)),
                failure_in(optional_of(row)),
            ],
            0,
        )
    }

    /// The record that a row assembles to. Any column that fails, mandatory
    /// or optional, fails the whole row.
    pub open spec fn assembled(row: Seq<Column>) -> Result<RecordView, RowFailure> {
        match Self::failure(row) {
            Some(e) => Err(e),
            None => Ok(
                RecordView {
                    station: text_of(row, "STATION"@)->Ok_0,
                    date: timestamp_of(row, "DATE"@)->Ok_0,
                    source: text_of(row, "SOURCE"@)->Ok_0,
                    latitude: number_of(row, "LATITUDE"@)->Ok_0,
                    longitude: number_of(row, "LONGITUDE"@)->Ok_0,
                    elevation: number_of(row, "ELEVATION"@)->Ok_0,
                    name: text_of(row, "NAME"@)->Ok_0,
                    report_type: text_of(row, "REPORT_TYPE"@)->Ok_0,
                    call_sign: compact_of(row, "CALL_SIGN"@)->Ok_0,
                    quality_control: text_of(row, "QUALITY_CONTROL"@)->Ok_0,
                    wnd: group_of::<Wind>(row, "WND"@)->Ok_0,
                    cig: group_of::<Ceiling>(row, "CIG"@)->Ok_0,
                    vis: group_of::<Visibility>(row, "VIS"@)->Ok_0,
                    tmp: group_of::<Temperature>(row, "TMP"@)->Ok_0,
                    slp: group_of::<SeaLevelPressure>(row, "SLP"@)->Ok_0,
                    optional: optional_of(row)->Ok_0,
                },
            ),
        }
    }

    /// Assembles the record of one row. The mandatory columns must be there
    /// and decode; an optional slot is decoded where its column is present
    /// and not empty, and left out otherwise. The first column that fails
    /// fails the row, and the error names it and holds its raw text.
    pub fn from_row(row: &Vec<Column>) -> (r: Result<Record, RowError>)
        ensures
            match r {
                Ok(record) => Self::assembled(row@) == Ok::<RecordView, RowFailure>(record@),
                Err(e) => Self::assembled(row@) == Err::<RecordView, RowFailure>(e@),
            },
            r matches Err(e) ==> tells_its_text(e@, row@),
    {
        proof {
            reveal_with_fuel(first_of, 17);
        }
        let station = text_column(row, "STATION")?;
        let date = timestamp_column(row, "DATE")?;
        let source = text_column(row, "SOURCE")?;
        let latitude = number_column(row, "LATITUDE")?;
        let longitude = number_column(row, "LONGITUDE")?;
        let elevation = number_column(row, "ELEVATION")?;
        let name = text_column(row, "NAME")?;
        let report_type = text_column(row, "REPORT_TYPE")?;
        let call_sign = compact_column(row, "CALL_SIGN")?;
        let quality_control = text_column(row, "QUALITY_CONTROL")?;
        let wnd = group_column::<Wind>(row, "WND")?;
        let cig = group_column::<Ceiling>(row, "CIG")?;
        let vis = group_column::<Visibility>(row, "VIS")?;
        let tmp = group_column::<Temperature>(row, "TMP")?;
        let slp = group_column::<SeaLevelPressure>(row, "SLP")?;
        let optional = optional_slots(row)?;
        Ok(
            Record {
                station,
                date,
                source,
                latitude,
                longitude,
                elevation,
                name,
                report_type,
                call_sign,
                quality_control,
                wnd,
                cig,
                vis,
                tmp,
                slp,
                optional,
            },
        )
    }
}

/// A record that assembles holds its optional slots as the row has them: no
/// column of the table has failed, and every slot whose column is present
/// and not empty has its group in the record.
pub proof fn lemma_record_holds_the_decoded(row: Seq<Column>, k: int)
    requires
        Record::assembled(row) is Ok,
        0 <= k < SLOTS@.len(),
    ensures
        match outcome_at(row, SLOTS@, k) {
            SlotOutcome::Absent => true,
            SlotOutcome::Decoded(cells) => Record::assembled(row)->Ok_0.optional.contains(
                entry_at(SLOTS@, k, cells),
            ),
            SlotOutcome::Failed(_) => false,
        },
{
    reveal(optional_of);
    reveal_with_fuel(first_of, 17);
    assert(optional_of(row) is Ok);
    lemma_slots_hold_the_decoded(row, SLOTS@, SLOTS@.len() as int);
}

/// A row with an optional column that does not decode assembles to no
/// record, whatever its other columns hold.
pub proof fn lemma_record_fails_with_its_slots(row: Seq<Column>, k: int)
    requires
        0 <= k < SLOTS@.len(),
        outcome_at(row, SLOTS@, k) is Failed,
    ensures
        Record::assembled(row) is Err,
{
    reveal(optional_of);
    reveal_with_fuel(first_of, 17);
    if optional_of(row) is Ok {
        lemma_slots_hold_the_decoded(row, SLOTS@, SLOTS@.len() as int);
    }
}

} // verus!
