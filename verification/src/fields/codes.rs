//! Coded values: a short code and what it means, looked up in a fixed table.

use crate::util::is_whitespace_char;
use crate::util::same_text;
use crate::util::trim;
use crate::util::trimmed;
use vstd::prelude::*;

verus! {

/// One categorical observation: the code as it was read, trimmed, and the
/// meaning that the field's table gives it.
#[derive(Debug, PartialEq)]
pub struct CodeRecord {
    pub value: String,
    pub description: String,
}

/// The description that a table gives a code: that of the first entry whose
/// key is the code, and nothing where no entry has it.
pub open spec fn find(table: Seq<(&'static str, &'static str)>, key: Seq<char>) -> Option<
    Seq<char>,
>
    decreases table.len(),
{
    if table.len() == 0 {
        None
    } else if table[0].0@ == key {
        Some(table[0].1@)
    } else {
        find(table.drop_first(), key)
    }
}

/// Looks a code up in a table.
pub fn describe(map: &[(&'static str, &'static str)], key: &str) -> (r: Option<&'static str>)
    ensures
        match r {
            Some(d) => find(map@, key@) == Some(d@),
            None => find(map@, key@) is None,
        },
{
    let mut i: usize = 0;
    assert(map@.skip(0) == map@);
    while i < map.len()
        invariant
            i <= map.len(),
            find(map@, key@) == find(map@.skip(i as int), key@),
        decreases map.len() - i,
    {
        assert(map@.skip(i as int)[0] == map@[i as int]);
        if same_text(map[i].0, key) {
            return Some(map[i].1);
        }
        assert(map@.skip(i as int).drop_first() == map@.skip(i + 1));
        i = i + 1;
    }
    None
}

impl CodeRecord {
    /// The coded value that a raw sub-token denotes under a table, as the
    /// trimmed code and its description; nothing where the table does not
    /// list the code.
    pub open spec fn lookup(value: Seq<char>, map: Seq<(&'static str, &'static str)>) -> Option<
        (Seq<char>, Seq<char>),
    > {
        match find(map, trimmed(value)) {
            Some(d) => Some((trimmed(value), d)),
            None => None,
        }
    }

    /// Decodes one coded sub-token: trims it and looks it up. A code that
    /// the table does not list gives nothing; no meaning is made up for it.
    pub fn new(value: &str, map: &[(&'static str, &'static str)]) -> (r: Option<CodeRecord>)
        ensures
            match r {
                Some(c) => Self::lookup(value@, map@) == Some((c.value@, c.description@)),
                None => Self::lookup(value@, map@) is None,
            },
    {
        let code = trim(value);
        match describe(map, code) {
            Some(d) => Some(CodeRecord { value: code.to_owned(), description: d.to_owned() }),
            None => None,
        }
    }
}

/// Whether a table lists a code.
pub open spec fn lists(table: Seq<(&'static str, &'static str)>, key: Seq<char>) -> bool {
    exists|i: int| 0 <= i < table.len() && (#[trigger] table[i]).0@ == key
}

/// A table gives a description to exactly the codes that it lists.
pub proof fn lemma_find_iff_listed(table: Seq<(&'static str, &'static str)>, key: Seq<char>)
    ensures
        find(table, key) is Some <==> lists(table, key),
    decreases table.len(),
{
    if table.len() == 0 {
    } else if table[0].0@ == key {
    } else {
        let rest = table.drop_first();
        lemma_find_iff_listed(rest, key);
        if lists(rest, key) {
            let i = choose|i: int| 0 <= i < rest.len() && (#[trigger] rest[i]).0@ == key;
            assert(table[i + 1] == rest[i]);
        }
        if lists(table, key) {
            let i = choose|i: int| 0 <= i < table.len() && (#[trigger] table[i]).0@ == key;
            assert(rest[i - 1] == table[i]);
        }
    }
}

/// Lookup is total on what a table lists: a sub-token whose trimmed text is
/// the key of some entry decodes to a coded value, whatever the table.
pub proof fn lemma_listed_code_is_found(
    table: Seq<(&'static str, &'static str)>,
    i: int,
    value: Seq<char>,
)
    requires
        0 <= i < table.len(),
        trimmed(value) == table[i].0@,
    ensures
        CodeRecord::lookup(value, table) is Some,
{
    lemma_find_iff_listed(table, trimmed(value));
}

/// A text of nines has no white space around it.
pub proof fn lemma_nines_are_trimmed(code: Seq<char>)
    requires
        code.len() > 0,
        forall|j: int| 0 <= j < code.len() ==> code[j] == '9',
    ensures
        trimmed(code) == code,
{
    assert(!is_whitespace_char(code[0]));
    assert(!is_whitespace_char(code.last()));
    assert(code.subrange(0, code.len() as int) =~= code);
}

/// A table that lists a code of nines gives it a description: lookup of a
/// table's sentinel code does not fail.
pub proof fn lemma_sentinel_is_listed(
    table: Seq<(&'static str, &'static str)>,
    i: int,
    code: Seq<char>,
)
    requires
        0 <= i < table.len(),
        table[i].0@ == code,
        code.len() > 0,
        forall|j: int| 0 <= j < code.len() ==> code[j] == '9',
    ensures
        CodeRecord::lookup(code, table) is Some,
{
    lemma_nines_are_trimmed(code);
    lemma_listed_code_is_found(table, i, code);
}

/// Lookup never makes up a meaning: a sub-token whose trimmed text no entry
/// has as its key decodes to nothing.
pub proof fn lemma_unlisted_code_is_refused(
    table: Seq<(&'static str, &'static str)>,
    value: Seq<char>,
)
    requires
        !lists(table, trimmed(value)),
    ensures
        CodeRecord::lookup(value, table) is None,
{
    lemma_find_iff_listed(table, trimmed(value));
}

pub const BOOL_CODES: [(&'static str, &'static str); 3] = [
    ("N", "No"),
    ("Y", "Yes"),
    ("9", "Missing"),
];

pub const QUALITY_CODES: [(&'static str, &'static str); 9] = [
    ("0", "Passed gross limits check"),
    ("1", "Passed all quality control checks"),
    ("2", "Suspect"),
    ("3", "Erroneous"),
    ("4", "Passed gross limits check, data originate from an NCEI data source"),
    ("5", "Passed all quality control checks, data originate from an NCEI data source"),
    ("6", "Suspect, data originate from an NCEI data source"),
    ("7", "Erroneous, data originate from an NCEI data source"),
    ("9", "Passed gross limits check if element is present"),
];

pub const DL_QUALITY_CODES: [(&'static str, &'static str); 3] = [
    ("1", "Passed all quality control checks"),
    ("3", "Failed all quality control checks"),
    ("9", "Missing"),
];

pub const DL_QUALITY_FLAG: [(&'static str, &'static str); 10] = [
    ("0", "Passed all quality control checks"),
    ("1", "Did not pass all quality check"),
    ("2", "Did not pass all quality check"),
    ("3", "Did not pass all quality check"),
    ("4", "Did not pass all quality check"),
    ("5", "Did not pass all quality check"),
    ("6", "Did not pass all quality check"),
    ("7", "Did not pass all quality check"),
    ("8", "Did not pass all quality check"),
    ("9", "Did not pass all quality check"),
];

pub const _SOURCE_FLAG: [(&'static str, &'static str); 27] = [
    ("1", "USAF SURFACE HOURLY observation, candidate for merge with NCEI SURFACE HOURLY (not yet merged, element cross-checks)"),
    ("2", "NCEI SURFACE HOURLY observation, candidate for merge with USAF SURFACE HOURLY (not yet merged, failed element cross-checks)"),
    ("3", "USAF SURFACE HOURLY/NCEI SURFACE HOURLY merged observation"),
    ("4", "USAF SURFACE HOURLY observation"),
    ("5", "NCEI SURFACE HOURLY observation"),
    ("6", "ASOS/AWOS observation from NCEI"),
    ("7", "ASOS/AWOS observation merged with USAF SURFACE HOURLY observation"),
    ("8", "MAPSO observation (NCEI)"),
    ("A", "USAF SURFACE HOURLY/NCEI HOURLY PRECIPITATION merged observation, candidate for merge with NCEI SURFACE HOURLY (not yet merged, failed element cross-checks)"),
    ("B", "NCEI SURFACE HOURLY/NCEI HOURLY PRECIPITATION merged observation, candidate for merge with USAF SURFACE HOURLY (not yet merged, failed element cross-checks)"),
    ("C", "USAF SURFACE HOURLY/NCEI SURFACE HOURLY/NCEI HOURLY PRECIPITATION merged observation"),
    ("D", "USAF SURFACE HOURLY/NCEI HOURLY PRECIPITATION merged observation"),
    ("E", "NCEI SURFACE HOURLY/NCEI HOURLY PRECIPITATION merged observation"),
    ("F", "Form OMR/1001 - Weather Bureau city office (keyed data)"),
    ("G", "SAO surface airways observation, pre-1949 (keyed data)"),
    ("H", "SAO surface airways observation, 1965-1981 format/period (keyed data)"),
    ("I", "Climate Reference Network observation"),
    ("J", "Cooperative Network observation"),
    ("K", "Radiation Network observation"),
    ("L", "Data from Climate Data Modernization Program (CDMP) data source"),
    ("M", "Data from National Renewable Energy Laboratory (NREL) data source"),
    ("N", "NCAR / NCEI cooperative effort (various national datasets)"),
    ("O", "Summary observation created by NCEI using hourly observations that may not share the same data source flag."),
    ("P", "Data value not originally flagged as suspect, but replaced by validator"),
    ("R", "Data value replaced with value computed by NCEI software"),
    ("U", "Data value replaced with edited value"),
    ("9", "Missing"),
];

pub const _REPORT_TYPE_CODE: [(&'static str, &'static str); 40] = [
    ("AERO", "Aerological report"),
    ("AUST", "Dataset from Australia"),
    ("AUTO", "Report from an automatic station"),
    ("BOGUS", "Bogus report"),
    ("BRAZ", "Dataset from Brazil"),
    ("COOPD", "US Cooperative Network summary of day report"),
    ("COOPS", "US Cooperative Network soil temperature report"),
    ("CRB", "Climate Reference Book data from CDMP"),
    ("CRN05", "Climate Reference Network report, with 5-minute reporting interval"),
    ("CRN15", "Climate Reference Network report, with 15-minute reporting interval"),
    ("FM-12", "SYNOP Report of surface observation form a fixed land station"),
    ("FM-13", "SHIP Report of surface observation from a sea station"),
    ("FM-14", "SYNOP MOBIL Report of surface observation from a mobile land station"),
    ("FM-15", "METAR Aviation routine weather report"),
    ("FM-16", "SPECI Aviation selected special weather report"),
    ("FM-18", "BUOY Report of a buoy observation"),
    ("GREEN", "Dataset from Greenland"),
    ("MESOH", "Hydrological observations from MESONET operated civilian or government agency"),
    ("MESOS", "MESONET operated civilian or government agency"),
    ("MESOW", "Snow observations from MESONET operated civilian or government agency"),
    ("MEXIC", "Dataset from Mexico"),
    ("NSRDB", "National Solar Radiation Data Base"),
    ("PCP15", "US 15-minute precipitation network report"),
    ("PCP60", "US 60-minute precipitation network report"),
    ("S-S-A", "Synoptic, airways, and auto merged report"),
    ("SA-AU", "Airways and auto merged report"),
    ("SAO", "Airways report (includes record specials)"),
    ("SAOSP", "Airways special report (excluding record specials)"),
    ("SHEF", "Standard Hydrologic Exchange Format"),
    ("SMARS", "Supplementary airways station report"),
    ("SOD", "Summary of day report from U.S. ASOS or AWOS station"),
    ("SOM", "Summary of month report from U.S. ASOS or AWOS station"),
    ("SURF", "Surface Radiation Network report"),
    ("SY-AE", "Synoptic and aero merged report"),
    ("SY-AU", "Synoptic and auto merged report"),
    ("SY-MT", "Synoptic and METAR merged report"),
    ("SY-SA", "Synoptic and airways merged report"),
    ("WBO", "Weather Bureau Office"),
    ("WNO", "Washington Naval Observatory"),
    ("99999", "Missing"),
];

pub const DERIVE_CODES: [(&'static str, &'static str); 2] = [
    ("D", "Derived from hourly values"),
    ("9", "missing"),
];

/// Every table of this module lists its sentinel code, the one of nines
/// only: looking it up gives its entry and never fails.
pub proof fn lemma_tables_list_their_sentinels()
    ensures
        CodeRecord::lookup("9"@, BOOL_CODES@) is Some,
        CodeRecord::lookup("9"@, QUALITY_CODES@) is Some,
        CodeRecord::lookup("9"@, DL_QUALITY_CODES@) is Some,
        CodeRecord::lookup("9"@, DL_QUALITY_FLAG@) is Some,
        CodeRecord::lookup("9"@, _SOURCE_FLAG@) is Some,
        CodeRecord::lookup("99999"@, _REPORT_TYPE_CODE@) is Some,
        CodeRecord::lookup("9"@, DERIVE_CODES@) is Some,
{
    reveal_strlit("9");
    reveal_strlit("99999");
    assert(BOOL_CODES@[2].0@ == "9"@);
    lemma_sentinel_is_listed(BOOL_CODES@, 2, "9"@);
    assert(QUALITY_CODES@[8].0@ == "9"@);
    lemma_sentinel_is_listed(QUALITY_CODES@, 8, "9"@);
    assert(DL_QUALITY_CODES@[2].0@ == "9"@);
    lemma_sentinel_is_listed(DL_QUALITY_CODES@, 2, "9"@);
    assert(DL_QUALITY_FLAG@[9].0@ == "9"@);
    lemma_sentinel_is_listed(DL_QUALITY_FLAG@, 9, "9"@);
    assert(_SOURCE_FLAG@[26].0@ == "9"@);
    lemma_sentinel_is_listed(_SOURCE_FLAG@, 26, "9"@);
    assert(_REPORT_TYPE_CODE@[39].0@ == "99999"@);
    lemma_sentinel_is_listed(_REPORT_TYPE_CODE@, 39, "99999"@);
    assert(DERIVE_CODES@[1].0@ == "9"@);
    lemma_sentinel_is_listed(DERIVE_CODES@, 1, "9"@);
}

} // verus!
