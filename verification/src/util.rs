//! Text handling shared by every decoder: the missing-data sentinel, the
//! comma tokenizer, trimming, and the timestamp conversions.

use chrono::NaiveDateTime;
use chrono::ParseError;
use vstd::prelude::*;
use vstd::utf8::*;

verus! {

/// What `char::is_numeric` answers for a character beyond ASCII.
pub uninterp spec fn unicode_numeric(c: char) -> bool;

/// What `char::is_whitespace` answers for a character beyond ASCII.
pub uninterp spec fn unicode_white_space(c: char) -> bool;

/// What `NaiveDateTime::parse_from_str` makes of a text under the pattern
/// `%Y-%m-%dT%T`.
pub uninterp spec fn date_time_of(text: Seq<char>) -> Result<NaiveDateTime, ParseError>;

/// What `NaiveDateTime::format` writes for a timestamp under the pattern
/// `%Y-%m-%dT%T`.
pub uninterp spec fn date_time_text(t: NaiveDateTime) -> Seq<char>;

/// A digit character in the sense of the sentinel rule: an ASCII digit, or a
/// character that Unicode classes as a number.
pub open spec fn is_numeric_char(c: char) -> bool {
    if c <= '\x7f' {
        '0' <= c <= '9'
    } else {
        unicode_numeric(c)
    }
}

/// A white-space character: space, tab to carriage return, or a character
/// with Unicode's `White_Space` property.
pub open spec fn is_whitespace_char(c: char) -> bool {
    if c <= '\x7f' {
        c == ' ' || '\t' <= c <= '\r'
    } else {
        unicode_white_space(c)
    }
}

/// `char::is_numeric`. Trusted: of an ASCII character it is true exactly for
/// the ten digits; beyond ASCII it is whatever the standard library's Unicode
/// tables say, which the contract only names.
#[verifier::external_body]
fn is_numeric(c: char) -> (r: bool)
    ensures
        c <= '\x7f' ==> r == ('0' <= c <= '9'),
        c > '\x7f' ==> r == unicode_numeric(c),
{
    c.is_numeric()
}

/// `char::is_whitespace`. Trusted: of an ASCII character it is true exactly
/// for the space and for U+0009 to U+000D; beyond ASCII it is whatever the
/// standard library's Unicode tables say, which the contract only names.
#[verifier::external_body]
fn is_whitespace(c: char) -> (r: bool)
    ensures
        c <= '\x7f' ==> r == (c == ' ' || '\t' <= c <= '\r'),
        c > '\x7f' ==> r == unicode_white_space(c),
{
    c.is_whitespace()
}

/// The sentinel rule: a text stands for "no data" when none of its digit
/// characters differs from `'9'`. Characters that are no digits do not count.
pub open spec fn is_null_spec(s: Seq<char>) -> bool {
    forall|i: int| 0 <= i < s.len() ==> !(is_numeric_char(#[trigger] s[i]) && s[i] != '9')
}

/// Whether `s` is sentinel-missing.
pub fn is_null(s: &str) -> (r: bool)
    ensures
        r == is_null_spec(s@),
{
    for c in it: s.chars()
        invariant
            it.seq() == s@,
            forall|i: int|
                0 <= i < it.index() ==> !(is_numeric_char(#[trigger] s@[i]) && s@[i] != '9'),
    {
        if is_numeric(c) && c != '9' {
            return false;
        }
    }
    true
}

/// The number of characters before the first `c` of `s`, or the length of
/// `s` where it holds none.
pub open spec fn first_index(s: Seq<char>, c: char) -> int
    decreases s.len(),
{
    if s.len() == 0 || s[0] == c {
        0
    } else {
        1 + first_index(s.drop_first(), c)
    }
}

/// The sub-tokens of a packed text: the pieces between its commas, in order.
/// A text without a comma is its own single piece, the empty text included.
pub open spec fn split_commas(s: Seq<char>) -> Seq<Seq<char>>
    decreases s.len(),
{
    let k = first_index(s, ',');
    if 0 <= k < s.len() {
        seq![s.take(k)] + split_commas(s.skip(k + 1))
    } else {
        seq![s]
    }
}

/// Sub-tokens put together again, with a comma between each two.
pub open spec fn join_commas(parts: Seq<Seq<char>>) -> Seq<char>
    decreases parts.len(),
{
    if parts.len() == 0 {
        Seq::empty()
    } else if parts.len() == 1 {
        parts[0]
    } else {
        join_commas(parts.drop_last()) + seq![','] + parts.last()
    }
}

/// The texts of a vector of strings.
pub open spec fn views(parts: Seq<String>) -> Seq<Seq<char>> {
    Seq::new(parts.len(), |i: int| parts[i]@)
}

/// The first `c` stands where no earlier character is one.
pub proof fn lemma_first_index(s: Seq<char>, c: char, k: int)
    requires
        0 <= k <= s.len(),
        forall|j: int| 0 <= j < k ==> s[j] != c,
        k < s.len() ==> s[k] == c,
    ensures
        first_index(s, c) == k,
    decreases k,
{
    if k > 0 {
        let rest = s.drop_first();
        assert forall|j: int| 0 <= j < k - 1 implies rest[j] != c by {
            assert(rest[j] == s[j + 1]);
        }
        lemma_first_index(rest, c, k - 1);
    }
}

/// A packed text has one sub-token more than it has commas, so never none.
pub proof fn lemma_split_commas_nonempty(s: Seq<char>)
    ensures
        split_commas(s).len() >= 1,
    decreases s.len(),
{
    let k = first_index(s, ',');
    if 0 <= k < s.len() {
        lemma_split_commas_nonempty(s.skip(k + 1));
    }
}

/// Putting a sub-token before others puts it, and a comma, before what they
/// join to.
pub proof fn lemma_join_commas_after(first: Seq<char>, rest: Seq<Seq<char>>)
    requires
        rest.len() >= 1,
    ensures
        join_commas(seq![first] + rest) == first + seq![','] + join_commas(rest),
    decreases rest.len(),
{
    let all = seq![first] + rest;
    assert(all.last() == rest.last());
    if rest.len() == 1 {
        assert(all.drop_last() =~= seq![first]);
        assert(join_commas(all.drop_last()) == first);
    } else {
        assert(all.drop_last() =~= seq![first] + rest.drop_last());
        lemma_join_commas_after(first, rest.drop_last());
        assert(first + seq![','] + join_commas(rest.drop_last()) + seq![','] + rest.last() =~= first
            + seq![','] + (join_commas(rest.drop_last()) + seq![','] + rest.last()));
    }
}

/// The sub-tokens of a text join to the text again: splitting loses nothing.
pub proof fn lemma_join_of_split(s: Seq<char>)
    ensures
        join_commas(split_commas(s)) == s,
    decreases s.len(),
{
    let k = first_index(s, ',');
    if 0 <= k < s.len() {
        let rest = s.skip(k + 1);
        lemma_join_of_split(rest);
        lemma_split_commas_nonempty(rest);
        lemma_join_commas_after(s.take(k), split_commas(rest));
        lemma_first_index_is_there(s, ',');
        assert(s.take(k) + seq![','] + rest =~= s);
    }
}

/// Where the first `c` of a text is counted within the text, a `c` stands
/// there.
pub proof fn lemma_first_index_is_there(s: Seq<char>, c: char)
    ensures
        0 <= first_index(s, c) <= s.len(),
        first_index(s, c) < s.len() ==> s[first_index(s, c)] == c,
    decreases s.len(),
{
    if s.len() == 0 || s[0] == c {
    } else {
        lemma_first_index_is_there(s.drop_first(), c);
    }
}

/// Puts sub-tokens together again, with a comma between each two.
pub fn join(parts: &Vec<String>) -> (r: String)
    ensures
        r@ == join_commas(views(parts@)),
{
    let mut r = String::new();
    let mut i: usize = 0;
    assert(views(parts@).take(0) =~= Seq::<Seq<char>>::empty());
    while i < parts.len()
        invariant
            i <= parts.len(),
            r@ == join_commas(views(parts@).take(i as int)),
        decreases parts.len() - i,
    {
        proof {
            let now = views(parts@).take(i + 1);
            assert(now.drop_last() =~= views(parts@).take(i as int));
            assert(now.last() == parts@[i as int]@);
            reveal_strlit(",");
            assert(","@ =~= seq![',']);
        }
        if i > 0 {
            r.append(",");
        } else {
            assert(r@ =~= Seq::<char>::empty());
            assert(r@ + parts@[i as int]@ =~= parts@[i as int]@);
        }
        r.append(parts[i].as_str());
        i = i + 1;
    }
    assert(views(parts@).take(parts@.len() as int) =~= views(parts@));
    r
}

/// Splits a packed field group into its sub-tokens. It never fails: every
/// text, the empty one too, has at least one sub-token.
pub fn get_parts(s: &str) -> (r: Result<Vec<String>, &'static str>)
    ensures
        r is Ok,
        views(r->Ok_0@) == split_commas(s@),
{
    Ok(tokenize(s))
}

/// The sub-tokens of a packed field group, in order. The tokenizer does not
/// look at how many a schema expects.
pub fn tokenize(s: &str) -> (parts: Vec<String>)
    ensures
        views(parts@) == split_commas(s@),
        parts@.len() >= 1,
        join_commas(views(parts@)) == s@,
{
    let n = s.unicode_len();
    let mut parts: Vec<String> = Vec::new();
    let mut start: usize = 0;
    let mut i: usize = 0;
    proof {
        assert(s@.skip(0) == s@);
        assert(views(parts@) + split_commas(s@) =~= split_commas(s@));
    }
    for c in it: s.chars()
        invariant
            it.seq() == s@,
            n == s@.len(),
            i == it.index(),
            start <= i,
            forall|j: int| start <= j < i ==> s@[j] != ',',
            split_commas(s@) == views(parts@) + split_commas(s@.skip(start as int)),
    {
        if c == ',' {
            let piece = s.substring_char(start, i).to_owned();
            proof {
                let rest = s@.skip(start as int);
                lemma_first_index(rest, ',', i - start);
                assert(rest.take(i - start) == piece@);
                assert(rest.skip(i - start + 1) == s@.skip(i + 1));
                assert(views(parts@.push(piece)) =~= views(parts@) + seq![piece@]);
                assert(views(parts@) + (seq![piece@] + split_commas(s@.skip(i + 1))) =~= (views(
                    parts@,
                ) + seq![piece@]) + split_commas(s@.skip(i + 1)));
            }
            parts.push(piece);
            start = i + 1;
        }
        i = i + 1;
    }
    let piece = s.substring_char(start, n).to_owned();
    proof {
        let rest = s@.skip(start as int);
        lemma_first_index(rest, ',', n - start);
        assert(rest == piece@);
        assert(views(parts@.push(piece)) =~= views(parts@) + seq![piece@]);
    }
    parts.push(piece);
    proof {
        lemma_split_commas_nonempty(s@);
        lemma_join_of_split(s@);
    }
    parts
}

/// How many white-space characters `s` begins with.
pub open spec fn leading_whitespace(s: Seq<char>) -> nat
    decreases s.len(),
{
    if s.len() > 0 && is_whitespace_char(s[0]) {
        1 + leading_whitespace(s.drop_first())
    } else {
        0
    }
}

/// How many white-space characters `s` ends with.
pub open spec fn trailing_whitespace(s: Seq<char>) -> nat
    decreases s.len(),
{
    if s.len() > 0 && is_whitespace_char(s.last()) {
        1 + trailing_whitespace(s.drop_last())
    } else {
        0
    }
}

/// `s` without the white space around it.
pub open spec fn trimmed(s: Seq<char>) -> Seq<char> {
    if leading_whitespace(s) >= s.len() {
        Seq::empty()
    } else {
        s.subrange(leading_whitespace(s) as int, s.len() - trailing_whitespace(s))
    }
}

/// The leading white space ends at the first character that is none.
pub proof fn lemma_leading_whitespace(s: Seq<char>, k: int)
    requires
        0 <= k <= s.len(),
        forall|j: int| 0 <= j < k ==> is_whitespace_char(s[j]),
        k < s.len() ==> !is_whitespace_char(s[k]),
    ensures
        leading_whitespace(s) == k,
    decreases k,
{
    if k > 0 {
        let rest = s.drop_first();
        assert forall|j: int| 0 <= j < k - 1 implies is_whitespace_char(rest[j]) by {
            assert(rest[j] == s[j + 1]);
        }
        lemma_leading_whitespace(rest, k - 1);
    }
}

/// The trailing white space begins after the last character that is none.
pub proof fn lemma_trailing_whitespace(s: Seq<char>, k: int)
    requires
        0 <= k <= s.len(),
        forall|j: int| s.len() - k <= j < s.len() ==> is_whitespace_char(s[j]),
        k < s.len() ==> !is_whitespace_char(s[s.len() - k - 1]),
    ensures
        trailing_whitespace(s) == k,
    decreases k,
{
    if k > 0 {
        let rest = s.drop_last();
        assert forall|j: int| rest.len() - (k - 1) <= j < rest.len() implies is_whitespace_char(
            rest[j],
        ) by {
            assert(rest[j] == s[j]);
        }
        lemma_trailing_whitespace(rest, k - 1);
    }
}

/// The part of `s` between its leading and its trailing white space.
pub fn trim(s: &str) -> (r: &str)
    ensures
        r@ == trimmed(s@),
{
    let n = s.unicode_len();
    let mut first: usize = 0;
    let mut end: usize = 0;
    let mut seen = false;
    let mut i: usize = 0;
    for c in it: s.chars()
        invariant
            it.seq() == s@,
            n == s@.len(),
            i == it.index(),
            !seen ==> forall|j: int| 0 <= j < i ==> is_whitespace_char(s@[j]),
            seen ==> first < end <= i,
            seen ==> forall|j: int| 0 <= j < first ==> is_whitespace_char(s@[j]),
            seen ==> !is_whitespace_char(s@[first as int]),
            seen ==> !is_whitespace_char(s@[end - 1]),
            seen ==> forall|j: int| end <= j < i ==> is_whitespace_char(s@[j]),
    {
        if !is_whitespace(c) {
            if !seen {
                first = i;
                seen = true;
            }
            end = i + 1;
        }
        i = i + 1;
    }
    if seen {
        proof {
            lemma_leading_whitespace(s@, first as int);
            lemma_trailing_whitespace(s@, n - end);
        }
        s.substring_char(first, end)
    } else {
        proof {
            lemma_leading_whitespace(s@, n as int);
        }
        let r = s.substring_char(0, 0);
        assert(r@ =~= Seq::<char>::empty());
        r
    }
}

/// The text of a sub-token that may be missing: nothing where it is
/// sentinel-missing, else the text as it stands.
pub open spec fn parse_str_spec(s: Seq<char>) -> Option<Seq<char>> {
    if is_null_spec(s) {
        None
    } else {
        Some(s)
    }
}

/// The text of a sub-token that may be missing: nothing where it is
/// sentinel-missing, else the text without the white space around it.
pub open spec fn parse_null_spec(s: Seq<char>) -> Option<Seq<char>> {
    if is_null_spec(s) {
        None
    } else {
        Some(trimmed(s))
    }
}

/// Keeps a sub-token as text unless it is sentinel-missing.
pub fn parse_str(s: &str) -> (r: Option<String>)
    ensures
        match r {
            Some(t) => parse_str_spec(s@) == Some(t@),
            None => parse_str_spec(s@) is None,
        },
{
    if is_null(s) {
        None
    } else {
        Some(s.to_owned())
    }
}

/// Keeps a sub-token as trimmed text unless it is sentinel-missing.
pub fn parse_null(s: &str) -> (r: Option<String>)
    ensures
        match r {
            Some(t) => parse_null_spec(s@) == Some(t@),
            None => parse_null_spec(s@) is None,
        },
{
    if is_null(s) {
        None
    } else {
        Some(trim(s).to_owned())
    }
}

/// `s` without its white-space characters, wherever they stand.
pub open spec fn without_whitespace(s: Seq<char>) -> Seq<char> {
    s.filter(|c: char| !is_whitespace_char(c))
}

/// Removes every white-space character from `s`.
pub fn remove_whitespace(s: &str) -> (r: String)
    ensures
        r@ == without_whitespace(s@),
{
    let n = s.unicode_len();
    let mut out = String::new();
    let mut i: usize = 0;
    for c in it: s.chars()
        invariant
            it.seq() == s@,
            n == s@.len(),
            i == it.index(),
            out@ == without_whitespace(s@.take(i as int)),
    {
        let ghost keep = |c: char| !is_whitespace_char(c);
        proof {
            assert(s@.take(i + 1).drop_last() == s@.take(i as int));
            assert(s@.take(i + 1).last() == c);
            reveal(Seq::filter);
            assert(s@.take(i + 1).filter(keep) == if keep(c) {
                s@.take(i as int).filter(keep).push(c)
            } else {
                s@.take(i as int).filter(keep)
            });
        }
        if !is_whitespace(c) {
            let one = s.substring_char(i, i + 1);
            assert(one@ == seq![c]);
            assert(out@ + one@ == out@.push(c));
            out.append(one);
        }
        i = i + 1;
    }
    assert(s@.take(n as int) == s@);
    out
}

/// Whether two texts hold the same characters.
pub fn same_text(a: &str, b: &str) -> (r: bool)
    ensures
        r == (a@ == b@),
{
    let x = a.as_bytes();
    let y = b.as_bytes();
    proof {
        encode_utf8_decode_utf8(a@);
        encode_utf8_decode_utf8(b@);
    }
    if x.len() != y.len() {
        return false;
    }
    let mut i: usize = 0;
    while i < x.len()
        invariant
            i <= x.len(),
            x.len() == y.len(),
            forall|j: int| 0 <= j < i ==> x@[j] == y@[j],
            x@ == encode_utf8(a@),
            y@ == encode_utf8(b@),
            decode_utf8(encode_utf8(a@)) == a@,
            decode_utf8(encode_utf8(b@)) == b@,
        decreases x.len() - i,
    {
        if x[i] != y[i] {
            return false;
        }
        i = i + 1;
    }
    assert(x@ =~= y@);
    true
}

#[verifier::external_type_specification]
#[verifier::external_body]
pub struct ExNaiveDateTime(NaiveDateTime);

#[verifier::external_type_specification]
#[verifier::external_body]
pub struct ExParseError(ParseError);

/// `NaiveDateTime::parse_from_str` under the pattern `%Y-%m-%dT%T`. Trusted:
/// the outcome depends on the text alone, so the contract gives it a name and
/// says nothing else of it.
#[verifier::external_body]
fn parse_date_time(s: &str) -> (r: Result<NaiveDateTime, ParseError>)
    ensures
        r == date_time_of(s@),
{
    NaiveDateTime::parse_from_str(s, "%Y-%m-%dT%T")
}

/// `NaiveDateTime::format` under the pattern `%Y-%m-%dT%T`, written out as a
/// string. Trusted: the text depends on the timestamp alone, so the contract
/// gives it a name and says nothing else of it.
#[verifier::external_body]
fn format_date_time(x: &NaiveDateTime) -> (r: String)
    ensures
        r@ == date_time_text(*x),
{
    x.format("%Y-%m-%dT%T").to_string()
}

/// Reads an observation's timestamp, written as `2020-01-31T23:59:00`.
/// Nothing is returned where the text is no such timestamp.
pub fn naive_date_time_from_str(s: &str) -> (r: Option<NaiveDateTime>)
    ensures
        r == match date_time_of(s@) {
            Ok(t) => Some(t),
            Err(_) => None,
        },
{
    match parse_date_time(s) {
        Ok(t) => Some(t),
        Err(_) => None,
    }
}

/// Writes a timestamp the way `naive_date_time_from_str` reads it.
pub fn str_from_native_date_time(x: &NaiveDateTime) -> (r: String)
    ensures
        r@ == date_time_text(*x),
{
    format_date_time(x)
}

} // verus!
