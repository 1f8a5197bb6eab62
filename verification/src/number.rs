//! Numeric literals: what a run of digits denotes, how an integer reads and
//! writes in positional notation, and the numeric types a measurement is
//! held in.

use crate::util::first_index;
use crate::util::lemma_first_index;
use vstd::prelude::*;

verus! {

/// Whether `c` is a digit of the given radix (at most ten).
pub open spec fn is_digit(c: char, radix: int) -> bool {
    '0' <= c && c as int - 48 < radix
}

/// The value of a digit character.
pub open spec fn digit_value(c: char) -> int {
    c as int - 48
}

/// Whether every character of `s` is a digit of the given radix.
pub open spec fn all_digits(s: Seq<char>, radix: int) -> bool {
    forall|i: int| 0 <= i < s.len() ==> is_digit(#[trigger] s[i], radix)
}

/// The number that a run of digits denotes, most significant digit first.
pub open spec fn digits_value(s: Seq<char>, radix: int) -> int
    decreases s.len(),
{
    if s.len() == 0 {
        0
    } else {
        digits_value(s.drop_last(), radix) * radix + digit_value(s.last())
    }
}

/// The integer that a literal denotes: an optional sign, then at least one
/// digit and nothing else. A minus sign is a sign only where `signed` holds.
pub open spec fn integer_literal(s: Seq<char>, radix: int, signed: bool) -> Option<int> {
    let negative = signed && s.len() > 0 && s[0] == '-';
    let body = if s.len() > 0 && (s[0] == '+' || negative) {
        s.drop_first()
    } else {
        s
    };
    if body.len() > 0 && all_digits(body, radix) {
        Some(
            if negative {
                -digits_value(body, radix)
            } else {
                digits_value(body, radix)
            },
        )
    } else {
        None
    }
}

/// A value, where there is one and it lies between `lo` and `hi`.
pub open spec fn within(v: Option<int>, lo: int, hi: int) -> Option<int> {
    match v {
        Some(x) => if lo <= x <= hi {
            Some(x)
        } else {
            None
        },
        None => None,
    }
}

/// Ten to the power `k`.
pub open spec fn pow10(k: nat) -> int
    decreases k,
{
    if k == 0 {
        1
    } else {
        10 * pow10((k - 1) as nat)
    }
}

/// The number that a fixed-point literal denotes, as a mantissa and the power
/// of ten that divides it: an optional sign, then digits with at most one
/// decimal point among them, and at least one digit.
pub open spec fn decimal_literal(s: Seq<char>) -> Option<(int, int)> {
    let negative = s.len() > 0 && s[0] == '-';
    let body = if s.len() > 0 && (s[0] == '+' || negative) {
        s.drop_first()
    } else {
        s
    };
    let dot = first_index(body, '.');
    let whole = body.take(dot);
    let part = if dot < body.len() {
        body.skip(dot + 1)
    } else {
        Seq::empty()
    };
    if whole.len() + part.len() > 0 && all_digits(whole, 10) && all_digits(part, 10) {
        let magnitude = digits_value(whole + part, 10);
        Some(
            (
                if negative {
                    -magnitude
                } else {
                    magnitude
                },
                pow10(part.len()),
            ),
        )
    } else {
        None
    }
}

/// Division that rounds toward zero, as the machine's integers divide.
pub open spec fn truncated_div(a: int, b: int) -> int {
    if b == 0 {
        0
    } else if a >= 0 && b > 0 {
        a / b
    } else if a < 0 && b > 0 {
        -((-a) / b)
    } else if a >= 0 && b < 0 {
        -(a / (-b))
    } else {
        (-a) / (-b)
    }
}

/// The character of a digit value.
pub open spec fn digit_char(d: int) -> char {
    (d + 48) as char
}

/// A natural number in decimal notation, without leading zeros.
pub open spec fn natural_text(n: nat) -> Seq<char>
    decreases n,
{
    if n < 10 {
        seq![digit_char(n as int)]
    } else {
        natural_text(n / 10).push(digit_char((n % 10) as int))
    }
}

/// An integer in decimal notation: a minus sign where it is negative, then
/// its magnitude without leading zeros.
pub open spec fn decimal_text(v: int) -> Seq<char> {
    if v < 0 {
        seq!['-'] + natural_text((-v) as nat)
    } else {
        natural_text(v as nat)
    }
}

/// A run of digits denotes no less than any of its beginnings.
pub proof fn lemma_digits_value_grows(s: Seq<char>, radix: int, k: int)
    requires
        1 <= radix <= 10,
        all_digits(s, radix),
        0 <= k <= s.len(),
    ensures
        0 <= digits_value(s.take(k), radix) <= digits_value(s, radix),
    decreases s.len() - k,
{
    if k == s.len() {
        assert(s.take(k) == s);
        lemma_digits_value_nonnegative(s, radix);
    } else {
        let longer = s.take(k + 1);
        assert(longer.drop_last() == s.take(k));
        assert(longer.last() == s[k]);
        assert(is_digit(s[k], radix));
        lemma_digits_value_grows(s, radix, k + 1);
        lemma_digits_value_nonnegative(s.take(k), radix);
        let low = digits_value(s.take(k), radix);
        assert(low <= low * radix) by (nonlinear_arith)
            requires
                low >= 0,
                radix >= 1,
        ;
    }
}

/// A run of digits denotes no negative number.
pub proof fn lemma_digits_value_nonnegative(s: Seq<char>, radix: int)
    requires
        1 <= radix <= 10,
        all_digits(s, radix),
    ensures
        0 <= digits_value(s, radix),
    decreases s.len(),
{
    if s.len() > 0 {
        lemma_digits_value_nonnegative(s.drop_last(), radix);
        assert(is_digit(s.last(), radix));
        let low = digits_value(s.drop_last(), radix);
        assert(0 <= low * radix) by (nonlinear_arith)
            requires
                low >= 0,
                radix >= 1,
        ;
    }
}

/// The decimal notation of a natural number is a run of digits that denotes
/// it.
pub proof fn lemma_natural_text(n: nat)
    ensures
        natural_text(n).len() > 0,
        all_digits(natural_text(n), 10),
        digits_value(natural_text(n), 10) == n,
    decreases n,
{
    if n < 10 {
        let t = natural_text(n);
        assert(t.drop_last() =~= Seq::<char>::empty());
        assert(digits_value(t.drop_last(), 10) == 0);
        assert(t.last() == digit_char(n as int));
    } else {
        lemma_natural_text(n / 10);
        let t = natural_text(n);
        let d = digit_char((n % 10) as int);
        assert(t.drop_last() =~= natural_text(n / 10));
        assert(t.last() == d);
        assert forall|i: int| 0 <= i < t.len() implies is_digit(#[trigger] t[i], 10) by {
            if i < t.len() - 1 {
                assert(t[i] == natural_text(n / 10)[i]);
            }
        }
    }
}

/// Reading an integer's decimal notation gives the integer back, provided a
/// minus sign may be read or the integer needs none.
pub proof fn lemma_decimal_text_reads_back(v: int, signed: bool)
    requires
        signed || v >= 0,
    ensures
        integer_literal(decimal_text(v), 10, signed) == Some(v),
{
    if v < 0 {
        let t = decimal_text(v);
        lemma_natural_text((-v) as nat);
        assert(t[0] == '-');
        assert(t.drop_first() =~= natural_text((-v) as nat));
    } else {
        let t = decimal_text(v);
        lemma_natural_text(v as nat);
        assert(is_digit(t[0], 10));
    }
}

/// The decimal notation of an integer, read as a fixed-point literal, denotes
/// the integer over one.
pub proof fn lemma_decimal_text_is_whole(v: int)
    ensures
        decimal_literal(decimal_text(v)) == Some((v, 1int)),
{
    let t = decimal_text(v);
    let m = if v < 0 {
        (-v) as nat
    } else {
        v as nat
    };
    lemma_natural_text(m);
    let body = natural_text(m);
    if v < 0 {
        assert(t[0] == '-');
        assert(t.drop_first() =~= body);
    } else {
        assert(t[0] == body[0]);
        assert(is_digit(body[0], 10));
    }
    assert forall|j: int| 0 <= j < body.len() implies body[j] != '.' by {
        assert(is_digit(body[j], 10));
    }
    lemma_first_index(body, '.', body.len() as int);
    assert(body.take(body.len() as int) == body);
    assert(body + Seq::<char>::empty() =~= body);
    assert(digits_value(body + Seq::<char>::empty(), 10) == m);
    assert(pow10(0) == 1);
}

/// Reads an integer literal of the given radix and keeps it where it lies
/// between `lo` and `hi`.
pub fn parse_integer(s: &str, radix: u8, signed: bool, lo: i128, hi: i128) -> (r: Option<i128>)
    requires
        2 <= radix <= 10,
        -0x8000_0000_0000_0000 <= lo <= 0,
        0 <= hi <= 0x7fff_ffff_ffff_ffff,
    ensures
        r matches Some(v) ==> within(integer_literal(s@, radix as int, signed), lo as int, hi as int)
            == Some(v as int),
        r is None ==> within(integer_literal(s@, radix as int, signed), lo as int, hi as int)
            is None,
{
    let n = s.unicode_len();
    let limit: i128 = if -lo > hi {
        -lo
    } else {
        hi
    };
    let mut negative = false;
    let mut offset: usize = 0;
    let mut acc: i128 = 0;
    let mut i: usize = 0;
    for c in it: s.chars()
        invariant
            it.seq() == s@,
            n == s@.len(),
            i == it.index(),
            2 <= radix <= 10,
            0 <= limit <= 0x8000_0000_0000_0000,
            -limit <= lo,
            hi <= limit,
            offset <= 1,
            offset <= i,
            offset == 1 <==> i > 0 && (s@[0] == '+' || (signed && s@[0] == '-')),
            negative <==> offset == 1 && s@[0] == '-',
            all_digits(s@.subrange(offset as int, i as int), radix as int),
            acc == digits_value(s@.subrange(offset as int, i as int), radix as int),
            0 <= acc <= limit,
    {
        if i == 0 && (c == '+' || (signed && c == '-')) {
            negative = c == '-';
            offset = 1;
            assert(s@.subrange(1, 1) =~= Seq::<char>::empty());
        } else {
            let ghost body = s@.skip(offset as int);
            let ghost seen = s@.subrange(offset as int, i as int);
            let ghost next = s@.subrange(offset as int, i + 1);
            proof {
                assert(body[i - offset] == c);
                assert(next.drop_last() == seen);
                assert(next.last() == c);
                assert(next == body.take(i + 1 - offset));
            }
            if c < '0' || c > '9' {
                assert(!is_digit(c, radix as int));
                return None;
            }
            let d = c as u32 - '0' as u32;
            if d >= radix as u32 {
                assert(!is_digit(c, radix as int));
                return None;
            }
            assert(acc * radix <= 0x8000_0000_0000_0000 * 10) by (nonlinear_arith)
                requires
                    0 <= acc <= 0x8000_0000_0000_0000,
                    2 <= radix <= 10,
            ;
            acc = acc * (radix as i128) + d as i128;
            proof {
                assert(is_digit(c, radix as int));
                assert forall|j: int| 0 <= j < next.len() implies is_digit(
                    #[trigger] next[j],
                    radix as int,
                ) by {
                    if j < next.len() - 1 {
                        assert(next[j] == seen[j]);
                    }
                }
            }
            if acc > limit {
                proof {
                    assert(acc == digits_value(next, radix as int));
                    if offset == 1 {
                        assert(body == s@.drop_first());
                    } else {
                        assert(body == s@);
                    }
                    if all_digits(body, radix as int) {
                        lemma_digits_value_grows(body, radix as int, i + 1 - offset);
                    }
                }
                return None;
            }
        }
        i = i + 1;
    }
    proof {
        assert(s@.subrange(offset as int, n as int) == s@.skip(offset as int));
        if offset == 1 {
            assert(s@.skip(1) == s@.drop_first());
        } else {
            assert(s@.skip(0) == s@);
        }
    }
    if n == offset {
        return None;
    }
    let v = if negative {
        -acc
    } else {
        acc
    };
    if lo <= v && v <= hi {
        Some(v)
    } else {
        None
    }
}

/// Powers of ten are positive and grow with the exponent.
pub proof fn lemma_pow10_grows(a: nat, b: nat)
    requires
        a <= b,
    ensures
        1 <= pow10(a) <= pow10(b),
    decreases b,
{
    if b == 0 {
    } else if a == b {
        lemma_pow10_grows((a - 1) as nat, (b - 1) as nat);
    } else {
        lemma_pow10_grows(a, (b - 1) as nat);
    }
}

/// A fixed-point literal whose mantissa and divisor both fit in 64 bits.
pub open spec fn fitting(d: Option<(int, int)>) -> Option<(int, int)> {
    match d {
        Some((m, p)) => if i64::MIN <= m <= i64::MAX && p <= i64::MAX {
            Some((m, p))
        } else {
            None
        },
        None => None,
    }
}

/// Reads `t` as a run of decimal digits that continues the run `prefix`,
/// whose value is `start`, and gives the value of the whole run where it
/// stays within `limit`.
fn digit_run(t: &str, start: i128, limit: i128, Ghost(prefix): Ghost<Seq<char>>) -> (r: Option<
    i128,
>)
    requires
        all_digits(prefix, 10),
        start == digits_value(prefix, 10),
        0 <= start <= limit <= 0x8000_0000_0000_0000,
    ensures
        r matches Some(v) ==> all_digits(t@, 10) && v == digits_value(prefix + t@, 10) && 0 <= v
            <= limit,
        r is None ==> !all_digits(t@, 10) || digits_value(prefix + t@, 10) > limit,
{
    let mut acc: i128 = start;
    proof {
        assert(prefix + t@.take(0) =~= prefix);
    }
    for c in it: t.chars()
        invariant
            it.seq() == t@,
            all_digits(prefix, 10),
            all_digits(t@.take(it.index()), 10),
            acc == digits_value(prefix + t@.take(it.index()), 10),
            0 <= acc <= limit <= 0x8000_0000_0000_0000,
    {
        let ghost k = it.index();
        let ghost seen = prefix + t@.take(k);
        let ghost next = prefix + t@.take(k + 1);
        if c < '0' || c > '9' {
            assert(!is_digit(t@[k], 10));
            return None;
        }
        let d = c as u32 - '0' as u32;
        acc = acc * 10 + d as i128;
        proof {
            assert(next.drop_last() =~= seen);
            assert(next.last() == c);
            assert forall|j: int| 0 <= j < k + 1 implies is_digit(
                #[trigger] t@.take(k + 1)[j],
                10,
            ) by {
                if j < k {
                    assert(t@.take(k + 1)[j] == t@.take(k)[j]);
                }
            }
        }
        if acc > limit {
            proof {
                if all_digits(t@, 10) {
                    let all = prefix + t@;
                    lemma_all_digits_concat(prefix, t@, 10);
                    assert(all.take(prefix.len() + k + 1) =~= next);
                    lemma_digits_value_grows(all, 10, prefix.len() + k + 1);
                }
            }
            return None;
        }
    }
    assert(t@.take(t@.len() as int) == t@);
    Some(acc)
}

/// Two runs of digits make one.
pub proof fn lemma_all_digits_concat(a: Seq<char>, b: Seq<char>, radix: int)
    requires
        all_digits(a, radix),
        all_digits(b, radix),
    ensures
        all_digits(a + b, radix),
{
    let all = a + b;
    assert forall|j: int| 0 <= j < all.len() implies is_digit(#[trigger] all[j], radix) by {
        if j < a.len() {
            assert(all[j] == a[j]);
        } else {
            assert(all[j] == b[j - a.len()]);
        }
    }
}

/// Ten to the power `k`, where it fits in 64 bits.
fn power_of_ten(k: usize) -> (r: Option<i64>)
    ensures
        r matches Some(p) ==> p == pow10(k as nat),
        r is None ==> pow10(k as nat) > i64::MAX,
{
    let mut p: i64 = 1;
    let mut j: usize = 0;
    while j < k
        invariant
            j <= k,
            p == pow10(j as nat),
            1 <= p,
        decreases k - j,
    {
        if p > 0x7fff_ffff_ffff_ffff / 10 {
            proof {
                lemma_pow10_grows((j + 1) as nat, k as nat);
            }
            return None;
        }
        p = p * 10;
        j = j + 1;
    }
    Some(p)
}

/// Where the first decimal point of `s` stands, counted in characters; the
/// length of `s` where it has none.
fn find_dot(s: &str) -> (r: usize)
    ensures
        r == first_index(s@, '.'),
        r <= s@.len(),
{
    let n = s.unicode_len();
    let mut i: usize = 0;
    for c in it: s.chars()
        invariant
            it.seq() == s@,
            n == s@.len(),
            i == it.index(),
            forall|j: int| 0 <= j < i ==> s@[j] != '.',
    {
        if c == '.' {
            proof {
                lemma_first_index(s@, '.', i as int);
            }
            return i;
        }
        i = i + 1;
    }
    proof {
        lemma_first_index(s@, '.', n as int);
    }
    n
}

/// Reads a fixed-point literal as a mantissa over a power of ten, where both
/// fit in 64 bits.
pub fn parse_decimal(s: &str) -> (r: Option<(i64, i64)>)
    ensures
        r matches Some(q) ==> fitting(decimal_literal(s@)) == Some((q.0 as int, q.1 as int)),
        r is None ==> fitting(decimal_literal(s@)) is None,
{
    let n = s.unicode_len();
    let mut negative = false;
    let mut offset: usize = 0;
    if n > 0 {
        let c = s.get_char(0);
        if c == '+' || c == '-' {
            negative = c == '-';
            offset = 1;
        }
    }
    let body = s.substring_char(offset, n);
    proof {
        if offset == 1 {
            assert(body@ == s@.drop_first());
        } else {
            assert(body@ == s@);
        }
    }
    let dot = find_dot(body);
    let whole = body.substring_char(0, dot);
    let limit: i128 = 0x8000_0000_0000_0000;
    let ghost part = if dot < body@.len() {
        body@.skip(dot + 1)
    } else {
        Seq::<char>::empty()
    };
    proof {
        assert(whole@ == body@.take(dot as int));
        assert(Seq::<char>::empty() + whole@ =~= whole@);
    }
    let mut acc = match digit_run(whole, 0, limit, Ghost(Seq::empty())) {
        Some(v) => v,
        None => {
            proof {
                if all_digits(whole@, 10) && all_digits(part, 10) {
                    let all = whole@ + part;
                    lemma_all_digits_concat(whole@, part, 10);
                    assert(all.take(whole@.len() as int) =~= whole@);
                    lemma_digits_value_grows(all, 10, whole@.len() as int);
                }
            }
            return None;
        },
    };
    let mut scale: i64 = 1;
    let mut digits = dot;
    if dot < n - offset {
        let rest = body.substring_char(dot + 1, n - offset);
        assert(rest@ == part);
        acc = match digit_run(rest, acc, limit, Ghost(whole@)) {
            Some(v) => v,
            None => {
                return None;
            },
        };
        scale = match power_of_ten(n - offset - dot - 1) {
            Some(p) => p,
            None => {
                return None;
            },
        };
        digits = n - offset - 1;
    } else {
        proof {
            assert(whole@ + part =~= whole@);
        }
    }
    if digits == 0 {
        return None;
    }
    let v = if negative {
        -acc
    } else {
        acc
    };
    if v < -0x8000_0000_0000_0000 || v > 0x7fff_ffff_ffff_ffff {
        return None;
    }
    Some((v as i64, scale))
}

/// The one-character text of a digit value.
fn digit_text(d: u8) -> (r: &'static str)
    requires
        d < 10,
    ensures
        r@ == seq![digit_char(d as int)],
{
    proof {
        reveal_strlit("0");
        reveal_strlit("1");
        reveal_strlit("2");
        reveal_strlit("3");
        reveal_strlit("4");
        reveal_strlit("5");
        reveal_strlit("6");
        reveal_strlit("7");
        reveal_strlit("8");
        reveal_strlit("9");
    }
    let r = if d == 0 {
        "0"
    } else if d == 1 {
        "1"
    } else if d == 2 {
        "2"
    } else if d == 3 {
        "3"
    } else if d == 4 {
        "4"
    } else if d == 5 {
        "5"
    } else if d == 6 {
        "6"
    } else if d == 7 {
        "7"
    } else if d == 8 {
        "8"
    } else {
        "9"
    };
    assert(r@ =~= seq![digit_char(d as int)]);
    r
}

/// Writes a natural number in decimal notation.
pub fn natural_string(n: u64) -> (r: String)
    ensures
        r@ == natural_text(n as nat),
    decreases n,
{
    if n < 10 {
        String::from_str(digit_text(n as u8))
    } else {
        let mut r = natural_string(n / 10);
        let d = digit_text((n % 10) as u8);
        assert(r@ + d@ =~= r@.push(digit_char((n % 10) as int)));
        r.append(d);
        r
    }
}

/// Writes an integer in decimal notation, as `to_string` does.
pub fn decimal_string(v: i64) -> (r: String)
    ensures
        r@ == decimal_text(v as int),
{
    if v < 0 {
        let magnitude = (-(v as i128)) as u64;
        let mut r = String::from_str("-");
        let digits = natural_string(magnitude);
        proof {
            reveal_strlit("-");
            assert(r@ =~= seq!['-']);
        }
        r.append(digits.as_str());
        r
    } else {
        natural_string(v as u64)
    }
}

/// The quotient of two integers, rounded toward zero, where the divisor is
/// not zero and the quotient lies between `lo` and `hi`.
pub open spec fn integer_quotient(a: int, b: int, lo: int, hi: int) -> Option<int> {
    if b == 0 {
        None
    } else {
        within(Some(truncated_div(a, b)), lo, hi)
    }
}

/// A quotient rounded toward zero is no further from zero than the dividend,
/// and at most half as far unless the divisor is 1 or -1.
pub proof fn lemma_truncated_div_bounds(a: int, b: int)
    requires
        b != 0,
    ensures
        a >= 0 ==> -a <= truncated_div(a, b) <= a,
        a < 0 ==> a <= truncated_div(a, b) <= -a,
        b == 1 ==> truncated_div(a, b) == a,
        b == -1 ==> truncated_div(a, b) == -a,
        b != 1 && b != -1 && a >= 0 ==> -a <= 2 * truncated_div(a, b) <= a,
        b != 1 && b != -1 && a < 0 ==> a <= 2 * truncated_div(a, b) <= -a,
{
    let x = if a < 0 {
        -a
    } else {
        a
    };
    let y = if b < 0 {
        -b
    } else {
        b
    };
    assert(0 <= x / y <= x && (y == 1 ==> x / y == x) && (y >= 2 ==> 2 * (x / y) <= x))
        by (nonlinear_arith)
        requires
            0 <= x,
            0 < y,
    ;
}

/// Divides two integers, rounding toward zero.
pub fn truncated_quotient(a: i128, b: i128) -> (q: i128)
    requires
        b != 0,
        -0x8000_0000_0000_0000 <= a <= 0x8000_0000_0000_0000,
        -0x8000_0000_0000_0000 <= b <= 0x8000_0000_0000_0000,
    ensures
        q == truncated_div(a as int, b as int),
        -0x8000_0000_0000_0000 <= q <= 0x8000_0000_0000_0000,
{
    let x: u128 = if a < 0 {
        (-a) as u128
    } else {
        a as u128
    };
    let y: u128 = if b < 0 {
        (-b) as u128
    } else {
        b as u128
    };
    let m = x / y;
    proof {
        assert(0 <= (x as int) / (y as int) <= x) by (nonlinear_arith)
            requires
                0 <= x,
                0 < y,
        ;
    }
    if (a < 0) == (b < 0) {
        m as i128
    } else {
        -(m as i128)
    }
}

/// A numeric type that a measurement can be held in: it reads its own
/// literals and divides in its own arithmetic.
pub trait Numeric: Sized + Copy {
    /// The value that a literal denotes, where the text is a literal of the
    /// type and the value fits it.
    spec fn parsed(text: Seq<char>) -> Option<Self>;

    /// The value divided by `divisor`, where the type has such a value.
    spec fn quotient(self, divisor: Self) -> Option<Self>;

    /// The value as a fraction of two integers.
    spec fn fraction(self) -> (int, int);

    /// Reads a literal of the type.
    fn parse(text: &str) -> (r: Option<Self>)
        ensures
            r == Self::parsed(text@),
    ;

    /// Divides in the type's arithmetic.
    fn divide(self, divisor: Self) -> (r: Option<Self>)
        ensures
            r == self.quotient(divisor),
    ;
}

impl Numeric for i8 {
    open spec fn parsed(text: Seq<char>) -> Option<i8> {
        match within(integer_literal(text, 10, true), i8::MIN as int, i8::MAX as int) {
            Some(v) => Some(v as i8),
            None => None,
        }
    }

    open spec fn quotient(self, divisor: i8) -> Option<i8> {
        match integer_quotient(self as int, divisor as int, i8::MIN as int, i8::MAX as int) {
            Some(v) => Some(v as i8),
            None => None,
        }
    }

    open spec fn fraction(self) -> (int, int) {
        (self as int, 1)
    }

    fn parse(text: &str) -> (r: Option<i8>) {
        match parse_integer(text, 10, true, i8::MIN as i128, i8::MAX as i128) {
            Some(v) => Some(v as i8),
            None => None,
        }
    }

    fn divide(self, divisor: i8) -> (r: Option<i8>) {
        if divisor == 0 {
            return None;
        }
        let q = truncated_quotient(self as i128, divisor as i128);
        if q < i8::MIN as i128 || q > i8::MAX as i128 {
            None
        } else {
            Some(q as i8)
        }
    }
}

impl Numeric for i16 {
    open spec fn parsed(text: Seq<char>) -> Option<i16> {
        match within(integer_literal(text, 10, true), i16::MIN as int, i16::MAX as int) {
            Some(v) => Some(v as i16),
            None => None,
        }
    }

    open spec fn quotient(self, divisor: i16) -> Option<i16> {
        match integer_quotient(self as int, divisor as int, i16::MIN as int, i16::MAX as int) {
            Some(v) => Some(v as i16),
            None => None,
        }
    }

    open spec fn fraction(self) -> (int, int) {
        (self as int, 1)
    }

    fn parse(text: &str) -> (r: Option<i16>) {
        match parse_integer(text, 10, true, i16::MIN as i128, i16::MAX as i128) {
            Some(v) => Some(v as i16),
            None => None,
        }
    }

    fn divide(self, divisor: i16) -> (r: Option<i16>) {
        if divisor == 0 {
            return None;
        }
        let q = truncated_quotient(self as i128, divisor as i128);
        if q < i16::MIN as i128 || q > i16::MAX as i128 {
            None
        } else {
            Some(q as i16)
        }
    }
}

impl Numeric for i32 {
    open spec fn parsed(text: Seq<char>) -> Option<i32> {
        match within(integer_literal(text, 10, true), i32::MIN as int, i32::MAX as int) {
            Some(v) => Some(v as i32),
            None => None,
        }
    }

    open spec fn quotient(self, divisor: i32) -> Option<i32> {
        match integer_quotient(self as int, divisor as int, i32::MIN as int, i32::MAX as int) {
            Some(v) => Some(v as i32),
            None => None,
        }
    }

    open spec fn fraction(self) -> (int, int) {
        (self as int, 1)
    }

    fn parse(text: &str) -> (r: Option<i32>) {
        match parse_integer(text, 10, true, i32::MIN as i128, i32::MAX as i128) {
            Some(v) => Some(v as i32),
            None => None,
        }
    }

    fn divide(self, divisor: i32) -> (r: Option<i32>) {
        if divisor == 0 {
            return None;
        }
        let q = truncated_quotient(self as i128, divisor as i128);
        if q < i32::MIN as i128 || q > i32::MAX as i128 {
            None
        } else {
            Some(q as i32)
        }
    }
}

impl Numeric for isize {
    open spec fn parsed(text: Seq<char>) -> Option<isize> {
        match within(integer_literal(text, 10, true), isize::MIN as int, isize::MAX as int) {
            Some(v) => Some(v as isize),
            None => None,
        }
    }

    open spec fn quotient(self, divisor: isize) -> Option<isize> {
        match integer_quotient(self as int, divisor as int, isize::MIN as int, isize::MAX as int) {
            Some(v) => Some(v as isize),
            None => None,
        }
    }

    open spec fn fraction(self) -> (int, int) {
        (self as int, 1)
    }

    fn parse(text: &str) -> (r: Option<isize>) {
        match parse_integer(text, 10, true, isize::MIN as i128, isize::MAX as i128) {
            Some(v) => Some(v as isize),
            None => None,
        }
    }

    fn divide(self, divisor: isize) -> (r: Option<isize>) {
        if divisor == 0 {
            return None;
        }
        let q = truncated_quotient(self as i128, divisor as i128);
        if q < isize::MIN as i128 || q > isize::MAX as i128 {
            None
        } else {
            Some(q as isize)
        }
    }
}

impl Numeric for u8 {
    open spec fn parsed(text: Seq<char>) -> Option<u8> {
        match within(integer_literal(text, 10, false), 0, u8::MAX as int) {
            Some(v) => Some(v as u8),
            None => None,
        }
    }

    open spec fn quotient(self, divisor: u8) -> Option<u8> {
        match integer_quotient(self as int, divisor as int, 0, u8::MAX as int) {
            Some(v) => Some(v as u8),
            None => None,
        }
    }

    open spec fn fraction(self) -> (int, int) {
        (self as int, 1)
    }

    fn parse(text: &str) -> (r: Option<u8>) {
        match parse_integer(text, 10, false, 0, u8::MAX as i128) {
            Some(v) => Some(v as u8),
            None => None,
        }
    }

    fn divide(self, divisor: u8) -> (r: Option<u8>) {
        if divisor == 0 {
            None
        } else {
            Some(self / divisor)
        }
    }
}

/// An exact fraction of two integers. It stands where a measurement has a
/// fractional part: the scaled value is kept as it was read, over what it was
/// divided by, and nothing is rounded.
#[derive(Clone, Copy, Debug, PartialEq, Eq)]
pub struct Ratio {
    pub numerator: i64,
    pub denominator: i64,
}

impl Ratio {
    /// The integer `n` as a fraction.
    pub open spec fn whole_spec(n: i64) -> Ratio {
        Ratio { numerator: n, denominator: 1 }
    }

    /// The integer `n` as a fraction.
    #[verifier::when_used_as_spec(whole_spec)]
    pub fn whole(n: i64) -> (r: Ratio)
        ensures
            r == Self::whole_spec(n),
    {
        Ratio { numerator: n, denominator: 1 }
    }

    /// The fraction `numerator / denominator`.
    pub open spec fn new_spec(numerator: i64, denominator: i64) -> Ratio {
        Ratio { numerator, denominator }
    }

    /// The fraction `numerator / denominator`.
    #[verifier::when_used_as_spec(new_spec)]
    pub fn new(numerator: i64, denominator: i64) -> (r: Ratio)
        ensures
            r == Self::new_spec(numerator, denominator),
    {
        Ratio { numerator, denominator }
    }
}

/// The quotient of two fractions, `a.0 / a.1` by `b.0 / b.1`, with a positive
/// denominator and not reduced, where it exists and both its parts fit in 64
/// bits.
pub open spec fn fraction_quotient(a: (int, int), b: (int, int)) -> Option<(int, int)> {
    let n = a.0 * b.1;
    let d = a.1 * b.0;
    let top = if d < 0 {
        -n
    } else {
        n
    };
    let bottom = if d < 0 {
        -d
    } else {
        d
    };
    if d != 0 && i64::MIN <= top <= i64::MAX && bottom <= i64::MAX {
        Some((top, bottom))
    } else {
        None
    }
}

impl Numeric for Ratio {
    open spec fn parsed(text: Seq<char>) -> Option<Ratio> {
        match fitting(decimal_literal(text)) {
            Some((m, p)) => Some(Ratio { numerator: m as i64, denominator: p as i64 }),
            None => None,
        }
    }

    open spec fn quotient(self, divisor: Ratio) -> Option<Ratio> {
        match fraction_quotient(self.fraction(), divisor.fraction()) {
            Some((n, d)) => Some(Ratio { numerator: n as i64, denominator: d as i64 }),
            None => None,
        }
    }

    open spec fn fraction(self) -> (int, int) {
        (self.numerator as int, self.denominator as int)
    }

    fn parse(text: &str) -> (r: Option<Ratio>) {
        match parse_decimal(text) {
            Some((m, p)) => Some(Ratio { numerator: m, denominator: p }),
            None => None,
        }
    }

    fn divide(self, divisor: Ratio) -> (r: Option<Ratio>) {
        let a = self.numerator as i128;
        let b = self.denominator as i128;
        let c = divisor.numerator as i128;
        let e = divisor.denominator as i128;
        proof {
            lemma_product_fits(a as int, e as int);
            lemma_product_fits(b as int, c as int);
        }
        let n = a * e;
        let d = b * c;
        if d == 0 {
            return None;
        }
        let top = if d < 0 {
            -n
        } else {
            n
        };
        let bottom = if d < 0 {
            -d
        } else {
            d
        };
        if top < i64::MIN as i128 || top > i64::MAX as i128 || bottom > i64::MAX as i128 {
            None
        } else {
            Some(Ratio { numerator: top as i64, denominator: bottom as i64 })
        }
    }
}

/// The product of two 64-bit integers is far from the ends of 128 bits.
proof fn lemma_product_fits(x: int, y: int)
    requires
        -0x8000_0000_0000_0000 <= x <= 0x8000_0000_0000_0000,
        -0x8000_0000_0000_0000 <= y <= 0x8000_0000_0000_0000,
    ensures
        -0x4000_0000_0000_0000_0000_0000_0000_0000 <= x * y
            <= 0x4000_0000_0000_0000_0000_0000_0000_0000,
{
    assert(-0x4000_0000_0000_0000_0000_0000_0000_0000 <= x * y
        <= 0x4000_0000_0000_0000_0000_0000_0000_0000) by (nonlinear_arith)
        requires
            -0x8000_0000_0000_0000 <= x <= 0x8000_0000_0000_0000,
            -0x8000_0000_0000_0000 <= y <= 0x8000_0000_0000_0000,
    ;
}

} // verus!
