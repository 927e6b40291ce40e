//! Decimal numbers as text: reading them with a bound, reading thousandths,
//! and writing them.

use crate::error::ParseError;
use crate::text::{are_ranges, find_char, first_of, is_range, piece, pieces};
use vstd::prelude::*;
use vstd::string::StringExecFns;

verus! {

/// Whether `c` is one of `0` to `9`.
pub open spec fn is_digit(c: char) -> bool {
    '0' <= c <= '9'
}

/// The number that the digit `c` stands for.
pub open spec fn digit_value(c: char) -> nat {
    (c as int - '0' as int) as nat
}

/// Whether `s` holds digits only. The empty sequence does.
pub open spec fn all_digits(s: Seq<char>) -> bool {
    forall|i: int| 0 <= i < s.len() ==> is_digit(#[trigger] s[i])
}

/// Whether `s` is written as a number: one digit or more, and nothing else.
pub open spec fn is_number(s: Seq<char>) -> bool {
    s.len() > 0 && all_digits(s)
}

/// The number that the digits `s` spell in base ten.
pub open spec fn decimal_value(s: Seq<char>) -> nat
    decreases s.len(),
{
    if s.len() == 0 {
        0
    } else {
        10 * decimal_value(s.drop_last()) + digit_value(s.last())
    }
}

/// What `s` is worth as a number no greater than `max`: `Malformed` unless it
/// is written as a number, `OutOfRange` if the number is above `max`.
pub open spec fn unsigned_of(s: Seq<char>, max: u64) -> Result<u64, ParseError> {
    if !is_number(s) {
        Err(ParseError::Malformed)
    } else if decimal_value(s) > max {
        Err(ParseError::OutOfRange)
    } else {
        Ok(decimal_value(s) as u64)
    }
}

/// The digit at place `i` of a fraction, where a place that is not written
/// holds zero.
pub open spec fn fraction_digit(frac: Seq<char>, i: int) -> nat {
    if 0 <= i < frac.len() {
        digit_value(frac[i])
    } else {
        0
    }
}

/// The first three places of the fraction `frac`, as a count of thousandths.
/// Places beyond the third are cut off.
pub open spec fn thousandths(frac: Seq<char>) -> nat {
    100 * fraction_digit(frac, 0) + 10 * fraction_digit(frac, 1) + fraction_digit(frac, 2)
}

/// The digits of `s` before its first dot.
pub open spec fn whole_part(s: Seq<char>) -> Seq<char> {
    s.take(first_of(s, '.') as int)
}

/// The digits of `s` after its first dot; empty if it has no dot.
pub open spec fn fraction_part(s: Seq<char>) -> Seq<char> {
    let dot = first_of(s, '.') as int;
    if dot < s.len() {
        s.skip(dot + 1)
    } else {
        Seq::empty()
    }
}

/// What the decimal `s` is worth in thousandths, as a number no greater than
/// `max`. `s` is digits, or digits, a dot and any number of digits.
/// `Malformed` for any other shape, `OutOfRange` if the worth is above `max`.
pub open spec fn milli_of(s: Seq<char>, max: u64) -> Result<u64, ParseError> {
    let whole = whole_part(s);
    let frac = fraction_part(s);
    if !is_number(whole) || !all_digits(frac) {
        Err(ParseError::Malformed)
    } else if 1000 * decimal_value(whole) + thousandths(frac) > max {
        Err(ParseError::OutOfRange)
    } else {
        Ok((1000 * decimal_value(whole) + thousandths(frac)) as u64)
    }
}

/// How a number is written.
#[derive(Clone, Copy, Debug, PartialEq, Eq, Structural)]
pub enum Notation {
    /// Digits only; the worth is the number they spell.
    Whole,
    /// Digits, or digits, a dot and digits; the worth is counted in
    /// thousandths.
    Thousandths,
}

/// What `s` is worth in `notation`, as a number no greater than `max`.
pub open spec fn worth(s: Seq<char>, notation: Notation, max: u64) -> Result<u64, ParseError> {
    match notation {
        Notation::Whole => unsigned_of(s, max),
        Notation::Thousandths => milli_of(s, max),
    }
}

/// What each of `fields` is worth in `notation`, as numbers no greater than
/// `max`, in order. The first field that is worth none decides the failure.
pub open spec fn numbers_of(fields: Seq<Seq<char>>, notation: Notation, max: u64) -> Result<
    Seq<u64>,
    ParseError,
>
    decreases fields.len(),
{
    if fields.len() == 0 {
        Ok(seq![])
    } else {
        match numbers_of(fields.drop_last(), notation, max) {
            Err(e) => Err(e),
            Ok(before) => match worth(fields.last(), notation, max) {
                Err(e) => Err(e),
                Ok(n) => Ok(before.push(n)),
            },
        }
    }
}

/// The digit that stands for `d`, for `d` below ten.
pub open spec fn digit_char(d: nat) -> char {
    if d == 0 {
        '0'
    } else if d == 1 {
        '1'
    } else if d == 2 {
        '2'
    } else if d == 3 {
        '3'
    } else if d == 4 {
        '4'
    } else if d == 5 {
        '5'
    } else if d == 6 {
        '6'
    } else if d == 7 {
        '7'
    } else if d == 8 {
        '8'
    } else {
        '9'
    }
}

/// `n` written in base ten, without leading zeros.
pub open spec fn decimal_text(n: nat) -> Seq<char>
    decreases n,
{
    if n < 10 {
        seq![digit_char(n)]
    } else {
        decimal_text(n / 10).push(digit_char(n % 10))
    }
}

/// The digits written so far are worth no more than the whole number.
pub proof fn lemma_prefix_value(s: Seq<char>, k: int)
    requires
        0 <= k <= s.len(),
    ensures
        decimal_value(s.take(k)) <= decimal_value(s),
    decreases s.len(),
{
    if k < s.len() {
        lemma_prefix_value(s.drop_last(), k);
        assert(s.drop_last().take(k) =~= s.take(k));
    } else {
        assert(s.take(k) =~= s);
    }
}

/// A failure among the first `k` fields is the failure of all the fields.
pub proof fn lemma_numbers_failure(fields: Seq<Seq<char>>, notation: Notation, max: u64, k: int)
    requires
        0 <= k <= fields.len(),
        numbers_of(fields.take(k), notation, max) is Err,
    ensures
        numbers_of(fields, notation, max) == numbers_of(fields.take(k), notation, max),
    decreases fields.len(),
{
    if k < fields.len() {
        assert(fields.drop_last().take(k) =~= fields.take(k));
        lemma_numbers_failure(fields.drop_last(), notation, max, k);
    } else {
        assert(fields.take(k) =~= fields);
    }
}

/// Whether `c` is a digit.
pub fn is_digit_char(c: char) -> (b: bool)
    ensures
        b == is_digit(c),
{
    '0' <= c && c <= '9'
}

/// The number that the digit `c` stands for.
pub fn digit_of(c: char) -> (d: u64)
    requires
        is_digit(c),
    ensures
        d == digit_value(c),
        d < 10,
{
    (c as u64) - ('0' as u64)
}

/// Whether the piece `r` of `v` holds digits only.
pub fn only_digits(v: &Vec<char>, r: (usize, usize)) -> (b: bool)
    requires
        is_range(r, v@.len()),
    ensures
        b == all_digits(piece(v@, r)),
{
    let ghost s = piece(v@, r);
    let mut i: usize = r.0;
    while i < r.1
        invariant
            is_range(r, v@.len()),
            r.0 <= i <= r.1,
            s == piece(v@, r),
            forall|k: int| 0 <= k < i - r.0 ==> is_digit(#[trigger] s[k]),
        decreases r.1 - i,
    {
        if !is_digit_char(v[i]) {
            assert(!is_digit(s[i - r.0]));
            return false;
        }
        i += 1;
    }
    true
}

/// Reads the piece `r` of `v` as a number no greater than `max`.
pub fn parse_unsigned(v: &Vec<char>, r: (usize, usize), max: u64) -> (res: Result<u64, ParseError>)
    requires
        is_range(r, v@.len()),
    ensures
        res == unsigned_of(piece(v@, r), max),
{
    let ghost s = piece(v@, r);
    if r.0 == r.1 || !only_digits(v, r) {
        return Err(ParseError::Malformed);
    }
    let mut acc: u64 = 0;
    let mut i: usize = r.0;
    assert(s.take(0) =~= Seq::<char>::empty());
    while i < r.1
        invariant
            is_range(r, v@.len()),
            r.0 <= i <= r.1,
            s == piece(v@, r),
            all_digits(s),
            acc == decimal_value(s.take(i - r.0)),
            acc <= max,
        decreases r.1 - i,
    {
        let c = v[i];
        assert(c == s[i - r.0]);
        let d = digit_of(c);
        proof {
            assert(s.take(i - r.0 + 1).drop_last() =~= s.take(i - r.0));
            assert(s.take(i - r.0 + 1).last() == c);
            lemma_prefix_value(s, i - r.0 + 1);
        }
        if d > max || acc > (max - d) / 10 {
            return Err(ParseError::OutOfRange);
        }
        acc = acc * 10 + d;
        i += 1;
    }
    assert(s.take(i - r.0) =~= s);
    Ok(acc)
}

/// The digit at place `i` of the fraction `v[r.0..r.1]`.
fn fraction_digit_at(v: &Vec<char>, r: (usize, usize), i: usize) -> (d: u64)
    requires
        is_range(r, v@.len()),
        all_digits(piece(v@, r)),
        i < 3,
    ensures
        d == fraction_digit(piece(v@, r), i as int),
        d < 10,
{
    if i < r.1 - r.0 {
        assert(piece(v@, r)[i as int] == v@[r.0 + i]);
        digit_of(v[r.0 + i])
    } else {
        0
    }
}

/// Reads the piece `r` of `v` as a decimal, in thousandths, no greater than
/// `max`.
pub fn parse_milli(v: &Vec<char>, r: (usize, usize), max: u64) -> (res: Result<u64, ParseError>)
    requires
        is_range(r, v@.len()),
    ensures
        res == milli_of(piece(v@, r), max),
{
    let ghost s = piece(v@, r);
    let dot = find_char(v, r.0, r.1, '.');
    let whole = (r.0, dot);
    let frac = if dot < r.1 {
        (dot + 1, r.1)
    } else {
        (r.1, r.1)
    };
    proof {
        assert(piece(v@, whole) =~= whole_part(s));
        assert(piece(v@, frac) =~= fraction_part(s));
    }
    if dot == r.0 || !only_digits(v, whole) || !only_digits(v, frac) {
        return Err(ParseError::Malformed);
    }
    let units = match parse_unsigned(v, whole, max / 1000) {
        Ok(n) => n,
        Err(_) => {
            return Err(ParseError::OutOfRange);
        },
    };
    let part = 100 * fraction_digit_at(v, frac, 0) + 10 * fraction_digit_at(v, frac, 1)
        + fraction_digit_at(v, frac, 2);
    if part > max - 1000 * units {
        return Err(ParseError::OutOfRange);
    }
    Ok(1000 * units + part)
}

/// Reads the piece `r` of `v` as a number in `notation`, no greater than
/// `max`.
pub fn parse_number(v: &Vec<char>, r: (usize, usize), notation: Notation, max: u64) -> (res: Result<
    u64,
    ParseError,
>)
    requires
        is_range(r, v@.len()),
    ensures
        res == worth(piece(v@, r), notation, max),
{
    match notation {
        Notation::Whole => parse_unsigned(v, r, max),
        Notation::Thousandths => parse_milli(v, r, max),
    }
}

/// Reads each of the pieces `rs[from..to]` of `v` as a number in `notation`,
/// no greater than `max`.
pub fn parse_each(
    v: &Vec<char>,
    rs: &Vec<(usize, usize)>,
    from: usize,
    to: usize,
    notation: Notation,
    max: u64,
) -> (res: Result<Vec<u64>, ParseError>)
    requires
        are_ranges(rs@, v@.len()),
        from <= to <= rs.len(),
    ensures
        match res {
            Ok(ns) => ns.len() == to - from && numbers_of(
                pieces(v@, rs@).subrange(from as int, to as int),
                notation,
                max,
            ) == Ok::<Seq<u64>, ParseError>(ns@),
            Err(e) => numbers_of(
                pieces(v@, rs@).subrange(from as int, to as int),
                notation,
                max,
            ) == Err::<Seq<u64>, ParseError>(e),
        },
{
    let ghost fields = pieces(v@, rs@).subrange(from as int, to as int);
    let mut ns: Vec<u64> = Vec::new();
    let mut i: usize = from;
    assert(fields.take(0) =~= Seq::<Seq<char>>::empty());
    while i < to
        invariant
            are_ranges(rs@, v@.len()),
            from <= i <= to <= rs.len(),
            fields == pieces(v@, rs@).subrange(from as int, to as int),
            ns.len() == i - from,
            numbers_of(fields.take(i - from), notation, max) == Ok::<Seq<u64>, ParseError>(ns@),
        decreases to - i,
    {
        assert(is_range(rs@[i as int], v@.len()));
        proof {
            assert(fields.take(i - from + 1).drop_last() =~= fields.take(i - from));
            assert(fields.take(i - from + 1).last() == piece(v@, rs@[i as int]));
        }
        match parse_number(v, rs[i], notation, max) {
            Ok(n) => {
                ns.push(n);
            },
            Err(e) => {
                proof {
                    lemma_numbers_failure(fields, notation, max, i - from + 1);
                }
                return Err(e);
            },
        }
        i += 1;
    }
    assert(fields.take(i - from) =~= fields);
    Ok(ns)
}

/// The digit `d` as a string of one character.
pub fn digit_str(d: u64) -> (s: &'static str)
    requires
        d < 10,
    ensures
        s@ == seq![digit_char(d as nat)],
{
    proof {
        reveal_strlit("0");
        reveal_strlit("1");
        reveal_strlit("2");
        reveal_strlit("3");
        reveal_strlit("4");
        reveal_strlit("5");
        reveal_strlit("6");
        reveal_strlit("7");
        reveal_strlit("8");
        reveal_strlit("9");
    }
    let s = if d == 0 {
        "0"
    } else if d == 1 {
        "1"
    } else if d == 2 {
        "2"
    } else if d == 3 {
        "3"
    } else if d == 4 {
        "4"
    } else if d == 5 {
        "5"
    } else if d == 6 {
        "6"
    } else if d == 7 {
        "7"
    } else if d == 8 {
        "8"
    } else {
        "9"
    };
    assert(s@ =~= seq![digit_char(d as nat)]);
    s
}

/// Writes `n` in base ten at the end of `out`.
pub fn push_decimal(out: &mut String, n: u64)
    ensures
        final(out)@ == old(out)@ + decimal_text(n as nat),
    decreases n,
{
    if n >= 10 {
        push_decimal(out, n / 10);
    }
    let ghost before = out@;
    out.append(digit_str(n % 10));
    proof {
        if n >= 10 {
            assert(before + seq![digit_char((n % 10) as nat)] =~= old(out)@ + decimal_text(
                (n / 10) as nat,
            ).push(digit_char((n % 10) as nat)));
        }
    }
}

/// `n` written in base ten.
pub fn decimal_string(n: u64) -> (s: String)
    ensures
        s@ == decimal_text(n as nat),
{
    let mut s = String::new();
    push_decimal(&mut s, n);
    assert(Seq::<char>::empty() + decimal_text(n as nat) =~= decimal_text(n as nat));
    s
}

/// Whether no number of `s` is followed by a smaller one.
pub open spec fn is_ascending(s: Seq<u64>) -> bool {
    forall|i: int, j: int| 0 <= i <= j < s.len() ==> s[i] <= s[j]
}

/// Whether `sorted` holds the numbers of `listed`, each as often as `listed`
/// does, in ascending order.
pub open spec fn is_sorting_of(sorted: Seq<u64>, listed: Seq<u64>) -> bool {
    &&& is_ascending(sorted)
    &&& sorted.len() == listed.len()
    &&& sorted.to_multiset() == listed.to_multiset()
}

/// The numbers of `s` added up.
pub open spec fn sum(s: Seq<u64>) -> nat
    decreases s.len(),
{
    if s.len() == 0 {
        0
    } else {
        sum(s.drop_last()) + s.last() as nat
    }
}

/// The mean of the numbers of `s`, rounded down; 0 if there are none.
pub open spec fn mean(s: Seq<u64>) -> nat {
    if s.len() == 0 {
        0
    } else {
        sum(s) / s.len()
    }
}

/// The numbers of `v` in ascending order.
pub fn sort_ascending(v: &Vec<u64>) -> (out: Vec<u64>)
    ensures
        is_sorting_of(out@, v@),
{
    let mut out: Vec<u64> = Vec::new();
    let mut k: usize = 0;
    assert(v@.take(0) =~= Seq::<u64>::empty());
    while k < v.len()
        invariant
            k <= v.len(),
            out.len() == k,
            is_ascending(out@),
            out@.to_multiset() == v@.take(k as int).to_multiset(),
        decreases v.len() - k,
    {
        let x = v[k];
        let mut p: usize = 0;
        while p < out.len() && out[p] <= x
            invariant
                p <= out.len(),
                forall|q: int| 0 <= q < p ==> out@[q] <= x,
            decreases out.len() - p,
        {
            p += 1;
        }
        proof {
            vstd::seq_lib::to_multiset_insert(out@, p as int, x);
            vstd::seq_lib::to_multiset_build(v@.take(k as int), x);
            assert(v@.take(k + 1) =~= v@.take(k as int).push(x));
            out@.insert_ensures(p as int, x);
        }
        out.insert(p, x);
        k += 1;
    }
    assert(v@.take(k as int) =~= v@);
    out
}

/// The mean of the numbers of `v`, rounded down; 0 if there are none.
pub fn mean_of(v: &Vec<u64>) -> (m: u64)
    ensures
        m == mean(v@),
{
    if v.len() == 0 {
        return 0;
    }
    let mut acc: u128 = 0;
    let mut i: usize = 0;
    assert(v@.take(0) =~= Seq::<u64>::empty());
    while i < v.len()
        invariant
            i <= v.len(),
            acc == sum(v@.take(i as int)),
            acc <= i * u64::MAX,
        decreases v.len() - i,
    {
        assert(v@.take(i + 1).drop_last() =~= v@.take(i as int));
        acc = acc + v[i] as u128;
        i += 1;
    }
    assert(v@.take(i as int) =~= v@);
    let n = v.len() as u128;
    assert(acc / n <= u64::MAX) by (nonlinear_arith)
        requires
            n > 0,
            acc <= n * u64::MAX,
    ;
    (acc / n) as u64
}

} // verus!
