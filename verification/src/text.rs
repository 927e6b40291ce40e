//! Character sequences: whitespace, lines, tokens and labelled values.
//!
//! Every model here is a function on `Seq<char>`. The executable functions
//! work on a `Vec<char>` and hand back positions into it, so that a caller can
//! cut the answer out of the text it started from.

use vstd::prelude::*;
use vstd::string::{StrSliceExecFns, StringExecFns};

verus! {

/// The characters that trimming removes and that separate tokens.
pub open spec fn is_space(c: char) -> bool {
    c == ' ' || c == '\t' || c == '\n' || c == '\r' || c == '\x0b' || c == '\x0c'
}

/// `s` without its leading whitespace.
pub open spec fn trim_start(s: Seq<char>) -> Seq<char>
    decreases s.len(),
{
    if s.len() > 0 && is_space(s[0]) {
        trim_start(s.skip(1))
    } else {
        s
    }
}

/// `s` without its trailing whitespace.
pub open spec fn trim_end(s: Seq<char>) -> Seq<char>
    decreases s.len(),
{
    if s.len() > 0 && is_space(s.last()) {
        trim_end(s.drop_last())
    } else {
        s
    }
}

/// `s` without whitespace at either end.
pub open spec fn trim(s: Seq<char>) -> Seq<char> {
    trim_end(trim_start(s))
}

/// `s` without one final line feed, if it ends in one.
pub open spec fn strip_newline(s: Seq<char>) -> Seq<char> {
    if s.len() > 0 && s.last() == '\n' {
        s.drop_last()
    } else {
        s
    }
}

/// Whether `s` begins with `p`.
pub open spec fn has_prefix(s: Seq<char>, p: Seq<char>) -> bool {
    p.len() <= s.len() && s.take(p.len() as int) == p
}

/// Whether `s` ends with `p`.
pub open spec fn has_suffix(s: Seq<char>, p: Seq<char>) -> bool {
    p.len() <= s.len() && s.skip(s.len() - p.len()) == p
}

/// The position of the first `c` in `s`, or `s.len()` if it has none.
pub open spec fn first_of(s: Seq<char>, c: char) -> nat
    decreases s.len(),
{
    if s.len() == 0 || s[0] == c {
        0
    } else {
        1 + first_of(s.skip(1), c)
    }
}

/// The lines of `s`: the pieces between its line feeds. A text without a line
/// feed is one line, and a final line feed is followed by one empty line.
pub open spec fn lines(s: Seq<char>) -> Seq<Seq<char>>
    decreases s.len(),
{
    let n = first_of(s, '\n') as int;
    if n < s.len() {
        seq![s.take(n)] + lines(s.skip(n + 1))
    } else {
        seq![s]
    }
}

/// The number of characters before the first whitespace in `s`.
pub open spec fn token_len(s: Seq<char>) -> nat
    decreases s.len(),
{
    if s.len() == 0 || is_space(s[0]) {
        0
    } else {
        1 + token_len(s.skip(1))
    }
}

/// The maximal runs of characters of `s` that hold no whitespace, in order.
pub open spec fn tokens(s: Seq<char>) -> Seq<Seq<char>>
    decreases s.len(),
{
    if s.len() == 0 {
        seq![]
    } else if is_space(s[0]) {
        tokens(s.skip(1))
    } else {
        let n = token_len(s) as int;
        if 0 < n <= s.len() {
            seq![s.take(n)] + tokens(s.skip(n))
        } else {
            seq![]
        }
    }
}

/// What a line says under `label`: the line begins with the label, then
/// comes `sep`, with nothing but whitespace between them, and the value is
/// what follows `sep`, trimmed. `None` if the line is not of that shape.
pub open spec fn labelled_value(line: Seq<char>, label: Seq<char>, sep: char) -> Option<Seq<char>> {
    if has_prefix(line, label) {
        let rest = trim_start(line.skip(label.len() as int));
        if rest.len() > 0 && rest[0] == sep {
            Some(trim(rest.skip(1)))
        } else {
            None
        }
    } else {
        None
    }
}

/// The value of the first of `ls` that carries `label`.
pub open spec fn first_value(ls: Seq<Seq<char>>, label: Seq<char>, sep: char) -> Option<Seq<char>>
    decreases ls.len(),
{
    if ls.len() == 0 {
        None
    } else {
        match labelled_value(ls[0], label, sep) {
            Some(v) => Some(v),
            None => first_value(ls.drop_first(), label, sep),
        }
    }
}

/// The values of all of `ls` that carry `label`, in the order of the lines.
pub open spec fn all_values(ls: Seq<Seq<char>>, label: Seq<char>, sep: char) -> Seq<Seq<char>>
    decreases ls.len(),
{
    if ls.len() == 0 {
        seq![]
    } else {
        let rest = all_values(ls.drop_first(), label, sep);
        match labelled_value(ls[0], label, sep) {
            Some(v) => seq![v] + rest,
            None => rest,
        }
    }
}

/// The value that `text` gives for `label`: that of its first line carrying it.
pub open spec fn lookup(text: Seq<char>, label: Seq<char>, sep: char) -> Option<Seq<char>> {
    first_value(lines(text), label, sep)
}

/// Every value that `text` gives for `label`, one for each line carrying it.
pub open spec fn lookup_all(text: Seq<char>, label: Seq<char>, sep: char) -> Seq<Seq<char>> {
    all_values(lines(text), label, sep)
}

/// A pair of positions that cuts a piece out of a text of length `len`.
pub open spec fn is_range(r: (usize, usize), len: nat) -> bool {
    r.0 <= r.1 <= len
}

/// The piece of `s` that `r` cuts out.
pub open spec fn piece(s: Seq<char>, r: (usize, usize)) -> Seq<char> {
    s.subrange(r.0 as int, r.1 as int)
}

/// The pieces of `s` that the ranges `rs` cut out, in order.
pub open spec fn pieces(s: Seq<char>, rs: Seq<(usize, usize)>) -> Seq<Seq<char>> {
    Seq::new(rs.len(), |i: int| piece(s, rs[i]))
}

/// Whether each of `rs` is a range within a text of length `len`.
pub open spec fn are_ranges(rs: Seq<(usize, usize)>, len: nat) -> bool {
    forall|i: int| 0 <= i < rs.len() ==> is_range(#[trigger] rs[i], len)
}

/// The characters of `s`, in order, as a vector that can be indexed.
pub fn to_chars(s: &str) -> (v: Vec<char>)
    ensures
        v@ == s@,
{
    broadcast use vstd::string::group_string_axioms;

    let mut v: Vec<char> = Vec::new();
    for c in it: s.chars()
        invariant
            it.seq() == s@,
            v@ == it.seq().take(it.index()),
    {
        v.push(c);
    }
    v
}

/// Whether `c` is whitespace.
pub fn is_space_char(c: char) -> (b: bool)
    ensures
        b == is_space(c),
{
    c == ' ' || c == '\t' || c == '\n' || c == '\r' || c == '\x0b' || c == '\x0c'
}

/// Where `v[lo..hi]` begins once its leading whitespace is gone.
pub fn skip_spaces(v: &Vec<char>, lo: usize, hi: usize) -> (r: usize)
    requires
        lo <= hi <= v.len(),
    ensures
        lo <= r <= hi,
        v@.subrange(r as int, hi as int) == trim_start(v@.subrange(lo as int, hi as int)),
{
    let mut i: usize = lo;
    while i < hi && is_space_char(v[i])
        invariant
            lo <= i <= hi <= v.len(),
            trim_start(v@.subrange(i as int, hi as int)) == trim_start(
                v@.subrange(lo as int, hi as int),
            ),
        decreases hi - i,
    {
        assert(v@.subrange(i as int, hi as int).skip(1) =~= v@.subrange(i + 1, hi as int));
        i += 1;
    }
    i
}

/// Where `v[lo..hi]` ends once its trailing whitespace is gone.
pub fn drop_spaces(v: &Vec<char>, lo: usize, hi: usize) -> (r: usize)
    requires
        lo <= hi <= v.len(),
    ensures
        lo <= r <= hi,
        v@.subrange(lo as int, r as int) == trim_end(v@.subrange(lo as int, hi as int)),
{
    let mut j: usize = hi;
    while j > lo && is_space_char(v[j - 1])
        invariant
            lo <= j <= hi <= v.len(),
            trim_end(v@.subrange(lo as int, j as int)) == trim_end(
                v@.subrange(lo as int, hi as int),
            ),
        decreases j - lo,
    {
        assert(v@.subrange(lo as int, j as int).drop_last() =~= v@.subrange(lo as int, j - 1));
        j -= 1;
    }
    j
}

/// The range of `v[lo..hi]` without whitespace at either end.
pub fn trim_range(v: &Vec<char>, lo: usize, hi: usize) -> (r: (usize, usize))
    requires
        lo <= hi <= v.len(),
    ensures
        lo <= r.0 <= r.1 <= hi,
        piece(v@, r) == trim(v@.subrange(lo as int, hi as int)),
{
    let a = skip_spaces(v, lo, hi);
    let b = drop_spaces(v, a, hi);
    (a, b)
}

/// `first_of` is the one position before which `s` has no `c` and at which
/// it has one or ends.
pub proof fn lemma_first_of(s: Seq<char>, c: char, n: int)
    requires
        0 <= n <= s.len(),
        forall|k: int| 0 <= k < n ==> s[k] != c,
        n < s.len() ==> s[n] == c,
    ensures
        first_of(s, c) == n,
    decreases s.len(),
{
    if n > 0 {
        lemma_first_of(s.skip(1), c, n - 1);
    }
}

/// `token_len` is the one position before which `s` has no whitespace and at
/// which it has some or ends.
pub proof fn lemma_token_len(s: Seq<char>, n: int)
    requires
        0 <= n <= s.len(),
        forall|k: int| 0 <= k < n ==> !is_space(s[k]),
        n < s.len() ==> is_space(s[n]),
    ensures
        token_len(s) == n,
    decreases s.len(),
{
    if n > 0 {
        lemma_token_len(s.skip(1), n - 1);
    }
}

/// Where the first `c` of `v[lo..hi]` stands, or `hi` if it has none.
pub fn find_char(v: &Vec<char>, lo: usize, hi: usize, c: char) -> (e: usize)
    requires
        lo <= hi <= v.len(),
    ensures
        lo <= e <= hi,
        e - lo == first_of(v@.subrange(lo as int, hi as int), c),
{
    let mut e: usize = lo;
    while e < hi && v[e] != c
        invariant
            lo <= e <= hi <= v.len(),
            forall|k: int| lo <= k < e ==> v@[k] != c,
        decreases hi - e,
    {
        e += 1;
    }
    proof {
        lemma_first_of(v@.subrange(lo as int, hi as int), c, e - lo);
    }
    e
}

/// Where the line that begins at `start` ends: at the next line feed, or at
/// the end of `v`.
pub fn line_end(v: &Vec<char>, start: usize) -> (e: usize)
    requires
        start <= v.len(),
    ensures
        start <= e <= v.len(),
        e - start == first_of(v@.skip(start as int), '\n'),
{
    assert(v@.skip(start as int) =~= v@.subrange(start as int, v@.len() as int));
    find_char(v, start, v.len(), '\n')
}

/// The ranges of the lines of `v`.
pub fn line_ranges(v: &Vec<char>) -> (rs: Vec<(usize, usize)>)
    ensures
        are_ranges(rs@, v@.len()),
        pieces(v@, rs@) == lines(v@),
{
    let mut rs: Vec<(usize, usize)> = Vec::new();
    let mut pos: usize = 0;
    let mut open: bool = true;
    assert(v@.skip(0) =~= v@);
    while open
        invariant
            pos <= v.len(),
            are_ranges(rs@, v@.len()),
            open ==> lines(v@) == pieces(v@, rs@) + lines(v@.skip(pos as int)),
            !open ==> lines(v@) == pieces(v@, rs@),
        decreases v.len() - pos + if open { 1int } else { 0int },
    {
        let e = line_end(v, pos);
        let ghost before = pieces(v@, rs@);
        let ghost rest = v@.skip(pos as int);
        rs.push((pos, e));
        proof {
            assert(pieces(v@, rs@) =~= before + seq![v@.subrange(pos as int, e as int)]);
            assert(rest.take(e - pos) =~= v@.subrange(pos as int, e as int));
        }
        if e == v.len() {
            proof {
                assert(rest =~= v@.subrange(pos as int, e as int));
                assert(lines(rest) =~= seq![rest]);
            }
            open = false;
        } else {
            proof {
                assert(rest.skip(e - pos + 1) =~= v@.skip(e + 1));
                assert(lines(rest) =~= seq![rest.take(e - pos)] + lines(rest.skip(e - pos + 1)));
                assert(before + lines(rest) =~= before + seq![rest.take(e - pos)] + lines(
                    v@.skip(e + 1),
                ));
            }
            pos = e + 1;
        }
    }
    rs
}

/// Whether `v[lo..hi]` begins with `p`.
pub fn starts_with(v: &Vec<char>, lo: usize, hi: usize, p: &Vec<char>) -> (b: bool)
    requires
        lo <= hi <= v.len(),
    ensures
        b == has_prefix(v@.subrange(lo as int, hi as int), p@),
{
    if p.len() > hi - lo {
        return false;
    }
    let ghost s = v@.subrange(lo as int, hi as int);
    let mut i: usize = 0;
    while i < p.len()
        invariant
            lo <= hi <= v.len(),
            p.len() <= hi - lo,
            i <= p.len(),
            s == v@.subrange(lo as int, hi as int),
            forall|k: int| 0 <= k < i ==> s[k] == p@[k],
        decreases p.len() - i,
    {
        if v[lo + i] != p[i] {
            assert(s.take(p.len() as int)[i as int] != p@[i as int]);
            return false;
        }
        i += 1;
    }
    assert(s.take(p.len() as int) =~= p@);
    true
}

/// Whether the piece `r` of `v` is `p`.
pub fn piece_is(v: &Vec<char>, r: (usize, usize), p: &Vec<char>) -> (b: bool)
    requires
        is_range(r, v@.len()),
    ensures
        b == (piece(v@, r) == p@),
{
    if r.1 - r.0 != p.len() {
        return false;
    }
    let b = starts_with(v, r.0, r.1, p);
    assert(piece(v@, r).take(p.len() as int) =~= piece(v@, r));
    b
}

/// The range of the value that the line `v[lo..hi]` gives for `label`.
pub fn value_range(v: &Vec<char>, lo: usize, hi: usize, label: &Vec<char>, sep: char) -> (r: Option<
    (usize, usize),
>)
    requires
        lo <= hi <= v.len(),
    ensures
        match r {
            Some(r) => lo <= r.0 <= r.1 <= hi && labelled_value(
                v@.subrange(lo as int, hi as int),
                label@,
                sep,
            ) == Some(piece(v@, r)),
            None => labelled_value(v@.subrange(lo as int, hi as int), label@, sep) is None,
        },
{
    if !starts_with(v, lo, hi, label) {
        return None;
    }
    let after = lo + label.len();
    let ghost line = v@.subrange(lo as int, hi as int);
    assert(line.skip(label.len() as int) =~= v@.subrange(after as int, hi as int));
    let at = skip_spaces(v, after, hi);
    if at < hi && v[at] == sep {
        assert(v@.subrange(at as int, hi as int).skip(1) =~= v@.subrange(at + 1, hi as int));
        Some(trim_range(v, at + 1, hi))
    } else {
        None
    }
}

/// The range of the value that `v` gives for `label`, given the ranges of its
/// lines.
pub fn find_value(v: &Vec<char>, lines_of_v: &Vec<(usize, usize)>, label: &Vec<char>, sep: char) -> (r:
    Option<(usize, usize)>)
    requires
        are_ranges(lines_of_v@, v@.len()),
    ensures
        match r {
            Some(r) => is_range(r, v@.len()) && first_value(
                pieces(v@, lines_of_v@),
                label@,
                sep,
            ) == Some(piece(v@, r)),
            None => first_value(pieces(v@, lines_of_v@), label@, sep) is None,
        },
{
    let ghost ls = pieces(v@, lines_of_v@);
    let mut i: usize = 0;
    assert(ls.skip(0) =~= ls);
    while i < lines_of_v.len()
        invariant
            i <= lines_of_v.len(),
            are_ranges(lines_of_v@, v@.len()),
            ls == pieces(v@, lines_of_v@),
            first_value(ls, label@, sep) == first_value(ls.skip(i as int), label@, sep),
        decreases lines_of_v.len() - i,
    {
        let (lo, hi) = lines_of_v[i];
        assert(is_range(lines_of_v@[i as int], v@.len()));
        assert(ls.skip(i as int)[0] == v@.subrange(lo as int, hi as int));
        assert(ls.skip(i as int).drop_first() =~= ls.skip(i + 1));
        match value_range(v, lo, hi, label, sep) {
            Some(r) => {
                return Some(r);
            },
            None => {},
        }
        i += 1;
    }
    None
}

/// The ranges of all the values that `v` gives for `label`, given the ranges
/// of its lines.
pub fn find_values(v: &Vec<char>, lines_of_v: &Vec<(usize, usize)>, label: &Vec<char>, sep: char) -> (rs:
    Vec<(usize, usize)>)
    requires
        are_ranges(lines_of_v@, v@.len()),
    ensures
        are_ranges(rs@, v@.len()),
        pieces(v@, rs@) == all_values(pieces(v@, lines_of_v@), label@, sep),
{
    let ghost ls = pieces(v@, lines_of_v@);
    let mut rs: Vec<(usize, usize)> = Vec::new();
    let mut i: usize = 0;
    assert(ls.skip(0) =~= ls);
    assert(pieces(v@, rs@) + all_values(ls, label@, sep) =~= all_values(ls, label@, sep));
    while i < lines_of_v.len()
        invariant
            i <= lines_of_v.len(),
            are_ranges(lines_of_v@, v@.len()),
            are_ranges(rs@, v@.len()),
            ls == pieces(v@, lines_of_v@),
            all_values(ls, label@, sep) == pieces(v@, rs@) + all_values(
                ls.skip(i as int),
                label@,
                sep,
            ),
        decreases lines_of_v.len() - i,
    {
        let (lo, hi) = lines_of_v[i];
        assert(is_range(lines_of_v@[i as int], v@.len()));
        assert(ls.skip(i as int)[0] == v@.subrange(lo as int, hi as int));
        assert(ls.skip(i as int).drop_first() =~= ls.skip(i + 1));
        let ghost before = pieces(v@, rs@);
        match value_range(v, lo, hi, label, sep) {
            Some(r) => {
                rs.push(r);
                assert(pieces(v@, rs@) =~= before + seq![piece(v@, r)]);
                assert(before + (seq![piece(v@, r)] + all_values(ls.skip(i + 1), label@, sep))
                    =~= pieces(v@, rs@) + all_values(ls.skip(i + 1), label@, sep));
            },
            None => {},
        }
        i += 1;
    }
    assert(ls.skip(i as int) =~= Seq::<Seq<char>>::empty());
    assert(pieces(v@, rs@) + Seq::<Seq<char>>::empty() =~= pieces(v@, rs@));
    rs
}

/// The ranges of the tokens of `v[lo..hi]`.
pub fn token_ranges(v: &Vec<char>, lo: usize, hi: usize) -> (rs: Vec<(usize, usize)>)
    requires
        lo <= hi <= v.len(),
    ensures
        are_ranges(rs@, v@.len()),
        pieces(v@, rs@) == tokens(v@.subrange(lo as int, hi as int)),
{
    let mut rs: Vec<(usize, usize)> = Vec::new();
    let mut i: usize = lo;
    assert(pieces(v@, rs@) + tokens(v@.subrange(lo as int, hi as int)) =~= tokens(
        v@.subrange(lo as int, hi as int),
    ));
    while i < hi
        invariant
            lo <= i <= hi <= v.len(),
            are_ranges(rs@, v@.len()),
            tokens(v@.subrange(lo as int, hi as int)) == pieces(v@, rs@) + tokens(
                v@.subrange(i as int, hi as int),
            ),
        decreases hi - i,
    {
        let ghost rest = v@.subrange(i as int, hi as int);
        if is_space_char(v[i]) {
            assert(rest.skip(1) =~= v@.subrange(i + 1, hi as int));
            i += 1;
        } else {
            let mut j: usize = i + 1;
            while j < hi && !is_space_char(v[j])
                invariant
                    i < j <= hi <= v.len(),
                    forall|k: int| i <= k < j ==> !is_space(v@[k]),
                decreases hi - j,
            {
                j += 1;
            }
            let ghost before = pieces(v@, rs@);
            rs.push((i, j));
            proof {
                lemma_token_len(rest, j - i);
                assert(rest.take(j - i) =~= v@.subrange(i as int, j as int));
                assert(rest.skip(j - i) =~= v@.subrange(j as int, hi as int));
                assert(pieces(v@, rs@) =~= before + seq![v@.subrange(i as int, j as int)]);
                assert(before + (seq![rest.take(j - i)] + tokens(rest.skip(j - i))) =~= pieces(
                    v@,
                    rs@,
                ) + tokens(v@.subrange(j as int, hi as int)));
            }
            i = j;
        }
    }
    assert(v@.subrange(i as int, hi as int) =~= Seq::<char>::empty());
    assert(pieces(v@, rs@) + Seq::<Seq<char>>::empty() =~= pieces(v@, rs@));
    rs
}

/// The piece `r` of `text`, as a string of its own.
pub fn cut(text: &str, r: (usize, usize)) -> (s: String)
    requires
        is_range(r, text@.len()),
    ensures
        s@ == piece(text@, r),
{
    String::from_str(text.substring_char(r.0, r.1))
}

} // verus!
