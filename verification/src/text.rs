//! Character-level string helpers with exact specifications.
//!
//! Strings are handled as sequences of `char`s (`Seq<char>` in specifications,
//! `Vec<char>` in executable code); every operation below is specified by a
//! spec function over those sequences.

use vstd::prelude::*;

verus! {

// ---------------------------------------------------------------------------
// Conversions between `str`/`String` and `Vec<char>`
// ---------------------------------------------------------------------------

/// The characters of `s`, in order.
pub fn chars_of(s: &str) -> (v: Vec<char>)
    ensures
        v@ == s@,
{
    let mut v: Vec<char> = Vec::new();
    for c in it: s.chars()
        invariant
            v@ == it.seq().take(it.index()),
            it.seq() == s@,
    {
        v.push(c);
    }
    v
}

/// Builds a `String` holding exactly the given characters (std `FromIterator<&char>`).
#[verifier::external_body]
pub(crate) fn string_from_chars(v: &[char]) -> (s: String)
    ensures
        s@ == v@,
{
    v.iter().collect()
}

/// Appends the characters of `s` to `out`.
pub fn push_str(out: &mut Vec<char>, s: &str)
    ensures
        final(out)@ == old(out)@ + s@,
{
    for c in it: s.chars()
        invariant
            out@ == old(out)@ + it.seq().take(it.index()),
            it.seq() == s@,
    {
        out.push(c);
        assert(it.seq().take(it.index() + 1) =~= it.seq().take(it.index() as int).push(c));
    }
    assert(s@.take(s@.len() as int) =~= s@);
}

/// Appends the characters of `s` to `out`.
pub fn push_chars(out: &mut Vec<char>, s: &Vec<char>)
    ensures
        final(out)@ == old(out)@ + s@,
{
    let mut i: usize = 0;
    while i < s.len()
        invariant
            0 <= i <= s@.len(),
            out@ == old(out)@ + s@.take(i as int),
        decreases s@.len() - i,
    {
        out.push(s[i]);
        i = i + 1;
        assert(s@.take(i as int) =~= s@.take(i - 1).push(s@[i - 1]));
    }
    assert(s@.take(s@.len() as int) =~= s@);
}

/// Whether two character sequences are equal.
pub fn chars_eq(a: &Vec<char>, b: &Vec<char>) -> (r: bool)
    ensures
        r == (a@ == b@),
{
    if a.len() != b.len() {
        return false;
    }
    let mut i: usize = 0;
    while i < a.len()
        invariant
            0 <= i <= a@.len(),
            a@.len() == b@.len(),
            forall|k: int| 0 <= k < i ==> a@[k] == b@[k],
        decreases a@.len() - i,
    {
        if a[i] != b[i] {
            return false;
        }
        i = i + 1;
    }
    assert(a@ =~= b@);
    true
}

/// Lexicographic order on character sequences, comparing characters by
/// code point; this is the order of `str`/`String` (`Ord`), since UTF-8
/// preserves code-point order.
pub open spec fn seq_lt(a: Seq<char>, b: Seq<char>) -> bool
    decreases a.len(),
{
    if a.len() == 0 {
        b.len() > 0
    } else if b.len() == 0 {
        false
    } else if a[0] != b[0] {
        a[0] < b[0]
    } else {
        seq_lt(a.drop_first(), b.drop_first())
    }
}

/// No sequence comes before itself.
pub proof fn lemma_seq_lt_irreflexive(a: Seq<char>)
    ensures
        !seq_lt(a, a),
    decreases a.len(),
{
    if a.len() > 0 {
        lemma_seq_lt_irreflexive(a.drop_first());
    }
}

/// Of two different sequences exactly one comes first.
pub proof fn lemma_seq_lt_total(a: Seq<char>, b: Seq<char>)
    ensures
        a != b ==> seq_lt(a, b) || seq_lt(b, a),
        !(seq_lt(a, b) && seq_lt(b, a)),
    decreases a.len(),
{
    if a.len() > 0 && b.len() > 0 && a[0] == b[0] {
        lemma_seq_lt_total(a.drop_first(), b.drop_first());
        if a.drop_first() == b.drop_first() {
            assert(a =~= seq![a[0]] + a.drop_first());
            assert(b =~= seq![b[0]] + b.drop_first());
        }
    }
    if a.len() == 0 && b.len() == 0 {
        assert(a =~= b);
    }
}

/// The order is transitive.
pub proof fn lemma_seq_lt_transitive(a: Seq<char>, b: Seq<char>, c: Seq<char>)
    requires
        seq_lt(a, b),
        seq_lt(b, c),
    ensures
        seq_lt(a, c),
    decreases a.len(),
{
    if a.len() > 0 && b.len() > 0 && c.len() > 0 && a[0] == b[0] && b[0] == c[0] {
        lemma_seq_lt_transitive(a.drop_first(), b.drop_first(), c.drop_first());
    }
}

/// Whether `a` comes strictly before `b`.
pub fn chars_lt(a: &Vec<char>, b: &Vec<char>) -> (r: bool)
    ensures
        r == seq_lt(a@, b@),
{
    let mut i: usize = 0;
    assert(a@.skip(0) =~= a@);
    assert(b@.skip(0) =~= b@);
    while i < a.len() && i < b.len() && a[i] == b[i]
        invariant
            0 <= i <= a@.len(),
            i <= b@.len(),
            seq_lt(a@, b@) == seq_lt(a@.skip(i as int), b@.skip(i as int)),
        decreases a@.len() - i,
    {
        assert(a@.skip(i as int).drop_first() =~= a@.skip(i + 1));
        assert(b@.skip(i as int).drop_first() =~= b@.skip(i + 1));
        i = i + 1;
    }
    if i == a.len() {
        i < b.len()
    } else if i == b.len() {
        false
    } else {
        a[i] < b[i]
    }
}

/// Whether two strings hold the same characters.
pub fn str_eq(a: &str, b: &str) -> (r: bool)
    ensures
        r == (a@ == b@),
{
    let x = a.to_owned();
    let y = b.to_owned();
    x == y
}

// ---------------------------------------------------------------------------
// Unicode white space and trimming
// ---------------------------------------------------------------------------

/// The characters with the Unicode `White_Space` property, which is what
/// `char::is_whitespace`, `str::trim` and `str::trim_start` remove.
pub open spec fn is_white_space(c: char) -> bool {
    ||| ('\u{9}' <= c && c <= '\u{d}')
    ||| c == ' '
    ||| c == '\u{85}'
    ||| c == '\u{a0}'
    ||| c == '\u{1680}'
    ||| ('\u{2000}' <= c && c <= '\u{200a}')
    ||| c == '\u{2028}'
    ||| c == '\u{2029}'
    ||| c == '\u{202f}'
    ||| c == '\u{205f}'
    ||| c == '\u{3000}'
}

/// Whether `c` is white space (`char::is_whitespace`).
pub fn is_white_space_exec(c: char) -> (r: bool)
    ensures
        r == is_white_space(c),
{
    ('\u{9}' <= c && c <= '\u{d}') || c == ' ' || c == '\u{85}' || c == '\u{a0}' || c
        == '\u{1680}' || ('\u{2000}' <= c && c <= '\u{200a}') || c == '\u{2028}' || c
        == '\u{2029}' || c == '\u{202f}' || c == '\u{205f}' || c == '\u{3000}'
}

/// Number of white-space characters at the start of `s`.
pub open spec fn leading_ws(s: Seq<char>) -> nat
    decreases s.len(),
{
    if s.len() > 0 && is_white_space(s[0]) {
        1 + leading_ws(s.drop_first())
    } else {
        0
    }
}

/// Number of white-space characters at the end of `s`.
pub open spec fn trailing_ws(s: Seq<char>) -> nat
    decreases s.len(),
{
    if s.len() > 0 && is_white_space(s.last()) {
        1 + trailing_ws(s.drop_last())
    } else {
        0
    }
}

/// `s` without its leading white space (`str::trim_start`).
pub open spec fn trim_start(s: Seq<char>) -> Seq<char> {
    s.skip(leading_ws(s) as int)
}

/// `s` without its trailing white space (`str::trim_end`).
pub open spec fn trim_end(s: Seq<char>) -> Seq<char> {
    s.take(s.len() - trailing_ws(s))
}

/// `s` without leading and trailing white space (`str::trim`).
pub open spec fn trim(s: Seq<char>) -> Seq<char> {
    trim_end(trim_start(s))
}

/// The first `leading_ws(s)` characters are white space, and the one after
/// them, if any, is not.
pub proof fn lemma_leading_ws_chars(s: Seq<char>)
    ensures
        leading_ws(s) <= s.len(),
        forall|j: int| 0 <= j < leading_ws(s) ==> is_white_space(#[trigger] s[j]),
        leading_ws(s) < s.len() ==> !is_white_space(s[leading_ws(s) as int]),
    decreases s.len(),
{
    lemma_leading_ws_bound(s);
    if s.len() > 0 && is_white_space(s[0]) {
        let t = s.drop_first();
        lemma_leading_ws_chars(t);
        assert forall|j: int| 0 <= j < leading_ws(s) implies is_white_space(#[trigger] s[j]) by {
            if j > 0 {
                assert(s[j] == t[j - 1]);
            }
        }
    }
}

/// There is no more leading white space than characters.
pub proof fn lemma_leading_ws_bound(s: Seq<char>)
    ensures
        leading_ws(s) <= s.len(),
    decreases s.len(),
{
    if s.len() > 0 && is_white_space(s[0]) {
        lemma_leading_ws_bound(s.drop_first());
    }
}

proof fn lemma_trailing_ws_bound(s: Seq<char>)
    ensures
        trailing_ws(s) <= s.len(),
    decreases s.len(),
{
    if s.len() > 0 && is_white_space(s.last()) {
        lemma_trailing_ws_bound(s.drop_last());
    }
}

/// Number of leading white-space characters of `s`.
pub fn count_leading_ws(s: &Vec<char>) -> (n: usize)
    ensures
        n == leading_ws(s@),
{
    let mut i: usize = 0;
    assert(s@.skip(0) =~= s@);
    while i < s.len() && is_white_space_exec(s[i])
        invariant
            0 <= i <= s@.len(),
            leading_ws(s@) == i + leading_ws(s@.skip(i as int)),
        decreases s@.len() - i,
    {
        assert(s@.skip(i as int).drop_first() =~= s@.skip(i + 1));
        i = i + 1;
    }
    i
}

/// Number of trailing white-space characters of `s`.
pub fn count_trailing_ws(s: &Vec<char>) -> (n: usize)
    ensures
        n == trailing_ws(s@),
{
    let mut i: usize = s.len();
    assert(s@.take(s@.len() as int) =~= s@);
    while i > 0 && is_white_space_exec(s[i - 1])
        invariant
            0 <= i <= s@.len(),
            trailing_ws(s@) == (s@.len() - i) + trailing_ws(s@.take(i as int)),
        decreases i,
    {
        assert(s@.take(i as int).drop_last() =~= s@.take(i - 1));
        i = i - 1;
    }
    s.len() - i
}

/// `s` with leading white space removed.
pub fn trim_start_chars(s: &Vec<char>) -> (r: Vec<char>)
    ensures
        r@ == trim_start(s@),
{
    proof {
        lemma_leading_ws_bound(s@);
    }
    let start = count_leading_ws(s);
    let mut r: Vec<char> = Vec::new();
    let mut i: usize = start;
    while i < s.len()
        invariant
            start <= i <= s@.len(),
            r@ == s@.subrange(start as int, i as int),
        decreases s@.len() - i,
    {
        r.push(s[i]);
        i = i + 1;
        assert(s@.subrange(start as int, i as int) =~= s@.subrange(start as int, i - 1).push(
            s@[i - 1],
        ));
    }
    assert(s@.subrange(start as int, s@.len() as int) =~= s@.skip(start as int));
    r
}

/// `s` with leading and trailing white space removed.
pub fn trim_chars(s: &Vec<char>) -> (r: Vec<char>)
    ensures
        r@ == trim(s@),
{
    let t = trim_start_chars(s);
    proof {
        lemma_trailing_ws_bound(t@);
    }
    let n = count_trailing_ws(&t);
    let keep = t.len() - n;
    let mut r: Vec<char> = Vec::new();
    let mut i: usize = 0;
    while i < keep
        invariant
            0 <= i <= keep <= t@.len(),
            keep == t@.len() - trailing_ws(t@),
            r@ == t@.take(i as int),
        decreases keep - i,
    {
        r.push(t[i]);
        i = i + 1;
        assert(t@.take(i as int) =~= t@.take(i - 1).push(t@[i - 1]));
    }
    r
}

// ---------------------------------------------------------------------------
// Substring search
// ---------------------------------------------------------------------------

/// `pat` occurs in `s` starting at index `i`.
pub open spec fn matches_at(s: Seq<char>, pat: Seq<char>, i: int) -> bool {
    0 <= i && i + pat.len() <= s.len() && s.subrange(i, i + pat.len()) =~= pat
}

/// `pat` occurs somewhere in `s` (`str::contains`).
pub open spec fn contains(s: Seq<char>, pat: Seq<char>) -> bool {
    exists|i: int| matches_at(s, pat, i)
}

/// `s` starts with `pat`.
pub open spec fn starts_with(s: Seq<char>, pat: Seq<char>) -> bool {
    matches_at(s, pat, 0)
}

/// Whether `pat` occurs in `s` at index `i`.
pub fn matches_at_exec(s: &Vec<char>, pat: &Vec<char>, i: usize) -> (r: bool)
    ensures
        r == matches_at(s@, pat@, i as int),
{
    if i > s.len() || pat.len() > s.len() - i {
        return false;
    }
    let mut j: usize = 0;
    while j < pat.len()
        invariant
            i + pat@.len() <= s.len(),
            0 <= j <= pat@.len(),
            forall|k: int| 0 <= k < j ==> s@[i + k] == pat@[k],
        decreases pat@.len() - j,
    {
        if s[i + j] != pat[j] {
            assert(s@.subrange(i as int, i + pat@.len())[j as int] != pat@[j as int]);
            return false;
        }
        j = j + 1;
    }
    assert(s@.subrange(i as int, i + pat@.len()) =~= pat@);
    true
}

/// Whether `pat` occurs anywhere in `s`.
pub fn contains_chars(s: &Vec<char>, pat: &Vec<char>) -> (r: bool)
    ensures
        r == contains(s@, pat@),
{
    let mut i: usize = 0;
    while i < s.len()
        invariant
            0 <= i <= s@.len(),
            forall|k: int| 0 <= k < i ==> !matches_at(s@, pat@, k),
        decreases s@.len() - i,
    {
        if matches_at_exec(s, pat, i) {
            return true;
        }
        i = i + 1;
    }
    if matches_at_exec(s, pat, i) {
        return true;
    }
    assert forall|k: int| !matches_at(s@, pat@, k) by {
        if 0 <= k <= i {
        }
    }
    false
}

/// Whether `pat` occurs anywhere in `s`.
pub fn str_contains(s: &str, pat: &str) -> (r: bool)
    ensures
        r == contains(s@, pat@),
{
    let a = chars_of(s);
    let b = chars_of(pat);
    contains_chars(&a, &b)
}


// ---------------------------------------------------------------------------
// Replacement
// ---------------------------------------------------------------------------

/// Every non-overlapping occurrence of `from` in `s`, scanning from the left,
/// replaced by `to` (`str::replace`, for a non-empty `from`).
pub open spec fn replace_all(s: Seq<char>, from: Seq<char>, to: Seq<char>) -> Seq<char>
    decreases s.len(),
{
    if s.len() == 0 {
        Seq::empty()
    } else if from.len() > 0 && starts_with(s, from) {
        to + replace_all(s.skip(from.len() as int), from, to)
    } else {
        seq![s[0]] + replace_all(s.drop_first(), from, to)
    }
}

/// The first occurrence of `from` in `s` replaced by `to`
/// (`str::replacen(from, to, 1)`, for a non-empty `from`).
pub open spec fn replace_first(s: Seq<char>, from: Seq<char>, to: Seq<char>) -> Seq<char>
    decreases s.len(),
{
    if s.len() == 0 {
        Seq::empty()
    } else if from.len() > 0 && starts_with(s, from) {
        to + s.skip(from.len() as int)
    } else {
        seq![s[0]] + replace_first(s.drop_first(), from, to)
    }
}

/// Replacing the first occurrence of the empty pattern changes nothing.
pub proof fn lemma_replace_first_empty(s: Seq<char>, to: Seq<char>)
    ensures
        replace_first(s, Seq::empty(), to) == s,
    decreases s.len(),
{
    if s.len() > 0 {
        lemma_replace_first_empty(s.drop_first(), to);
        assert(seq![s[0]] + s.drop_first() =~= s);
    }
}

/// Where the first occurrence of a non-empty `from` is at `k`, `replace_first`
/// replaces exactly that occurrence.
pub proof fn lemma_replace_first_at(s: Seq<char>, from: Seq<char>, to: Seq<char>, k: int)
    requires
        from.len() > 0,
        matches_at(s, from, k),
        forall|j: int| 0 <= j < k ==> !matches_at(s, from, j),
    ensures
        replace_first(s, from, to) == s.take(k) + to + s.skip(k + from.len()),
    decreases k,
{
    if k == 0 {
        assert(starts_with(s, from));
        assert(s.take(0) + to + s.skip(from.len() as int) =~= to + s.skip(from.len() as int));
    } else {
        assert(!starts_with(s, from)) by {
            assert(!matches_at(s, from, 0));
        }
        let t = s.drop_first();
        assert forall|j: int| 0 <= j < k - 1 implies !matches_at(t, from, j) by {
            if matches_at(t, from, j) {
                assert(s.subrange(j + 1, j + 1 + from.len()) =~= t.subrange(j, j + from.len()));
                assert(matches_at(s, from, j + 1));
            }
        }
        assert(t.subrange(k - 1, k - 1 + from.len()) =~= s.subrange(k, k + from.len()));
        lemma_replace_first_at(t, from, to, k - 1);
        assert(seq![s[0]] + (t.take(k - 1) + to + t.skip(k - 1 + from.len())) =~= s.take(k) + to
            + s.skip(k + from.len()));
    }
}

proof fn lemma_skip_skip(s: Seq<char>, i: int, j: int)
    requires
        0 <= i,
        0 <= j,
        i + j <= s.len(),
    ensures
        s.skip(i).skip(j) =~= s.skip(i + j),
{
}

/// `s` with every occurrence of `from` replaced by `to`.
pub fn replace_all_chars(s: &Vec<char>, from: &Vec<char>, to: &Vec<char>) -> (r: Vec<char>)
    requires
        from@.len() > 0,
    ensures
        r@ == replace_all(s@, from@, to@),
{
    let mut out: Vec<char> = Vec::new();
    let mut i: usize = 0;
    assert(s@.skip(0) =~= s@);
    while i < s.len()
        invariant
            0 <= i <= s@.len(),
            from@.len() > 0,
            out@ + replace_all(s@.skip(i as int), from@, to@) == replace_all(s@, from@, to@),
        decreases s@.len() - i,
    {
        let ghost rest = s@.skip(i as int);
        if matches_at_exec(s, from, i) {
            assert(rest.subrange(0, from@.len() as int) =~= s@.subrange(
                i as int,
                i + from@.len(),
            ));
            assert(starts_with(rest, from@));
            proof {
                lemma_skip_skip(s@, i as int, from@.len() as int);
            }
            let ghost old_out = out@;
            push_chars(&mut out, to);
            i = i + from.len();
            assert(old_out + (to@ + replace_all(s@.skip(i as int), from@, to@)) =~= out@
                + replace_all(s@.skip(i as int), from@, to@));
        } else {
            assert(!starts_with(rest, from@)) by {
                if starts_with(rest, from@) {
                    assert(rest.subrange(0, from@.len() as int) =~= s@.subrange(
                        i as int,
                        i + from@.len(),
                    ));
                }
            }
            assert(rest.drop_first() =~= s@.skip(i + 1));
            let ghost old_out = out@;
            out.push(s[i]);
            i = i + 1;
            assert(old_out + (seq![rest[0]] + replace_all(s@.skip(i as int), from@, to@))
                =~= out@ + replace_all(s@.skip(i as int), from@, to@));
        }
    }
    assert(out@ + replace_all(s@.skip(i as int), from@, to@) =~= out@);
    out
}

/// `s` with the first occurrence of `from` replaced by `to`.
pub fn replace_first_chars(s: &Vec<char>, from: &Vec<char>, to: &Vec<char>) -> (r: Vec<char>)
    requires
        from@.len() > 0,
    ensures
        r@ == replace_first(s@, from@, to@),
{
    let mut out: Vec<char> = Vec::new();
    let mut i: usize = 0;
    assert(s@.skip(0) =~= s@);
    while i < s.len()
        invariant
            0 <= i <= s@.len(),
            from@.len() > 0,
            out@ + replace_first(s@.skip(i as int), from@, to@) == replace_first(s@, from@, to@),
        decreases s@.len() - i,
    {
        let ghost rest = s@.skip(i as int);
        if matches_at_exec(s, from, i) {
            assert(rest.subrange(0, from@.len() as int) =~= s@.subrange(
                i as int,
                i + from@.len(),
            ));
            assert(starts_with(rest, from@));
            proof {
                lemma_skip_skip(s@, i as int, from@.len() as int);
            }
            let ghost old_out = out@;
            push_chars(&mut out, to);
            let mut j: usize = i + from.len();
            while j < s.len()
                invariant
                    i + from@.len() <= j <= s@.len(),
                    out@ == old_out + to@ + s@.subrange(i + from@.len(), j as int),
                decreases s@.len() - j,
            {
                out.push(s[j]);
                j = j + 1;
                assert(s@.subrange(i + from@.len(), j as int) =~= s@.subrange(
                    i + from@.len(),
                    j - 1,
                ).push(s@[j - 1]));
            }
            assert(out@ =~= old_out + (to@ + rest.skip(from@.len() as int)));
            return out;
        } else {
            assert(!starts_with(rest, from@)) by {
                if starts_with(rest, from@) {
                    assert(rest.subrange(0, from@.len() as int) =~= s@.subrange(
                        i as int,
                        i + from@.len(),
                    ));
                }
            }
            assert(rest.drop_first() =~= s@.skip(i + 1));
            let ghost old_out = out@;
            out.push(s[i]);
            i = i + 1;
            assert(old_out + (seq![rest[0]] + replace_first(s@.skip(i as int), from@, to@))
                =~= out@ + replace_first(s@.skip(i as int), from@, to@));
        }
    }
    assert(out@ + replace_first(s@.skip(i as int), from@, to@) =~= out@);
    out
}

// ---------------------------------------------------------------------------
// Lines
// ---------------------------------------------------------------------------

/// Index of the first `'\n'` in `s`, or `s.len()` when there is none.
pub open spec fn line_end(s: Seq<char>) -> nat
    decreases s.len(),
{
    if s.len() == 0 {
        0
    } else if s[0] == '\n' {
        0
    } else {
        1 + line_end(s.drop_first())
    }
}

/// `l` without one trailing `'\r'`.
pub open spec fn strip_cr(l: Seq<char>) -> Seq<char> {
    if l.len() > 0 && l.last() == '\r' {
        l.drop_last()
    } else {
        l
    }
}

/// The lines of `s` (`str::lines`): split at each `'\n'`, a `'\r'` right
/// before a `'\n'` is dropped, and a final line ending is optional.
pub open spec fn lines(s: Seq<char>) -> Seq<Seq<char>>
    decreases s.len(),
{
    if s.len() == 0 {
        Seq::empty()
    } else {
        let e = line_end(s);
        if e >= s.len() {
            seq![s]
        } else {
            seq![strip_cr(s.take(e as int))] + lines(s.skip(e + 1 as int))
        }
    }
}

/// The lines of `ls` joined with `sep` between them (`[String]::join`).
pub open spec fn join(ls: Seq<Seq<char>>, sep: Seq<char>) -> Seq<char>
    decreases ls.len(),
{
    if ls.len() == 0 {
        Seq::empty()
    } else if ls.len() == 1 {
        ls[0]
    } else {
        join(ls.drop_last(), sep) + sep + ls.last()
    }
}

/// `line_end` is the index of the first `'\n'`, or the length.
pub proof fn lemma_line_end(s: Seq<char>)
    ensures
        line_end(s) <= s.len(),
        forall|k: int| 0 <= k < line_end(s) ==> s[k] != '\n',
        line_end(s) < s.len() ==> s[line_end(s) as int] == '\n',
    decreases s.len(),
{
    if s.len() > 0 && s[0] != '\n' {
        lemma_line_end(s.drop_first());
        assert forall|k: int| 0 <= k < line_end(s) implies s[k] != '\n' by {
            if k > 0 {
                assert(s[k] == s.drop_first()[k - 1]);
            }
        }
    }
}

/// `e` is the line end of `s` when no newline comes before it and one (or the end) is at it.
pub proof fn lemma_line_end_unique(s: Seq<char>, e: int)
    requires
        0 <= e <= s.len(),
        forall|k: int| 0 <= k < e ==> s[k] != '\n',
        e < s.len() ==> s[e] == '\n',
    ensures
        line_end(s) == e,
    decreases s.len(),
{
    if s.len() > 0 && s[0] != '\n' {
        assert(e > 0);
        lemma_line_end_unique(s.drop_first(), e - 1);
    }
}

/// Index of the first `'\n'` at or after `start`, or `s.len()`.
fn find_newline(s: &Vec<char>, start: usize) -> (e: usize)
    requires
        start <= s@.len(),
    ensures
        start <= e <= s@.len(),
        e - start == line_end(s@.skip(start as int)),
{
    let mut e = start;
    while e < s.len() && s[e] != '\n'
        invariant
            start <= e <= s@.len(),
            forall|k: int| start <= k < e ==> s@[k] != '\n',
        decreases s@.len() - e,
    {
        e = e + 1;
    }
    proof {
        lemma_line_end_unique(s@.skip(start as int), e - start);
    }
    e
}

/// The lines of `s`.
pub fn lines_chars(s: &Vec<char>) -> (r: Vec<Vec<char>>)
    ensures
        r@.map_values(|l: Vec<char>| l@) == lines(s@),
{
    let mut out: Vec<Vec<char>> = Vec::new();
    let mut i: usize = 0;
    assert(s@.skip(0) =~= s@);
    while i < s.len()
        invariant
            0 <= i <= s@.len(),
            out@.map_values(|l: Vec<char>| l@) + lines(s@.skip(i as int)) == lines(s@),
        decreases s@.len() - i,
    {
        let ghost rest = s@.skip(i as int);
        let ghost i0 = i as int;
        let e = find_newline(s, i);
        let mut line: Vec<char> = Vec::new();
        let mut k: usize = i;
        while k < e
            invariant
                i <= k <= e <= s@.len(),
                line@ == s@.subrange(i as int, k as int),
            decreases e - k,
        {
            line.push(s[k]);
            k = k + 1;
            assert(s@.subrange(i as int, k as int) =~= s@.subrange(i as int, k - 1).push(
                s@[k - 1],
            ));
        }
        assert(line@ =~= rest.take(e - i));
        let ghost old_out = out@.map_values(|l: Vec<char>| l@);
        if e < s.len() {
            if line.len() > 0 && line[line.len() - 1] == '\r' {
                line.pop();
            }
            assert(line@ == strip_cr(rest.take(e - i)));
            out.push(line);
            assert(rest.skip(e - i + 1) =~= s@.skip(e + 1));
            i = e + 1;
            assert(out@.map_values(|l: Vec<char>| l@) =~= old_out.push(
                strip_cr(rest.take(e - i0)),
            ));
            assert(old_out + lines(rest) =~= out@.map_values(|l: Vec<char>| l@) + lines(
                s@.skip(i as int),
            ));
        } else {
            assert(rest.take(e - i) =~= rest);
            out.push(line);
            assert(out@.map_values(|l: Vec<char>| l@) =~= old_out.push(rest));
            i = e;
            assert(s@.skip(i as int) =~= Seq::<char>::empty());
            assert(old_out + lines(rest) =~= out@.map_values(|l: Vec<char>| l@) + lines(
                s@.skip(i as int),
            ));
        }
    }
    assert(out@.map_values(|l: Vec<char>| l@) + lines(s@.skip(i as int)) =~= out@.map_values(
        |l: Vec<char>| l@,
    ));
    out
}

/// The lines `ls` joined with `sep`.
pub fn join_chars(ls: &Vec<Vec<char>>, sep: &Vec<char>) -> (r: Vec<char>)
    ensures
        r@ == join(ls@.map_values(|l: Vec<char>| l@), sep@),
{
    let ghost views = ls@.map_values(|l: Vec<char>| l@);
    let mut out: Vec<char> = Vec::new();
    let mut i: usize = 0;
    while i < ls.len()
        invariant
            0 <= i <= ls@.len(),
            views == ls@.map_values(|l: Vec<char>| l@),
            out@ == join(views.take(i as int), sep@),
        decreases ls@.len() - i,
    {
        if i > 0 {
            push_chars(&mut out, sep);
        }
        push_chars(&mut out, &ls[i]);
        i = i + 1;
        assert(views.take(i as int).drop_last() =~= views.take(i - 1));
    }
    assert(views.take(ls@.len() as int) =~= views);
    out
}

} // verus!
