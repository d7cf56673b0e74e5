//! Facts about `replace_all`, `replace_first`, `lines` and `join` that the
//! laws of the zsh script patch rest on.

use vstd::prelude::*;

use crate::text::{
    contains, join, lemma_line_end, lemma_line_end_unique, line_end, lines, matches_at,
    replace_all, replace_first, starts_with, strip_cr,
};

verus! {

/// `c` occurs nowhere in `s`.
pub open spec fn lacks(s: Seq<char>, c: char) -> bool {
    forall|k: int| 0 <= k < s.len() ==> s[k] != c
}

/// A match starting at 0 begins with the pattern's first character.
pub proof fn lemma_starts_with_first(s: Seq<char>, pat: Seq<char>)
    requires
        pat.len() > 0,
        starts_with(s, pat),
    ensures
        s.len() > 0 && s[0] == pat[0],
{
    assert(s.subrange(0, pat.len() as int)[0] == pat[0]);
}

/// Replacing in `x + y`, where no match can start in `x`, leaves `x` alone.
pub proof fn lemma_replace_all_clean_prefix(x: Seq<char>, y: Seq<char>, from: Seq<char>, to: Seq<char>)
    requires
        from.len() > 0,
        lacks(x, from[0]),
    ensures
        replace_all(x + y, from, to) == x + replace_all(y, from, to),
    decreases x.len(),
{
    if x.len() == 0 {
        assert(x + y =~= y);
    } else {
        let s = x + y;
        if starts_with(s, from) {
            lemma_starts_with_first(s, from);
        }
        assert(s.drop_first() =~= x.drop_first() + y);
        lemma_replace_all_clean_prefix(x.drop_first(), y, from, to);
        assert(seq![s[0]] + (x.drop_first() + replace_all(y, from, to)) =~= x + replace_all(y, from, to));
    }
}

/// `replace_first` in `x + y`, where no match can start in `x`, leaves `x` alone.
pub proof fn lemma_replace_first_clean_prefix(x: Seq<char>, y: Seq<char>, from: Seq<char>, to: Seq<char>)
    requires
        from.len() > 0,
        lacks(x, from[0]),
    ensures
        replace_first(x + y, from, to) == x + replace_first(y, from, to),
    decreases x.len(),
{
    if x.len() == 0 {
        assert(x + y =~= y);
    } else {
        let s = x + y;
        if starts_with(s, from) {
            lemma_starts_with_first(s, from);
        }
        assert(s.drop_first() =~= x.drop_first() + y);
        lemma_replace_first_clean_prefix(x.drop_first(), y, from, to);
        assert(seq![s[0]] + (x.drop_first() + replace_first(y, from, to)) =~= x + replace_first(y, from, to));
    }
}

/// A replaced text that starts with `w`, where `w` lacks the replacement's
/// first character, comes from a text that starts with `w`.
pub proof fn lemma_replace_all_starts(y: Seq<char>, w: Seq<char>, from: Seq<char>, to: Seq<char>)
    requires
        from.len() > 0,
        to.len() > 0,
        lacks(w, to[0]),
        w.len() <= replace_all(y, from, to).len(),
        replace_all(y, from, to).take(w.len() as int) == w,
    ensures
        w.len() <= y.len(),
        y.take(w.len() as int) == w,
    decreases w.len(),
{
    let r = replace_all(y, from, to);
    if w.len() == 0 {
        assert(y.take(0) =~= w);
    } else {
        assert(r.take(w.len() as int)[0] == w[0]);
        if y.len() == 0 {
            assert(r =~= Seq::<char>::empty());
        } else if starts_with(y, from) {
            assert(r[0] == to[0]);
        } else {
            let y1 = y.drop_first();
            let r1 = replace_all(y1, from, to);
            assert(r == seq![y[0]] + r1);
            let w1 = w.drop_first();
            assert(r1.take(w1.len() as int) =~= w1) by {
                assert forall|i: int| 0 <= i < w1.len() implies r1.take(w1.len() as int)[i] == w1[i] by {
                    assert(r.take(w.len() as int)[i + 1] == w[i + 1]);
                }
            }
            lemma_replace_all_starts(y1, w1, from, to);
            assert(y.take(w.len() as int) =~= w) by {
                assert forall|i: int| 0 <= i < w.len() implies y.take(w.len() as int)[i] == w[i] by {
                    if i > 0 {
                        assert(y1.take(w1.len() as int)[i - 1] == w1[i - 1]);
                    } else {
                        assert(r.take(w.len() as int)[0] == r[0]);
                    }
                }
            }
        }
    }
}

/// Replacing in `x + y` where no match that starts in `x` runs into `y`
/// replaces in each part.
pub proof fn lemma_replace_all_split(x: Seq<char>, y: Seq<char>, from: Seq<char>, to: Seq<char>)
    requires
        from.len() > 0,
        forall|i: int| 0 <= i < x.len() && #[trigger] matches_at(x + y, from, i) ==> i + from.len() <= x.len(),
    ensures
        replace_all(x + y, from, to) == replace_all(x, from, to) + replace_all(y, from, to),
    decreases x.len(),
{
    let s = x + y;
    if x.len() == 0 {
        assert(s =~= y);
        assert(replace_all(x, from, to) =~= Seq::<char>::empty());
    } else if starts_with(s, from) {
        assert(matches_at(s, from, 0));
        assert(x.subrange(0, from.len() as int) =~= s.subrange(0, from.len() as int));
        assert(starts_with(x, from));
        let x2 = x.skip(from.len() as int);
        assert(s.skip(from.len() as int) =~= x2 + y);
        assert forall|i: int| 0 <= i < x2.len() && #[trigger] matches_at(x2 + y, from, i) implies i
            + from.len() <= x2.len() by {
            let j = i + from.len();
            assert((x2 + y).subrange(i, i + from.len()) =~= s.subrange(j, j + from.len()));
            assert(matches_at(s, from, j));
        }
        lemma_replace_all_split(x2, y, from, to);
        assert(to + (replace_all(x2, from, to) + replace_all(y, from, to)) =~= (to + replace_all(
            x2,
            from,
            to,
        )) + replace_all(y, from, to));
    } else {
        if starts_with(x, from) {
            assert(s.subrange(0, from.len() as int) =~= x.subrange(0, from.len() as int));
        }
        let x2 = x.drop_first();
        assert(s.drop_first() =~= x2 + y);
        assert forall|i: int| 0 <= i < x2.len() && #[trigger] matches_at(x2 + y, from, i) implies i
            + from.len() <= x2.len() by {
            assert((x2 + y).subrange(i, i + from.len()) =~= s.subrange(i + 1, i + 1 + from.len()));
            assert(matches_at(s, from, i + 1));
        }
        lemma_replace_all_split(x2, y, from, to);
        assert(seq![s[0]] + (replace_all(x2, from, to) + replace_all(y, from, to)) =~= (seq![x[0]]
            + replace_all(x2, from, to)) + replace_all(y, from, to));
    }
}

/// No match of a pattern without `c` runs over a `c` that ends `x`.
pub proof fn lemma_cut_before_char(a: Seq<char>, c: char, y: Seq<char>, from: Seq<char>)
    requires
        lacks(from, c),
    ensures
        forall|i: int|
            0 <= i < (a + seq![c]).len() && #[trigger] matches_at((a + seq![c]) + y, from, i) ==> i
                + from.len() <= (a + seq![c]).len(),
        forall|i: int| 0 <= i < a.len() && #[trigger] matches_at(a + seq![c], from, i) ==> i + from.len() <= a.len(),
{
    assert forall|i: int|
        0 <= i < (a + seq![c]).len() && #[trigger] matches_at((a + seq![c]) + y, from, i) implies i
            + from.len() <= (a + seq![c]).len() by {
        if i + from.len() > a.len() + 1 {
            let k = a.len() - i;
            assert(((a + seq![c]) + y).subrange(i, i + from.len())[k] == c);
        }
    }
    assert forall|i: int| 0 <= i < a.len() && #[trigger] matches_at(a + seq![c], from, i) implies i
        + from.len() <= a.len() by {
        if i + from.len() > a.len() {
            let k = a.len() - i;
            assert((a + seq![c]).subrange(i, i + from.len())[k] == c);
        }
    }
}

/// A single character the pattern does not start with is kept.
pub proof fn lemma_replace_all_single(c: char, from: Seq<char>, to: Seq<char>)
    requires
        from.len() > 0,
        from[0] != c,
    ensures
        replace_all(seq![c], from, to) == seq![c],
{
    if starts_with(seq![c], from) {
        lemma_starts_with_first(seq![c], from);
    }
    assert(seq![c].drop_first() =~= Seq::<char>::empty());
    assert(replace_all(Seq::<char>::empty(), from, to) =~= Seq::<char>::empty());
    assert(replace_all(seq![c], from, to) == seq![seq![c][0]] + replace_all(seq![c].drop_first(), from, to));
    assert(seq![c] + Seq::<char>::empty() =~= seq![c]);
}

/// Replacing keeps out a character that neither the text nor the
/// replacement holds.
pub proof fn lemma_replace_all_lacks(s: Seq<char>, from: Seq<char>, to: Seq<char>, c: char)
    requires
        lacks(s, c),
        lacks(to, c),
    ensures
        lacks(replace_all(s, from, to), c),
    decreases s.len(),
{
    if s.len() > 0 {
        if from.len() > 0 && starts_with(s, from) {
            lemma_replace_all_lacks(s.skip(from.len() as int), from, to, c);
        } else {
            lemma_replace_all_lacks(s.drop_first(), from, to, c);
        }
    }
}

/// With a non-empty replacement, replacing in a non-empty text gives a
/// non-empty text.
pub proof fn lemma_replace_all_nonempty(s: Seq<char>, from: Seq<char>, to: Seq<char>)
    requires
        to.len() > 0,
    ensures
        s.len() > 0 <==> replace_all(s, from, to).len() > 0,
{
}

/// A replaced text ends in `c` only if the text did, when the replacement
/// is non-empty and does not end in `c`.
pub proof fn lemma_replace_all_last(s: Seq<char>, from: Seq<char>, to: Seq<char>, c: char)
    requires
        to.len() > 0,
        to.last() != c,
        replace_all(s, from, to).len() > 0,
        replace_all(s, from, to).last() == c,
    ensures
        s.len() > 0 && s.last() == c,
    decreases s.len(),
{
    let r = replace_all(s, from, to);
    if from.len() > 0 && starts_with(s, from) {
        let rest = s.skip(from.len() as int);
        let rr = replace_all(rest, from, to);
        if rr.len() == 0 {
            assert(r =~= to);
        } else {
            assert(r.last() == rr.last());
            lemma_replace_all_last(rest, from, to, c);
        }
    } else {
        let rest = s.drop_first();
        let rr = replace_all(rest, from, to);
        if rr.len() == 0 {
            lemma_replace_all_nonempty(rest, from, to);
            assert(rest.len() == 0);
        } else {
            assert(r.last() == rr.last());
            lemma_replace_all_last(rest, from, to, c);
        }
    }
}

/// Dropping a final `'\r'` commutes with replacing a pattern and a
/// replacement without `'\r'`.
pub proof fn lemma_strip_cr_replace_all(f: Seq<char>, from: Seq<char>, to: Seq<char>)
    requires
        from.len() > 0,
        to.len() > 0,
        lacks(from, '\r'),
        lacks(to, '\r'),
    ensures
        strip_cr(replace_all(f, from, to)) == replace_all(strip_cr(f), from, to),
{
    if f.len() > 0 && f.last() == '\r' {
        let g = f.drop_last();
        assert(f =~= g + seq!['\r']);
        lemma_cut_before_char(g, '\r', Seq::empty(), from);
        lemma_replace_all_split(g, seq!['\r'], from, to);
        lemma_replace_all_single('\r', from, to);
        let rg = replace_all(g, from, to);
        assert((rg + seq!['\r']).drop_last() =~= rg);
    } else {
        let r = replace_all(f, from, to);
        if r.len() > 0 && r.last() == '\r' {
            lemma_replace_all_last(f, from, to, '\r');
        }
    }
}

/// The lines of a replaced text are the replaced lines, for a pattern and a
/// replacement that hold no line break.
pub proof fn lemma_lines_replace_all(s: Seq<char>, from: Seq<char>, to: Seq<char>)
    requires
        from.len() > 0,
        to.len() > 0,
        lacks(from, '\n'),
        lacks(from, '\r'),
        lacks(to, '\n'),
        lacks(to, '\r'),
    ensures
        lines(replace_all(s, from, to)) == lines(s).map_values(|l: Seq<char>| replace_all(l, from, to)),
    decreases s.len(),
{
    let r = replace_all(s, from, to);
    lemma_line_end(s);
    if s.len() == 0 {
        assert(lines(s).map_values(|l: Seq<char>| replace_all(l, from, to)) =~= Seq::<Seq<char>>::empty());
    } else {
        let e = line_end(s) as int;
        if e >= s.len() {
            lemma_replace_all_lacks(s, from, to, '\n');
            lemma_replace_all_nonempty(s, from, to);
            lemma_line_end(r);
            assert(lines(s).map_values(|l: Seq<char>| replace_all(l, from, to)) =~= seq![r]);
        } else {
            let first = s.take(e);
            let rest = s.skip(e + 1);
            assert(s =~= (first + seq!['\n']) + rest);
            lemma_cut_before_char(first, '\n', rest, from);
            lemma_replace_all_split(first + seq!['\n'], rest, from, to);
            lemma_replace_all_split(first, seq!['\n'], from, to);
            lemma_replace_all_single('\n', from, to);
            let rf = replace_all(first, from, to);
            let rr = replace_all(rest, from, to);
            assert(r =~= (rf + seq!['\n']) + rr);
            assert(lacks(first, '\n'));
            lemma_replace_all_lacks(first, from, to, '\n');
            lemma_line_end_unique(r, rf.len() as int);
            assert(r.take(rf.len() as int) =~= rf);
            assert(r.skip(rf.len() + 1 as int) =~= rr);
            lemma_strip_cr_replace_all(first, from, to);
            lemma_lines_replace_all(rest, from, to);
            assert(lines(s) == seq![strip_cr(first)] + lines(rest));
            assert(lines(r) == seq![strip_cr(rf)] + lines(rr));
            assert(lines(s).map_values(|l: Seq<char>| replace_all(l, from, to)) =~= seq![
                replace_all(strip_cr(first), from, to),
            ] + lines(rest).map_values(|l: Seq<char>| replace_all(l, from, to)));
        }
    }
}

/// Replacing in lines joined by `"\n"` replaces in each line, for a pattern
/// without a line break.
pub proof fn lemma_join_replace_all(ls: Seq<Seq<char>>, from: Seq<char>, to: Seq<char>)
    requires
        from.len() > 0,
        lacks(from, '\n'),
    ensures
        replace_all(join(ls, "\n"@), from, to) == join(ls.map_values(|l: Seq<char>| replace_all(l, from, to)), "\n"@),
    decreases ls.len(),
{
    reveal_strlit("\n");
    let m = ls.map_values(|l: Seq<char>| replace_all(l, from, to));
    if ls.len() == 0 {
        assert(replace_all(Seq::<char>::empty(), from, to) =~= Seq::<char>::empty());
    } else if ls.len() == 1 {
    } else {
        let p = ls.drop_last();
        let a = join(p, "\n"@);
        assert(join(ls, "\n"@) =~= (a + seq!['\n']) + ls.last());
        lemma_cut_before_char(a, '\n', ls.last(), from);
        lemma_replace_all_split(a + seq!['\n'], ls.last(), from, to);
        lemma_replace_all_split(a, seq!['\n'], from, to);
        lemma_replace_all_single('\n', from, to);
        lemma_join_replace_all(p, from, to);
        assert(m.drop_last() =~= p.map_values(|l: Seq<char>| replace_all(l, from, to)));
        assert(join(m, "\n"@) == join(m.drop_last(), "\n"@) + "\n"@ + m.last());
    }
}

} // verus!
