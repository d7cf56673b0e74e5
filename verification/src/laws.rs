//! Properties that hold across the library's operations, each stated over the
//! spec functions that the operations' own contracts use.

use vstd::prelude::*;

use crate::console::{encode_byte, hex_digit, hex_value, is_unreserved, percent_decode, percent_encode};
use crate::config::{config_add, config_get, config_remove, config_set_production, ConfigView};
use crate::completions::{
    ends_with, existing_profile_arg, install_target_spec, ShellKind, BASH_RC_BLOCK, ZSH_RC_BLOCK, kept_rc_line, marked_profile_arg, patch_zsh_direct,
    patch_zsh_direct_line, patch_zsh_line, patch_zsh_spec, rc_block_removed,
    rc_with_edit, rc_without_edit, swap_sentinel,
};
use crate::grouping::{entry_key, first_seen, groups_spec, lemma_first_seen_contains};
use crate::profile::{names_distinct, ProfileView};
use crate::rewrite::{
    lacks, lemma_join_replace_all, lemma_lines_replace_all, lemma_replace_all_clean_prefix,
    lemma_replace_all_starts, lemma_replace_first_clean_prefix,
};
use crate::session::{decimal, digit_char, later_than, session_health_at, Instant, SessionHealth, SsoTokenCache};
use crate::text::{
    contains, join, line_end, lines, replace_all, seq_lt, starts_with, strip_cr, is_white_space, leading_ws, lemma_leading_ws_chars, lemma_replace_first_at, lemma_replace_first_empty, matches_at,
    replace_first, trim_start,
};

verus! {

// ---------------------------------------------------------------------------
// Kee's configuration
// ---------------------------------------------------------------------------

/// Reading a profile back after adding it gives what was added.
pub proof fn law_get_after_add(c: ConfigView, name: Seq<char>, info: ProfileView)
    ensures
        config_get(config_add(c, name, info), name) == Some(info),
{
}

/// Adding a profile leaves every other profile, and the current profile, as
/// they were.
pub proof fn law_add_keeps_others(c: ConfigView, name: Seq<char>, info: ProfileView, other: Seq<char>)
    requires
        other != name,
    ensures
        config_get(config_add(c, name, info), other) == config_get(c, other),
        config_add(c, name, info).current_profile == c.current_profile,
{
}

/// After adding a profile the configuration is not empty.
pub proof fn law_add_makes_nonempty(c: ConfigView, name: Seq<char>, info: ProfileView)
    requires
        c.profiles.dom().finite(),
    ensures
        config_add(c, name, info).profiles.len() > 0,
{
    assert(config_add(c, name, info).profiles.dom().contains(name));
}

/// A removed profile is gone.
pub proof fn law_get_after_remove(c: ConfigView, name: Seq<char>)
    ensures
        config_get(config_remove(c, name), name) is None,
{
}

/// Removing a profile leaves every other profile as it was.
pub proof fn law_remove_keeps_others(c: ConfigView, name: Seq<char>, other: Seq<char>)
    requires
        other != name,
    ensures
        config_get(config_remove(c, name), other) == config_get(c, other),
{
}

/// Removing the current profile clears the current profile; removing any
/// other leaves it.
pub proof fn law_remove_current(c: ConfigView, name: Seq<char>)
    ensures
        c.current_profile == Some(name) ==> config_remove(c, name).current_profile is None,
        c.current_profile != Some(name) ==> config_remove(c, name).current_profile
            == c.current_profile,
{
}

/// Removing a name that is not recorded changes no profile.
pub proof fn law_remove_absent(c: ConfigView, name: Seq<char>)
    requires
        !c.profiles.contains_key(name),
    ensures
        config_remove(c, name).profiles == c.profiles,
{
    assert(c.profiles.remove(name) =~= c.profiles);
}

/// Adding a new profile and removing it again restores the configuration,
/// unless the name was the current profile.
pub proof fn law_add_then_remove(c: ConfigView, name: Seq<char>, info: ProfileView)
    requires
        !c.profiles.contains_key(name),
        c.current_profile != Some(name),
    ensures
        config_remove(config_add(c, name, info), name) == c,
{
    assert(c.profiles.insert(name, info).remove(name) =~= c.profiles);
}

/// `kee set` changes the production flag of the named profile and nothing
/// else; marking wins over unmarking.
pub proof fn law_set_production_flag_only(
    c: ConfigView,
    name: Seq<char>,
    production: bool,
    no_production: bool,
    other: Seq<char>,
)
    requires
        c.profiles.contains_key(name),
    ensures
        config_get(config_set_production(c, name, production, no_production), name) == Some(
            ProfileView {
                production: if production {
                    true
                } else if no_production {
                    false
                } else {
                    c.profiles[name].production
                },
                ..c.profiles[name]
            },
        ),
        other != name ==> config_get(config_set_production(c, name, production, no_production), other)
            == config_get(c, other),
        config_set_production(c, name, production, no_production).current_profile
            == c.current_profile,
{
    if !production && !no_production {
        assert(ProfileView { production: c.profiles[name].production, ..c.profiles[name] }
            == c.profiles[name]);
    }
}

// ---------------------------------------------------------------------------
// Completion rc-file edits
// ---------------------------------------------------------------------------

/// A pattern found in `b` is found in `a + b`.
proof fn lemma_contains_in_suffix(a: Seq<char>, b: Seq<char>, pat: Seq<char>)
    requires
        contains(b, pat),
    ensures
        contains(a + b, pat),
{
    let i = choose|i: int| matches_at(b, pat, i);
    assert((a + b).subrange(a.len() + i, a.len() + i + pat.len()) =~= b.subrange(i, i + pat.len()));
    assert(matches_at(a + b, pat, a.len() + i));
}

/// Installing completions twice edits the rc file once: the block holds the
/// marker, so a second install finds it and leaves the file alone.
pub proof fn law_rc_edit_once(existing: Option<Seq<char>>, marker: Seq<char>, block: Seq<char>)
    requires
        contains(block, marker),
    ensures
        rc_with_edit(existing, marker, block) matches Some(c) ==> rc_with_edit(Some(c), marker, block) is None,
{
    if let Some(e) = existing {
        lemma_contains_in_suffix(e, block, marker);
    }
}

/// The rc-file content before an install: empty for a missing file.
pub open spec fn content_or_empty(existing: Option<Seq<char>>) -> Seq<char> {
    match existing {
        Some(e) => e,
        None => Seq::empty(),
    }
}

/// Uninstalling right after installing gives the rc file back exactly as it
/// was before the install (empty, when there was no file), provided the
/// file did not already load the completions and the block holds the marker.
pub proof fn law_uninstall_after_install(existing: Option<Seq<char>>, marker: Seq<char>, block: Seq<char>)
    requires
        marker.len() > 0,
        contains(block, marker),
        existing matches Some(e) ==> !contains(e, marker),
    ensures
        rc_with_edit(existing, marker, block) == Some(content_or_empty(existing) + block),
        rc_without_edit(rc_with_edit(existing, marker, block), marker, block) == Some(
            content_or_empty(existing),
        ),
{
    let e = content_or_empty(existing);
    let c = e + block;
    lemma_contains_in_suffix(e, block, marker);
    match existing {
        Some(x) => assert(rc_with_edit(existing, marker, block) == Some(c)),
        None => {
            assert(c =~= block);
            assert(rc_with_edit(existing, marker, block) == Some(c));
        },
    }
    assert(c.subrange(c.len() - block.len(), c.len() as int) =~= block);
    assert(ends_with(c, block));
    assert(c.take(c.len() - block.len()) =~= e);
    if contains(e, marker) {
        assert(existing is None);
        let i = choose|i: int| matches_at(e, marker, i);
    }
}

/// Every line kept by a filter is a line that passes it.
proof fn lemma_filter_all(ls: Seq<Seq<char>>, pred: spec_fn(Seq<char>) -> bool)
    ensures
        forall|i: int| 0 <= i < ls.filter(pred).len() ==> pred(#[trigger] ls.filter(pred)[i]),
{
    broadcast use vstd::seq_lib::group_filter_ensures;
}

/// After an uninstall no trace of the marker is left in the rc file, for a
/// non-empty marker without a newline.
pub proof fn law_uninstall_leaves_no_marker(existing: Option<Seq<char>>, marker: Seq<char>, block: Seq<char>)
    requires
        marker.len() > 0,
        forall|k: int| 0 <= k < marker.len() ==> marker[k] != '\n',
    ensures
        rc_without_edit(existing, marker, block) matches Some(r) ==> !contains(r, marker),
{
    if let Some(c) = existing {
        if contains(c, marker) {
            let c1 = rc_block_removed(c, block);
            if contains(c1, marker) {
                let pred = |l: Seq<char>| kept_rc_line(l, marker);
                let kept = lines(c1).filter(pred);
                lemma_filter_all(lines(c1), pred);
                assert forall|i: int| 0 <= i < kept.len() implies !contains(#[trigger] kept[i], marker) by {
                    assert(pred(kept[i]));
                }
                lemma_join_without(kept, marker);
                assert(!contains(Seq::<char>::empty(), marker)) by {
                    if contains(Seq::<char>::empty(), marker) {
                        let i = choose|i: int| matches_at(Seq::<char>::empty(), marker, i);
                    }
                }
                reveal_strlit("\n");
                assert(join(kept, "\n"@) + "\n"@ =~= join(kept, "\n"@) + seq!['\n'] + Seq::<char>::empty());
                if contains(join(kept, "\n"@) + "\n"@, marker) {
                    lemma_contains_across_newline(join(kept, "\n"@), Seq::empty(), marker);
                }
            }
        }
    }
}

// ---------------------------------------------------------------------------
// Percent-encoding
// ---------------------------------------------------------------------------

/// Encoding a concatenation encodes each part.
pub proof fn lemma_percent_encode_append(a: Seq<u8>, b: Seq<u8>)
    ensures
        percent_encode(a + b) == percent_encode(a) + percent_encode(b),
    decreases b.len(),
{
    if b.len() == 0 {
        assert(a + b =~= a);
    } else {
        lemma_percent_encode_append(a, b.drop_last());
        assert((a + b).drop_last() =~= a + b.drop_last());
        assert(percent_encode(a) + percent_encode(b) =~= percent_encode(a) + percent_encode(
            b.drop_last(),
        ) + encode_byte(b.last()));
    }
}

proof fn lemma_hex_round_trip(n: u8)
    requires
        n < 16,
    ensures
        hex_value(hex_digit(n)) == n,
        hex_digit(n) != '%',
{
}

/// Decoding an encoded byte sequence gives it back.
pub proof fn law_percent_decode_encode(bytes: Seq<u8>)
    ensures
        percent_decode(percent_encode(bytes)) == bytes,
    decreases bytes.len(),
{
    if bytes.len() > 0 {
        let b = bytes[0];
        let rest = bytes.drop_first();
        assert(seq![b] + rest =~= bytes);
        lemma_percent_encode_append(seq![b], rest);
        assert(seq![b].drop_last() =~= Seq::<u8>::empty());
        assert(percent_encode(Seq::<u8>::empty()) == Seq::<char>::empty());
        assert(seq![b].last() == b);
        assert(percent_encode(seq![b]) =~= Seq::<char>::empty() + encode_byte(b));
        assert(percent_encode(seq![b]) =~= encode_byte(b));
        law_percent_decode_encode(rest);
        let e = encode_byte(b) + percent_encode(rest);
        if is_unreserved(b) {
            assert(e[0] == b as char);
            assert(e.drop_first() =~= percent_encode(rest));
            assert((b as char) as u8 == b);
        } else {
            lemma_hex_round_trip(b / 16);
            lemma_hex_round_trip(b % 16);
            assert(e.skip(3) =~= percent_encode(rest));
            assert(e[0] == '%' && e[1] == hex_digit(b / 16) && e[2] == hex_digit(b % 16));
            assert(((b / 16) * 16 + b % 16) as u8 == b);
        }
        assert(percent_decode(e) =~= seq![b] + rest);
    }
}

/// `url_encode` loses nothing: different texts get different encodings.
pub proof fn law_url_encode_injective(a: Seq<char>, b: Seq<char>)
    requires
        percent_encode(vstd::utf8::encode_utf8(a)) == percent_encode(vstd::utf8::encode_utf8(b)),
    ensures
        a == b,
{
    law_percent_decode_encode(vstd::utf8::encode_utf8(a));
    law_percent_decode_encode(vstd::utf8::encode_utf8(b));
    vstd::utf8::encode_utf8_decode_utf8(a);
    vstd::utf8::encode_utf8_decode_utf8(b);
}

/// A percent-encoded text holds only unreserved characters, `%`, and
/// upper-case hexadecimal digits.
pub proof fn law_percent_encode_charset(bytes: Seq<u8>)
    ensures
        forall|i: int|
            0 <= i < percent_encode(bytes).len() ==> {
                let c = #[trigger] percent_encode(bytes)[i];
                is_unreserved(c as u8) && (c as int) < 128 || c == '%' || ('0' <= c && c <= '9')
                    || ('A' <= c && c <= 'F')
            },
    decreases bytes.len(),
{
    if bytes.len() > 0 {
        law_percent_encode_charset(bytes.drop_last());
        let p = percent_encode(bytes.drop_last());
        let e = encode_byte(bytes.last());
        assert forall|i: int| 0 <= i < (p + e).len() implies {
            let c = #[trigger] (p + e)[i];
            is_unreserved(c as u8) && (c as int) < 128 || c == '%' || ('0' <= c && c <= '9') || (
            'A' <= c && c <= 'F')
        } by {
            if i >= p.len() {
                let b = bytes.last();
                if is_unreserved(b) {
                    assert((b as char) as u8 == b);
                } else {
                    assert(b / 16 < 16 && b % 16 < 16);
                }
            } else {
                assert((p + e)[i] == p[i]);
            }
        }
    }
}

// ---------------------------------------------------------------------------
// Grouping profiles by SSO session
// ---------------------------------------------------------------------------

/// Some group holds the entry `e`.
pub open spec fn in_some_group(es: Seq<(Seq<char>, ProfileView)>, e: (Seq<char>, ProfileView)) -> bool {
    exists|g: int| 0 <= g < groups_spec(es).len() && #[trigger] groups_spec(es)[g].contains(e)
}

/// Grouping partitions the profiles by key: every group is non-empty and
/// holds only profiles of one key, groups have distinct keys, and each
/// profile is in the group of its key and in no other.
pub proof fn law_groups_partition(es: Seq<(Seq<char>, ProfileView)>)
    ensures
        forall|g: int| 0 <= g < groups_spec(es).len() ==> #[trigger] groups_spec(es)[g].len() > 0,
        forall|g: int, j: int|
            0 <= g < groups_spec(es).len() && 0 <= j < groups_spec(es)[g].len() ==> entry_key(
                #[trigger] groups_spec(es)[g][j],
            ) == entry_key(groups_spec(es)[g][0]),
        forall|g: int, h: int|
            0 <= g < h < groups_spec(es).len() ==> entry_key(#[trigger] groups_spec(es)[g][0])
                != entry_key(#[trigger] groups_spec(es)[h][0]),
        forall|i: int, g: int|
            0 <= i < es.len() && 0 <= g < groups_spec(es).len() ==> (#[trigger] groups_spec(
                es,
            )[g].contains(#[trigger] es[i]) <==> entry_key(es[i]) == entry_key(
                groups_spec(es)[g][0],
            )),
        forall|i: int| 0 <= i < es.len() ==> in_some_group(es, #[trigger] es[i]),
{
    broadcast use vstd::seq_lib::group_filter_ensures;

    let ks = es.map_values(|e: (Seq<char>, ProfileView)| entry_key(e));
    let fs = first_seen(ks);
    let gs = groups_spec(es);
    lemma_first_seen_contains(ks);
    assert(gs.len() == fs.len());
    assert forall|g: int| 0 <= g < gs.len() implies #[trigger] gs[g].len() > 0 && entry_key(
        gs[g][0],
    ) == fs[g] && forall|j: int| 0 <= j < gs[g].len() ==> entry_key(#[trigger] gs[g][j]) == fs[g] by {
        let k = fs[g];
        let pred = |e: (Seq<char>, ProfileView)| entry_key(e) == k;
        assert(gs[g] == es.filter(pred));
        assert(fs.contains(k));
        assert(ks.contains(k));
        let i = choose|i: int| 0 <= i < ks.len() && ks[i] == k;
        assert(pred(es[i]));
        assert(es.filter(pred).contains(es[i]));
        assert forall|j: int| 0 <= j < gs[g].len() implies entry_key(#[trigger] gs[g][j]) == fs[g] by {
            assert(pred(es.filter(pred)[j]));
        }
    }
    assert forall|g: int, h: int| 0 <= g < h < gs.len() implies entry_key(#[trigger] gs[g][0])
        != entry_key(#[trigger] gs[h][0]) by {
        assert(gs[g].len() > 0 && gs[h].len() > 0);
    }
    assert forall|i: int, g: int| 0 <= i < es.len() && 0 <= g < gs.len() implies (
    #[trigger] gs[g].contains(#[trigger] es[i]) <==> entry_key(es[i]) == entry_key(gs[g][0])) by {
        let k = fs[g];
        let pred = |e: (Seq<char>, ProfileView)| entry_key(e) == k;
        assert(gs[g] == es.filter(pred));
        assert(gs[g].len() > 0);
        if gs[g].contains(es[i]) {
            let j = choose|j: int| 0 <= j < gs[g].len() && gs[g][j] == es[i];
            assert(pred(es.filter(pred)[j]));
        }
        if entry_key(es[i]) == k {
            assert(pred(es[i]));
        }
    }
    assert forall|i: int| 0 <= i < es.len() implies in_some_group(es, #[trigger] es[i]) by {
        assert(ks[i] == entry_key(es[i]));
        assert(ks.contains(ks[i]));
        assert(fs.contains(ks[i]));
        let g = choose|g: int| 0 <= g < fs.len() && fs[g] == ks[i];
        let pred = |e: (Seq<char>, ProfileView)| entry_key(e) == fs[g];
        assert(groups_spec(es)[g] == es.filter(pred));
        assert(pred(es[i]));
        assert(groups_spec(es)[g].contains(es[i]));
    }
}

/// A profile without an SSO start URL shares its group with no other profile,
/// given distinct names and no start URL that begins with the control
/// character `\u{1}` (which no URL holds).
pub proof fn law_no_start_url_alone(es: Seq<(Seq<char>, ProfileView)>, i: int, g: int)
    requires
        names_distinct(es),
        forall|j: int|
            0 <= j < es.len() ==> !(#[trigger] es[j].1.sso_start_url.len() > 0
                && es[j].1.sso_start_url[0] == '\u{1}'),
        0 <= i < es.len(),
        es[i].1.sso_start_url.len() == 0,
        0 <= g < groups_spec(es).len(),
        groups_spec(es)[g].contains(es[i]),
    ensures
        forall|j: int| 0 <= j < groups_spec(es)[g].len() ==> #[trigger] groups_spec(es)[g][j] == es[i],
{
    law_groups_partition(es);
    let gs = groups_spec(es);
    assert forall|j: int| 0 <= j < gs[g].len() implies #[trigger] gs[g][j] == es[i] by {
        let x = gs[g][j];
        assert(gs[g].len() > 0);
        let m = choose|m: int| 0 <= m < gs[g].len() && gs[g][m] == es[i];
        assert(entry_key(gs[g][m]) == entry_key(gs[g][0]));
        assert(entry_key(x) == entry_key(gs[g][0]));
        assert(entry_key(x) == entry_key(es[i]));
        assert(entry_key(es[i]) == seq!['\u{1}'] + es[i].0);
        // `x` is one of the profiles, with the same key as `es[i]`.
        assert(gs[g].contains(x));
        law_member_of_group(es, g, j);
        let k = choose|k: int| 0 <= k < es.len() && es[k] == x;
        if x.1.sso_start_url.len() > 0 {
            assert(x.1.sso_start_url == entry_key(x));
            assert(x.1.sso_start_url[0] == '\u{1}');
            assert(es[k].1.sso_start_url.len() > 0 && es[k].1.sso_start_url[0] == '\u{1}');
        } else {
            assert(seq!['\u{1}'] + x.0 == seq!['\u{1}'] + es[i].0);
            assert(x.0 =~= (seq!['\u{1}'] + x.0).drop_first());
            assert(es[i].0 =~= (seq!['\u{1}'] + es[i].0).drop_first());
            assert(es[k].0 == es[i].0);
        }
    }
}

/// Every member of a group is one of the profiles.
pub proof fn law_member_of_group(es: Seq<(Seq<char>, ProfileView)>, g: int, j: int)
    requires
        0 <= g < groups_spec(es).len(),
        0 <= j < groups_spec(es)[g].len(),
    ensures
        exists|k: int| 0 <= k < es.len() && es[k] == groups_spec(es)[g][j],
{
    let ks = es.map_values(|e: (Seq<char>, ProfileView)| entry_key(e));
    let fs = first_seen(ks);
    let pred = |e: (Seq<char>, ProfileView)| entry_key(e) == fs[g];
    assert(groups_spec(es)[g] == es.filter(pred));
    lemma_filter_member(es, pred, j);
}

/// Every element of a filtered sequence is an element of the sequence.
proof fn lemma_filter_member<A>(s: Seq<A>, pred: spec_fn(A) -> bool, j: int)
    requires
        0 <= j < s.filter(pred).len(),
    ensures
        exists|k: int| 0 <= k < s.len() && s[k] == s.filter(pred)[j],
    decreases s.len(),
{
    reveal(Seq::filter);
    if s.len() > 0 {
        let p = s.drop_last();
        let f = p.filter(pred);
        if pred(s.last()) {
            assert(s.filter(pred) == f.push(s.last()));
            if j == f.len() {
                assert(s[s.len() - 1] == s.filter(pred)[j]);
            } else {
                lemma_filter_member(p, pred, j);
                let k = choose|k: int| 0 <= k < p.len() && p[k] == f[j];
                assert(s[k] == p[k]);
            }
        } else {
            assert(s.filter(pred) == f);
            lemma_filter_member(p, pred, j);
            let k = choose|k: int| 0 <= k < p.len() && p[k] == f[j];
            assert(s[k] == p[k]);
        }
    }
}

// ---------------------------------------------------------------------------
// The zsh completion patch
// ---------------------------------------------------------------------------

/// A pattern found in a part of `s` is found in `s`.
proof fn lemma_contains_in_part(s: Seq<char>, a: int, b: int, pat: Seq<char>)
    requires
        0 <= a <= b <= s.len(),
        contains(s.subrange(a, b), pat),
    ensures
        contains(s, pat),
{
    let t = s.subrange(a, b);
    let i = choose|i: int| matches_at(t, pat, i);
    assert(s.subrange(a + i, a + i + pat.len()) =~= t.subrange(i, i + pat.len()));
    assert(matches_at(s, pat, a + i));
}

/// Replacing a pattern that does not occur changes nothing.
proof fn lemma_replace_all_absent(s: Seq<char>, from: Seq<char>, to: Seq<char>)
    requires
        from.len() > 0,
        !contains(s, from),
    ensures
        replace_all(s, from, to) == s,
    decreases s.len(),
{
    if s.len() > 0 {
        assert(!starts_with(s, from)) by {
            if starts_with(s, from) {
                assert(matches_at(s, from, 0));
            }
        }
        let t = s.drop_first();
        assert(!contains(t, from)) by {
            if contains(t, from) {
                assert(t =~= s.subrange(1, s.len() as int));
                lemma_contains_in_part(s, 1, s.len() as int, from);
            }
        }
        lemma_replace_all_absent(t, from, to);
        assert(seq![s[0]] + t =~= s);
    }
}

/// No line of `s` holds a pattern that `s` does not hold.
proof fn lemma_lines_without(s: Seq<char>, pat: Seq<char>)
    requires
        !contains(s, pat),
    ensures
        forall|i: int| 0 <= i < lines(s).len() ==> !contains(#[trigger] lines(s)[i], pat),
    decreases s.len(),
{
    if s.len() > 0 {
        let e = line_end(s) as int;
        crate::text::lemma_line_end(s);
        if e < s.len() {
            let first = s.take(e);
            let rest = s.skip(e + 1);
            assert(!contains(first, pat)) by {
                if contains(first, pat) {
                    assert(first =~= s.subrange(0, e));
                    lemma_contains_in_part(s, 0, e, pat);
                }
            }
            assert(!contains(strip_cr(first), pat)) by {
                if contains(strip_cr(first), pat) && first.len() > 0 && first.last() == '\r' {
                    assert(strip_cr(first) =~= first.subrange(0, first.len() - 1));
                    lemma_contains_in_part(first, 0, first.len() - 1, pat);
                }
            }
            assert(!contains(rest, pat)) by {
                if contains(rest, pat) {
                    assert(rest =~= s.subrange(e + 1, s.len() as int));
                    lemma_contains_in_part(s, e + 1, s.len() as int, pat);
                }
            }
            lemma_lines_without(rest, pat);
            assert forall|i: int| 0 <= i < lines(s).len() implies !contains(#[trigger] lines(s)[i], pat) by {
                if i > 0 {
                    assert(lines(s)[i] == lines(rest)[i - 1]);
                }
            }
        }
    }
}

/// A pattern without `'\n'` found in `a + "\n" + b` is found in `a` or in `b`.
proof fn lemma_contains_across_newline(a: Seq<char>, b: Seq<char>, pat: Seq<char>)
    requires
        forall|k: int| 0 <= k < pat.len() ==> pat[k] != '\n',
        contains(a + seq!['\n'] + b, pat),
    ensures
        contains(a, pat) || contains(b, pat),
{
    let s = a + seq!['\n'] + b;
    let i = choose|i: int| matches_at(s, pat, i);
    if i + pat.len() <= a.len() {
        assert(a.subrange(i, i + pat.len()) =~= s.subrange(i, i + pat.len()));
        assert(matches_at(a, pat, i));
    } else if i >= a.len() + 1 {
        let j = i - a.len() - 1;
        assert(b.subrange(j, j + pat.len()) =~= s.subrange(i, i + pat.len()));
        assert(matches_at(b, pat, j));
    } else {
        let k = a.len() - i;
        assert(s.subrange(i, i + pat.len())[k] == s[a.len() as int]);
        assert(pat[k] == '\n');
    }
}

/// Lines without a pattern (that holds no `'\n'`) joined by `"\n"` do not hold it.
proof fn lemma_join_without(ls: Seq<Seq<char>>, pat: Seq<char>)
    requires
        forall|k: int| 0 <= k < pat.len() ==> pat[k] != '\n',
        forall|i: int| 0 <= i < ls.len() ==> !contains(#[trigger] ls[i], pat),
        pat.len() > 0,
    ensures
        !contains(join(ls, "\n"@), pat),
    decreases ls.len(),
{
    reveal_strlit("\n");
    if ls.len() == 0 {
        assert(!contains(Seq::<char>::empty(), pat)) by {
            if contains(Seq::<char>::empty(), pat) {
                let i = choose|i: int| matches_at(Seq::<char>::empty(), pat, i);
            }
        }
    } else if ls.len() > 1 {
        let p = ls.drop_last();
        assert forall|i: int| 0 <= i < p.len() implies !contains(#[trigger] p[i], pat) by {
            assert(p[i] == ls[i]);
        }
        lemma_join_without(p, pat);
        assert("\n"@ =~= seq!['\n']);
        if contains(join(ls, "\n"@), pat) {
            lemma_contains_across_newline(join(p, "\n"@), ls.last(), pat);
        }
    }
}

/// A zsh script that names no existing-profile argument (and holds no swap
/// sentinel) comes out of the patch unchanged, but for its line endings:
/// `\r\n` becomes `\n`, and it ends with a newline.
pub proof fn law_patch_keeps_other_scripts(script: Seq<char>)
    requires
        !contains(script, existing_profile_arg()),
        !contains(script, swap_sentinel()),
    ensures
        patch_zsh_spec(script) == join(lines(script), "\n"@) + "\n"@,
{
    reveal_strlit("profile_name -- Name of the AWS profile");
    reveal_strlit("\u{1}KEE_SWAP\u{1}");
    let s = swap_sentinel();
    assert(existing_profile_arg().len() > 0);
    assert(s.len() > 0);
    assert(forall|k: int| 0 <= k < s.len() ==> s[k] != '\n');
    lemma_replace_all_absent(script, existing_profile_arg(), crate::completions::marked_profile_arg());
    let ls = lines(script);
    lemma_lines_without(script, s);
    let swapped = ls.map_values(|l: Seq<char>| patch_zsh_line(l));
    assert(swapped =~= ls) by {
        assert forall|i: int| 0 <= i < ls.len() implies swapped[i] == ls[i] by {
            assert(!contains(ls[i], s));
        }
    }
    lemma_join_without(ls, s);
    lemma_replace_all_absent(join(ls, "\n"@), s, Seq::empty());
}

/// Removing the sentinels from the marked text `M + y` gives the help text
/// followed by `y` with its sentinels removed.
proof fn lemma_unmark_marked(y: Seq<char>)
    ensures
        replace_all(marked_profile_arg() + y, swap_sentinel(), Seq::empty()) == existing_profile_arg()
            + replace_all(y, swap_sentinel(), Seq::empty()),
{
    reveal_strlit("profile_name -- ");
    reveal_strlit("Name of the AWS profile");
    reveal_strlit("\u{1}KEE_SWAP\u{1}");
    reveal_strlit("profile_name -- Name of the AWS profile");
    let p = "profile_name -- "@;
    let q = "Name of the AWS profile"@;
    let s = swap_sentinel();
    let e = Seq::<char>::empty();
    assert(marked_profile_arg() + y =~= p + (s + (q + y)));
    lemma_replace_all_clean_prefix(p, s + (q + y), s, e);
    assert(starts_with(s + (q + y), s)) by {
        assert((s + (q + y)).subrange(0, s.len() as int) =~= s);
    }
    assert((s + (q + y)).skip(s.len() as int) =~= q + y);
    lemma_replace_all_clean_prefix(q, y, s, e);
    assert(e + replace_all(q + y, s, e) =~= replace_all(q + y, s, e));
    assert(existing_profile_arg() =~= p + q);
    assert(p + (q + replace_all(y, s, e)) =~= (p + q) + replace_all(y, s, e));
}

/// Marking and then removing the sentinels gives back a text without `\u{1}`.
proof fn lemma_unmark_mark(l: Seq<char>)
    requires
        lacks(l, '\u{1}'),
    ensures
        replace_all(replace_all(l, existing_profile_arg(), marked_profile_arg()), swap_sentinel(), Seq::empty())
            == l,
    decreases l.len(),
{
    reveal_strlit("\u{1}KEE_SWAP\u{1}");
    reveal_strlit("profile_name -- Name of the AWS profile");
    let a = existing_profile_arg();
    let m = marked_profile_arg();
    let s = swap_sentinel();
    let e = Seq::<char>::empty();
    if l.len() == 0 {
        assert(replace_all(l, a, m) =~= e);
        assert(replace_all(e, s, e) =~= e);
    } else if starts_with(l, a) {
        let rest = l.skip(a.len() as int);
        lemma_unmark_mark(rest);
        lemma_unmark_marked(replace_all(rest, a, m));
        assert(l =~= a + rest) by {
            assert(l.subrange(0, a.len() as int) =~= a);
        }
    } else {
        let rest = l.drop_first();
        lemma_unmark_mark(rest);
        lemma_replace_all_clean_prefix(seq![l[0]], replace_all(rest, a, m), s, e);
        assert(seq![l[0]] + rest =~= l);
    }
}

/// A text holding the help text holds a sentinel once marked.
proof fn lemma_marked_has_sentinel(l: Seq<char>)
    requires
        contains(l, existing_profile_arg()),
    ensures
        contains(replace_all(l, existing_profile_arg(), marked_profile_arg()), swap_sentinel()),
    decreases l.len(),
{
    reveal_strlit("profile_name -- ");
    reveal_strlit("Name of the AWS profile");
    reveal_strlit("\u{1}KEE_SWAP\u{1}");
    reveal_strlit("profile_name -- Name of the AWS profile");
    let a = existing_profile_arg();
    let m = marked_profile_arg();
    let s = swap_sentinel();
    let r = replace_all(l, a, m);
    if starts_with(l, a) {
        let y = replace_all(l.skip(a.len() as int), a, m);
        assert(r == m + y);
        assert((m + y).subrange(16, 16 + s.len() as int) =~= s);
        assert(matches_at(r, s, 16));
    } else {
        let i = choose|i: int| matches_at(l, a, i);
        assert(i != 0);
        let rest = l.drop_first();
        assert(rest.subrange(i - 1, i - 1 + a.len()) =~= l.subrange(i, i + a.len()));
        assert(matches_at(rest, a, i - 1));
        lemma_marked_has_sentinel(rest);
        let rr = replace_all(rest, a, m);
        let j = choose|j: int| matches_at(rr, s, j);
        assert(r == seq![l[0]] + rr);
        assert((seq![l[0]] + rr).subrange(j + 1, j + 1 + s.len()) =~= rr.subrange(j, j + s.len()));
        assert(matches_at(r, s, j + 1));
    }
}

/// On a text without `\u{1}`, swapping the first `:_default` of the marked
/// text and removing the sentinels swaps the first `:_default` of the text.
proof fn lemma_swap_marked(l: Seq<char>)
    requires
        lacks(l, '\u{1}'),
    ensures
        replace_all(
            replace_first(replace_all(l, existing_profile_arg(), marked_profile_arg()), ":_default"@, ":_kee_profiles"@),
            swap_sentinel(),
            Seq::empty(),
        ) == replace_first(l, ":_default"@, ":_kee_profiles"@),
    decreases l.len(),
{
    reveal_strlit("profile_name -- ");
    reveal_strlit("Name of the AWS profile");
    reveal_strlit("\u{1}KEE_SWAP\u{1}");
    reveal_strlit("profile_name -- Name of the AWS profile");
    reveal_strlit(":_default");
    reveal_strlit(":_kee_profiles");
    let a = existing_profile_arg();
    let m = marked_profile_arg();
    let s = swap_sentinel();
    let e = Seq::<char>::empty();
    let d = ":_default"@;
    let k = ":_kee_profiles"@;
    let x = replace_all(l, a, m);
    if l.len() == 0 {
        assert(x =~= e);
        assert(replace_first(e, d, k) =~= e);
        assert(replace_all(e, s, e) =~= e);
    } else if starts_with(l, a) {
        let rest = l.skip(a.len() as int);
        let y = replace_all(rest, a, m);
        assert(x == m + y);
        lemma_replace_first_clean_prefix(m, y, d, k);
        lemma_unmark_marked(replace_first(y, d, k));
        lemma_swap_marked(rest);
        assert(l =~= a + rest) by {
            assert(l.subrange(0, a.len() as int) =~= a);
        }
        lemma_replace_first_clean_prefix(a, rest, d, k);
    } else if starts_with(l, d) {
        let rest = l.skip(d.len() as int);
        assert(l =~= d + rest) by {
            assert(l.subrange(0, d.len() as int) =~= d);
        }
        lemma_replace_all_clean_prefix(d, rest, a, m);
        let y = replace_all(rest, a, m);
        assert(starts_with(d + y, d)) by {
            assert((d + y).subrange(0, d.len() as int) =~= d);
        }
        assert((d + y).skip(d.len() as int) =~= y);
        assert(replace_first(d + y, d, k) == k + y);
        lemma_replace_all_clean_prefix(k, y, s, e);
        lemma_unmark_mark(rest);
        assert(replace_first(l, d, k) == k + l.skip(d.len() as int));
    } else {
        let rest = l.drop_first();
        let y = replace_all(rest, a, m);
        assert(x == seq![l[0]] + y);
        if starts_with(x, d) {
            let w = d.drop_first();
            assert(lacks(w, m[0]));
            assert(y.take(w.len() as int) =~= w) by {
                assert forall|i: int| 0 <= i < w.len() implies y[i] == w[i] by {
                    assert(x.subrange(0, d.len() as int)[i + 1] == d[i + 1]);
                }
            }
            lemma_replace_all_starts(rest, w, a, m);
            assert(l.subrange(0, d.len() as int) =~= d) by {
                assert(x.subrange(0, d.len() as int)[0] == d[0]);
                assert forall|i: int| 0 <= i < d.len() implies l.subrange(0, d.len() as int)[i] == d[i] by {
                    if i > 0 {
                        assert(rest.take(w.len() as int)[i - 1] == w[i - 1]);
                    }
                }
            }
            assert(false);
        }
        assert(replace_first(x, d, k) == seq![x[0]] + replace_first(x.drop_first(), d, k));
        assert(x.drop_first() =~= y);
        lemma_swap_marked(rest);
        lemma_replace_all_clean_prefix(seq![l[0]], replace_first(y, d, k), s, e);
        assert(replace_first(l, d, k) == seq![l[0]] + replace_first(rest, d, k));
    }
}

/// A line without `\u{1}` comes out of marking, swapping and unmarking as
/// `patch_zsh_direct_line` reads it.
proof fn lemma_patch_line(l: Seq<char>)
    requires
        lacks(l, '\u{1}'),
    ensures
        replace_all(
            patch_zsh_line(replace_all(l, existing_profile_arg(), marked_profile_arg())),
            swap_sentinel(),
            Seq::empty(),
        ) == patch_zsh_direct_line(l),
{
    reveal_strlit("\u{1}KEE_SWAP\u{1}");
    reveal_strlit("profile_name -- Name of the AWS profile");
    let a = existing_profile_arg();
    let s = swap_sentinel();
    if contains(l, a) {
        lemma_marked_has_sentinel(l);
        lemma_swap_marked(l);
    } else {
        lemma_replace_all_absent(l, a, marked_profile_arg());
        assert(!contains(l, s)) by {
            if contains(l, s) {
                let i = choose|i: int| matches_at(l, s, i);
                assert(l.subrange(i, i + s.len())[0] == s[0]);
            }
        }
        lemma_replace_all_absent(l, s, Seq::empty());
    }
}

/// For a script without `\u{1}`, the sentinel patch is the line-by-line
/// reading: every line holding the existing-profile help text gets its first
/// `:_default` swapped for `:_kee_profiles`, other lines stay, and the lines
/// are joined by `"\n"` with a final newline.
pub proof fn law_patch_zsh_per_line(script: Seq<char>)
    requires
        lacks(script, '\u{1}'),
    ensures
        patch_zsh_spec(script) == patch_zsh_direct(script),
{
    reveal_strlit("profile_name -- ");
    reveal_strlit("Name of the AWS profile");
    reveal_strlit("\u{1}KEE_SWAP\u{1}");
    reveal_strlit("profile_name -- Name of the AWS profile");
    let a = existing_profile_arg();
    let m = marked_profile_arg();
    let s = swap_sentinel();
    let e = Seq::<char>::empty();
    assert(lacks(a, '\n') && lacks(a, '\r') && lacks(m, '\n') && lacks(m, '\r') && lacks(s, '\n'));
    lemma_lines_replace_all(script, a, m);
    let ls = lines(script);
    let marked_lines = ls.map_values(|l: Seq<char>| replace_all(l, a, m));
    let swapped = marked_lines.map_values(|l: Seq<char>| patch_zsh_line(l));
    lemma_join_replace_all(swapped, s, e);
    assert(!contains(script, seq!['\u{1}'])) by {
        if contains(script, seq!['\u{1}']) {
            let i = choose|i: int| matches_at(script, seq!['\u{1}'], i);
            assert(script.subrange(i, i + 1)[0] == '\u{1}');
        }
    }
    lemma_lines_without(script, seq!['\u{1}']);
    let unmarked = swapped.map_values(|l: Seq<char>| replace_all(l, s, e));
    let direct = ls.map_values(|l: Seq<char>| patch_zsh_direct_line(l));
    assert(unmarked =~= direct) by {
        assert forall|i: int| 0 <= i < ls.len() implies unmarked[i] == direct[i] by {
            assert(lacks(ls[i], '\u{1}')) by {
                assert forall|k: int| 0 <= k < ls[i].len() implies ls[i][k] != '\u{1}' by {
                    if ls[i][k] == '\u{1}' {
                        assert(ls[i].subrange(k, k + 1) =~= seq!['\u{1}']);
                        assert(matches_at(ls[i], seq!['\u{1}'], k));
                    }
                }
            }
            lemma_patch_line(ls[i]);
        }
    }
}

// ---------------------------------------------------------------------------
// Session health over time
// ---------------------------------------------------------------------------

/// How healthy a session looks: active above refreshable above expired.
pub open spec fn health_rank(h: SessionHealth) -> int {
    match h {
        SessionHealth::Active(_) => 2,
        SessionHealth::Refreshable => 1,
        SessionHealth::Expired => 0,
    }
}

/// With the cache unchanged, a session never looks healthier later: the
/// health at a later time ranks no higher than at an earlier one, and an
/// active session active at both times names the same expiry.
pub proof fn law_health_never_improves(
    cache: Option<&SsoTokenCache>,
    earlier: Instant,
    later: Instant,
    h1: SessionHealth,
    h2: SessionHealth,
)
    requires
        !later_than(earlier@, later@),
        session_health_at(cache, earlier, h1),
        session_health_at(cache, later, h2),
    ensures
        health_rank(h2) <= health_rank(h1),
        h1 is Active && h2 is Active ==> h1->0@ == h2->0@,
{
}

// ---------------------------------------------------------------------------
// URL encoding, byte by byte
// ---------------------------------------------------------------------------

/// The upper-case hexadecimal digit of `n` (below 16), by character code.
pub open spec fn upper_hex_code(n: int) -> int {
    if n < 10 {
        '0' as int + n
    } else {
        'A' as int + (n - 10)
    }
}

/// Percent-encoding appends, for each further byte, that byte itself when it
/// is an ASCII letter, an ASCII digit, `-`, `_`, `.` or `~`, and otherwise
/// `%` followed by the two upper-case hexadecimal digits of the byte (so `,`
/// becomes `%2C`). Nothing comes of no bytes.
pub proof fn law_percent_encode_bytes(bytes: Seq<u8>, b: u8)
    ensures
        percent_encode(Seq::<u8>::empty()) == Seq::<char>::empty(),
        ('A' as int <= b <= 'Z' as int) || ('a' as int <= b <= 'z' as int) || ('0' as int <= b
            <= '9' as int) || b == '-' as int || b == '_' as int || b == '.' as int || b == '~' as int
            ==> percent_encode(bytes.push(b)) == percent_encode(bytes).push(b as char),
        !(('A' as int <= b <= 'Z' as int) || ('a' as int <= b <= 'z' as int) || ('0' as int <= b
            <= '9' as int) || b == '-' as int || b == '_' as int || b == '.' as int || b == '~' as int)
            ==> {
            let e = percent_encode(bytes.push(b));
            let p = percent_encode(bytes);
            &&& e.len() == p.len() + 3
            &&& e.take(p.len() as int) == p
            &&& e[p.len() as int] == '%'
            &&& e[p.len() + 1 as int] as int == upper_hex_code((b / 16) as int)
            &&& e[p.len() + 2 as int] as int == upper_hex_code((b % 16) as int)
        },
{
    let e = percent_encode(bytes.push(b));
    let p = percent_encode(bytes);
    assert(bytes.push(b).drop_last() =~= bytes);
    assert(e == p + encode_byte(b));
    if !is_unreserved(b) {
        assert(e.take(p.len() as int) =~= p);
    } else {
        assert(p + seq![b as char] =~= p.push(b as char));
    }
}

// ---------------------------------------------------------------------------
// Decimal numerals
// ---------------------------------------------------------------------------

/// The number a string of decimal digits spells.
pub open spec fn numeral_value(s: Seq<char>) -> int
    decreases s.len(),
{
    if s.len() == 0 {
        0
    } else {
        numeral_value(s.drop_last()) * 10 + (s.last() as int - '0' as int)
    }
}

/// `decimal(n)` is the ordinary base-10 numeral of `n`: it consists of the
/// digits `0` to `9`, has no leading zero (unless it is `0` itself), and
/// read back as a base-10 numeral it gives `n`.
pub proof fn law_decimal_numeral(n: nat)
    ensures
        decimal(n).len() > 0,
        forall|i: int| 0 <= i < decimal(n).len() ==> '0' as int <= #[trigger] decimal(n)[i] as int <= '9' as int,
        numeral_value(decimal(n)) == n,
        n > 0 ==> decimal(n)[0] != '0',
        n == 0 ==> decimal(n) == seq!['0'],
    decreases n,
{
    if n < 10 {
        assert(digit_char(n as int) as int == '0' as int + n);
        let s = decimal(n);
        assert(s.drop_last() =~= Seq::<char>::empty());
        assert(numeral_value(s.drop_last()) == 0);
        assert(numeral_value(s) == numeral_value(s.drop_last()) * 10 + (s.last() as int - '0' as int));
    } else {
        let q = (n / 10) as nat;
        let d = (n % 10) as int;
        law_decimal_numeral(q);
        assert(digit_char(d) as int == '0' as int + d);
        let s = decimal(n);
        assert(s == decimal(q).push(digit_char(d)));
        assert(s.drop_last() =~= decimal(q));
        vstd::arithmetic::div_mod::lemma_fundamental_div_mod(n as int, 10);
        assert(numeral_value(s) == q * 10 + d);
        assert forall|i: int| 0 <= i < s.len() implies '0' as int <= #[trigger] s[i] as int <= '9' as int by {
            if i < s.len() - 1 {
                assert(s[i] == decimal(q)[i]);
            }
        }
        assert(s[0] == decimal(q)[0]);
    }
}

// ---------------------------------------------------------------------------
// Where completion scripts go
// ---------------------------------------------------------------------------

/// The rc-file block of each shell loads the very file the completion script
/// is written to, and holds the marker that detects it: for bash the block
/// sources `~/` followed by the script's path; for zsh the script is `_kee`
/// in a directory that the block adds to `fpath`. Fish loads its
/// completions directory by itself and gets no block. Zsh edits `.zshrc`;
/// bash edits `.bashrc`, or `.bash_profile` when only that one exists.
pub proof fn law_rc_block_loads_script(bashrc_exists: bool, bash_profile_exists: bool)
    ensures
        install_target_spec(ShellKind::Bash, bashrc_exists, bash_profile_exists) matches Some(
            (path, Some((rc, marker, block))),
        ) && contains(block, "source ~/"@ + path) && contains(block, marker) && rc == (if bashrc_exists
            || !bash_profile_exists {
            ".bashrc"@
        } else {
            ".bash_profile"@
        }),
        install_target_spec(ShellKind::Zsh, bashrc_exists, bash_profile_exists) matches Some(
            (path, Some((rc, marker, block))),
        ) && path.len() > 5 && path.skip(path.len() - 5) == "/_kee"@ && contains(
            block,
            "fpath=(~/"@ + path.take(path.len() - 5) + " "@,
        ) && contains(block, marker) && rc == ".zshrc"@,
        install_target_spec(ShellKind::Fish, bashrc_exists, bash_profile_exists) matches Some(
            (path, None),
        ) && path == ".config/fish/completions/kee.fish"@,
{
    reveal_strlit("\n# Kee completion\nsource ~/.kee/.kee_completion.bash\n");
    reveal_strlit("\n# Kee completion\nfpath=(~/.kee/completions $fpath)\nautoload -Uz compinit && compinit\n");
    reveal_strlit(".kee/.kee_completion.bash");
    reveal_strlit(".kee_completion.bash");
    reveal_strlit("source ~/");
    reveal_strlit(".kee/completions/_kee");
    reveal_strlit("~/.kee/completions");
    reveal_strlit("/_kee");
    reveal_strlit("fpath=(~/");
    reveal_strlit(" ");
    let bb = BASH_RC_BLOCK@;
    let bp = ".kee/.kee_completion.bash"@;
    let bs = "source ~/"@ + bp;
    assert(bb.subrange(18, 18 + bs.len() as int) =~= bs);
    assert(matches_at(bb, bs, 18));
    assert(bb.subrange(32, 52) =~= ".kee_completion.bash"@);
    assert(matches_at(bb, ".kee_completion.bash"@, 32));
    let zb = ZSH_RC_BLOCK@;
    let zp = ".kee/completions/_kee"@;
    assert(zp.skip(zp.len() - 5) =~= "/_kee"@);
    let zs = "fpath=(~/"@ + zp.take(zp.len() - 5) + " "@;
    assert(zb.subrange(18, 18 + zs.len() as int) =~= zs);
    assert(matches_at(zb, zs, 18));
    assert(zb.subrange(25, 43) =~= "~/.kee/completions"@);
    assert(matches_at(zb, "~/.kee/completions"@, 25));
}

// ---------------------------------------------------------------------------
// The order of names
// ---------------------------------------------------------------------------

/// A proper prefix comes first.
proof fn lemma_seq_lt_prefix(a: Seq<char>, b: Seq<char>)
    requires
        a.len() < b.len(),
        b.take(a.len() as int) == a,
    ensures
        seq_lt(a, b),
    decreases a.len(),
{
    if a.len() > 0 {
        assert(b.take(a.len() as int)[0] == b[0]);
        assert(b.drop_first().take(a.drop_first().len() as int) =~= a.drop_first()) by {
            assert forall|k: int| 0 <= k < a.len() - 1 implies b.drop_first()[k] == a.drop_first()[k] by {
                assert(b.take(a.len() as int)[k + 1] == a[k + 1]);
            }
        }
        lemma_seq_lt_prefix(a.drop_first(), b.drop_first());
    }
}

/// At the first difference, the smaller character comes first.
proof fn lemma_seq_lt_first_difference(a: Seq<char>, b: Seq<char>, i: int)
    requires
        0 <= i < a.len(),
        i < b.len(),
        a.take(i) == b.take(i),
        a[i] < b[i],
    ensures
        seq_lt(a, b),
    decreases i,
{
    if i == 0 {
        assert(a[0] != b[0]);
    } else {
        assert(a.take(i)[0] == b.take(i)[0]);
        assert(a.take(i)[0] == a[0] && b.take(i)[0] == b[0]);
        assert(a.drop_first()[i - 1] == a[i] && b.drop_first()[i - 1] == b[i]);
        assert(a.drop_first().take(i - 1) =~= b.drop_first().take(i - 1)) by {
            assert forall|k: int| 0 <= k < i - 1 implies #[trigger] a.drop_first()[k] == b.drop_first()[k] by {
                assert(a.drop_first()[k] == a[k + 1]);
                assert(b.drop_first()[k] == b[k + 1]);
                assert(a.take(i)[k + 1] == a[k + 1]);
                assert(b.take(i)[k + 1] == b[k + 1]);
            }
        }
        lemma_seq_lt_first_difference(a.drop_first(), b.drop_first(), i - 1);
    }
}

/// What comes first comes first by one of the two rules.
proof fn lemma_seq_lt_cases(a: Seq<char>, b: Seq<char>)
    requires
        seq_lt(a, b),
    ensures
        (a.len() < b.len() && b.take(a.len() as int) == a) || exists|i: int|
            0 <= i < a.len() && i < b.len() && a.take(i) == b.take(i) && #[trigger] a[i] < b[i],
    decreases a.len(),
{
    if a.len() == 0 {
        assert(b.take(0) =~= a);
    } else if a[0] != b[0] {
        assert(a.take(0) =~= b.take(0));
        assert(a[0] < b[0]);
    } else {
        let a1 = a.drop_first();
        let b1 = b.drop_first();
        lemma_seq_lt_cases(a1, b1);
        if a1.len() < b1.len() && b1.take(a1.len() as int) == a1 {
            assert(b.take(a.len() as int) =~= a) by {
                assert forall|k: int| 0 <= k < a.len() implies b.take(a.len() as int)[k] == a[k] by {
                    if k > 0 {
                        assert(b1.take(a1.len() as int)[k - 1] == a1[k - 1]);
                    }
                }
            }
        } else {
            let j = choose|j: int|
                0 <= j < a1.len() && j < b1.len() && a1.take(j) == b1.take(j) && #[trigger] a1[j] < b1[j];
            assert(a.take(j + 1) =~= b.take(j + 1)) by {
                assert forall|k: int| 0 <= k < j + 1 implies #[trigger] a.take(j + 1)[k] == b.take(j + 1)[k] by {
                    if k > 0 {
                        assert(a1.take(j)[k - 1] == b1.take(j)[k - 1]);
                    }
                }
            }
            assert(a[j + 1] < b[j + 1]);
        }
    }
}

/// The order of names is Rust's `String` order: `a` comes before `b` exactly
/// when `a` is a proper prefix of `b`, or at the first position where they
/// differ `a` has the smaller character.
pub proof fn law_name_order(a: Seq<char>, b: Seq<char>)
    ensures
        seq_lt(a, b) <==> ((a.len() < b.len() && b.take(a.len() as int) == a) || exists|i: int|
            0 <= i < a.len() && i < b.len() && a.take(i) == b.take(i) && #[trigger] a[i] < b[i]),
{
    if seq_lt(a, b) {
        lemma_seq_lt_cases(a, b);
    } else {
        if a.len() < b.len() && b.take(a.len() as int) == a {
            lemma_seq_lt_prefix(a, b);
        }
        if exists|i: int| 0 <= i < a.len() && i < b.len() && a.take(i) == b.take(i) && #[trigger] a[i] < b[i] {
            let i = choose|i: int|
                0 <= i < a.len() && i < b.len() && a.take(i) == b.take(i) && #[trigger] a[i] < b[i];
            lemma_seq_lt_first_difference(a, b, i);
        }
    }
}

/// A name comes before every longer name it begins.
pub proof fn law_prefix_comes_first(t: Seq<char>, s: Seq<char>)
    requires
        s.len() > 0,
    ensures
        seq_lt(t, t + s),
        !seq_lt(t + s, t),
{
    assert((t + s).take(t.len() as int) =~= t);
    lemma_seq_lt_prefix(t, t + s);
    crate::text::lemma_seq_lt_total(t, t + s);
}

} // verus!
