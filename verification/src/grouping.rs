//! Grouping profiles by the cached SSO token they share.
//!
//! The AWS CLI caches one SSO token per `sso-session` (keyed by start URL),
//! and that token's refresh token is single-use, so profiles sharing a start
//! URL must be queried serially. Profiles without a start URL share nothing.

use vstd::prelude::*;

use crate::profile::{entry_views, ProfileInfo, ProfileView};
use crate::text::{chars_eq, chars_of, push_str};

verus! {

/// The grouping key of a profile: its SSO start URL, or, when it has none,
/// its name behind a control character that cannot occur in a URL.
pub open spec fn session_key(name: Seq<char>, start_url: Seq<char>) -> Seq<char> {
    if start_url.len() == 0 {
        seq!['\u{1}'] + name
    } else {
        start_url
    }
}

/// Grouping key of a (name, profile) entry.
pub open spec fn entry_key(e: (Seq<char>, ProfileView)) -> Seq<char> {
    session_key(e.0, e.1.sso_start_url)
}

/// The distinct elements of `ks`, in order of first appearance.
pub open spec fn first_seen(ks: Seq<Seq<char>>) -> Seq<Seq<char>>
    decreases ks.len(),
{
    if ks.len() == 0 {
        Seq::empty()
    } else {
        let d = first_seen(ks.drop_last());
        if d.contains(ks.last()) {
            d
        } else {
            d.push(ks.last())
        }
    }
}

/// One group per distinct key, in order of first appearance; each group
/// holds the entries with that key, in input order.
pub open spec fn groups_spec(es: Seq<(Seq<char>, ProfileView)>) -> Seq<Seq<(Seq<char>, ProfileView)>> {
    first_seen(es.map_values(|e: (Seq<char>, ProfileView)| entry_key(e))).map_values(
        |k: Seq<char>| es.filter(|e: (Seq<char>, ProfileView)| entry_key(e) == k),
    )
}

/// `first_seen` keeps exactly the elements of its input, each once.
pub proof fn lemma_first_seen_contains(ks: Seq<Seq<char>>)
    ensures
        forall|x: Seq<char>| first_seen(ks).contains(x) <==> ks.contains(x),
        first_seen(ks).no_duplicates(),
    decreases ks.len(),
{
    if ks.len() > 0 {
        let p = ks.drop_last();
        let l = ks.last();
        let d = first_seen(p);
        lemma_first_seen_contains(p);
        assert forall|x: Seq<char>| first_seen(ks).contains(x) <==> ks.contains(x) by {
            if ks.contains(x) {
                let i = choose|i: int| 0 <= i < ks.len() && ks[i] == x;
                if i < ks.len() - 1 {
                    assert(p[i] == x);
                    assert(p.contains(x));
                    assert(d.contains(x));
                    let j = choose|j: int| 0 <= j < d.len() && d[j] == x;
                    if !d.contains(l) {
                        assert(d.push(l)[j] == x);
                    }
                } else {
                    if !d.contains(l) {
                        assert(d.push(l)[d.len() as int] == x);
                    }
                }
            }
            if first_seen(ks).contains(x) {
                let j = choose|j: int| 0 <= j < first_seen(ks).len() && first_seen(ks)[j] == x;
                if j < d.len() {
                    assert(d[j] == x);
                    assert(d.contains(x));
                    assert(p.contains(x));
                    let i = choose|i: int| 0 <= i < p.len() && p[i] == x;
                    assert(ks[i] == x);
                } else {
                    assert(x == l);
                    assert(ks[ks.len() - 1] == x);
                }
            }
        }
        if !d.contains(l) {
            assert(d.push(l).no_duplicates()) by {
                assert forall|a: int, b: int|
                    0 <= a < d.push(l).len() && 0 <= b < d.push(l).len() && a != b implies d.push(
                    l,
                )[a] != d.push(l)[b] by {
                    if a == d.len() as int {
                        assert(d[b] != l);
                    } else if b == d.len() as int {
                        assert(d[a] != l);
                    }
                }
            }
        }
    }
}

proof fn lemma_filter_none<A>(s: Seq<A>, f: spec_fn(A) -> bool)
    requires
        forall|i: int| 0 <= i < s.len() ==> !f(s[i]),
    ensures
        s.filter(f) == Seq::<A>::empty(),
    decreases s.len(),
{
    reveal(Seq::filter);
    if s.len() > 0 {
        lemma_filter_none(s.drop_last(), f);
    }
}

fn key_chars(name: &String, info: &ProfileInfo) -> (k: Vec<char>)
    ensures
        k@ == session_key(name@, info.sso_start_url@),
{
    if info.sso_start_url.as_str().is_empty() {
        let mut k: Vec<char> = Vec::new();
        k.push('\u{1}');
        push_str(&mut k, name.as_str());
        k
    } else {
        chars_of(info.sso_start_url.as_str())
    }
}

/// Groups `profiles` so that all profiles sharing one cached SSO token land
/// in the same bucket, each profile without a start URL alone in its own.
/// Buckets follow the first appearance of their key; within a bucket the
/// input order is kept.
pub fn group_profiles_by_session(profiles: Vec<(String, ProfileInfo)>) -> (r: Vec<Vec<(String, ProfileInfo)>>)
    ensures
        r@.map_values(|g: Vec<(String, ProfileInfo)>| entry_views(g@)) == groups_spec(
            entry_views(profiles@),
        ),
{
    let ghost es = entry_views(profiles@);
    let ghost kseq = es.map_values(|e: (Seq<char>, ProfileView)| entry_key(e));
    let mut keys: Vec<Vec<char>> = Vec::new();
    let mut groups: Vec<Vec<(String, ProfileInfo)>> = Vec::new();
    for item in it: profiles
        invariant
            it.seq() == profiles@,
            es == entry_views(profiles@),
            kseq == es.map_values(|e: (Seq<char>, ProfileView)| entry_key(e)),
            keys@.len() == groups@.len(),
            keys@.map_values(|k: Vec<char>| k@) == first_seen(kseq.take(it.index())),
            forall|j: int|
                0 <= j < groups@.len() ==> #[trigger] entry_views(groups@[j]@) == es.take(
                    it.index(),
                ).filter(|e: (Seq<char>, ProfileView)| entry_key(e) == keys@[j]@),
    {
        let ghost n = it.index();
        let ghost pre = es.take(n);
        let ghost e = es[n];
        let ghost kv = keys@.map_values(|k: Vec<char>| k@);
        proof {
            assert(es.take(n + 1) =~= pre.push(e));
            assert(kseq.take(n + 1) =~= kseq.take(n).push(kseq[n]));
            assert(kseq.take(n + 1).drop_last() =~= kseq.take(n));
            assert(kseq[n] == entry_key(e));
            assert(e == (item.0@, item.1@));
        }
        let (name, info) = item;
        let k = key_chars(&name, &info);
        let mut j: usize = 0;
        while j < keys.len() && !chars_eq(&keys[j], &k)
            invariant
                0 <= j <= keys@.len(),
                kv == keys@.map_values(|k: Vec<char>| k@),
                forall|i: int| 0 <= i < j ==> kv[i] != k@,
            decreases keys@.len() - j,
        {
            j = j + 1;
        }
        proof {
            lemma_first_seen_contains(kseq.take(n));
        }
        if j < keys.len() {
            let ghost old_groups = groups@;
            assert(kv[j as int] == k@);
            assert(first_seen(kseq.take(n)).contains(k@));
            let mut g = groups.remove(j);
            g.push((name, info));
            groups.insert(j, g);
            proof {
                assert(keys@.map_values(|k: Vec<char>| k@) =~= first_seen(kseq.take(n + 1)));
                assert forall|i: int| 0 <= i < groups@.len() implies #[trigger] entry_views(
                    groups@[i]@,
                ) == es.take(n + 1).filter(|e: (Seq<char>, ProfileView)| entry_key(e) == keys@[i]@) by {
                    pre.lemma_filter_push(e, |e: (Seq<char>, ProfileView)| entry_key(e) == keys@[i]@);
                    if i == j {
                        assert(entry_views(groups@[i]@) =~= entry_views(old_groups[i]@).push(e));
                    } else {
                        assert(groups@[i] == old_groups[i]);
                        assert(kv[i] != kv[j as int]) by {
                            assert(first_seen(kseq.take(n)).no_duplicates());
                        }
                    }
                }
            }
        } else {
            assert(!first_seen(kseq.take(n)).contains(k@)) by {
                if first_seen(kseq.take(n)).contains(k@) {
                    let i = choose|i: int| 0 <= i < kv.len() && kv[i] == k@;
                }
            }
            let ghost old_groups = groups@;
            let mut g: Vec<(String, ProfileInfo)> = Vec::new();
            g.push((name, info));
            groups.push(g);
            keys.push(k);
            proof {
                assert(keys@.map_values(|k: Vec<char>| k@) =~= first_seen(kseq.take(n + 1)));
                assert forall|i: int| 0 <= i < groups@.len() implies #[trigger] entry_views(
                    groups@[i]@,
                ) == es.take(n + 1).filter(|e: (Seq<char>, ProfileView)| entry_key(e) == keys@[i]@) by {
                    pre.lemma_filter_push(e, |e: (Seq<char>, ProfileView)| entry_key(e) == keys@[i]@);
                    if i == groups@.len() - 1 {
                        assert forall|t: int| 0 <= t < pre.len() implies !(entry_key(pre[t]) == k@) by {
                            assert(kseq.take(n)[t] == entry_key(pre[t]));
                            assert(kseq.take(n).contains(entry_key(pre[t])));
                        }
                        lemma_filter_none(pre, |e: (Seq<char>, ProfileView)| entry_key(e) == keys@[i]@);
                        assert(entry_views(groups@[i]@) =~= seq![e]);
                        assert(Seq::<(Seq<char>, ProfileView)>::empty().push(e) =~= seq![e]);
                    } else {
                        assert(groups@[i] == old_groups[i]);
                        assert(kv[i] != k@);
                    }
                }
            }
        }
    }
    proof {
        assert(es.take(es.len() as int) =~= es);
        assert(kseq.take(es.len() as int) =~= kseq);
        let gv = groups@.map_values(|g: Vec<(String, ProfileInfo)>| entry_views(g@));
        assert(gv =~= groups_spec(es));
    }
    groups
}

} // verus!
