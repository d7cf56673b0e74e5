//! Lists of (key, value) pairs with distinct keys, read as maps.

use vstd::prelude::*;

verus! {

/// No key occurs twice.
pub open spec fn keys_distinct<V>(es: Seq<(Seq<char>, V)>) -> bool {
    forall|i: int, j: int| 0 <= i < es.len() && 0 <= j < es.len() && i != j ==> es[i].0 != es[j].0
}

/// Index of an entry with key `k` (meaningful when there is one).
pub open spec fn index_of_key<V>(es: Seq<(Seq<char>, V)>, k: Seq<char>) -> int {
    choose|i: int| 0 <= i < es.len() && es[i].0 == k
}

/// The map described by a list of pairs: each key maps to the value of an
/// entry with that key (the only one when keys are distinct).
pub open spec fn pairs_map<V>(es: Seq<(Seq<char>, V)>) -> Map<Seq<char>, V> {
    Map::new(
        |k: Seq<char>| exists|i: int| 0 <= i < es.len() && es[i].0 == k,
        |k: Seq<char>| es[index_of_key(es, k)].1,
    )
}

/// With distinct keys, each entry is what the map holds under its key.
pub proof fn lemma_pairs_map_at<V>(es: Seq<(Seq<char>, V)>, i: int)
    requires
        keys_distinct(es),
        0 <= i < es.len(),
    ensures
        pairs_map(es).contains_key(es[i].0),
        pairs_map(es)[es[i].0] == es[i].1,
{
    let k = es[i].0;
    assert(exists|j: int| 0 <= j < es.len() && es[j].0 == k);
    let j = index_of_key(es, k);
    assert(es[j].0 == k);
    assert(i == j);
}

/// With distinct keys, the map has one key per entry.
pub proof fn lemma_pairs_map_len<V>(es: Seq<(Seq<char>, V)>)
    requires
        keys_distinct(es),
    ensures
        pairs_map(es).dom().finite(),
        pairs_map(es).dom().len() == es.len(),
    decreases es.len(),
{
    let m = pairs_map(es);
    if es.len() == 0 {
        assert(m.dom() =~= Set::<Seq<char>>::empty());
    } else {
        let rest = es.drop_last();
        lemma_pairs_map_len(rest);
        let k = es.last().0;
        assert(m.dom() =~= pairs_map(rest).dom().insert(k)) by {
            assert forall|x: Seq<char>| m.dom().contains(x) implies pairs_map(rest).dom().insert(
                k,
            ).contains(x) by {
                let i = choose|i: int| 0 <= i < es.len() && es[i].0 == x;
                if i < es.len() - 1 {
                    assert(rest[i].0 == x);
                }
            }
            assert forall|x: Seq<char>| pairs_map(rest).dom().insert(k).contains(x) implies m.dom().contains(
                x,
            ) by {
                if x == k {
                    assert(es[es.len() - 1].0 == x);
                } else {
                    let i = choose|i: int| 0 <= i < rest.len() && rest[i].0 == x;
                    assert(es[i].0 == x);
                }
            }
        }
        assert(!pairs_map(rest).dom().contains(k)) by {
            if pairs_map(rest).dom().contains(k) {
                let i = choose|i: int| 0 <= i < rest.len() && rest[i].0 == k;
                assert(es[i].0 == es[es.len() - 1].0);
            }
        }
    }
}

/// Changing the value of one entry changes the map at its key.
pub proof fn lemma_pairs_map_update<V>(es: Seq<(Seq<char>, V)>, i: int, v: V)
    requires
        keys_distinct(es),
        0 <= i < es.len(),
    ensures
        keys_distinct(es.update(i, (es[i].0, v))),
        pairs_map(es.update(i, (es[i].0, v))) =~= pairs_map(es).insert(es[i].0, v),
{
    let k = es[i].0;
    let es2 = es.update(i, (k, v));
    let m = pairs_map(es);
    let m2 = pairs_map(es2);
    assert forall|x: Seq<char>| m2.dom().contains(x) <==> m.insert(k, v).dom().contains(x) by {
        if m2.dom().contains(x) {
            let j = choose|j: int| 0 <= j < es2.len() && es2[j].0 == x;
            assert(es[j].0 == x);
        }
        if m.dom().contains(x) {
            let j = choose|j: int| 0 <= j < es.len() && es[j].0 == x;
            assert(es2[j].0 == x);
        }
        if x == k {
            assert(es2[i].0 == x);
        }
    }
    assert forall|x: Seq<char>| m2.dom().contains(x) implies m2[x] == m.insert(k, v)[x] by {
        let j = choose|j: int| 0 <= j < es2.len() && es2[j].0 == x;
        lemma_pairs_map_at(es2, j);
        if j != i {
            lemma_pairs_map_at(es, j);
        }
    }
}

/// Appending an entry with a new key inserts it into the map.
pub proof fn lemma_pairs_map_push<V>(es: Seq<(Seq<char>, V)>, k: Seq<char>, v: V)
    requires
        keys_distinct(es),
        !pairs_map(es).contains_key(k),
    ensures
        keys_distinct(es.push((k, v))),
        pairs_map(es.push((k, v))) =~= pairs_map(es).insert(k, v),
{
    let es2 = es.push((k, v));
    let m = pairs_map(es);
    let m2 = pairs_map(es2);
    assert forall|a: int, b: int|
        0 <= a < es2.len() && 0 <= b < es2.len() && a != b implies es2[a].0 != es2[b].0 by {
        if a == es.len() as int {
            assert(es[b].0 != k);
        } else if b == es.len() as int {
            assert(es[a].0 != k);
        }
    }
    assert forall|x: Seq<char>| m2.dom().contains(x) <==> m.insert(k, v).dom().contains(x) by {
        if m2.dom().contains(x) {
            let j = choose|j: int| 0 <= j < es2.len() && es2[j].0 == x;
            if j < es.len() {
                assert(es[j].0 == x);
            }
        }
        if m.dom().contains(x) {
            let j = choose|j: int| 0 <= j < es.len() && es[j].0 == x;
            assert(es2[j].0 == x);
        }
        if x == k {
            assert(es2[es.len() as int].0 == x);
        }
    }
    assert forall|x: Seq<char>| m2.dom().contains(x) implies m2[x] == m.insert(k, v)[x] by {
        let j = choose|j: int| 0 <= j < es2.len() && es2[j].0 == x;
        lemma_pairs_map_at(es2, j);
        if j < es.len() {
            lemma_pairs_map_at(es, j);
        }
    }
}

/// Removing an entry removes its key from the map.
pub proof fn lemma_pairs_map_remove<V>(es: Seq<(Seq<char>, V)>, i: int)
    requires
        keys_distinct(es),
        0 <= i < es.len(),
    ensures
        keys_distinct(es.remove(i)),
        pairs_map(es.remove(i)) =~= pairs_map(es).remove(es[i].0),
{
    let k = es[i].0;
    let es2 = es.remove(i);
    let m = pairs_map(es);
    let m2 = pairs_map(es2);
    assert forall|a: int, b: int|
        0 <= a < es2.len() && 0 <= b < es2.len() && a != b implies es2[a].0 != es2[b].0 by {
        let a1 = if a < i {
            a
        } else {
            a + 1
        };
        let b1 = if b < i {
            b
        } else {
            b + 1
        };
        assert(es2[a] == es[a1]);
        assert(es2[b] == es[b1]);
    }
    assert forall|x: Seq<char>| m2.dom().contains(x) <==> m.remove(k).dom().contains(x) by {
        if m2.dom().contains(x) {
            let j = choose|j: int| 0 <= j < es2.len() && es2[j].0 == x;
            let j1 = if j < i {
                j
            } else {
                j + 1
            };
            assert(es2[j] == es[j1]);
            assert(es[j1].0 == x);
        }
        if m.remove(k).dom().contains(x) {
            let j = choose|j: int| 0 <= j < es.len() && es[j].0 == x;
            assert(j != i);
            let j2 = if j < i {
                j
            } else {
                j - 1
            };
            assert(es2[j2] == es[j]);
        }
    }
    assert forall|x: Seq<char>| m2.dom().contains(x) implies m2[x] == m.remove(k)[x] by {
        let j = choose|j: int| 0 <= j < es2.len() && es2[j].0 == x;
        let j1 = if j < i {
            j
        } else {
            j + 1
        };
        assert(es2[j] == es[j1]);
        lemma_pairs_map_at(es2, j);
        lemma_pairs_map_at(es, j1);
    }
}

} // verus!
