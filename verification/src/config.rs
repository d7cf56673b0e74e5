//! Kee's own configuration: the profiles it manages and the one in use.

use vstd::prelude::*;

use crate::profile::{entries_map, names_distinct, ProfileInfo, ProfileMap, ProfileView};
use crate::text::{chars_lt, chars_of, lemma_seq_lt_total, lemma_seq_lt_transitive, seq_lt, str_eq};

verus! {

broadcast use vstd::seq_lib::group_to_multiset_ensures;

/// The configuration as plain values.
pub struct ConfigView {
    pub profiles: Map<Seq<char>, ProfileView>,
    pub current_profile: Option<Seq<char>>,
}

/// Kee's configuration (`~/.kee/config.json`): profiles keyed by the name
/// they were added under, and the profile of the active session, if any.
pub struct KeeConfig {
    pub profiles: ProfileMap,
    pub current_profile: Option<String>,
}

/// The characters of an optional string.
pub open spec fn opt_view(o: Option<String>) -> Option<Seq<char>> {
    match o {
        Some(s) => Some(s@),
        None => None,
    }
}

impl View for KeeConfig {
    type V = ConfigView;

    open spec fn view(&self) -> ConfigView {
        ConfigView { profiles: self.profiles@, current_profile: opt_view(self.current_profile) }
    }
}

/// The configuration with `info` recorded under `name`.
pub open spec fn config_add(c: ConfigView, name: Seq<char>, info: ProfileView) -> ConfigView {
    ConfigView { profiles: c.profiles.insert(name, info), current_profile: c.current_profile }
}

/// The configuration without the profile `name`; the current profile is
/// cleared when it is the one removed.
pub open spec fn config_remove(c: ConfigView, name: Seq<char>) -> ConfigView {
    ConfigView {
        profiles: c.profiles.remove(name),
        current_profile: if c.current_profile == Some(name) {
            None
        } else {
            c.current_profile
        },
    }
}

/// The profile recorded under `name`.
pub open spec fn config_get(c: ConfigView, name: Seq<char>) -> Option<ProfileView> {
    if c.profiles.contains_key(name) {
        Some(c.profiles[name])
    } else {
        None
    }
}

/// The configuration after `kee set`: `production` marks the profile as a
/// production account, otherwise `no_production` unmarks it, otherwise it
/// is left as it was. Unknown profiles leave the configuration unchanged.
pub open spec fn config_set_production(c: ConfigView, name: Seq<char>, production: bool, no_production: bool) -> ConfigView {
    if c.profiles.contains_key(name) && (production || no_production) {
        ConfigView {
            profiles: c.profiles.insert(name, ProfileView { production, ..c.profiles[name] }),
            current_profile: c.current_profile,
        }
    } else {
        c
    }
}

/// Each name comes strictly before the next.
pub open spec fn strictly_sorted(s: Seq<Seq<char>>) -> bool {
    forall|i: int, j: int| 0 <= i < j < s.len() ==> seq_lt(s[i], s[j])
}

/// The names in `names`, sorted in `String` order (they must be distinct).
pub fn sort_distinct_strings(names: Vec<String>) -> (r: Vec<String>)
    requires
        names@.map_values(|s: String| s@).no_duplicates(),
    ensures
        r@.map_values(|s: String| s@).to_multiset() == names@.map_values(
            |s: String| s@,
        ).to_multiset(),
        strictly_sorted(r@.map_values(|s: String| s@)),
{
    let ghost input = names@.map_values(|s: String| s@);
    let mut out: Vec<String> = Vec::new();
    let mut keys: Vec<Vec<char>> = Vec::new();
    let mut i: usize = 0;
    while i < names.len()
        invariant
            0 <= i <= names@.len(),
            input == names@.map_values(|s: String| s@),
            input.no_duplicates(),
            keys@.len() == out@.len(),
            forall|k: int| 0 <= k < keys@.len() ==> #[trigger] keys@[k]@ == out@[k]@,
            out@.map_values(|s: String| s@).to_multiset() == input.take(i as int).to_multiset(),
            strictly_sorted(out@.map_values(|s: String| s@)),
        decreases names@.len() - i,
    {
        let x = names[i].clone();
        let xk = chars_of(x.as_str());
        let ghost ov = out@.map_values(|s: String| s@);
        proof {
            assert(input.take(i + 1) =~= input.take(i as int).push(input[i as int]));
            assert forall|k: int| 0 <= k < ov.len() implies ov[k] != xk@ by {
                assert(ov.to_multiset().count(ov[k]) > 0);
                assert(input.take(i as int).to_multiset().count(ov[k]) > 0);
                assert(input.take(i as int).contains(ov[k]));
                let j = choose|j: int| 0 <= j < i && input.take(i as int)[j] == ov[k];
                assert(input[j] == input[i as int] ==> j == i);
            }
        }
        let mut p: usize = 0;
        while p < keys.len() && chars_lt(&keys[p], &xk)
            invariant
                0 <= p <= keys@.len(),
                keys@.len() == out@.len(),
                ov == out@.map_values(|s: String| s@),
                forall|k: int| 0 <= k < keys@.len() ==> #[trigger] keys@[k]@ == out@[k]@,
                forall|k: int| 0 <= k < p ==> seq_lt(ov[k], xk@),
            decreases keys@.len() - p,
        {
            p = p + 1;
        }
        proof {
            if p < keys@.len() {
                assert(keys@[p as int]@ == ov[p as int]);
                lemma_seq_lt_total(ov[p as int], xk@);
                assert(seq_lt(xk@, ov[p as int]));
                assert forall|k: int| p <= k < ov.len() implies seq_lt(xk@, ov[k]) by {
                    if k > p {
                        lemma_seq_lt_transitive(xk@, ov[p as int], ov[k]);
                    }
                }
            }
        }
        let ghost old_keys = keys@;
        let ghost old_out = out@;
        let ghost xv = x@;
        out.insert(p, x);
        keys.insert(p, xk);
        proof {
            let nv = out@.map_values(|s: String| s@);
            assert(nv =~= ov.insert(p as int, xk@));
            assert forall|k: int| 0 <= k < keys@.len() implies #[trigger] keys@[k]@ == out@[k]@ by {
                if k < p {
                    assert(keys@[k] == old_keys[k]);
                    assert(out@[k] == old_out[k]);
                } else if k > p {
                    assert(keys@[k] == old_keys[k - 1]);
                    assert(out@[k] == old_out[k - 1]);
                }
            }
            assert forall|a: int, b: int| 0 <= a < b < nv.len() implies seq_lt(nv[a], nv[b]) by {
                if b < p {
                } else if a < p && b == p {
                } else if a < p && b > p {
                    lemma_seq_lt_transitive(nv[a], xk@, nv[b]);
                } else if a == p {
                } else {
                }
            }
        }
        i = i + 1;
    }
    assert(input.take(names@.len() as int) =~= input);
    out
}

impl KeeConfig {
    /// An empty configuration: no profiles, none current.
    pub fn new() -> (r: KeeConfig)
        ensures
            r@.profiles == Map::<Seq<char>, ProfileView>::empty(),
            r@.current_profile is None,
    {
        KeeConfig { profiles: ProfileMap::new(), current_profile: None }
    }

    /// Records `info` under `name`, replacing any profile of that name.
    pub fn add_profile(&mut self, name: String, info: ProfileInfo)
        ensures
            final(self)@ == config_add(old(self)@, name@, info@),
    {
        let _ = self.profiles.insert(name, info);
    }

    /// Removes the profile `name` and returns it; clears the current profile
    /// when it is the one removed.
    pub fn remove_profile(&mut self, name: &str) -> (r: Option<ProfileInfo>)
        ensures
            final(self)@ == config_remove(old(self)@, name@),
            match r {
                Some(p) => config_get(old(self)@, name@) == Some(p@),
                None => config_get(old(self)@, name@) is None,
            },
    {
        let removed = self.profiles.remove(name);
        let is_current = match &self.current_profile {
            Some(c) => str_eq(c.as_str(), name),
            None => false,
        };
        if is_current {
            self.current_profile = None;
        }
        removed
    }

    /// The profile recorded under `name`.
    pub fn get_profile(&self, name: &str) -> (r: Option<&ProfileInfo>)
        ensures
            match r {
                Some(p) => config_get(self@, name@) == Some(p@),
                None => config_get(self@, name@) is None,
            },
    {
        self.profiles.get(name)
    }

    /// Every (name, profile) pair, each name exactly once.
    pub fn list_profiles(&self) -> (r: Vec<(&String, &ProfileInfo)>)
        ensures
            names_distinct(r@.map_values(|e: (&String, &ProfileInfo)| (e.0@, e.1@))),
            entries_map(r@.map_values(|e: (&String, &ProfileInfo)| (e.0@, e.1@)))
                == self@.profiles,
            r@.len() == self@.profiles.len(),
    {
        self.profiles.iter_pairs()
    }

    /// Sets (or clears) the current profile.
    pub fn set_current_profile(&mut self, name: Option<String>)
        ensures
            final(self)@.profiles == old(self)@.profiles,
            final(self)@.current_profile == opt_view(name),
    {
        self.current_profile = name;
    }

    /// Whether no profile is recorded.
    pub fn is_empty(&self) -> (r: bool)
        ensures
            r == (self@.profiles == Map::<Seq<char>, ProfileView>::empty()),
            r == (self@.profiles.len() == 0),
    {
        self.profiles.is_empty()
    }

    /// `kee set`: marks (`production`) or unmarks (`no_production`) the
    /// profile as a production account. Returns whether the profile exists.
    pub fn set_production(&mut self, name: &str, production: bool, no_production: bool) -> (r: bool)
        ensures
            r == old(self)@.profiles.contains_key(name@),
            final(self)@ == config_set_production(old(self)@, name@, production, no_production),
    {
        if !self.profiles.contains_key(name) {
            return false;
        }
        if production {
            self.profiles.set_production(name, true);
        } else if no_production {
            self.profiles.set_production(name, false);
        }
        true
    }

    /// The AWS profile name behind `name`: the recorded profile's AWS name,
    /// or `name` itself when no profile is recorded under it.
    pub fn aws_profile_name_for(&self, name: String) -> (r: String)
        ensures
            r@ == match config_get(self@, name@) {
                Some(p) => p.profile_name,
                None => name@,
            },
    {
        match self.profiles.get(name.as_str()) {
            Some(p) => p.profile_name.clone(),
            None => name,
        }
    }

    /// The profile names in `String` order (for stable menus and listings).
    pub fn sorted_profile_names(&self) -> (r: Vec<String>)
        ensures
            strictly_sorted(r@.map_values(|s: String| s@)),
            r@.map_values(|s: String| s@).to_set() == self@.profiles.dom(),
            r@.len() == self@.profiles.len(),
    {
        let names = self.profiles.keys();
        let pairs = self.profiles.iter_pairs();
        let ghost es = pairs@.map_values(|e: (&String, &ProfileInfo)| (e.0@, e.1@));
        let ghost nv = names@.map_values(|s: String| s@);
        proof {
            assert(nv =~= es.map_values(|e: (Seq<char>, ProfileView)| e.0));
            assert(nv.no_duplicates()) by {
                assert forall|a: int, b: int| 0 <= a < nv.len() && 0 <= b < nv.len() && a != b implies nv[a] != nv[b] by {
                    assert(nv[a] == es[a].0);
                    assert(nv[b] == es[b].0);
                }
            }
        }
        let r = sort_distinct_strings(names);
        proof {
            let rv = r@.map_values(|s: String| s@);
            assert(rv.to_set() =~= self@.profiles.dom()) by {
                assert forall|k: Seq<char>| rv.to_set().contains(k) <==> self@.profiles.dom().contains(k) by {
                    assert(rv.to_multiset().count(k) == nv.to_multiset().count(k));
                    if rv.contains(k) {
                        assert(rv.to_multiset().count(k) > 0);
                        assert(nv.contains(k));
                        let j = choose|j: int| 0 <= j < nv.len() && nv[j] == k;
                        assert(es[j].0 == k);
                    }
                    if self@.profiles.dom().contains(k) {
                        let j = choose|j: int| 0 <= j < es.len() && es[j].0 == k;
                        assert(nv[j] == k);
                        assert(nv.to_multiset().count(k) > 0);
                        assert(rv.to_multiset().count(k) > 0);
                    }
                }
            }
            assert(rv.len() == rv.to_multiset().len());
            assert(nv.len() == nv.to_multiset().len());
        }
        r
    }
}

impl Default for KeeConfig {
    /// Same as [`KeeConfig::new`].
    fn default() -> (r: KeeConfig)
        ensures
            r@.profiles == Map::<Seq<char>, ProfileView>::empty(),
            r@.current_profile is None,
    {
        KeeConfig::new()
    }
}

} // verus!
