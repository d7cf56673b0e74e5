//! AWS SSO profiles and the name-keyed table that holds them.

use vstd::prelude::*;

use crate::keyed::{
    keys_distinct, lemma_pairs_map_at, lemma_pairs_map_len, lemma_pairs_map_push,
    lemma_pairs_map_remove, lemma_pairs_map_update, pairs_map,
};

verus! {

/// What Kee records about one AWS SSO profile.
#[derive(Clone, Debug, PartialEq)]
pub struct ProfileInfo {
    pub profile_name: String,
    pub sso_start_url: String,
    pub sso_region: String,
    pub sso_account_id: String,
    pub sso_role_name: String,
    pub session_name: String,
    pub production: bool,
}

/// A profile as plain values.
pub struct ProfileView {
    pub profile_name: Seq<char>,
    pub sso_start_url: Seq<char>,
    pub sso_region: Seq<char>,
    pub sso_account_id: Seq<char>,
    pub sso_role_name: Seq<char>,
    pub session_name: Seq<char>,
    pub production: bool,
}

impl View for ProfileInfo {
    type V = ProfileView;

    open spec fn view(&self) -> ProfileView {
        ProfileView {
            profile_name: self.profile_name@,
            sso_start_url: self.sso_start_url@,
            sso_region: self.sso_region@,
            sso_account_id: self.sso_account_id@,
            sso_role_name: self.sso_role_name@,
            session_name: self.session_name@,
            production: self.production,
        }
    }
}

impl ProfileInfo {
    /// A copy of this profile, field by field.
    pub fn duplicate(&self) -> (r: ProfileInfo)
        ensures
            r@ == self@,
    {
        ProfileInfo {
            profile_name: self.profile_name.clone(),
            sso_start_url: self.sso_start_url.clone(),
            sso_region: self.sso_region.clone(),
            sso_account_id: self.sso_account_id.clone(),
            sso_role_name: self.sso_role_name.clone(),
            session_name: self.session_name.clone(),
            production: self.production,
        }
    }
}

/// Entries of a table as (name, profile) pairs of plain values.
pub open spec fn entry_views(entries: Seq<(String, ProfileInfo)>) -> Seq<(Seq<char>, ProfileView)> {
    entries.map_values(|e: (String, ProfileInfo)| (e.0@, e.1@))
}

/// No name occurs twice.
pub open spec fn names_distinct(es: Seq<(Seq<char>, ProfileView)>) -> bool {
    keys_distinct(es)
}

/// The map from names to profiles described by a list of distinct-named entries.
pub open spec fn entries_map(es: Seq<(Seq<char>, ProfileView)>) -> Map<Seq<char>, ProfileView> {
    pairs_map(es)
}

/// A table of profiles keyed by name. Each name occurs at most once.
pub struct ProfileMap {
    entries: Vec<(String, ProfileInfo)>,
}

impl ProfileMap {
    #[verifier::type_invariant]
    spec fn inv(self) -> bool {
        names_distinct(entry_views(self.entries@))
    }

    /// The entries in their stored order, as plain values.
    pub closed spec fn entry_seq(self) -> Seq<(Seq<char>, ProfileView)> {
        entry_views(self.entries@)
    }
}

impl View for ProfileMap {
    type V = Map<Seq<char>, ProfileView>;

    open spec fn view(&self) -> Map<Seq<char>, ProfileView> {
        entries_map(self.entry_seq())
    }
}

impl ProfileMap {
    /// An empty table.
    pub fn new() -> (r: ProfileMap)
        ensures
            r@ == Map::<Seq<char>, ProfileView>::empty(),
            r.entry_seq().len() == 0,
    {
        let r = ProfileMap { entries: Vec::new() };
        assert(r@ =~= Map::<Seq<char>, ProfileView>::empty());
        r
    }

    /// Number of profiles.
    pub fn len(&self) -> (n: usize)
        ensures
            n == self@.len(),
            n == self.entry_seq().len(),
    {
        proof {
            use_type_invariant(self);
            lemma_pairs_map_len(self.entry_seq());
        }
        self.entries.len()
    }

    /// Whether there are no profiles.
    pub fn is_empty(&self) -> (r: bool)
        ensures
            r == (self@.len() == 0),
            r == (self@ == Map::<Seq<char>, ProfileView>::empty()),
    {
        proof {
            use_type_invariant(self);
            lemma_pairs_map_len(self.entry_seq());
            if self.entries@.len() == 0 {
                assert(self@ =~= Map::<Seq<char>, ProfileView>::empty());
            } else {
                lemma_pairs_map_at(self.entry_seq(), 0);
            }
        }
        self.entries.len() == 0
    }

    /// Position of `name` in the stored entries.
    fn find(&self, name: &str) -> (r: Option<usize>)
        ensures
            match r {
                Some(i) => i < self.entry_seq().len() && self.entry_seq()[i as int].0 == name@,
                None => !self@.contains_key(name@),
            },
    {
        let key = name.to_owned();
        let mut i: usize = 0;
        while i < self.entries.len()
            invariant
                0 <= i <= self.entries@.len(),
                key@ == name@,
                forall|k: int| 0 <= k < i ==> self.entry_seq()[k].0 != name@,
            decreases self.entries@.len() - i,
        {
            if self.entries[i].0 == key {
                return Some(i);
            }
            i = i + 1;
        }
        None
    }

    /// Whether a profile is recorded under `name`.
    pub fn contains_key(&self, name: &str) -> (r: bool)
        ensures
            r == self@.contains_key(name@),
    {
        proof {
            use_type_invariant(self);
        }
        match self.find(name) {
            Some(i) => {
                proof {
                    lemma_pairs_map_at(self.entry_seq(), i as int);
                }
                true
            },
            None => false,
        }
    }

    /// The profile recorded under `name`.
    pub fn get(&self, name: &str) -> (r: Option<&ProfileInfo>)
        ensures
            match r {
                Some(p) => self@.contains_key(name@) && p@ == self@[name@],
                None => !self@.contains_key(name@),
            },
    {
        proof {
            use_type_invariant(self);
        }
        match self.find(name) {
            Some(i) => {
                proof {
                    lemma_pairs_map_at(self.entry_seq(), i as int);
                }
                Some(&self.entries[i].1)
            },
            None => None,
        }
    }
}


impl ProfileMap {
    /// Records `info` under `name`, replacing and returning any profile
    /// already recorded under that name.
    pub fn insert(&mut self, name: String, info: ProfileInfo) -> (r: Option<ProfileInfo>)
        ensures
            final(self)@ == old(self)@.insert(name@, info@),
            match r {
                Some(p) => old(self)@.contains_key(name@) && p@ == old(self)@[name@],
                None => !old(self)@.contains_key(name@),
            },
    {
        proof {
            use_type_invariant(&*self);
        }
        let found = self.find(name.as_str());
        let mut entries: Vec<(String, ProfileInfo)> = Vec::new();
        std::mem::swap(&mut entries, &mut self.entries);
        let ghost es = entry_views(entries@);
        match found {
            Some(i) => {
                proof {
                    lemma_pairs_map_at(es, i as int);
                    lemma_pairs_map_update(es, i as int, info@);
                }
                let previous = entries.remove(i);
                entries.insert(i, (name, info));
                assert(entry_views(entries@) =~= es.update(i as int, (es[i as int].0, info@)));
                self.entries = entries;
                Some(previous.1)
            },
            None => {
                proof {
                    lemma_pairs_map_push(es, name@, info@);
                }
                entries.push((name, info));
                assert(entry_views(entries@) =~= es.push((name@, info@)));
                self.entries = entries;
                None
            },
        }
    }

    /// Removes and returns the profile recorded under `name`.
    pub fn remove(&mut self, name: &str) -> (r: Option<ProfileInfo>)
        ensures
            final(self)@ == old(self)@.remove(name@),
            match r {
                Some(p) => old(self)@.contains_key(name@) && p@ == old(self)@[name@],
                None => !old(self)@.contains_key(name@),
            },
    {
        proof {
            use_type_invariant(&*self);
        }
        let found = self.find(name);
        match found {
            Some(i) => {
                let mut entries: Vec<(String, ProfileInfo)> = Vec::new();
                std::mem::swap(&mut entries, &mut self.entries);
                let ghost es = entry_views(entries@);
                proof {
                    lemma_pairs_map_at(es, i as int);
                    lemma_pairs_map_remove(es, i as int);
                }
                let removed = entries.remove(i);
                assert(entry_views(entries@) =~= es.remove(i as int));
                self.entries = entries;
                Some(removed.1)
            },
            None => {
                assert(old(self)@.remove(name@) =~= old(self)@);
                None
            },
        }
    }

    /// Sets the production flag of the profile recorded under `name`;
    /// `false` (and no change) when there is none.
    pub fn set_production(&mut self, name: &str, production: bool) -> (r: bool)
        ensures
            r == old(self)@.contains_key(name@),
            r ==> final(self)@ == old(self)@.insert(
                name@,
                ProfileView { production, ..old(self)@[name@] },
            ),
            !r ==> final(self)@ == old(self)@,
    {
        proof {
            use_type_invariant(&*self);
        }
        match self.find(name) {
            Some(i) => {
                let mut entries: Vec<(String, ProfileInfo)> = Vec::new();
                std::mem::swap(&mut entries, &mut self.entries);
                let ghost es = entry_views(entries@);
                let (n, mut info) = entries.remove(i);
                info.production = production;
                let ghost v = info@;
                proof {
                    lemma_pairs_map_at(es, i as int);
                    lemma_pairs_map_update(es, i as int, v);
                }
                entries.insert(i, (n, info));
                assert(entry_views(entries@) =~= es.update(i as int, (es[i as int].0, v)));
                self.entries = entries;
                assert(v == ProfileView { production, ..old(self)@[name@] });
                true
            },
            None => false,
        }
    }

    /// All (name, profile) pairs, each name once, in the table's order.
    pub fn iter_pairs(&self) -> (r: Vec<(&String, &ProfileInfo)>)
        ensures
            r@.map_values(|e: (&String, &ProfileInfo)| (e.0@, e.1@)) == self.entry_seq(),
            names_distinct(self.entry_seq()),
            self@ == entries_map(self.entry_seq()),
            r@.len() == self@.len(),
    {
        proof {
            use_type_invariant(self);
            lemma_pairs_map_len(self.entry_seq());
        }
        let mut r: Vec<(&String, &ProfileInfo)> = Vec::new();
        let mut i: usize = 0;
        while i < self.entries.len()
            invariant
                0 <= i <= self.entries@.len(),
                r@.map_values(|e: (&String, &ProfileInfo)| (e.0@, e.1@)) == self.entry_seq().take(
                    i as int,
                ),
            decreases self.entries@.len() - i,
        {
            let e = &self.entries[i];
            let ghost old_r = r@.map_values(|e: (&String, &ProfileInfo)| (e.0@, e.1@));
            r.push((&e.0, &e.1));
            assert(r@.map_values(|e: (&String, &ProfileInfo)| (e.0@, e.1@)) =~= old_r.push(
                (e.0@, e.1@),
            ));
            assert(self.entry_seq()[i as int] == (e.0@, e.1@));
            assert(self.entry_seq().take(i + 1) =~= self.entry_seq().take(i as int).push(
                self.entry_seq()[i as int],
            ));
            i = i + 1;
            assert(r@.map_values(|e: (&String, &ProfileInfo)| (e.0@, e.1@)) =~= self.entry_seq().take(
                i as int,
            ));
        }
        assert(self.entry_seq().take(self.entries@.len() as int) =~= self.entry_seq());
        r
    }

    /// The recorded names, each once, in the table's order.
    pub fn keys(&self) -> (r: Vec<String>)
        ensures
            r@.map_values(|s: String| s@) == self.entry_seq().map_values(
                |e: (Seq<char>, ProfileView)| e.0,
            ),
    {
        let mut r: Vec<String> = Vec::new();
        let mut i: usize = 0;
        while i < self.entries.len()
            invariant
                0 <= i <= self.entries@.len(),
                r@.map_values(|s: String| s@) == self.entry_seq().map_values(
                    |e: (Seq<char>, ProfileView)| e.0,
                ).take(i as int),
            decreases self.entries@.len() - i,
        {
            let ghost old_r = r@.map_values(|s: String| s@);
            let name = self.entries[i].0.clone();
            r.push(name);
            assert(r@.map_values(|s: String| s@) =~= old_r.push(self.entries@[i as int].0@));
            assert(self.entry_seq()[i as int].0 == self.entries@[i as int].0@);
            i = i + 1;
            assert(r@.map_values(|s: String| s@) =~= self.entry_seq().map_values(
                |e: (Seq<char>, ProfileView)| e.0,
            ).take(i as int));
        }
        assert(self.entry_seq().map_values(|e: (Seq<char>, ProfileView)| e.0).take(
            self.entries@.len() as int,
        ) =~= self.entry_seq().map_values(|e: (Seq<char>, ProfileView)| e.0));
        r
    }
}

} // verus!
