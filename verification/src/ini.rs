//! The AWS CLI config file as sections of keys: parsing (by `configparser`),
//! lookups, removal and rendering.

use vstd::prelude::*;

use crate::config::opt_view;
use crate::keyed::{keys_distinct, lemma_pairs_map_at, lemma_pairs_map_remove, pairs_map};
use crate::profile::{ProfileInfo, ProfileView};
use crate::text::{chars_of, push_str, str_eq, string_from_chars};

verus! {

/// One `[section]` of an INI document and its keys, each with an optional value.
pub struct IniSection {
    pub name: String,
    pub entries: Vec<(String, Option<String>)>,
}

/// The sections of an INI document.
pub struct IniDoc {
    pub sections: Vec<IniSection>,
}

/// A section as plain values: its name and its (key, value) entries.
pub type SectionView = (Seq<char>, Seq<(Seq<char>, Option<Seq<char>>)>);

/// The keys of one section, as a map.
pub type KeyMap = Map<Seq<char>, Option<Seq<char>>>;

/// A whole document, as a map from section names to their keys.
pub type IniMap = Map<Seq<char>, KeyMap>;

impl View for IniSection {
    type V = SectionView;

    open spec fn view(&self) -> SectionView {
        (self.name@, self.entries@.map_values(|e: (String, Option<String>)| (e.0@, opt_view(e.1))))
    }
}

impl View for IniDoc {
    type V = Seq<SectionView>;

    open spec fn view(&self) -> Seq<SectionView> {
        self.sections@.map_values(|s: IniSection| s@)
    }
}

/// Each section as (name, map of its keys).
pub open spec fn section_maps(d: Seq<SectionView>) -> Seq<(Seq<char>, KeyMap)> {
    d.map_values(|s: SectionView| (s.0, pairs_map(s.1)))
}

/// No section name occurs twice, and no key occurs twice within a section.
pub open spec fn doc_wf(d: Seq<SectionView>) -> bool {
    &&& keys_distinct(section_maps(d))
    &&& forall|i: int| 0 <= i < d.len() ==> #[trigger] keys_distinct(d[i].1)
}

/// The document as a map from section names to their keys.
pub open spec fn doc_map(d: Seq<SectionView>) -> IniMap {
    pairs_map(section_maps(d))
}

/// What `configparser` makes of a text read into a fresh, case-insensitive
/// `Ini`: the sections with their keys, or the error message.
pub uninterp spec fn ini_parse(text: Seq<char>) -> Result<IniMap, Seq<char>>;

/// Parses `text` with `configparser::ini::Ini::new()` and `Ini::read`.
///
/// Claims: the result is the one `ini_parse` names for the text; on success,
/// the sections and keys listed are those of the parsed map, each once (they
/// come out of `HashMap`s, in an order that nothing here fixes).
#[verifier::external_body]
pub(crate) fn parse_ini(text: String) -> (r: Result<IniDoc, String>)
    ensures
        match r {
            Ok(doc) => ini_parse(text@) == Ok::<IniMap, Seq<char>>(doc_map(doc@)) && doc_wf(doc@),
            Err(e) => ini_parse(text@) == Err::<IniMap, Seq<char>>(e@),
        },
{
    let mut ini = configparser::ini::Ini::new();
    ini.read(text).map(
        |map| IniDoc {
            sections: map.into_iter().map(
                |(name, keys)| IniSection { name, entries: keys.into_iter().collect() },
            ).collect(),
        },
    )
}

// ---------------------------------------------------------------------------
// Rendering
// ---------------------------------------------------------------------------

/// The `key = value` lines of a section; keys without a value are left out.
pub open spec fn render_entries(es: Seq<(Seq<char>, Option<Seq<char>>)>) -> Seq<char>
    decreases es.len(),
{
    if es.len() == 0 {
        Seq::empty()
    } else {
        render_entries(es.drop_last()) + match es.last().1 {
            Some(v) => es.last().0 + " = "@ + v + "\n"@,
            None => Seq::empty(),
        }
    }
}

/// A section: its `[name]` header, its entries, and a blank line.
pub open spec fn render_section(s: SectionView) -> Seq<char> {
    "["@ + s.0 + "]\n"@ + render_entries(s.1) + "\n"@
}

/// The sections, rendered one after the other in their listed order.
pub open spec fn render_doc(d: Seq<SectionView>) -> Seq<char>
    decreases d.len(),
{
    if d.len() == 0 {
        Seq::empty()
    } else {
        render_doc(d.drop_last()) + render_section(d.last())
    }
}

/// `out` renders a document whose sections and keys are those of `m`, each
/// once, in some order.
pub open spec fn renders(m: IniMap, out: Seq<char>) -> bool {
    exists|d: Seq<SectionView>| doc_wf(d) && doc_map(d) == m && #[trigger] render_doc(d) == out
}

/// Renders the document in the layout Kee writes the AWS config file in.
pub fn render_ini(doc: &IniDoc) -> (r: String)
    ensures
        r@ == render_doc(doc@),
{
    let mut out: Vec<char> = Vec::new();
    let mut i: usize = 0;
    while i < doc.sections.len()
        invariant
            0 <= i <= doc.sections@.len(),
            out@ == render_doc(doc@.take(i as int)),
        decreases doc.sections@.len() - i,
    {
        let sec = &doc.sections[i];
        push_str(&mut out, "[");
        push_str(&mut out, sec.name.as_str());
        push_str(&mut out, "]\n");
        let ghost head = out@;
        let mut j: usize = 0;
        while j < sec.entries.len()
            invariant
                0 <= j <= sec.entries@.len(),
                sec == &doc.sections@[i as int],
                out@ == head + render_entries(sec@.1.take(j as int)),
            decreases sec.entries@.len() - j,
        {
            let e = &sec.entries[j];
            assert(sec@.1.take(j + 1).drop_last() =~= sec@.1.take(j as int));
            match &e.1 {
                Some(v) => {
                    push_str(&mut out, e.0.as_str());
                    push_str(&mut out, " = ");
                    push_str(&mut out, v.as_str());
                    push_str(&mut out, "\n");
                },
                None => {},
            }
            j = j + 1;
        }
        assert(sec@.1.take(sec@.1.len() as int) =~= sec@.1);
        push_str(&mut out, "\n");
        assert(doc@.take(i + 1).drop_last() =~= doc@.take(i as int));
        i = i + 1;
    }
    assert(doc@.take(doc@.len() as int) =~= doc@);
    string_from_chars(out.as_slice())
}

// ---------------------------------------------------------------------------
// Lookups
// ---------------------------------------------------------------------------

/// The value stored under `key`, if the key is there with a value.
pub open spec fn lookup(keys: KeyMap, key: Seq<char>) -> Option<Seq<char>> {
    if keys.contains_key(key) {
        keys[key]
    } else {
        None
    }
}

/// The value stored under `key`, or the empty string.
pub open spec fn value_or_empty(keys: KeyMap, key: Seq<char>) -> Seq<char> {
    match lookup(keys, key) {
        Some(v) => v,
        None => Seq::empty(),
    }
}

/// The SSO start URL and region of a profile section: from its `sso-session`
/// section when it names one (empty when that section is missing), else from
/// the profile section itself (the legacy layout).
pub open spec fn sso_location(m: IniMap, profile: KeyMap) -> (Seq<char>, Seq<char>) {
    let session = value_or_empty(profile, "sso_session"@);
    if session.len() > 0 {
        let name = "sso-session "@ + session;
        if m.contains_key(name) {
            (value_or_empty(m[name], "sso_start_url"@), value_or_empty(m[name], "sso_region"@))
        } else {
            (Seq::empty(), Seq::empty())
        }
    } else {
        (value_or_empty(profile, "sso_start_url"@), value_or_empty(profile, "sso_region"@))
    }
}

/// The profile called `name` in a parsed AWS config: its `[profile name]`
/// section must hold both `sso_account_id` and `sso_role_name`. It is never
/// marked as production.
pub open spec fn profile_in(m: IniMap, name: Seq<char>) -> Option<ProfileView> {
    let section = "profile "@ + name;
    if !m.contains_key(section) {
        None
    } else {
        let keys = m[section];
        match (lookup(keys, "sso_account_id"@), lookup(keys, "sso_role_name"@)) {
            (Some(account), Some(role)) => {
                let (url, region) = sso_location(m, keys);
                Some(
                    ProfileView {
                        profile_name: name,
                        sso_start_url: url,
                        sso_region: region,
                        sso_account_id: account,
                        sso_role_name: role,
                        session_name: value_or_empty(keys, "sso_session"@),
                        production: false,
                    },
                )
            },
            _ => None,
        }
    }
}

/// Index of the section called `name`.
pub fn find_section(doc: &IniDoc, name: &str) -> (r: Option<usize>)
    requires
        doc_wf(doc@),
    ensures
        match r {
            Some(i) => i < doc.sections@.len() && doc.sections@[i as int].name@ == name@
                && doc_map(doc@).contains_key(name@) && doc_map(doc@)[name@] == pairs_map(
                doc@[i as int].1,
            ),
            None => !doc_map(doc@).contains_key(name@),
        },
{
    let mut i: usize = 0;
    while i < doc.sections.len()
        invariant
            0 <= i <= doc.sections@.len(),
            doc_wf(doc@),
            forall|k: int| 0 <= k < i ==> doc.sections@[k].name@ != name@,
        decreases doc.sections@.len() - i,
    {
        if str_eq(doc.sections[i].name.as_str(), name) {
            proof {
                assert(section_maps(doc@)[i as int].0 == name@);
                lemma_pairs_map_at(section_maps(doc@), i as int);
            }
            return Some(i);
        }
        i = i + 1;
    }
    proof {
        if doc_map(doc@).contains_key(name@) {
            let k = choose|k: int| 0 <= k < section_maps(doc@).len() && section_maps(doc@)[k].0 == name@;
            assert(doc.sections@[k].name@ == name@);
        }
    }
    None
}

/// The value stored under `key` in a section, if the key is there with a value.
pub fn section_value(sec: &IniSection, key: &str) -> (r: Option<String>)
    requires
        keys_distinct(sec@.1),
    ensures
        opt_view(r) == lookup(pairs_map(sec@.1), key@),
{
    let mut j: usize = 0;
    while j < sec.entries.len()
        invariant
            0 <= j <= sec.entries@.len(),
            keys_distinct(sec@.1),
            forall|k: int| 0 <= k < j ==> sec.entries@[k].0@ != key@,
        decreases sec.entries@.len() - j,
    {
        if str_eq(sec.entries[j].0.as_str(), key) {
            proof {
                assert(sec@.1[j as int].0 == key@);
                lemma_pairs_map_at(sec@.1, j as int);
            }
            return match &sec.entries[j].1 {
                Some(v) => Some(v.clone()),
                None => None,
            };
        }
        j = j + 1;
    }
    proof {
        if pairs_map(sec@.1).contains_key(key@) {
            let k = choose|k: int| 0 <= k < sec@.1.len() && sec@.1[k].0 == key@;
            assert(sec.entries@[k].0@ == key@);
        }
    }
    None
}

/// The value stored under `key` in a section, or the empty string.
fn section_value_or_empty(sec: &IniSection, key: &str) -> (r: String)
    requires
        keys_distinct(sec@.1),
    ensures
        r@ == value_or_empty(pairs_map(sec@.1), key@),
{
    match section_value(sec, key) {
        Some(v) => v,
        None => String::new(),
    }
}

/// Reads the profile called `profile_name` out of a parsed AWS config, as
/// `profile_in` describes it.
pub fn profile_from_ini(doc: &IniDoc, profile_name: &str) -> (r: Option<ProfileInfo>)
    requires
        doc_wf(doc@),
    ensures
        match r {
            Some(p) => profile_in(doc_map(doc@), profile_name@) == Some(p@),
            None => profile_in(doc_map(doc@), profile_name@) is None,
        },
{
    let ghost m = doc_map(doc@);
    let mut section_name = chars_of("profile ");
    push_str(&mut section_name, profile_name);
    let section_name = string_from_chars(section_name.as_slice());
    let i = match find_section(doc, section_name.as_str()) {
        Some(i) => i,
        None => return None,
    };
    let sec = &doc.sections[i];
    assert(keys_distinct(doc@[i as int].1));
    let account = match section_value(sec, "sso_account_id") {
        Some(a) => a,
        None => return None,
    };
    let role = match section_value(sec, "sso_role_name") {
        Some(r) => r,
        None => return None,
    };
    let session_name = section_value_or_empty(sec, "sso_session");
    let (url, region) = if session_name.as_str().is_empty() {
        (section_value_or_empty(sec, "sso_start_url"), section_value_or_empty(sec, "sso_region"))
    } else {
        let mut sso_name = chars_of("sso-session ");
        push_str(&mut sso_name, session_name.as_str());
        let sso_name = string_from_chars(sso_name.as_slice());
        match find_section(doc, sso_name.as_str()) {
            Some(k) => {
                let s = &doc.sections[k];
                assert(keys_distinct(doc@[k as int].1));
                (section_value_or_empty(s, "sso_start_url"), section_value_or_empty(s, "sso_region"))
            },
            None => (String::new(), String::new()),
        }
    };
    Some(
        ProfileInfo {
            profile_name: profile_name.to_owned(),
            sso_start_url: url,
            sso_region: region,
            sso_account_id: account,
            sso_role_name: role,
            session_name,
            production: false,
        },
    )
}

// ---------------------------------------------------------------------------
// Removing a section
// ---------------------------------------------------------------------------

/// What `str::to_lowercase` makes of a text (the Unicode lower-case mapping);
/// `configparser` folds section names this way in a case-insensitive `Ini`.
pub uninterp spec fn lowercased(s: Seq<char>) -> Seq<char>;

/// Calls `str::to_lowercase`.
///
/// Claims: the result is the one `lowercased` names for the text.
#[verifier::external_body]
fn lowercase(s: &str) -> (r: String)
    ensures
        r@ == lowercased(s@),
{
    s.to_lowercase()
}

/// The name under which a case-insensitive `configparser::ini::Ini` files the
/// section of the AWS profile `profile_name`.
pub open spec fn profile_section_key(profile_name: Seq<char>) -> Seq<char> {
    lowercased("profile "@ + profile_name)
}

impl IniDoc {
    /// A document without sections.
    pub fn empty() -> (r: IniDoc)
        ensures
            r@.len() == 0,
            doc_wf(r@),
            doc_map(r@) == Map::<Seq<char>, KeyMap>::empty(),
    {
        let r = IniDoc { sections: Vec::new() };
        assert(doc_map(r@) =~= Map::<Seq<char>, KeyMap>::empty());
        r
    }

    /// Removes the section called `name`, if there is one; tells whether there was.
    pub fn remove_section(&mut self, name: &str) -> (removed: bool)
        requires
            doc_wf(old(self)@),
        ensures
            doc_wf(final(self)@),
            doc_map(final(self)@) == doc_map(old(self)@).remove(name@),
            removed == doc_map(old(self)@).contains_key(name@),
    {
        match find_section(self, name) {
            Some(i) => {
                let ghost d = self@;
                self.sections.remove(i);
                proof {
                    assert(self@ =~= d.remove(i as int));
                    assert(section_maps(d.remove(i as int)) =~= section_maps(d).remove(i as int));
                    assert(section_maps(d)[i as int].0 == name@);
                    lemma_pairs_map_remove(section_maps(d), i as int);
                    assert forall|k: int| 0 <= k < self@.len() implies #[trigger] keys_distinct(
                        self@[k].1,
                    ) by {
                        if k < i {
                            assert(self@[k] == d[k]);
                        } else {
                            assert(self@[k] == d[k + 1]);
                        }
                    }
                }
                true
            },
            None => {
                assert(doc_map(self@) =~= doc_map(self@).remove(name@));
                false
            },
        }
    }
}

/// The document without the section of the AWS profile `profile_name`, found
/// under its case-folded name as `configparser` files it.
pub fn remove_profile_section(doc: &mut IniDoc, profile_name: &str)
    requires
        doc_wf(old(doc)@),
    ensures
        doc_wf(final(doc)@),
        doc_map(final(doc)@) == doc_map(old(doc)@).remove(profile_section_key(profile_name@)),
{
    let mut name = chars_of("profile ");
    push_str(&mut name, profile_name);
    let name = string_from_chars(name.as_slice());
    let key = lowercase(name.as_str());
    doc.remove_section(key.as_str());
}

} // verus!
