//! What the `kee` command decides and prints, apart from the terminal and the
//! processes it drives: answers to prompts, which profile a command acts on,
//! the sub-shell's settings, exit codes, and the text of listings.

use vstd::prelude::*;

use crate::config::KeeConfig;
use crate::json::{first_string_in, first_string_under, json_parse, parse_json};
use crate::profile::{ProfileInfo, ProfileView};
use crate::text::{
    chars_lt, chars_of, lemma_seq_lt_irreflexive, lemma_seq_lt_transitive, push_str, seq_lt,
    str_eq, string_from_chars, trim, trim_chars,
};

verus! {

broadcast use vstd::seq_lib::group_to_multiset_ensures;

/// Kee's version.
pub const VERSION: &'static str = "1.7.0";

// ---------------------------------------------------------------------------
// Highlighting and prompts
// ---------------------------------------------------------------------------

/// `text` in bold white.
pub open spec fn hlt_spec(text: Seq<char>) -> Seq<char> {
    "\x1b[1;37m"@ + text + "\x1b[0m"@
}

/// Highlights `text` in bold white for the terminal.
pub fn hlt(text: &str) -> (r: String)
    ensures
        r@ == hlt_spec(text@),
{
    let mut out = chars_of("\x1b[1;37m");
    push_str(&mut out, text);
    push_str(&mut out, "\x1b[0m");
    string_from_chars(out.as_slice())
}

/// A typed answer to a yes/no prompt means yes: it is `y` or `Y` once the
/// surrounding white space is trimmed.
pub open spec fn yes_answer(input: Seq<char>) -> bool {
    trim(input) == seq!['y'] || trim(input) == seq!['Y']
}

/// Whether a line typed at a `(y/N)` prompt accepts it; anything else declines.
pub fn is_yes_answer(input: &str) -> (r: bool)
    ensures
        r == yes_answer(input@),
{
    let t = trim_chars(&chars_of(input));
    if t.len() != 1 {
        assert(seq!['y'].len() == 1 && seq!['Y'].len() == 1);
        return false;
    }
    assert(t@ =~= seq![t@[0]]);
    t[0] == 'y' || t[0] == 'Y'
}

// ---------------------------------------------------------------------------
// Choices made from the environment
// ---------------------------------------------------------------------------

/// The home directory: `HOME` when set and non-empty, then (on Windows)
/// `USERPROFILE` when set and non-empty, then the system's answer.
pub open spec fn home_dir_choice(
    home: Option<Seq<char>>,
    user_profile: Option<Seq<char>>,
    on_windows: bool,
    fallback: Option<Seq<char>>,
) -> Option<Seq<char>> {
    if home matches Some(h) && h.len() > 0 {
        home
    } else if on_windows && (user_profile matches Some(u) && u.len() > 0) {
        user_profile
    } else {
        fallback
    }
}

/// Picks the home directory from the values of `HOME` and `USERPROFILE` and
/// the system's own answer (`fallback`).
pub fn choose_home_dir(
    home: Option<String>,
    user_profile: Option<String>,
    on_windows: bool,
    fallback: Option<String>,
) -> (r: Option<String>)
    ensures
        crate::config::opt_view(r) == home_dir_choice(
            crate::config::opt_view(home),
            crate::config::opt_view(user_profile),
            on_windows,
            crate::config::opt_view(fallback),
        ),
{
    if let Some(h) = &home {
        if !h.as_str().is_empty() {
            return home;
        }
    }
    if on_windows {
        if let Some(u) = &user_profile {
            if !u.as_str().is_empty() {
                return user_profile;
            }
        }
    }
    fallback
}

/// The profile a command acts on: the one named on the command line, else
/// the one of the active session (when its name is not empty); `None` leaves
/// the choice to the interactive picker.
pub open spec fn profile_target(arg: Option<Seq<char>>, session: Option<Seq<char>>) -> Option<Seq<char>> {
    match arg {
        Some(a) => Some(a),
        None => match session {
            Some(s) if s.len() > 0 => Some(s),
            _ => None,
        },
    }
}

/// Resolves the profile for `kee console` and `kee refresh` from the argument
/// and the active session's profile (`KEE_CURRENT_PROFILE`).
pub fn resolve_profile_arg(arg: Option<String>, session: Option<String>) -> (r: Option<String>)
    ensures
        crate::config::opt_view(r) == profile_target(
            crate::config::opt_view(arg),
            crate::config::opt_view(session),
        ),
{
    match arg {
        Some(a) => Some(a),
        None => match session {
            Some(s) => if s.as_str().is_empty() {
                None
            } else {
                Some(s)
            },
            None => None,
        },
    }
}

/// The program run as the sub-shell: `COMSPEC` (else `cmd.exe`) on Windows,
/// `SHELL` (else `/bin/bash`) elsewhere.
pub fn subshell_program(on_windows: bool, comspec: Option<String>, shell: Option<String>) -> (r: String)
    ensures
        r@ == if on_windows {
            match comspec {
                Some(c) => c@,
                None => "cmd.exe"@,
            }
        } else {
            match shell {
                Some(s) => s@,
                None => "/bin/bash"@,
            }
        },
{
    if on_windows {
        match comspec {
            Some(c) => c,
            None => "cmd.exe".to_owned(),
        }
    } else {
        match shell {
            Some(s) => s,
            None => "/bin/bash".to_owned(),
        }
    }
}

/// The sub-shell's `PS1`: `aws:PROFILE ` before the inherited prompt, or
/// before `$ ` when none is inherited.
pub open spec fn prompt_spec(profile: Seq<char>, ps1: Option<Seq<char>>) -> Seq<char> {
    "aws:"@ + profile + " "@ + match ps1 {
        Some(p) => p,
        None => "$ "@,
    }
}

/// Builds the sub-shell's `PS1` for the profile.
pub fn subshell_prompt(profile: &str, ps1: Option<&str>) -> (r: String)
    ensures
        r@ == prompt_spec(profile@, crate::console::str_opt_view(ps1)),
{
    let mut out = chars_of("aws:");
    push_str(&mut out, profile);
    push_str(&mut out, " ");
    match ps1 {
        Some(p) => push_str(&mut out, p),
        None => push_str(&mut out, "$ "),
    }
    string_from_chars(out.as_slice())
}

// ---------------------------------------------------------------------------
// Messages and listings
// ---------------------------------------------------------------------------

/// Printed when no profile is configured.
pub open spec fn no_profiles_spec() -> Seq<char> {
    "\n [!] No profiles configured.\n Run "@ + hlt_spec("kee add PROFILE_NAME"@) + " to add one.\n"@
}

/// The message shown when no profile is configured.
pub fn no_profiles_message() -> (r: String)
    ensures
        r@ == no_profiles_spec(),
{
    let mut out = chars_of("\n [!] No profiles configured.\n Run ");
    let h = hlt("kee add PROFILE_NAME");
    push_str(&mut out, h.as_str());
    push_str(&mut out, " to add one.\n");
    string_from_chars(out.as_slice())
}

/// What `kee current` prints: the active session's profile (with how to leave
/// the session) when there is one, else the profile recorded as current.
pub open spec fn current_message_spec(session: Option<Seq<char>>, recorded: Option<Seq<char>>) -> Seq<char> {
    match session {
        Some(s) => "\n Current profile: "@ + hlt_spec(s) + "\n Type "@ + hlt_spec("exit"@)
            + " to return to your main shell.\n"@,
        None => match recorded {
            Some(c) => "\n Current profile: "@ + hlt_spec(c) + "\n"@,
            None => "\n [!] No profile is currently active.\n"@,
        },
    }
}

/// Builds what `kee current` prints.
pub fn current_profile_message(session: Option<&str>, recorded: Option<&str>) -> (r: String)
    ensures
        r@ == current_message_spec(
            crate::console::str_opt_view(session),
            crate::console::str_opt_view(recorded),
        ),
{
    match session {
        Some(s) => {
            let mut out = chars_of("\n Current profile: ");
            push_str(&mut out, hlt(s).as_str());
            push_str(&mut out, "\n Type ");
            push_str(&mut out, hlt("exit").as_str());
            push_str(&mut out, " to return to your main shell.\n");
            string_from_chars(out.as_slice())
        },
        None => match recorded {
            Some(c) => {
                let mut out = chars_of("\n Current profile: ");
                push_str(&mut out, hlt(c).as_str());
                push_str(&mut out, "\n");
                string_from_chars(out.as_slice())
            },
            None => "\n [!] No profile is currently active.\n".to_owned(),
        },
    }
}

/// One profile in `kee ls`: its name (marked when current), account ID and role.
pub open spec fn listing_entry(name: Seq<char>, p: ProfileView, current: Option<Seq<char>>) -> Seq<char> {
    " "@ + hlt_spec(name) + (if current == Some(name) {
        " (Current profile)"@
    } else {
        Seq::empty()
    }) + "\n"@ + " \u{2022} "@ + hlt_spec("Account ID:"@) + " "@ + p.sso_account_id + "\n"@
        + " \u{2022} "@ + hlt_spec("Role:"@) + " "@ + p.sso_role_name + "\n\n"@
}

/// The entries of `kee ls`, in the given order.
pub open spec fn listing_entries(es: Seq<(Seq<char>, ProfileView)>, current: Option<Seq<char>>) -> Seq<char>
    decreases es.len(),
{
    if es.len() == 0 {
        Seq::empty()
    } else {
        listing_entries(es.drop_last(), current) + listing_entry(es.last().0, es.last().1, current)
    }
}

/// One name per line, in the given order.
pub open spec fn name_lines(es: Seq<(Seq<char>, ProfileView)>) -> Seq<char>
    decreases es.len(),
{
    if es.len() == 0 {
        Seq::empty()
    } else {
        name_lines(es.drop_last()) + es.last().0 + "\n"@
    }
}

/// What `kee ls` (or `kee ls --names`) prints for the profiles `es`.
pub open spec fn listing_spec(es: Seq<(Seq<char>, ProfileView)>, current: Option<Seq<char>>, names_only: bool) -> Seq<char> {
    if es.len() == 0 {
        if names_only {
            Seq::empty()
        } else {
            no_profiles_spec()
        }
    } else if names_only {
        name_lines(es)
    } else {
        "\n"@ + listing_entries(es, current)
    }
}

/// Appends the `kee ls` entry of one profile.
fn push_listing_entry(out: &mut Vec<char>, name: &String, info: &ProfileInfo, current: &Option<String>)
    ensures
        final(out)@ == old(out)@ + listing_entry(name@, info@, crate::config::opt_view(*current)),
{
    push_str(out, " ");
    push_str(out, hlt(name.as_str()).as_str());
    let is_current = match current {
        Some(c) => str_eq(c.as_str(), name.as_str()),
        None => false,
    };
    if is_current {
        push_str(out, " (Current profile)");
    }
    push_str(out, "\n");
    push_str(out, " \u{2022} ");
    push_str(out, hlt("Account ID:").as_str());
    push_str(out, " ");
    push_str(out, info.sso_account_id.as_str());
    push_str(out, "\n");
    push_str(out, " \u{2022} ");
    push_str(out, hlt("Role:").as_str());
    push_str(out, " ");
    push_str(out, info.sso_role_name.as_str());
    push_str(out, "\n\n");
}

/// Builds what `kee ls` prints: every profile with its account and role, the
/// current one marked; with `names_only`, just the names, one per line (and
/// nothing at all when there are none).
pub fn profile_listing(config: &KeeConfig, names_only: bool) -> (r: String)
    ensures
        r@ == listing_spec(config.profiles.entry_seq(), config@.current_profile, names_only),
{
    let pairs = config.profiles.iter_pairs();
    let ghost es = config.profiles.entry_seq();
    let ghost current = config@.current_profile;
    if pairs.len() == 0 {
        assert(es.len() == 0);
        if names_only {
            return String::new();
        } else {
            return no_profiles_message();
        }
    }
    let mut out: Vec<char> = Vec::new();
    if !names_only {
        push_str(&mut out, "\n");
    }
    let ghost head = out@;
    let mut i: usize = 0;
    while i < pairs.len()
        invariant
            0 <= i <= pairs@.len(),
            pairs@.map_values(|e: (&String, &ProfileInfo)| (e.0@, e.1@)) == es,
            current == crate::config::opt_view(config.current_profile),
            out@ == head + if names_only {
                name_lines(es.take(i as int))
            } else {
                listing_entries(es.take(i as int), current)
            },
        decreases pairs@.len() - i,
    {
        let (name, info) = pairs[i];
        assert(es[i as int] == (name@, info@));
        assert(es.take(i + 1).drop_last() =~= es.take(i as int));
        if names_only {
            push_str(&mut out, name.as_str());
            push_str(&mut out, "\n");
        } else {
            push_listing_entry(&mut out, name, info, &config.current_profile);
        }
        i = i + 1;
    }
    assert(es.take(es.len() as int) =~= es);
    string_from_chars(out.as_slice())
}

// ---------------------------------------------------------------------------
// The `kee status` report
// ---------------------------------------------------------------------------

/// What `kee status` found for one profile.
pub struct StatusRow {
    pub name: String,
    pub info: ProfileInfo,
    pub status_line: String,
    /// The account alias, when the account has one.
    pub alias: Option<String>,
}

/// A row as plain values: name, profile, status line and alias.
pub type StatusRowView = (Seq<char>, ProfileView, Seq<char>, Option<Seq<char>>);

impl View for StatusRow {
    type V = StatusRowView;

    open spec fn view(&self) -> StatusRowView {
        (self.name@, self.info@, self.status_line@, crate::config::opt_view(self.alias))
    }
}

/// The rows as plain values.
pub open spec fn rows_view(rows: Seq<StatusRow>) -> Seq<StatusRowView> {
    rows.map_values(|r: StatusRow| r@)
}

/// No row's name comes before the name of a row ahead of it.
pub open spec fn sorted_by_name(s: Seq<StatusRowView>) -> bool {
    forall|a: int, b: int| 0 <= a < b < s.len() ==> !seq_lt(s[b].0, s[a].0)
}

/// Whether a row is named `n`.
pub open spec fn named(n: Seq<char>) -> spec_fn(StatusRowView) -> bool {
    |x: StatusRowView| x.0 == n
}

/// Filtering a sequence none of whose elements passes leaves nothing.
proof fn lemma_filter_none(s: Seq<StatusRowView>, pred: spec_fn(StatusRowView) -> bool)
    requires
        forall|i: int| 0 <= i < s.len() ==> !pred(#[trigger] s[i]),
    ensures
        s.filter(pred) == Seq::<StatusRowView>::empty(),
    decreases s.len(),
{
    reveal(Seq::filter);
    if s.len() > 0 {
        lemma_filter_none(s.drop_last(), pred);
    }
}

/// Filtering after a push: the pushed element is kept when it passes.
proof fn lemma_filter_push(s: Seq<StatusRowView>, x: StatusRowView, pred: spec_fn(StatusRowView) -> bool)
    ensures
        s.push(x).filter(pred) == (if pred(x) {
            s.filter(pred).push(x)
        } else {
            s.filter(pred)
        }),
{
    reveal(Seq::filter);
    assert(s.push(x).drop_last() =~= s);
}

/// Sorts the rows by name, stably: rows of one name keep their order.
pub fn sort_rows_by_name(rows: Vec<StatusRow>) -> (r: Vec<StatusRow>)
    ensures
        rows_view(r@).to_multiset() == rows_view(rows@).to_multiset(),
        sorted_by_name(rows_view(r@)),
        forall|n: Seq<char>| #[trigger] rows_view(r@).filter(named(n)) == rows_view(rows@).filter(named(n)),
{
    let ghost input = rows_view(rows@);
    let mut out: Vec<StatusRow> = Vec::new();
    let mut keys: Vec<Vec<char>> = Vec::new();
    for row in it: rows
        invariant
            it.seq() == rows@,
            input == rows_view(rows@),
            keys@.len() == out@.len(),
            forall|k: int| 0 <= k < keys@.len() ==> #[trigger] keys@[k]@ == out@[k].name@,
            rows_view(out@).to_multiset() == input.take(it.index()).to_multiset(),
            sorted_by_name(rows_view(out@)),
            forall|m: Seq<char>| #[trigger] rows_view(out@).filter(named(m)) == input.take(it.index()).filter(named(m)),
    {
        let ghost n = it.index();
        let ghost ov = rows_view(out@);
        proof {
            assert(input.take(n + 1) =~= input.take(n).push(input[n]));
            assert(input[n] == row@);
        }
        let xk = chars_of(row.name.as_str());
        let mut p: usize = 0;
        while p < keys.len() && !chars_lt(&xk, &keys[p])
            invariant
                0 <= p <= keys@.len(),
                keys@.len() == out@.len(),
                ov == rows_view(out@),
                forall|k: int| 0 <= k < keys@.len() ==> #[trigger] keys@[k]@ == out@[k].name@,
                forall|k: int| 0 <= k < p ==> !seq_lt(xk@, ov[k].0),
            decreases keys@.len() - p,
        {
            p = p + 1;
        }
        proof {
            if p < keys@.len() {
                assert(keys@[p as int]@ == ov[p as int].0);
                assert(seq_lt(xk@, ov[p as int].0));
                assert forall|k: int| p <= k < ov.len() implies !seq_lt(ov[k].0, xk@) by {
                    if seq_lt(ov[k].0, xk@) {
                        lemma_seq_lt_transitive(ov[k].0, xk@, ov[p as int].0);
                        if k == p {
                            lemma_seq_lt_irreflexive(ov[k].0);
                        }
                    }
                }
                assert forall|k: int| p <= k < ov.len() implies ov[k].0 != xk@ by {
                    if ov[k].0 == xk@ && k == p {
                        lemma_seq_lt_irreflexive(xk@);
                    }
                }
            }
        }
        let ghost old_keys = keys@;
        let ghost old_out = out@;
        let ghost xv = row@;
        out.insert(p, row);
        keys.insert(p, xk);
        proof {
            let nv = rows_view(out@);
            assert(nv =~= ov.insert(p as int, xv));
            assert forall|k: int| 0 <= k < keys@.len() implies #[trigger] keys@[k]@ == out@[k].name@ by {
                if k < p {
                    assert(keys@[k] == old_keys[k]);
                    assert(out@[k] == old_out[k]);
                } else if k > p {
                    assert(keys@[k] == old_keys[k - 1]);
                    assert(out@[k] == old_out[k - 1]);
                }
            }
            assert forall|m: Seq<char>| #[trigger] nv.filter(named(m)) == input.take(n + 1).filter(named(m)) by {
                let pr = named(m);
                let head = ov.take(p as int);
                let tail = ov.skip(p as int);
                assert(nv =~= head + (seq![xv] + tail));
                assert(ov =~= head + tail);
                assert(seq![xv] =~= Seq::<StatusRowView>::empty().push(xv));
                Seq::filter_distributes_over_add(head, seq![xv] + tail, pr);
                Seq::filter_distributes_over_add(seq![xv], tail, pr);
                Seq::filter_distributes_over_add(head, tail, pr);
                lemma_filter_push(input.take(n), xv, pr);
                lemma_filter_push(Seq::<StatusRowView>::empty(), xv, pr);
                lemma_filter_none(Seq::<StatusRowView>::empty(), pr);
                if xv.0 == m {
                    assert forall|i: int| 0 <= i < tail.len() implies !pr(#[trigger] tail[i]) by {
                        assert(tail[i] == ov[p + i]);
                    }
                    lemma_filter_none(tail, pr);
                    assert(tail.filter(pr) =~= Seq::<StatusRowView>::empty());
                }
            }
            assert forall|a: int, b: int| 0 <= a < b < nv.len() implies !seq_lt(nv[b].0, nv[a].0) by {
                if b < p {
                    assert(nv[a] == ov[a] && nv[b] == ov[b]);
                } else if a < p && b == p {
                    assert(nv[a] == ov[a]);
                } else if a < p && b > p {
                    assert(nv[a] == ov[a] && nv[b] == ov[b - 1]);
                } else if a == p {
                    assert(nv[b] == ov[b - 1]);
                } else {
                    assert(nv[a] == ov[a - 1] && nv[b] == ov[b - 1]);
                }
            }
        }
    }
    assert(input.take(input.len() as int) =~= input);
    out
}

/// One profile in `kee status`: name (starred when it is the session's),
/// status line, account ID with its alias, and role.
pub open spec fn status_entry(row: StatusRowView, current: Option<Seq<char>>) -> Seq<char> {
    " "@ + hlt_spec(row.0) + (if current == Some(row.0) {
        " *"@
    } else {
        Seq::empty()
    }) + "\n"@ + "   Status:     "@ + row.2 + "\n"@ + account_line(row.1.sso_account_id, row.3)
        + "   Role:       "@ + row.1.sso_role_name + "\n"@ + "\n"@
}

/// The account line of `kee status`: the account ID, with the alias in
/// brackets when there is a non-empty one.
pub open spec fn account_line(account: Seq<char>, alias: Option<Seq<char>>) -> Seq<char> {
    "   Account:    "@ + account + (match alias {
        Some(a) if a.len() > 0 => " ("@ + a + ")"@,
        _ => Seq::empty(),
    }) + "\n"@
}

/// The entries of `kee status`, in the given order.
pub open spec fn status_entries(s: Seq<StatusRowView>, current: Option<Seq<char>>) -> Seq<char>
    decreases s.len(),
{
    if s.len() == 0 {
        Seq::empty()
    } else {
        status_entries(s.drop_last(), current) + status_entry(s.last(), current)
    }
}

/// Appends the account line of `kee status`.
fn push_account_line(out: &mut Vec<char>, account: &str, alias: &Option<String>)
    ensures
        final(out)@ == old(out)@ + account_line(account@, crate::config::opt_view(*alias)),
{
    push_str(out, "   Account:    ");
    push_str(out, account);
    match alias {
        Some(a) => if !a.as_str().is_empty() {
            push_str(out, " (");
            push_str(out, a.as_str());
            push_str(out, ")");
        },
        None => {},
    }
    push_str(out, "\n");
}

/// Appends the `kee status` entry of one row.
fn push_status_entry(out: &mut Vec<char>, row: &StatusRow, current: Option<&str>)
    ensures
        final(out)@ == old(out)@ + status_entry(row@, crate::console::str_opt_view(current)),
{
    push_str(out, " ");
    push_str(out, hlt(row.name.as_str()).as_str());
    let is_current = match current {
        Some(c) => str_eq(c, row.name.as_str()),
        None => false,
    };
    if is_current {
        push_str(out, " *");
    }
    push_str(out, "\n");
    push_str(out, "   Status:     ");
    push_str(out, row.status_line.as_str());
    push_str(out, "\n");
    push_account_line(out, row.info.sso_account_id.as_str(), &row.alias);
    push_str(out, "   Role:       ");
    push_str(out, row.info.sso_role_name.as_str());
    push_str(out, "\n");
    push_str(out, "\n");
}

/// Builds the `kee status` report: the rows sorted stably by name (grouping
/// by SSO session reorders them), each rendered as `status_entry` describes, the
/// session's profile (`current`) starred.
pub fn status_report(rows: Vec<StatusRow>, current: Option<&str>) -> (r: String)
    ensures
        exists|sorted: Seq<StatusRowView>|
            sorted.to_multiset() == rows_view(rows@).to_multiset() && sorted_by_name(sorted)
                && (forall|n: Seq<char>| #[trigger] sorted.filter(named(n)) == rows_view(rows@).filter(named(n)))
                && #[trigger] status_entries(sorted, crate::console::str_opt_view(current)) == r@,
{
    let sorted = sort_rows_by_name(rows);
    let ghost sv = rows_view(sorted@);
    let ghost cur = crate::console::str_opt_view(current);
    let mut out: Vec<char> = Vec::new();
    let mut i: usize = 0;
    while i < sorted.len()
        invariant
            0 <= i <= sorted@.len(),
            sv == rows_view(sorted@),
            cur == crate::console::str_opt_view(current),
            out@ == status_entries(sv.take(i as int), cur),
        decreases sorted@.len() - i,
    {
        assert(sv.take(i + 1).drop_last() =~= sv.take(i as int));
        assert(sv[i as int] == sorted@[i as int]@);
        push_status_entry(&mut out, &sorted[i], current);
        i = i + 1;
    }
    assert(sv.take(sv.len() as int) =~= sv);
    let r = string_from_chars(out.as_slice());
    assert(status_entries(sv, cur) == r@);
    r
}

/// The account alias in the output of `aws iam list-account-aliases
/// --output json`, if it names one: the first element of its
/// `AccountAliases` array, when the output is JSON and that element is a
/// string.
pub fn account_alias_from_output(output: &[u8]) -> (r: Option<String>)
    ensures
        crate::config::opt_view(r) == first_string_under(json_parse(output@), "AccountAliases"@),
{
    let doc = parse_json(output);
    first_string_in(&doc, "AccountAliases")
}

// ---------------------------------------------------------------------------
// Small pieces of the command line
// ---------------------------------------------------------------------------

/// `kee aws ARGS` runs `aws ARGS` under the profile, as `kee run` would.
pub fn aws_cli_command(args: Vec<String>) -> (r: Vec<String>)
    ensures
        r@.len() == args@.len() + 1,
        r@[0]@ == "aws"@,
        r@.drop_first() == args@,
{
    let mut cmd: Vec<String> = Vec::new();
    cmd.push("aws".to_owned());
    let mut i: usize = 0;
    while i < args.len()
        invariant
            0 <= i <= args@.len(),
            cmd@.len() == i + 1,
            cmd@[0]@ == "aws"@,
            cmd@.drop_first() == args@.take(i as int),
        decreases args@.len() - i,
    {
        let a = args[i].clone();
        let ghost before = cmd@;
        cmd.push(a);
        assert(cmd@.drop_first() =~= args@.take(i + 1));
        i = i + 1;
    }
    assert(args@.take(args@.len() as int) =~= args@);
    cmd
}

/// A command-line error is the missing profile name of `kee add`: its text
/// names both `<PROFILE_NAME>` and `kee add`.
pub fn is_missing_add_name(error_text: &str) -> (r: bool)
    ensures
        r == (crate::text::contains(error_text@, "<PROFILE_NAME>"@) && crate::text::contains(
            error_text@,
            "kee add"@,
        )),
{
    crate::text::str_contains(error_text, "<PROFILE_NAME>") && crate::text::str_contains(
        error_text,
        "kee add",
    )
}

/// Printed (to stderr) when `kee add` is given no name.
pub fn missing_add_name_message() -> (r: String)
    ensures
        r@ == "\n [X] Please specify a name for the new profile\n Usage: "@ + hlt_spec(
            "kee add PROFILE_NAME"@,
        ) + "\n"@,
{
    let mut out = chars_of("\n [X] Please specify a name for the new profile\n Usage: ");
    push_str(&mut out, hlt("kee add PROFILE_NAME").as_str());
    push_str(&mut out, "\n");
    string_from_chars(out.as_slice())
}

/// The spinner's frames, drawn in turn.
pub open spec fn spinner_frames() -> Seq<Seq<char>> {
    seq![
        "\u{280b}"@,
        "\u{2819}"@,
        "\u{2839}"@,
        "\u{2838}"@,
        "\u{283c}"@,
        "\u{2834}"@,
        "\u{2826}"@,
        "\u{2827}"@,
        "\u{2807}"@,
        "\u{280f}"@,
    ]
}

/// The frame the spinner draws at its `tick`-th turn.
pub fn spinner_frame(tick: usize) -> (r: &'static str)
    ensures
        r@ == spinner_frames()[(tick % 10) as int],
{
    let k = tick % 10;
    if k == 0 {
        "\u{280b}"
    } else if k == 1 {
        "\u{2819}"
    } else if k == 2 {
        "\u{2839}"
    } else if k == 3 {
        "\u{2838}"
    } else if k == 4 {
        "\u{283c}"
    } else if k == 5 {
        "\u{2834}"
    } else if k == 6 {
        "\u{2826}"
    } else if k == 7 {
        "\u{2827}"
    } else if k == 8 {
        "\u{2807}"
    } else {
        "\u{280f}"
    }
}

} // verus!
