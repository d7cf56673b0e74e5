//! Shell completion support: the per-shell snippets, the zsh script patch,
//! where completion files are installed, and the rc-file edits that load them.
//!
//! File-system paths here are relative to the user's home directory.

use vstd::prelude::*;

use crate::text::{
    chars_eq, chars_of, contains, contains_chars, matches_at, matches_at_exec, join, join_chars, lines, lines_chars, push_chars,
    lemma_replace_first_empty, push_str, replace_all, replace_all_chars, replace_first,
    replace_first_chars,
    str_contains, str_eq, string_from_chars, trim, trim_chars, trim_start, trim_start_chars,
};

verus! {

/// The shells for which completion scripts can be generated.
#[derive(Clone, Copy, Debug, PartialEq, Eq, Structural)]
pub enum ShellKind {
    Bash,
    Elvish,
    Fish,
    PowerShell,
    Zsh,
}

/// Zsh helper that completes profile names from `kee ls --names`.
pub const ZSH_PROFILES_SNIPPET: &'static str = "
# Kee \u{2014} dynamic profile name completion
_kee_profiles() {
    local -a profiles
    profiles=(\"${(@f)$(kee ls --names 2>/dev/null)}\")
    if (( ${#profiles[@]} > 0 )) && [[ -n \"${profiles[1]}\" ]]; then
        _values 'profile' \"${profiles[@]}\"
    fi
}
";

/// Bash wrapper around the generated `_kee` completer that completes
/// profile names after the subcommands that take one.
pub const BASH_PROFILES_SNIPPET: &'static str = "
# Kee \u{2014} dynamic profile name completion
# Wraps clap's _kee completer so existing-profile arguments suggest
# configured profile names. Falls through to clap's completion otherwise.
_kee_with_profiles() {
    local cur prev
    cur=\"${COMP_WORDS[COMP_CWORD]}\"
    prev=\"${COMP_WORDS[COMP_CWORD-1]}\"
    case \"$prev\" in
        use|rm|set|run|aws|console|refresh)
            local profiles
            profiles=$(kee ls --names 2>/dev/null)
            COMPREPLY=( $(compgen -W \"$profiles\" -- \"$cur\") )
            return 0
            ;;
    esac
    # Defer to the clap-generated completer for everything else.
    _kee
}
complete -F _kee_with_profiles -o bashdefault -o default kee
";

/// Fish completion of profile names for the subcommands that take one.
pub const FISH_PROFILES_SNIPPET: &'static str = "
# Kee \u{2014} dynamic profile name completion
function __kee_profiles
    kee ls --names 2>/dev/null
end
complete -c kee -n \"__fish_seen_subcommand_from use rm set run aws console refresh\" -f -a \"(__kee_profiles)\"
";

/// The snippet appended to the generated completion script of `shell`.
pub open spec fn snippet_for(shell: ShellKind) -> Seq<char> {
    match shell {
        ShellKind::Zsh => ZSH_PROFILES_SNIPPET@,
        ShellKind::Bash => BASH_PROFILES_SNIPPET@,
        ShellKind::Fish => FISH_PROFILES_SNIPPET@,
        _ => ""@,
    }
}

/// Per-shell snippet adding dynamic completion of profile names (by calling
/// `kee ls --names`). PowerShell and Elvish get none.
pub fn dynamic_completion_snippet(shell: ShellKind) -> (r: &'static str)
    ensures
        r@ == snippet_for(shell),
{
    match shell {
        ShellKind::Zsh => ZSH_PROFILES_SNIPPET,
        ShellKind::Bash => BASH_PROFILES_SNIPPET,
        ShellKind::Fish => FISH_PROFILES_SNIPPET,
        _ => "",
    }
}

/// Marker placed on the lines whose completer is swapped.
pub open spec fn swap_sentinel() -> Seq<char> {
    "\u{1}KEE_SWAP\u{1}"@
}

/// Help-text prefix of the arguments that name an existing profile.
pub open spec fn existing_profile_arg() -> Seq<char> {
    "profile_name -- Name of the AWS profile"@
}

/// `existing_profile_arg()` with the sentinel inserted before the help text.
pub open spec fn marked_profile_arg() -> Seq<char> {
    "profile_name -- "@ + swap_sentinel() + "Name of the AWS profile"@
}

/// A marked line gets its first `:_default` completer swapped for `:_kee_profiles`.
pub open spec fn patch_zsh_line(l: Seq<char>) -> Seq<char> {
    if contains(l, swap_sentinel()) {
        replace_first(l, ":_default"@, ":_kee_profiles"@)
    } else {
        l
    }
}

/// The zsh completion script with the `profile_name` arguments of existing
/// profiles completed by `_kee_profiles`: mark the lines whose help text is
/// `existing_profile_arg()`, swap the completer on marked lines, join the
/// lines, drop the marks and end with a newline.
pub open spec fn patch_zsh_spec(script: Seq<char>) -> Seq<char> {
    let marked = replace_all(script, existing_profile_arg(), marked_profile_arg());
    let swapped = lines(marked).map_values(|l: Seq<char>| patch_zsh_line(l));
    replace_all(join(swapped, "\n"@), swap_sentinel(), Seq::empty()) + "\n"@
}

/// A line holding the existing-profile help text gets its first `:_default`
/// completer swapped for `:_kee_profiles`; other lines stay.
pub open spec fn patch_zsh_direct_line(l: Seq<char>) -> Seq<char> {
    if contains(l, existing_profile_arg()) {
        replace_first(l, ":_default"@, ":_kee_profiles"@)
    } else {
        l
    }
}

/// The patched script read line by line: each line as
/// `patch_zsh_direct_line` gives it, joined by `"\n"`, with a final newline.
pub open spec fn patch_zsh_direct(script: Seq<char>) -> Seq<char> {
    join(lines(script).map_values(|l: Seq<char>| patch_zsh_direct_line(l)), "\n"@) + "\n"@
}

/// Rewrites clap_complete's zsh output so that the `profile_name` arguments
/// of commands that take an existing profile complete with `_kee_profiles`
/// instead of `_default`. `kee add` (a new name) and the trailing command
/// arguments of `kee run`/`kee aws` keep `_default`.
pub fn patch_zsh_profile_completion(script: String) -> (r: String)
    ensures
        r@ == patch_zsh_spec(script@),
        crate::rewrite::lacks(script@, '\u{1}') ==> r@ == patch_zsh_direct(script@),
{
    proof {
        if crate::rewrite::lacks(script@, '\u{1}') {
            crate::laws::law_patch_zsh_per_line(script@);
        }
    }
    let s = chars_of(script.as_str());
    let needle = chars_of("profile_name -- Name of the AWS profile");
    let sentinel = chars_of("\u{1}KEE_SWAP\u{1}");
    let mut marked_pat = chars_of("profile_name -- ");
    push_chars(&mut marked_pat, &sentinel);
    push_str(&mut marked_pat, "Name of the AWS profile");
    let default_pat = chars_of(":_default");
    let kee_pat = chars_of(":_kee_profiles");
    proof {
        reveal_strlit("profile_name -- Name of the AWS profile");
        reveal_strlit("\u{1}KEE_SWAP\u{1}");
        reveal_strlit(":_default");
    }
    let marked = replace_all_chars(&s, &needle, &marked_pat);
    let ls = lines_chars(&marked);
    let ghost lviews = ls@.map_values(|l: Vec<char>| l@);
    let mut swapped: Vec<Vec<char>> = Vec::new();
    let mut i: usize = 0;
    while i < ls.len()
        invariant
            0 <= i <= ls@.len(),
            lviews == ls@.map_values(|l: Vec<char>| l@),
            sentinel@ == swap_sentinel(),
            default_pat@ == ":_default"@,
            kee_pat@ == ":_kee_profiles"@,
            default_pat@.len() > 0,
            swapped@.map_values(|l: Vec<char>| l@) == lviews.take(i as int).map_values(
                |l: Seq<char>| patch_zsh_line(l),
            ),
        decreases ls@.len() - i,
    {
        let line = &ls[i];
        let new_line = if contains_chars(line, &sentinel) {
            replace_first_chars(line, &default_pat, &kee_pat)
        } else {
            let mut copy: Vec<char> = Vec::new();
            push_chars(&mut copy, line);
            copy
        };
        assert(new_line@ == patch_zsh_line(lviews[i as int]));
        let ghost old_swapped = swapped@.map_values(|l: Vec<char>| l@);
        swapped.push(new_line);
        assert(swapped@.map_values(|l: Vec<char>| l@) =~= old_swapped.push(
            patch_zsh_line(lviews[i as int]),
        ));
        assert(lviews.take(i + 1) =~= lviews.take(i as int).push(lviews[i as int]));
        i = i + 1;
        assert(swapped@.map_values(|l: Vec<char>| l@) =~= lviews.take(i as int).map_values(
            |l: Seq<char>| patch_zsh_line(l),
        ));
    }
    assert(lviews.take(ls@.len() as int) =~= lviews);
    let newline = chars_of("\n");
    let joined = join_chars(&swapped, &newline);
    let empty: Vec<char> = Vec::new();
    let mut out = replace_all_chars(&joined, &sentinel, &empty);
    push_str(&mut out, "\n");
    string_from_chars(out.as_slice())
}


// ---------------------------------------------------------------------------
// Installing completion scripts
// ---------------------------------------------------------------------------

/// Lines appended to `~/.zshrc` to load the completion script.
pub const ZSH_RC_BLOCK: &'static str = "\n# Kee completion\nfpath=(~/.kee/completions $fpath)\nautoload -Uz compinit && compinit\n";

/// Lines appended to the bash rc file to load the completion script.
pub const BASH_RC_BLOCK: &'static str = "\n# Kee completion\nsource ~/.kee/.kee_completion.bash\n";

/// An rc file to edit (relative to the home directory), the block of lines
/// to ensure is present, and a marker substring that detects a prior install.
pub struct RcEdit {
    pub rc_path: String,
    pub marker: String,
    pub block: String,
}

/// Where the completion script of a shell lives (relative to the home
/// directory), plus the rc-file edit, if any, that loads it.
pub struct InstallTarget {
    pub completion_path: String,
    pub rc_edit: Option<RcEdit>,
}

/// The install target of `shell`, as plain values: completion path, and the
/// rc path, marker and block of the rc edit if there is one.
pub open spec fn install_target_spec(shell: ShellKind, bashrc_exists: bool, bash_profile_exists: bool) -> Option<(Seq<char>, Option<(Seq<char>, Seq<char>, Seq<char>)>)> {
    match shell {
        ShellKind::Zsh => Some(
            (
                ".kee/completions/_kee"@,
                Some((".zshrc"@, "~/.kee/completions"@, ZSH_RC_BLOCK@)),
            ),
        ),
        ShellKind::Bash => Some(
            (
                ".kee/.kee_completion.bash"@,
                Some(
                    (
                        if bashrc_exists || !bash_profile_exists {
                            ".bashrc"@
                        } else {
                            ".bash_profile"@
                        },
                        ".kee_completion.bash"@,
                        BASH_RC_BLOCK@,
                    ),
                ),
            ),
        ),
        ShellKind::Fish => Some((".config/fish/completions/kee.fish"@, None)),
        _ => None,
    }
}

impl InstallTarget {
    /// This target as plain values.
    pub open spec fn spec_parts(&self) -> (Seq<char>, Option<(Seq<char>, Seq<char>, Seq<char>)>) {
        (
            self.completion_path@,
            match self.rc_edit {
                Some(e) => Some((e.rc_path@, e.marker@, e.block@)),
                None => None,
            },
        )
    }
}

/// Where to install the completion script for `shell` and how to load it.
/// Bash prefers `.bashrc`, falling back to `.bash_profile` when that is the
/// only one present. Fish auto-loads its completions directory, so it needs
/// no rc edit. PowerShell and Elvish have no installer.
pub fn install_target(shell: ShellKind, bashrc_exists: bool, bash_profile_exists: bool) -> (r: Option<InstallTarget>)
    ensures
        match r {
            Some(t) => install_target_spec(shell, bashrc_exists, bash_profile_exists) == Some(
                t.spec_parts(),
            ),
            None => install_target_spec(shell, bashrc_exists, bash_profile_exists) is None,
        },
{
    match shell {
        ShellKind::Zsh => Some(
            InstallTarget {
                completion_path: ".kee/completions/_kee".to_owned(),
                rc_edit: Some(
                    RcEdit {
                        rc_path: ".zshrc".to_owned(),
                        marker: "~/.kee/completions".to_owned(),
                        block: ZSH_RC_BLOCK.to_owned(),
                    },
                ),
            },
        ),
        ShellKind::Bash => {
            let rc_path = if bashrc_exists || !bash_profile_exists {
                ".bashrc".to_owned()
            } else {
                ".bash_profile".to_owned()
            };
            Some(
                InstallTarget {
                    completion_path: ".kee/.kee_completion.bash".to_owned(),
                    rc_edit: Some(
                        RcEdit {
                            rc_path,
                            marker: ".kee_completion.bash".to_owned(),
                            block: BASH_RC_BLOCK.to_owned(),
                        },
                    ),
                },
            )
        },
        ShellKind::Fish => Some(
            InstallTarget {
                completion_path: ".config/fish/completions/kee.fish".to_owned(),
                rc_edit: None,
            },
        ),
        _ => None,
    }
}

/// The new rc-file content after ensuring `block` is present: `None` (leave
/// the file alone) when the file exists and already contains `marker`,
/// otherwise the existing content (empty for a missing file) followed by `block`.
pub open spec fn rc_with_edit(existing: Option<Seq<char>>, marker: Seq<char>, block: Seq<char>) -> Option<Seq<char>> {
    match existing {
        Some(c) => if contains(c, marker) {
            None
        } else {
            Some(c + block)
        },
        None => Some(block),
    }
}

/// Content to write so that the rc file loads the completions, given the
/// current content (`None` when the file does not exist); `None` when the
/// file is already configured.
pub fn rc_content_with_edit(existing: Option<&str>, edit: &RcEdit) -> (r: Option<String>)
    ensures
        match r {
            Some(c) => rc_with_edit(crate::console::str_opt_view(existing), edit.marker@, edit.block@) == Some(c@),
            None => rc_with_edit(crate::console::str_opt_view(existing), edit.marker@, edit.block@) is None,
        },
{
    match existing {
        Some(content) => {
            if str_contains(content, edit.marker.as_str()) {
                None
            } else {
                let mut out = chars_of(content);
                push_str(&mut out, edit.block.as_str());
                Some(string_from_chars(out.as_slice()))
            }
        },
        None => {
            let out = chars_of(edit.block.as_str());
            Some(string_from_chars(out.as_slice()))
        },
    }
}

/// A line that survives the line-by-line removal of the rc block.
pub open spec fn kept_rc_line(l: Seq<char>, marker: Seq<char>) -> bool {
    !contains(l, marker) && trim(l) != "# Kee completion"@
}

/// `s` ends with `pat`.
pub open spec fn ends_with(s: Seq<char>, pat: Seq<char>) -> bool {
    matches_at(s, pat, s.len() - pat.len())
}

/// The rc-file content with the completion block cut out: when the content
/// ends with the block (as an install leaves it), that whole tail; otherwise
/// the first verbatim occurrence of the block without its leading white
/// space; otherwise nothing.
pub open spec fn rc_block_removed(c: Seq<char>, block: Seq<char>) -> Seq<char> {
    if ends_with(c, block) {
        c.take(c.len() - block.len())
    } else if contains(c, trim_start(block)) {
        replace_first(c, trim_start(block), Seq::empty())
    } else {
        c
    }
}

/// The lines of `c` that survive the line-by-line removal, each followed by
/// a newline.
pub open spec fn rc_lines_filtered(c: Seq<char>, marker: Seq<char>) -> Seq<char> {
    join(lines(c).filter(|l: Seq<char>| kept_rc_line(l, marker)), "\n"@) + "\n"@
}

/// The new rc-file content after removing the completion block: `None` (leave
/// the file alone) when the file is missing or does not contain `marker`.
/// Otherwise the block is cut out (`rc_block_removed`); if the marker still
/// occurs after that, every line holding the marker or reading
/// `# Kee completion` is dropped as well.
pub open spec fn rc_without_edit(existing: Option<Seq<char>>, marker: Seq<char>, block: Seq<char>) -> Option<Seq<char>> {
    match existing {
        None => None,
        Some(c) => if !contains(c, marker) {
            None
        } else {
            let c1 = rc_block_removed(c, block);
            if contains(c1, marker) {
                Some(rc_lines_filtered(c1, marker))
            } else {
                Some(c1)
            }
        },
    }
}

/// Drops every line of `c` that holds `marker` or reads `# Kee completion`.
fn filter_rc_lines(c: &Vec<char>, marker: &Vec<char>) -> (r: Vec<char>)
    ensures
        r@ == rc_lines_filtered(c@, marker@),
{
    let ls = lines_chars(c);
    let ghost lviews = ls@.map_values(|l: Vec<char>| l@);
    let heading = chars_of("# Kee completion");
    let mut kept: Vec<Vec<char>> = Vec::new();
    let mut i: usize = 0;
    while i < ls.len()
        invariant
            0 <= i <= ls@.len(),
            lviews == ls@.map_values(|l: Vec<char>| l@),
            lviews == lines(c@),
            heading@ == "# Kee completion"@,
            kept@.map_values(|l: Vec<char>| l@) == lviews.take(i as int).filter(
                |l: Seq<char>| kept_rc_line(l, marker@),
            ),
        decreases ls@.len() - i,
    {
        let line = &ls[i];
        let trimmed = trim_chars(line);
        let keep = !contains_chars(line, marker) && !chars_eq(&trimmed, &heading);
        assert(keep == kept_rc_line(lviews[i as int], marker@));
        let ghost old_kept = kept@.map_values(|l: Vec<char>| l@);
        proof {
            assert(lviews.take(i + 1) =~= lviews.take(i as int).push(lviews[i as int]));
            lviews.take(i as int).lemma_filter_push(
                lviews[i as int],
                |l: Seq<char>| kept_rc_line(l, marker@),
            );
        }
        if keep {
            let mut copy: Vec<char> = Vec::new();
            push_chars(&mut copy, line);
            kept.push(copy);
            assert(kept@.map_values(|l: Vec<char>| l@) =~= old_kept.push(lviews[i as int]));
        }
        i = i + 1;
    }
    assert(lviews.take(ls@.len() as int) =~= lviews);
    let newline = chars_of("\n");
    let mut out = join_chars(&kept, &newline);
    push_str(&mut out, "\n");
    out
}

/// Cuts the completion block out of `c`, as `rc_block_removed` describes.
fn cut_rc_block(c: &Vec<char>, block: &Vec<char>) -> (r: Vec<char>)
    ensures
        r@ == rc_block_removed(c@, block@),
{
    if block.len() <= c.len() && matches_at_exec(c, block, c.len() - block.len()) {
        let mut out: Vec<char> = Vec::new();
        push_chars(&mut out, c);
        out.truncate(c.len() - block.len());
        return out;
    }
    assert(!ends_with(c@, block@));
    let t = trim_start_chars(block);
    if contains_chars(c, &t) {
        if t.len() == 0 {
            proof {
                assert(t@ =~= Seq::<char>::empty());
                lemma_replace_first_empty(c@, Seq::empty());
            }
            let mut out: Vec<char> = Vec::new();
            push_chars(&mut out, c);
            assert(out@ =~= c@);
            return out;
        }
        let empty: Vec<char> = Vec::new();
        return replace_first_chars(c, &t, &empty);
    }
    let mut out: Vec<char> = Vec::new();
    push_chars(&mut out, c);
    assert(out@ =~= c@);
    out
}

/// Content to write so that the rc file no longer loads the completions,
/// given its current content (`None` when it does not exist); `None` when
/// there is nothing to remove.
pub fn rc_content_without_edit(existing: Option<&str>, edit: &RcEdit) -> (r: Option<String>)
    ensures
        match r {
            Some(c) => rc_without_edit(crate::console::str_opt_view(existing), edit.marker@, edit.block@) == Some(c@),
            None => rc_without_edit(crate::console::str_opt_view(existing), edit.marker@, edit.block@) is None,
        },
{
    let content = match existing {
        None => {
            return None;
        },
        Some(c) => c,
    };
    let c = chars_of(content);
    let marker = chars_of(edit.marker.as_str());
    if !contains_chars(&c, &marker) {
        return None;
    }
    let block = chars_of(edit.block.as_str());
    let c1 = cut_rc_block(&c, &block);
    if contains_chars(&c1, &marker) {
        let out = filter_rc_lines(&c1, &marker);
        Some(string_from_chars(out.as_slice()))
    } else {
        Some(string_from_chars(c1.as_slice()))
    }
}

// ---------------------------------------------------------------------------
// Detecting the user's shell
// ---------------------------------------------------------------------------

/// Which of the shell rc files exist in the home directory.
pub struct RcFilesPresent {
    pub zshrc: bool,
    pub bashrc: bool,
    pub bash_profile: bool,
    pub fish_config: bool,
}

/// The shell named by the file name of `$SHELL`, if it is one with an installer.
pub open spec fn shell_named(name: Seq<char>) -> Option<ShellKind> {
    if name == "bash"@ {
        Some(ShellKind::Bash)
    } else if name == "zsh"@ {
        Some(ShellKind::Zsh)
    } else if name == "fish"@ {
        Some(ShellKind::Fish)
    } else {
        None
    }
}

/// The shell suggested by the rc files present: zsh, then bash, then fish.
pub open spec fn shell_from_rc(rc: RcFilesPresent) -> Option<ShellKind> {
    if rc.zshrc {
        Some(ShellKind::Zsh)
    } else if rc.bashrc || rc.bash_profile {
        Some(ShellKind::Bash)
    } else if rc.fish_config {
        Some(ShellKind::Fish)
    } else {
        None
    }
}

/// Index of the last `/` in `p`, or -1.
pub open spec fn last_slash(p: Seq<char>) -> int
    decreases p.len(),
{
    if p.len() == 0 {
        -1
    } else if p.last() == '/' {
        p.len() - 1
    } else {
        last_slash(p.drop_last())
    }
}

/// `last_slash` is the index of the last `/`, or -1 when there is none.
pub proof fn lemma_last_slash(p: Seq<char>)
    ensures
        -1 <= last_slash(p) < p.len(),
        last_slash(p) >= 0 ==> p[last_slash(p)] == '/',
        forall|k: int| last_slash(p) < k < p.len() ==> p[k] != '/',
    decreases p.len(),
{
    if p.len() > 0 && p.last() != '/' {
        let q = p.drop_last();
        lemma_last_slash(q);
        assert forall|k: int| last_slash(p) < k < p.len() implies p[k] != '/' by {
            if k < p.len() - 1 {
                assert(p[k] == q[k]);
            }
        }
    }
}

/// The final component of a Unix path, as `Path::file_name` gives it: the
/// last part between slashes that is neither empty nor `.`; none when that
/// part is `..` or there is no such part.
pub open spec fn file_name_of(p: Seq<char>) -> Option<Seq<char>>
    decreases p.len(),
{
    let i = last_slash(p);
    let part = p.subrange(i + 1, p.len() as int);
    if part.len() == 0 || part == seq!['.'] {
        if i < 0 {
            None
        } else {
            proof {
                lemma_last_slash(p);
            }
            file_name_of(p.take(i))
        }
    } else if part == seq!['.', '.'] {
        None
    } else {
        Some(part)
    }
}

/// The final component of the path `path` (Unix rules), when it has one.
pub fn path_file_name(path: &str) -> (r: Option<String>)
    ensures
        crate::config::opt_view(r) == file_name_of(path@),
{
    let v = chars_of(path);
    let mut end: usize = v.len();
    assert(v@.take(end as int) =~= path@);
    loop
        invariant
            end <= v@.len(),
            file_name_of(v@.take(end as int)) == file_name_of(path@),
            v@ == path@,
        decreases end,
    {
        let ghost p = v@.take(end as int);
        proof {
            lemma_last_slash(p);
        }
        let mut start: usize = end;
        while start > 0 && v[start - 1] != '/'
            invariant
                start <= end <= v@.len(),
                p == v@.take(end as int),
                forall|k: int| start <= k < end ==> v@[k] != '/',
            decreases start,
        {
            start = start - 1;
        }
        proof {
            assert(last_slash(p) == start - 1) by {
                lemma_last_slash_at(p, start as int - 1);
            }
        }
        let len = end - start;
        let is_dot = len == 1 && v[start] == '.';
        let is_dotdot = len == 2 && v[start] == '.' && v[start + 1] == '.';
        let ghost part = p.subrange(start as int, end as int);
        proof {
            if len >= 1 {
                assert(part[0] == v@[start as int]);
            }
            if len >= 2 {
                assert(part[1] == v@[start + 1]);
            }
            if len == 1 {
                assert(is_dot == (part =~= seq!['.']));
            }
            if len == 2 {
                assert(is_dotdot == (part =~= seq!['.', '.']));
            }
            assert(len != 1 ==> part.len() != 1 && !(part =~= seq!['.']));
            assert(len != 2 ==> part.len() != 2 && !(part =~= seq!['.', '.']));
        }
        if len == 0 || is_dot {
            if start == 0 {
                return None;
            }
            proof {
                assert(p.take(start - 1) =~= v@.take(start - 1));
            }
            end = start - 1;
        } else if is_dotdot {
            return None;
        } else {
            let mut out: Vec<char> = Vec::new();
            let mut k: usize = start;
            while k < end
                invariant
                    start <= k <= end <= v@.len(),
                    out@ == v@.subrange(start as int, k as int),
                decreases end - k,
            {
                out.push(v[k]);
                assert(v@.subrange(start as int, k + 1) =~= v@.subrange(start as int, k as int).push(v@[k as int]));
                k = k + 1;
            }
            assert(part =~= v@.subrange(start as int, end as int));
            return Some(string_from_chars(out.as_slice()));
        }
    }
}

proof fn lemma_last_slash_at(p: Seq<char>, i: int)
    requires
        -1 <= i < p.len(),
        i >= 0 ==> p[i] == '/',
        forall|k: int| i < k < p.len() ==> p[k] != '/',
    ensures
        last_slash(p) == i,
    decreases p.len(),
{
    if p.len() > 0 && p.last() != '/' {
        lemma_last_slash_at(p.drop_last(), i);
    }
}

/// The shell a `$SHELL` path names by its final component, when it is one
/// with an installer.
pub open spec fn shell_of_path(p: Seq<char>) -> Option<ShellKind> {
    match file_name_of(p) {
        Some(n) => shell_named(n),
        None => None,
    }
}

/// The user's current shell: the one `$SHELL` (`shell_path`) names when it
/// is bash, zsh or fish; otherwise whichever rc file exists in the home
/// directory (`rc_files` is `None` when the home directory is unknown).
pub fn detect_current_shell(shell_path: Option<&str>, rc_files: Option<RcFilesPresent>) -> (r: Option<ShellKind>)
    ensures
        r == match shell_path {
            Some(p) if shell_of_path(p@) is Some => shell_of_path(p@),
            _ => match rc_files {
                Some(rc) => shell_from_rc(rc),
                None => None,
            },
        },
{
    if let Some(path) = shell_path {
        if let Some(name) = path_file_name(path) {
            if str_eq(name.as_str(), "bash") {
                return Some(ShellKind::Bash);
            } else if str_eq(name.as_str(), "zsh") {
                return Some(ShellKind::Zsh);
            } else if str_eq(name.as_str(), "fish") {
                return Some(ShellKind::Fish);
            }
        }
    }
    match rc_files {
        Some(rc) => {
            if rc.zshrc {
                Some(ShellKind::Zsh)
            } else if rc.bashrc || rc.bash_profile {
                Some(ShellKind::Bash)
            } else if rc.fish_config {
                Some(ShellKind::Fish)
            } else {
                None
            }
        },
        None => None,
    }
}

// ---------------------------------------------------------------------------
// The finished script and the reload hint
// ---------------------------------------------------------------------------

/// The completion script Kee prints for `shell`, from the script generated
/// for its command line: patched for zsh, then followed by the shell's snippet.
pub open spec fn completion_script_spec(shell: ShellKind, generated: Seq<char>) -> Seq<char> {
    (if shell == ShellKind::Zsh {
        patch_zsh_spec(generated)
    } else {
        generated
    }) + snippet_for(shell)
}

/// Finishes the script that `clap_complete` generated for `shell`.
pub fn finish_completion_script(shell: ShellKind, generated: String) -> (r: String)
    ensures
        r@ == completion_script_spec(shell, generated@),
{
    let script = if shell == ShellKind::Zsh {
        patch_zsh_profile_completion(generated)
    } else {
        generated
    };
    let mut out = chars_of(script.as_str());
    push_str(&mut out, dynamic_completion_snippet(shell));
    string_from_chars(out.as_slice())
}

/// What to run so that an edited rc file takes effect.
pub open spec fn reload_spec(shell: ShellKind) -> Seq<char> {
    match shell {
        ShellKind::Zsh => "source ~/.zshrc"@,
        ShellKind::Bash => "source ~/.bashrc"@,
        _ => "restart your terminal"@,
    }
}

/// What to run so that an edited rc file takes effect.
pub fn reload_hint(shell: ShellKind) -> (r: &'static str)
    ensures
        r@ == reload_spec(shell),
{
    match shell {
        ShellKind::Zsh => "source ~/.zshrc",
        ShellKind::Bash => "source ~/.bashrc",
        _ => "restart your terminal",
    }
}

/// The shell's name as Rust's `Debug` shows the variant (`Zsh`).
pub open spec fn variant_name(shell: ShellKind) -> Seq<char> {
    match shell {
        ShellKind::Bash => "Bash"@,
        ShellKind::Elvish => "Elvish"@,
        ShellKind::Fish => "Fish"@,
        ShellKind::PowerShell => "PowerShell"@,
        ShellKind::Zsh => "Zsh"@,
    }
}

/// The shell's name as typed on the command line (`zsh`).
pub open spec fn value_name(shell: ShellKind) -> Seq<char> {
    match shell {
        ShellKind::Bash => "bash"@,
        ShellKind::Elvish => "elvish"@,
        ShellKind::Fish => "fish"@,
        ShellKind::PowerShell => "powershell"@,
        ShellKind::Zsh => "zsh"@,
    }
}

/// The shell's name as Rust's `Debug` shows the variant.
pub fn shell_variant_name(shell: ShellKind) -> (r: &'static str)
    ensures
        r@ == variant_name(shell),
{
    match shell {
        ShellKind::Bash => "Bash",
        ShellKind::Elvish => "Elvish",
        ShellKind::Fish => "Fish",
        ShellKind::PowerShell => "PowerShell",
        ShellKind::Zsh => "Zsh",
    }
}

/// The shell's name as typed on the command line.
pub fn shell_value_name(shell: ShellKind) -> (r: &'static str)
    ensures
        r@ == value_name(shell),
{
    match shell {
        ShellKind::Bash => "bash",
        ShellKind::Elvish => "elvish",
        ShellKind::Fish => "fish",
        ShellKind::PowerShell => "powershell",
        ShellKind::Zsh => "zsh",
    }
}

} // verus!
