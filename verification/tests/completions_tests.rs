use kee::completions::{
    detect_current_shell, dynamic_completion_snippet, finish_completion_script, install_target,
    patch_zsh_profile_completion, path_file_name, rc_content_with_edit, rc_content_without_edit,
    reload_hint, shell_value_name, shell_variant_name, RcEdit, RcFilesPresent, ShellKind,
    BASH_RC_BLOCK, ZSH_RC_BLOCK,
};

fn make_edit(rc_path: &str, marker: &str, block: &str) -> RcEdit {
    RcEdit { rc_path: rc_path.to_string(), marker: marker.to_string(), block: block.to_string() }
}

// -- dynamic_completion_snippet ---------------------------------------------

#[test]
fn snippet_zsh_has_helper_function() {
    let s = dynamic_completion_snippet(ShellKind::Zsh);
    assert!(s.contains("_kee_profiles"));
    assert!(s.contains("kee ls --names"));
}

#[test]
fn snippet_bash_wraps_clap_completer() {
    let s = dynamic_completion_snippet(ShellKind::Bash);
    assert!(s.contains("_kee_with_profiles"));
    assert!(s.contains("complete -F _kee_with_profiles"));
    assert!(s.contains("_kee\n"));
}

#[test]
fn snippet_fish_uses_subcommand_filter() {
    let s = dynamic_completion_snippet(ShellKind::Fish);
    assert!(s.contains("__kee_profiles"));
    assert!(s.contains("__fish_seen_subcommand_from use rm set run aws console"));
}

#[test]
fn snippet_powershell_is_empty() {
    assert_eq!(dynamic_completion_snippet(ShellKind::PowerShell), "");
    assert_eq!(dynamic_completion_snippet(ShellKind::Elvish), "");
}

// -- patch_zsh_profile_completion -------------------------------------------

#[test]
fn patch_swaps_existing_profile_arguments() {
    let input = "':profile_name -- Name of the AWS profile to use:_default'\n".to_string();
    let out = patch_zsh_profile_completion(input);
    assert!(out.contains(":_kee_profiles"));
    assert!(!out.contains(":_default"));
}

#[test]
fn patch_leaves_kee_add_alone() {
    let input = "':profile_name -- Name for the new AWS profile:_default'\n".to_string();
    let out = patch_zsh_profile_completion(input);
    assert!(out.contains(":_default"));
    assert!(!out.contains(":_kee_profiles"));
}

#[test]
fn patch_leaves_trailing_args_completer_alone() {
    let input =
        "'*::cmd -- Command and arguments to run (use -- before flags):_default'\n".to_string();
    let out = patch_zsh_profile_completion(input);
    assert!(out.contains(":_default"));
    assert!(!out.contains(":_kee_profiles"));
}

#[test]
fn patch_handles_mixed_input() {
    let input = "\
':profile_name -- Name for the new AWS profile:_default' \\
'::profile_name -- Name of the AWS profile to use (interactive picker if omitted):_default' \\
'*::cmd -- Command and arguments to run (use -- before flags):_default' \\
':profile_name -- Name of the AWS profile to update:_default' \\
"
    .to_string();
    let out = patch_zsh_profile_completion(input);

    assert!(out.contains("Name for the new AWS profile:_default"));
    assert!(out.contains(
        "Name of the AWS profile to use (interactive picker if omitted):_kee_profiles"
    ));
    assert!(out.contains("Command and arguments to run (use -- before flags):_default"));
    assert!(out.contains("Name of the AWS profile to update:_kee_profiles"));
}

#[test]
fn patch_exact_output() {
    let input = "a\r\n':profile_name -- Name of the AWS profile to use:_default:_default'\nb".to_string();
    assert_eq!(
        patch_zsh_profile_completion(input),
        "a\n':profile_name -- Name of the AWS profile to use:_kee_profiles:_default'\nb\n"
    );
}

// -- finishing the script ---------------------------------------------------

#[test]
fn finished_script_appends_snippet_and_patches_zsh_only() {
    let zsh_in = "':profile_name -- Name of the AWS profile to use:_default'\n".to_string();
    let zsh = finish_completion_script(ShellKind::Zsh, zsh_in);
    assert!(zsh.starts_with("':profile_name -- Name of the AWS profile to use:_kee_profiles'\n"));
    assert!(zsh.ends_with(dynamic_completion_snippet(ShellKind::Zsh)));
    let bash_in = "':profile_name -- Name of the AWS profile to use:_default'\n".to_string();
    let bash = finish_completion_script(ShellKind::Bash, bash_in.clone());
    assert_eq!(bash, format!("{bash_in}{}", dynamic_completion_snippet(ShellKind::Bash)));
    let ps = finish_completion_script(ShellKind::PowerShell, "x".to_string());
    assert_eq!(ps, "x");
}

#[test]
fn reload_hints_and_shell_names() {
    assert_eq!(reload_hint(ShellKind::Zsh), "source ~/.zshrc");
    assert_eq!(reload_hint(ShellKind::Bash), "source ~/.bashrc");
    assert_eq!(reload_hint(ShellKind::Fish), "restart your terminal");
    assert_eq!(shell_variant_name(ShellKind::PowerShell), "PowerShell");
    assert_eq!(shell_value_name(ShellKind::PowerShell), "powershell");
}

// -- install_target ---------------------------------------------------------

#[test]
fn install_target_zsh_uses_kee_completions_dir() {
    let target = install_target(ShellKind::Zsh, false, false).unwrap();
    assert_eq!(target.completion_path, ".kee/completions/_kee");
    let edit = target.rc_edit.unwrap();
    assert_eq!(edit.rc_path, ".zshrc");
    assert!(edit.block.contains("fpath=(~/.kee/completions"));
    assert!(edit.block.contains("compinit"));
}

#[test]
fn install_target_bash_prefers_bashrc_when_present() {
    let target = install_target(ShellKind::Bash, true, true).unwrap();
    assert_eq!(target.rc_edit.unwrap().rc_path, ".bashrc");
    let target = install_target(ShellKind::Bash, true, false).unwrap();
    assert_eq!(target.rc_edit.unwrap().rc_path, ".bashrc");
}

#[test]
fn install_target_bash_falls_back_to_bash_profile() {
    let target = install_target(ShellKind::Bash, false, true).unwrap();
    assert_eq!(target.rc_edit.unwrap().rc_path, ".bash_profile");
    let neither = install_target(ShellKind::Bash, false, false).unwrap();
    assert_eq!(neither.rc_edit.unwrap().rc_path, ".bashrc");
}

#[test]
fn install_target_fish_skips_rc_edit() {
    let target = install_target(ShellKind::Fish, false, false).unwrap();
    assert_eq!(target.completion_path, ".config/fish/completions/kee.fish");
    assert!(target.rc_edit.is_none());
}

#[test]
fn install_target_unsupported_shells_return_none() {
    assert!(install_target(ShellKind::PowerShell, false, false).is_none());
    assert!(install_target(ShellKind::Elvish, false, false).is_none());
}

#[test]
fn rc_blocks_hold_their_markers() {
    let zsh = install_target(ShellKind::Zsh, false, false).unwrap().rc_edit.unwrap();
    assert!(ZSH_RC_BLOCK.contains(zsh.marker.as_str()));
    let bash = install_target(ShellKind::Bash, false, false).unwrap().rc_edit.unwrap();
    assert!(BASH_RC_BLOCK.contains(bash.marker.as_str()));
}

// -- ensure_rc_edit ---------------------------------------------------------

#[test]
fn ensure_rc_edit_appends_when_marker_absent() {
    let edit = make_edit(".zshrc", "kee marker", "\n# kee marker\nappended\n");
    let body = rc_content_with_edit(Some("# existing line\n"), &edit).expect("modified");
    assert!(body.contains("# existing line"));
    assert!(body.contains("# kee marker"));
    assert!(body.contains("appended"));
    assert_eq!(body, "# existing line\n\n# kee marker\nappended\n");
}

#[test]
fn ensure_rc_edit_is_idempotent() {
    let edit = make_edit(".zshrc", "kee marker", "\n# kee marker\nalready here\n");
    let existing = "preamble\n# kee marker\nalready here\n";
    assert!(rc_content_with_edit(Some(existing), &edit).is_none());
    assert_eq!(existing.matches("# kee marker").count(), 1);
}

#[test]
fn ensure_rc_edit_creates_rc_file_when_missing() {
    let edit = make_edit(".zshrc", "kee marker", "# kee marker\nbody\n");
    let body = rc_content_with_edit(None, &edit).expect("modified");
    assert!(body.contains("# kee marker"));
}

#[test]
fn ensure_rc_edit_twice_edits_once() {
    let edit = install_target(ShellKind::Zsh, false, false).unwrap().rc_edit.unwrap();
    let first = rc_content_with_edit(Some("alias ll='ls -l'\n"), &edit).unwrap();
    assert!(rc_content_with_edit(Some(first.as_str()), &edit).is_none());
}

// -- remove_rc_edit ---------------------------------------------------------

#[test]
fn remove_rc_edit_strips_verbatim_block() {
    let block = "\n# kee marker\nbody\n";
    let content = format!("preamble\n{block}suffix\n");
    let edit = make_edit(".zshrc", "kee marker", block);
    let body = rc_content_without_edit(Some(content.as_str()), &edit).expect("modified");
    assert!(body.contains("preamble"));
    assert!(body.contains("suffix"));
    assert!(!body.contains("kee marker"));
    assert_eq!(body, "preamble\n\nsuffix\n");
}

#[test]
fn remove_rc_edit_falls_back_to_line_filter() {
    let edit = make_edit(".zshrc", "kee marker", "\n# Kee completion\nfpath=(kee marker stuff)\n");
    let body = rc_content_without_edit(
        Some("preamble\n# Kee completion\nfpath=(kee marker stuff)\nsuffix\n"),
        &edit,
    )
    .expect("modified");
    assert!(body.contains("preamble"));
    assert!(body.contains("suffix"));
    assert!(!body.contains("kee marker"));
    assert!(!body.contains("# Kee completion"));
}

#[test]
fn remove_rc_edit_line_filter_when_block_differs() {
    let edit = make_edit(".zshrc", "kee marker", "\n# Kee completion\nsource kee marker\n");
    let body = rc_content_without_edit(
        Some("a\n  # Kee completion  \nsource  kee marker here\nb"),
        &edit,
    )
    .expect("modified");
    assert_eq!(body, "a\nb\n");
}

#[test]
fn remove_rc_edit_no_op_when_marker_absent() {
    let edit = make_edit(".zshrc", "kee marker", "# kee marker\nbody\n");
    assert!(rc_content_without_edit(Some("just preamble\n"), &edit).is_none());
}

#[test]
fn remove_rc_edit_no_op_when_rc_missing() {
    let edit = make_edit("does-not-exist", "kee marker", "# kee marker\nbody\n");
    assert!(rc_content_without_edit(None, &edit).is_none());
}

#[test]
fn uninstall_after_install_gives_back_the_file() {
    let edit = install_target(ShellKind::Zsh, false, false).unwrap().rc_edit.unwrap();
    let installed = rc_content_with_edit(Some("export A=1\n"), &edit).unwrap();
    let removed = rc_content_without_edit(Some(installed.as_str()), &edit).unwrap();
    assert_eq!(removed, "export A=1\n");
    let fresh = rc_content_with_edit(None, &edit).unwrap();
    assert_eq!(rc_content_without_edit(Some(fresh.as_str()), &edit).unwrap(), "");
    let bash = install_target(ShellKind::Bash, false, false).unwrap().rc_edit.unwrap();
    let installed = rc_content_with_edit(Some("export B=2"), &bash).unwrap();
    assert_eq!(rc_content_without_edit(Some(installed.as_str()), &bash).unwrap(), "export B=2");
}

#[test]
fn remove_rc_edit_leaves_no_marker_line() {
    let edit = make_edit(".zshrc", "kee marker", "# kee marker\nbody\n");
    let body = rc_content_without_edit(Some("# kee marker\nbody\nx kee marker y\n"), &edit)
        .expect("modified");
    assert!(!body.contains("kee marker"));
    let body = rc_content_without_edit(Some("a\n# kee marker\nbody\nb\nkee marker again\nc\n"), &edit)
        .expect("modified");
    assert_eq!(body, "a\nb\nc\n");
}

// -- detecting the shell ----------------------------------------------------

#[test]
fn path_file_name_follows_unix_rules() {
    assert_eq!(path_file_name("/bin/zsh").as_deref(), Some("zsh"));
    assert_eq!(path_file_name("/usr/local/bin/fish/").as_deref(), Some("fish"));
    assert_eq!(path_file_name("bash").as_deref(), Some("bash"));
    assert_eq!(path_file_name("/bin/./bash/.").as_deref(), Some("bash"));
    assert_eq!(path_file_name("/bin/.."), None);
    assert_eq!(path_file_name("/"), None);
    assert_eq!(path_file_name(""), None);
    assert_eq!(path_file_name("."), None);
}

#[test]
fn detect_prefers_shell_variable_then_rc_files() {
    let none = RcFilesPresent { zshrc: false, bashrc: false, bash_profile: false, fish_config: false };
    let zshrc = RcFilesPresent { zshrc: true, bashrc: true, bash_profile: false, fish_config: true };
    let fish_only = RcFilesPresent { zshrc: false, bashrc: false, bash_profile: false, fish_config: true };
    assert_eq!(detect_current_shell(Some("/bin/bash"), Some(zshrc)), Some(ShellKind::Bash));
    let zshrc = RcFilesPresent { zshrc: true, bashrc: true, bash_profile: false, fish_config: true };
    assert_eq!(detect_current_shell(Some("/usr/bin/tcsh"), Some(zshrc)), Some(ShellKind::Zsh));
    let profile_only =
        RcFilesPresent { zshrc: false, bashrc: false, bash_profile: true, fish_config: true };
    assert_eq!(detect_current_shell(None, Some(profile_only)), Some(ShellKind::Bash));
    assert_eq!(detect_current_shell(None, Some(fish_only)), Some(ShellKind::Fish));
    assert_eq!(detect_current_shell(None, Some(none)), None);
    assert_eq!(detect_current_shell(Some("/bin/sh"), None), None);
}

#[test]
fn patch_keeps_scripts_without_profile_arguments() {
    let input = "#compdef kee\r\n_kee() {\n  '*::cmd -- Command:_default'\n}".to_string();
    assert_eq!(
        patch_zsh_profile_completion(input),
        "#compdef kee\n_kee() {\n  '*::cmd -- Command:_default'\n}\n"
    );
}

#[test]
fn patch_swaps_only_the_first_default_on_lines_with_the_help_text() {
    let script = "'1:profile_name -- Name of the AWS profile to use:_default' ':x:_default'\r\n':cmd:_default'\n".to_string();
    let patched = patch_zsh_profile_completion(script);
    assert_eq!(
        patched,
        "'1:profile_name -- Name of the AWS profile to use:_kee_profiles' ':x:_default'\n':cmd:_default'\n"
    );
}
