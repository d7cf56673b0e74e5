use kee::cli::{
    aws_cli_command, choose_home_dir, current_profile_message, hlt,
    is_missing_add_name, is_yes_answer, missing_add_name_message, no_profiles_message,
    profile_listing, resolve_profile_arg, sort_rows_by_name, spinner_frame, status_report,
    subshell_program, subshell_prompt, StatusRow,
};
use kee::{KeeConfig, ProfileInfo};

fn info(name: &str, account: &str, role: &str) -> ProfileInfo {
    ProfileInfo {
        profile_name: name.to_string(),
        sso_start_url: "https://x/start".to_string(),
        sso_region: "eu-west-1".to_string(),
        sso_account_id: account.to_string(),
        sso_role_name: role.to_string(),
        session_name: "s".to_string(),
        production: false,
    }
}

#[test]
fn hlt_wraps_in_bold_white() {
    assert_eq!(hlt("kee"), "\x1b[1;37mkee\x1b[0m");
    assert_eq!(hlt(""), "\x1b[1;37m\x1b[0m");
}

#[test]
fn yes_answers() {
    assert!(is_yes_answer("y"));
    assert!(is_yes_answer("Y\n"));
    assert!(is_yes_answer("  y \t\r\n"));
    assert!(!is_yes_answer("yes"));
    assert!(!is_yes_answer("n"));
    assert!(!is_yes_answer(""));
    assert!(!is_yes_answer("\n"));
}

#[test]
fn home_dir_choice_order() {
    let s = |x: &str| Some(x.to_string());
    assert_eq!(choose_home_dir(s("/h"), s("/u"), true, s("/f")), s("/h"));
    assert_eq!(choose_home_dir(s(""), s("/u"), true, s("/f")), s("/u"));
    assert_eq!(choose_home_dir(s(""), s("/u"), false, s("/f")), s("/f"));
    assert_eq!(choose_home_dir(None, s(""), true, None), None);
}

#[test]
fn profile_resolution_prefers_argument_then_session() {
    let s = |x: &str| Some(x.to_string());
    assert_eq!(resolve_profile_arg(s("a"), s("b")), s("a"));
    assert_eq!(resolve_profile_arg(None, s("b")), s("b"));
    assert_eq!(resolve_profile_arg(None, s("")), None);
    assert_eq!(resolve_profile_arg(None, None), None);
}

#[test]
fn subshell_settings() {
    assert_eq!(subshell_program(false, None, Some("/bin/zsh".to_string())), "/bin/zsh");
    assert_eq!(subshell_program(false, Some("x".to_string()), None), "/bin/bash");
    assert_eq!(subshell_program(true, None, Some("/bin/zsh".to_string())), "cmd.exe");
    assert_eq!(subshell_prompt("dev", Some("\\w $ ")), "aws:dev \\w $ ");
    assert_eq!(subshell_prompt("dev", None), "aws:dev $ ");
}

#[test]
fn ls_with_no_profiles_shows_help_message() {
    let config = KeeConfig::new();
    let out = profile_listing(&config, false);
    assert!(out.contains("No profiles configured"));
    assert!(out.contains("kee add PROFILE_NAME"));
    assert_eq!(out, no_profiles_message());
}

#[test]
fn ls_names_with_no_profiles_is_silent() {
    let config = KeeConfig::new();
    assert_eq!(profile_listing(&config, true), "");
}

#[test]
fn ls_names_lists_each_profile_on_its_own_line() {
    let mut config = KeeConfig::new();
    config.add_profile("alpha".to_string(), info("alpha", "1", "R"));
    config.add_profile("beta".to_string(), info("beta", "2", "R"));
    assert_eq!(profile_listing(&config, true), "alpha\nbeta\n");
}

#[test]
fn ls_marks_current_profile() {
    let mut config = KeeConfig::new();
    config.add_profile("alpha".to_string(), info("alpha", "111", "Admin"));
    config.add_profile("beta".to_string(), info("beta", "222", "Dev"));
    config.set_current_profile(Some("beta".to_string()));
    let out = profile_listing(&config, false);
    assert_eq!(
        out,
        format!(
            "\n {}\n \u{2022} {} 111\n \u{2022} {} Admin\n\n {} (Current profile)\n \u{2022} {} 222\n \u{2022} {} Dev\n\n",
            hlt("alpha"),
            hlt("Account ID:"),
            hlt("Role:"),
            hlt("beta"),
            hlt("Account ID:"),
            hlt("Role:")
        )
    );
}

#[test]
fn current_messages() {
    assert_eq!(
        current_profile_message(Some("dev"), Some("other")),
        format!("\n Current profile: {}\n Type {} to return to your main shell.\n", hlt("dev"), hlt("exit"))
    );
    assert_eq!(
        current_profile_message(None, Some("dev")),
        format!("\n Current profile: {}\n", hlt("dev"))
    );
    assert_eq!(current_profile_message(None, None), "\n [!] No profile is currently active.\n");
}

fn row(name: &str, alias: Option<&str>) -> StatusRow {
    StatusRow {
        name: name.to_string(),
        info: info(name, "123", "Role"),
        status_line: "S".to_string(),
        alias: alias.map(|a| a.to_string()),
    }
}

#[test]
fn status_report_sorts_rows_and_marks_the_session() {
    let rows = vec![row("zeta", None), row("alpha", Some("acme")), row("mid", Some(""))];
    let out = status_report(rows, Some("mid"));
    let expected = format!(
        " {}\n   Status:     S\n   Account:    123 (acme)\n   Role:       Role\n\n {} *\n   Status:     S\n   Account:    123\n   Role:       Role\n\n {}\n   Status:     S\n   Account:    123\n   Role:       Role\n\n",
        hlt("alpha"),
        hlt("mid"),
        hlt("zeta")
    );
    assert_eq!(out, expected);
    assert_eq!(status_report(Vec::new(), None), "");
}

#[test]
fn sorting_rows_is_stable() {
    let mut first = row("same", Some("first"));
    first.status_line = "1".to_string();
    let mut second = row("same", Some("second"));
    second.status_line = "2".to_string();
    let sorted = sort_rows_by_name(vec![row("z", None), first, second, row("a", None)]);
    let names: Vec<(&str, &str)> =
        sorted.iter().map(|r| (r.name.as_str(), r.status_line.as_str())).collect();
    assert_eq!(names, vec![("a", "S"), ("same", "1"), ("same", "2"), ("z", "S")]);
}

#[test]
fn aws_subcommand_prepends_aws() {
    assert_eq!(
        aws_cli_command(vec!["s3".to_string(), "ls".to_string()]),
        vec!["aws".to_string(), "s3".to_string(), "ls".to_string()]
    );
    assert_eq!(aws_cli_command(Vec::new()), vec!["aws".to_string()]);
}

#[test]
fn missing_add_name_detection() {
    assert!(is_missing_add_name(
        "error: the following required arguments were not provided:\n  <PROFILE_NAME>\n\nUsage: kee add <PROFILE_NAME>"
    ));
    assert!(!is_missing_add_name("error: <PROFILE_NAME> missing for kee set"));
    assert_eq!(
        missing_add_name_message(),
        format!("\n [X] Please specify a name for the new profile\n Usage: {}\n", hlt("kee add PROFILE_NAME"))
    );
}

#[test]
fn spinner_cycles_through_ten_frames() {
    assert_eq!(spinner_frame(0), "\u{280b}");
    assert_eq!(spinner_frame(9), "\u{280f}");
    assert_eq!(spinner_frame(10), spinner_frame(0));
    assert_eq!(spinner_frame(23), spinner_frame(3));
}
