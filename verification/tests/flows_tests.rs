use kee::cli::hlt;
use kee::completions::{InstallTarget, RcEdit, ShellKind};
use kee::flows::{
    add_next, add_start, console_next, console_start, ensure_session_next, ensure_session_start,
    install_next, install_start, refresh_next, refresh_start, remove_next, remove_start, run_next,
    run_start, session_ended_message, set_profile, subshell_banner, uninstall_next,
    uninstall_start, use_next, use_start, AddEvent, AddStep, ConsoleEvent, ConsoleStep,
    ExportedCredentials, InstallEvent, InstallStep, RefreshEvent, RefreshStep, RemoveEvent,
    RemoveStep, RunEvent, RunStep, SessionCheck, SessionEvent, UninstallEvent, UninstallStep,
    UseEvent, UseStep,
};
use kee::{KeeConfig, ProfileInfo};

fn info(name: &str, production: bool) -> ProfileInfo {
    ProfileInfo {
        profile_name: name.to_string(),
        sso_start_url: "https://acme.awsapps.com/start".to_string(),
        sso_region: "ap-southeast-2".to_string(),
        sso_account_id: "123456789012".to_string(),
        sso_role_name: "Admin".to_string(),
        session_name: "acme".to_string(),
        production,
    }
}

fn config_with(names: &[&str]) -> KeeConfig {
    let mut c = KeeConfig::new();
    for n in names {
        c.add_profile(n.to_string(), info(n, false));
    }
    c
}

// -- making sure a session works --------------------------------------------

#[test]
fn aws_unknown_profile_exits_with_error_code() {
    let step = ensure_session_start(&KeeConfig::new(), "ghost");
    match step {
        SessionCheck::Done { profile: None, errors, .. } => {
            assert!(errors.contains("not found"));
            assert!(errors.contains("kee ls"));
        },
        _ => panic!("expected an unknown profile to stop the check"),
    }
}

#[test]
fn aws_falls_back_to_sso_login_when_preflight_fails() {
    let config = config_with(&["dev"]);
    let step = ensure_session_start(&config, "dev");
    let step = ensure_session_next(step, SessionEvent::Checked(false));
    match &step {
        SessionCheck::Login { notice, .. } => assert!(notice.contains("running 'aws sso login'")),
        _ => panic!("expected a login"),
    }
    let step = ensure_session_next(step, SessionEvent::LoggedIn(true));
    assert!(matches!(step, SessionCheck::Recheck(_)));
    match ensure_session_next(step, SessionEvent::Checked(false)) {
        SessionCheck::Done { profile: None, errors, .. } => {
            assert!(errors.contains("Failed to authenticate"))
        },
        _ => panic!("expected failure"),
    }
}

#[test]
fn aws_command_shows_production_warning_for_prod_profile() {
    let mut config = KeeConfig::new();
    config.add_profile("prod".to_string(), info("prod", true));
    let step = ensure_session_start(&config, "prod");
    match ensure_session_next(step, SessionEvent::Checked(true)) {
        SessionCheck::Done { profile: Some(p), errors, banner } => {
            assert_eq!(p.profile_name, "prod");
            assert!(errors.is_empty());
            assert!(banner.contains("PRODUCTION ACCOUNT"));
        },
        _ => panic!("expected a usable session"),
    }
    let config = config_with(&["dev"]);
    match ensure_session_next(ensure_session_start(&config, "dev"), SessionEvent::Checked(true)) {
        SessionCheck::Done { banner, .. } => assert!(banner.is_empty()),
        _ => panic!("expected a usable session"),
    }
}

// -- kee run ------------------------------------------------------------------

#[test]
fn run_with_empty_command_returns_usage_error() {
    match run_start("dev".to_string(), Vec::new()) {
        RunStep::Finish { code, errors } => {
            assert_eq!(code, 2);
            assert!(errors.contains("specify a command"));
        },
        _ => panic!("expected the usage error"),
    }
}

#[test]
fn run_propagates_wrapped_command_exit_code() {
    let step = run_start("dev".to_string(), vec!["sh".to_string(), "-c".to_string(), "exit 3".to_string()]);
    let step = run_next(step, RunEvent::SessionChecked(Some(info("aws-dev", false))));
    match &step {
        RunStep::Execute { aws_profile, program, args } => {
            assert_eq!(aws_profile, "aws-dev");
            assert_eq!(program, "sh");
            assert_eq!(args, &vec!["-c".to_string(), "exit 3".to_string()]);
        },
        _ => panic!("expected the command to run"),
    }
    assert!(matches!(run_next(step, RunEvent::Executed(Ok(Some(3)))), RunStep::Finish { code: 3, .. }));
}

#[test]
fn run_exit_codes_for_signals_and_spawn_failures() {
    let exec = || RunStep::Execute { aws_profile: "p".to_string(), program: "nope".to_string(), args: Vec::new() };
    assert!(matches!(run_next(exec(), RunEvent::Executed(Ok(None))), RunStep::Finish { code: 1, .. }));
    match run_next(exec(), RunEvent::Executed(Err("not found".to_string()))) {
        RunStep::Finish { code, errors } => {
            assert_eq!(code, 127);
            assert_eq!(errors, " [X] Failed to execute 'nope': not found\n");
        },
        _ => panic!("expected a finish"),
    }
    let step = run_start("dev".to_string(), vec!["ls".to_string()]);
    assert!(matches!(run_next(step, RunEvent::SessionChecked(None)), RunStep::Finish { code: 1, .. }));
}

// -- kee console --------------------------------------------------------------

fn exported(token: Option<&str>) -> ConsoleEvent {
    ConsoleEvent::Exported(Ok(ExportedCredentials {
        access_key_id: "AKIA".to_string(),
        secret_access_key: "secret".to_string(),
        session_token: token.map(|t| t.to_string()),
    }))
}

#[test]
fn console_bails_when_credentials_lack_session_token() {
    let step = console_next(ConsoleStep::EnsureSession("dev".to_string()), ConsoleEvent::SessionChecked(Some(info("dev", false))));
    match console_next(step, exported(None)) {
        ConsoleStep::Finish { code, errors } => {
            assert_eq!(code, 1);
            assert!(errors.contains("did not return a session token"));
            assert!(errors.contains("temporary credentials"));
        },
        _ => panic!("expected to bail"),
    }
}

#[test]
fn console_bails_when_session_token_is_empty_string() {
    let step = ConsoleStep::ExportCredentials(info("dev", false));
    match console_next(step, exported(Some(""))) {
        ConsoleStep::Finish { code, errors } => {
            assert_eq!(code, 1);
            assert!(errors.contains("did not return a session token"));
        },
        _ => panic!("expected to bail"),
    }
}

#[test]
fn console_full_path_opens_the_federated_login() {
    let step = console_start(None, Some("dev".to_string()));
    assert!(matches!(&step, ConsoleStep::EnsureSession(n) if n == "dev"));
    let step = console_next(step, ConsoleEvent::SessionChecked(Some(info("dev", false))));
    let step = console_next(step, exported(Some("tok")));
    let url = match &step {
        ConsoleStep::FetchSigninToken { url, .. } => url.clone(),
        _ => panic!("expected a token request"),
    };
    assert!(url.starts_with("https://signin.aws.amazon.com/federation?Action=getSigninToken&Session=%7B%22sessionId%22%3A%22AKIA%22"));
    let step = console_next(step, ConsoleEvent::SigninToken { token: Ok("SIGNIN".to_string()), user: Some("alice".to_string()) });
    let login = match &step {
        ConsoleStep::OpenBrowser { url, notice } => {
            assert_eq!(notice, &format!(" Opening AWS console for {}...\n", hlt("dev")));
            url.clone()
        },
        _ => panic!("expected the browser"),
    };
    assert!(login.contains("%2Falice%2Fkee&Destination=https%3A%2F%2Fap-southeast-2.console.aws.amazon.com%2F&SigninToken=SIGNIN"));
    assert!(matches!(console_next(step, ConsoleEvent::BrowserOpened(Ok(()))), ConsoleStep::Finish { code: 0, .. }));
}

#[test]
fn console_failures_end_with_code_one() {
    assert!(matches!(console_start(None, Some(String::new())), ConsoleStep::Pick));
    assert!(matches!(console_next(ConsoleStep::Pick, ConsoleEvent::Picked(None)), ConsoleStep::Finish { code: 0, .. }));
    match console_next(ConsoleStep::ExportCredentials(info("dev", false)), ConsoleEvent::ExportFailed("  boom \n".to_string())) {
        ConsoleStep::Finish { code, errors } => {
            assert_eq!(code, 1);
            assert!(errors.contains("Could not export credentials"));
            assert!(errors.contains("\n     boom\n"));
            assert!(errors.contains("v2.15+"));
        },
        _ => panic!("expected a failure"),
    }
    let open = ConsoleStep::OpenBrowser { url: "https://u".to_string(), notice: String::new() };
    match console_next(open, ConsoleEvent::BrowserOpened(Err("no display".to_string()))) {
        ConsoleStep::Finish { code, errors } => {
            assert_eq!(code, 1);
            assert!(errors.contains("no display"));
            assert!(errors.contains(" Open this URL manually:\n https://u\n"));
        },
        _ => panic!("expected a failure"),
    }
}

// -- kee use ------------------------------------------------------------------

#[test]
fn use_unknown_profile_offers_to_add_then_aborts_on_n() {
    let config = config_with(&["alpha"]);
    let step = use_start(false, None, &config, "ghost".to_string());
    match &step {
        UseStep::AskToAdd { out, .. } => {
            assert!(out.contains("not found"));
            assert!(out.contains("Available profiles"));
            assert!(out.contains(&hlt("alpha")));
        },
        _ => panic!("expected the offer to add"),
    }
    match use_next(step, UseEvent::Answered(false)) {
        UseStep::Finish { ok, .. } => assert!(!ok),
        _ => panic!("expected to stop"),
    }
}

#[test]
fn use_inside_a_session_is_refused() {
    match use_start(true, None, &config_with(&["a"]), "a".to_string()) {
        UseStep::Finish { ok, out } => {
            assert!(!ok);
            assert!(out.contains(&hlt("unknown")));
            assert!(out.contains("Exit the current session first"));
        },
        _ => panic!("expected a refusal"),
    }
}

#[test]
fn use_runs_the_session_under_the_aws_profile_name() {
    let mut config = KeeConfig::new();
    config.add_profile("short".to_string(), info("long-aws", false));
    let step = use_start(false, None, &config, "short".to_string());
    let step = use_next(step, UseEvent::Checked(false));
    assert!(matches!(&step, UseStep::Login { status, .. } if status.contains("Session expired")));
    match use_next(step, UseEvent::LoggedIn(true)) {
        UseStep::RunSession { current, status, keep_alive, .. } => {
            assert_eq!(current, "long-aws");
            assert_eq!(keep_alive, "long-aws");
            assert!(status.is_none());
        },
        _ => panic!("expected the session"),
    }
}

#[test]
fn use_refreshes_a_valid_session_before_the_sub_shell() {
    let mut config = KeeConfig::new();
    config.add_profile("short".to_string(), info("long-aws", false));
    let step = use_start(false, None, &config, "short".to_string());
    let step = use_next(step, UseEvent::Checked(true));
    match &step {
        UseStep::Refresh { profile, status } => {
            assert_eq!(profile.profile_name, "long-aws");
            assert!(status.contains("Session is valid"));
        },
        _ => panic!("expected a refresh"),
    }
    let refreshed = use_next(
        UseStep::Refresh { profile: info("long-aws", false), status: String::new() },
        UseEvent::Refreshed(true),
    );
    match refreshed {
        UseStep::RunSession { current, status: Some(s), keep_alive, .. } => {
            assert_eq!(current, "long-aws");
            assert_eq!(keep_alive, "long-aws");
            assert_eq!(s, " [\u{2713}] Session refreshed.");
        },
        _ => panic!("expected the session"),
    }
    match use_next(step, UseEvent::Refreshed(false)) {
        UseStep::RunSession { status: Some(s), .. } => assert!(s.contains("still valid")),
        _ => panic!("expected the session"),
    }
}

#[test]
fn use_after_adding_asks_before_starting() {
    let step = use_next(UseStep::AddProfile { name: "new".to_string() }, UseEvent::Added(true));
    match &step {
        UseStep::AskToUse { prompt, .. } => assert!(prompt.contains("Would you like to use profile")),
        _ => panic!("expected the question"),
    }
    match use_next(step, UseEvent::Answered(false)) {
        UseStep::Finish { ok, out } => {
            assert!(ok);
            assert!(out.contains(&hlt("kee use new")));
        },
        _ => panic!("expected to stop"),
    }
    let step = UseStep::ReloadConfig { name: "new".to_string() };
    match use_next(step, UseEvent::ConfigLoaded(config_with(&["new"]))) {
        UseStep::CheckSession { profile } => assert_eq!(profile.profile_name, "new"),
        _ => panic!("expected the check"),
    }
}

#[test]
fn subshell_texts() {
    let banner = subshell_banner(&info("prod", true));
    assert!(banner.starts_with(&format!("\n Profile: {}\n", hlt("prod"))));
    assert!(banner.contains("PRODUCTION ACCOUNT"));
    assert!(!subshell_banner(&info("dev", false)).contains("PRODUCTION"));
    assert_eq!(session_ended_message("dev"), format!("\n {} \u{2014} Session ended.\n", hlt("dev")));
}

// -- kee add ------------------------------------------------------------------

#[test]
fn add_writes_profile_to_kee_config_and_marks_production_when_y() {
    let step = add_start("acme".to_string());
    assert!(matches!(&step, AddStep::ConfigureSso { out, .. } if out.contains("Starting SSO configuration")));
    let step = add_next(step, AddEvent::Configured(true));
    let step = add_next(step, AddEvent::Formatted);
    let step = add_next(step, AddEvent::ProfileRead(Some(info("acme", false))));
    assert!(matches!(&step, AddStep::AskProduction { prompt, .. } if prompt.contains("production account")));
    match add_next(step, AddEvent::Answered(true)) {
        AddStep::Save { name, info } => {
            assert_eq!(name, "acme");
            assert!(info.production);
        },
        _ => panic!("expected the save"),
    }
}

#[test]
fn add_marks_non_production_when_n() {
    let step = AddStep::AskProduction { name: "a".to_string(), info: info("a", true), prompt: String::new() };
    match add_next(step, AddEvent::Answered(false)) {
        AddStep::Save { info, .. } => assert!(!info.production),
        _ => panic!("expected the save"),
    }
}

#[test]
fn add_reports_failures_and_outcomes() {
    let step = add_start("a".to_string());
    assert!(matches!(add_next(step, AddEvent::Configured(false)), AddStep::Finish { ok: false, .. }));
    let read = AddStep::ReadProfile { name: "a".to_string() };
    assert!(matches!(add_next(read, AddEvent::ProfileRead(None)), AddStep::Finish { ok: false, .. }));
    let check = || AddStep::CheckCredentials { name: "a".to_string() };
    assert!(matches!(add_next(check(), AddEvent::Checked(true)), AddStep::Finish { ok: true, out } if out.contains("working")));
    assert!(matches!(add_next(check(), AddEvent::Checked(false)), AddStep::Finish { ok: true, out } if out.contains("aws sso login --profile a")));
}

// -- kee rm -------------------------------------------------------------------

#[test]
fn rm_unknown_profile_reports_not_found() {
    match remove_start(&KeeConfig::new(), "ghost".to_string()) {
        RemoveStep::Finish { ok, out } => {
            assert!(!ok);
            assert!(out.contains("not found"));
        },
        _ => panic!("expected not found"),
    }
}

#[test]
fn rm_with_y_removes_profile_from_kee_config() {
    let mut config = KeeConfig::new();
    config.add_profile("dev".to_string(), info("aws-dev", false));
    let step = remove_start(&config, "dev".to_string());
    let step = remove_next(step, RemoveEvent::Answered(true));
    assert!(matches!(&step, RemoveStep::RemoveFromConfig { name } if name == "dev"));
    let removed = config.remove_profile("dev").unwrap();
    let step = remove_next(step, RemoveEvent::Removed(removed));
    assert!(matches!(&step, RemoveStep::RemoveAwsProfile { aws_profile, .. } if aws_profile == "aws-dev"));
    match remove_next(step, RemoveEvent::AwsRemoved(Err("denied".to_string()))) {
        RemoveStep::Finish { ok, out } => {
            assert!(ok);
            assert!(out.contains("Could not remove AWS profile"));
            assert!(out.contains("denied"));
        },
        _ => panic!("expected the finish"),
    }
    assert!(config.is_empty());
}

#[test]
fn rm_with_n_keeps_profile() {
    let config = config_with(&["dev"]);
    let step = remove_start(&config, "dev".to_string());
    assert!(matches!(remove_next(step, RemoveEvent::Answered(false)), RemoveStep::Finish { ok: false, .. }));
    assert!(config.get_profile("dev").is_some());
}

// -- kee set and kee refresh --------------------------------------------------

#[test]
fn set_production_flips_flag_to_true() {
    let mut config = config_with(&["dev"]);
    let (found, out) = set_profile(&mut config, "dev", true, false);
    assert!(found);
    assert!(out.contains("marked as production"));
    assert!(config.get_profile("dev").unwrap().production);
}

#[test]
fn set_no_production_flips_flag_to_false() {
    let mut config = KeeConfig::new();
    config.add_profile("dev".to_string(), info("dev", true));
    let (found, out) = set_profile(&mut config, "dev", false, true);
    assert!(found);
    assert!(out.contains("unmarked as production"));
    assert!(!config.get_profile("dev").unwrap().production);
}

#[test]
fn set_unknown_profile_reports_not_found() {
    let mut config = KeeConfig::new();
    let (found, out) = set_profile(&mut config, "ghost", true, false);
    assert!(!found);
    assert!(out.contains("not found"));
}

#[test]
fn refresh_uses_active_session_profile_when_no_arg() {
    let config = KeeConfig::new();
    match refresh_start(None, Some("aws-dev".to_string()), &config) {
        RefreshStep::Login { aws_profile, out } => {
            assert_eq!(aws_profile, "aws-dev");
            assert!(out.contains("Refreshing SSO session"));
        },
        _ => panic!("expected a login"),
    }
}

#[test]
fn refresh_accepts_explicit_profile() {
    let mut config = KeeConfig::new();
    config.add_profile("dev".to_string(), info("aws-dev", false));
    let step = refresh_start(Some("dev".to_string()), Some("other".to_string()), &config);
    assert!(matches!(&step, RefreshStep::Login { aws_profile, .. } if aws_profile == "aws-dev"));
    match refresh_next(step, RefreshEvent::LoggedIn(true), &config) {
        RefreshStep::Finish { code, out, .. } => {
            assert_eq!(code, 0);
            assert!(out.contains("Session refreshed"));
        },
        _ => panic!("expected the finish"),
    }
}

#[test]
fn refresh_reports_failure_when_sso_login_fails() {
    let config = KeeConfig::new();
    let step = refresh_start(Some("x".to_string()), None, &config);
    match refresh_next(step, RefreshEvent::LoggedIn(false), &config) {
        RefreshStep::Finish { code, errors, .. } => {
            assert_eq!(code, 1);
            assert!(errors.contains("Failed to refresh"));
        },
        _ => panic!("expected the finish"),
    }
    let pick = refresh_start(None, None, &config);
    assert!(matches!(refresh_next(pick, RefreshEvent::Picked(None), &config), RefreshStep::Finish { code: 0, .. }));
}

// -- completions install and uninstall ----------------------------------------

#[test]
fn completions_install_zsh_writes_script_and_edits_rc() {
    let step = install_start(Some(ShellKind::Zsh), None);
    assert!(matches!(step, InstallStep::FindTarget(ShellKind::Zsh)));
    let step = install_next(step, InstallEvent::RcFilesChecked { bashrc_exists: false, bash_profile_exists: false });
    assert!(matches!(&step, InstallStep::WriteScript { target, .. } if target.completion_path == ".kee/completions/_kee"));
    let step = install_next(step, InstallEvent::ScriptWritten("/h/.kee/completions/_kee".to_string()));
    let step = install_next(step, InstallEvent::RcRead { content: Some("x=1\n".to_string()), shown: "/h/.zshrc".to_string() });
    match &step {
        InstallStep::WriteRc { content, out } => {
            assert!(content.starts_with("x=1\n\n# Kee completion\n"));
            assert!(out.contains("Wrote completions to"));
            assert!(out.contains("Updated"));
            assert!(out.contains("source ~/.zshrc"));
        },
        _ => panic!("expected the rc write"),
    }
    assert!(matches!(install_next(step, InstallEvent::RcWritten), InstallStep::Finish { .. }));
}

#[test]
fn completions_install_zsh_is_idempotent() {
    let edit = RcEdit {
        rc_path: ".zshrc".to_string(),
        marker: "~/.kee/completions".to_string(),
        block: kee::completions::ZSH_RC_BLOCK.to_string(),
    };
    let step = InstallStep::ReadRc { shell: ShellKind::Zsh, edit, out: String::new() };
    let content = format!("a\n{}", kee::completions::ZSH_RC_BLOCK);
    match install_next(step, InstallEvent::RcRead { content: Some(content), shown: "rc".to_string() }) {
        InstallStep::Finish { out, .. } => assert!(out.contains("already configured")),
        _ => panic!("expected no second edit"),
    }
}

#[test]
fn completions_install_without_shell_or_installer() {
    match install_start(None, None) {
        InstallStep::Finish { errors, .. } => {
            assert!(errors.contains("Could not detect your shell"));
            assert!(errors.contains("Supported"));
        },
        _ => panic!("expected to stop"),
    }
    assert!(matches!(install_start(None, Some(ShellKind::Fish)), InstallStep::FindTarget(ShellKind::Fish)));
    let step = InstallStep::FindTarget(ShellKind::PowerShell);
    match install_next(step, InstallEvent::RcFilesChecked { bashrc_exists: false, bash_profile_exists: false }) {
        InstallStep::Finish { errors, .. } => {
            assert!(errors.contains("isn't supported for PowerShell"));
            assert!(errors.contains(&hlt("kee completions print powershell")));
        },
        _ => panic!("expected to stop"),
    }
    let fish = InstallStep::WriteScript {
        shell: ShellKind::Fish,
        target: InstallTarget { completion_path: "f".to_string(), rc_edit: None },
    };
    match install_next(fish, InstallEvent::ScriptWritten("f".to_string())) {
        InstallStep::Finish { out, .. } => assert!(out.ends_with(" Restart your terminal for completions to take effect.\n")),
        _ => panic!("expected the finish"),
    }
}

#[test]
fn completions_uninstall_zsh_removes_script_and_rc_edit() {
    let step = uninstall_start(None, Some(ShellKind::Zsh));
    let step = uninstall_next(step, UninstallEvent::RcFilesChecked { bashrc_exists: false, bash_profile_exists: false });
    assert!(matches!(&step, UninstallStep::RemoveScript(_)));
    let step = uninstall_next(step, UninstallEvent::ScriptRemoved { existed: true, shown: "s".to_string() });
    let content = format!("a\n{}", kee::completions::ZSH_RC_BLOCK);
    match uninstall_next(step, UninstallEvent::RcRead { content: Some(content), shown: "rc".to_string() }) {
        UninstallStep::WriteRc { content, out } => {
            assert_eq!(content, "a\n");
            assert!(out.contains("Removed"));
            assert!(out.contains("Cleaned up"));
        },
        _ => panic!("expected the rc write"),
    }
    match uninstall_start(None, None) {
        UninstallStep::Finish { errors, .. } => assert!(!errors.contains("Supported")),
        _ => panic!("expected to stop"),
    }
}
