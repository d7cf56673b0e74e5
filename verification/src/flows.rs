//! The interactive commands as step functions. Each command is a sequence of
//! steps: a step names what is to be done next (ask the user, run the AWS
//! CLI, open the browser, call the federation endpoint) and carries what the
//! command knows so far; the `*_next` function takes the step that was done
//! and what came of it, and gives the next step. Doing a step is the
//! caller's part; every decision in between is here.

use vstd::prelude::*;

use crate::cli::{hlt, hlt_spec, profile_target};
use crate::completions::{
    install_target, install_target_spec, rc_content_with_edit, rc_content_without_edit,
    rc_with_edit, rc_without_edit, reload_hint, reload_spec, shell_value_name, shell_variant_name,
    value_name, variant_name, InstallTarget, RcEdit, ShellKind,
};
use crate::config::{config_get, config_set_production, opt_view, KeeConfig};
use crate::console::{
    build_issuer, console_url_for_region, console_url_spec, federation_login_url,
    federation_session_json, issuer_spec, login_url_spec, session_json_spec, signin_request_spec,
    signin_token_request_url, str_opt_view,
};
use crate::profile::{ProfileInfo, ProfileView};
use crate::text::{chars_of, push_str, string_from_chars, trim, trim_chars};

verus! {

// ---------------------------------------------------------------------------
// Making sure a profile's SSO session is usable
// ---------------------------------------------------------------------------

/// Printed (to stdout) before running a command against a production account.
pub open spec fn production_banner() -> Seq<char> {
    "\n \x1b[1;31m\u{26a0}\u{fe0f}  PRODUCTION ACCOUNT\x1b[0m\n"@
}

/// Printed (to stderr) when the profile is not in Kee's configuration.
pub open spec fn not_found_errors(name: Seq<char>) -> Seq<char> {
    "\n [!] Profile '"@ + hlt_spec(name) + "' not found.\n"@ + " Run "@ + hlt_spec("kee ls"@)
        + " to see available profiles.\n"@
}

/// Printed (to stderr) before a login is attempted.
pub open spec fn login_notice(aws_profile: Seq<char>) -> Seq<char> {
    " Kee: session expired for '"@ + hlt_spec(aws_profile) + "', running 'aws sso login'...\n"@
}

/// Printed (to stderr) when the session could not be made usable.
pub open spec fn auth_failed_errors() -> Seq<char> {
    " [X] Failed to authenticate. Please run "@ + hlt_spec("aws sso login"@) + " manually.\n"@
}

/// The steps of making sure a profile's session is usable before running a
/// non-interactive command (`run`, `aws`, `console`).
pub enum SessionCheck {
    /// Check the credentials of the profile's AWS profile; answer with `Checked`.
    Check(ProfileInfo),
    /// Print `notice` to stderr and run `aws sso login` for the profile's AWS
    /// profile; answer with `LoggedIn`.
    Login { profile: ProfileInfo, notice: String },
    /// Check the credentials again after the login; answer with `Checked`.
    Recheck(ProfileInfo),
    /// Finished: print `errors` to stderr and `banner` to stdout; `profile` is
    /// the profile when its session is usable.
    Done { profile: Option<ProfileInfo>, errors: String, banner: String },
}

/// What came of a step of `SessionCheck`.
pub enum SessionEvent {
    /// The credentials work (`true`) or not.
    Checked(bool),
    /// `aws sso login` succeeded (`true`) or not.
    LoggedIn(bool),
}

/// The event answers the step.
pub open spec fn session_answers(step: SessionCheck, event: SessionEvent) -> bool {
    match step {
        SessionCheck::Check(_) => event is Checked,
        SessionCheck::Recheck(_) => event is Checked,
        SessionCheck::Login { .. } => event is LoggedIn,
        SessionCheck::Done { .. } => false,
    }
}

/// `r` ends the check with the profile `p` usable.
pub open spec fn session_ready(r: SessionCheck, p: ProfileView) -> bool {
    r matches SessionCheck::Done { profile: Some(q), errors, banner } && q@ == p && errors@.len() == 0
        && banner@ == if p.production {
        production_banner()
    } else {
        Seq::empty()
    }
}

/// `r` ends the check with the session unusable.
pub open spec fn session_failed(r: SessionCheck) -> bool {
    r matches SessionCheck::Done { profile: None, errors, banner } && errors@ == auth_failed_errors()
        && banner@.len() == 0
}

fn production_banner_text(production: bool) -> (r: String)
    ensures
        r@ == if production {
            production_banner()
        } else {
            Seq::empty()
        },
{
    if production {
        "\n \x1b[1;31m\u{26a0}\u{fe0f}  PRODUCTION ACCOUNT\x1b[0m\n".to_owned()
    } else {
        String::new()
    }
}

fn auth_failed_text() -> (r: String)
    ensures
        r@ == auth_failed_errors(),
{
    let mut out = chars_of(" [X] Failed to authenticate. Please run ");
    push_str(&mut out, hlt("aws sso login").as_str());
    push_str(&mut out, " manually.\n");
    string_from_chars(out.as_slice())
}

/// The first step of making sure the session of profile `name` is usable:
/// check its credentials, or stop when Kee does not know the profile.
pub fn ensure_session_start(config: &KeeConfig, name: &str) -> (r: SessionCheck)
    ensures
        match config_get(config@, name@) {
            None => r matches SessionCheck::Done { profile: None, errors, banner }
                && errors@ == not_found_errors(name@) && banner@.len() == 0,
            Some(p) => r matches SessionCheck::Check(q) && q@ == p,
        },
{
    match config.get_profile(name) {
        Some(p) => SessionCheck::Check(p.duplicate()),
        None => {
            let mut out = chars_of("\n [!] Profile '");
            push_str(&mut out, hlt(name).as_str());
            push_str(&mut out, "' not found.\n");
            push_str(&mut out, " Run ");
            push_str(&mut out, hlt("kee ls").as_str());
            push_str(&mut out, " to see available profiles.\n");
            SessionCheck::Done {
                profile: None,
                errors: string_from_chars(out.as_slice()),
                banner: String::new(),
            }
        },
    }
}

/// The step after `step`, given what came of it: working credentials end
/// the check (with the production banner for production accounts); failing
/// ones lead to one login and one more check; a failed login or a failed
/// second check ends it unusable.
pub fn ensure_session_next(step: SessionCheck, event: SessionEvent) -> (r: SessionCheck)
    requires
        session_answers(step, event),
    ensures
        match (step, event) {
            (SessionCheck::Check(p), SessionEvent::Checked(true)) => session_ready(r, p@),
            (SessionCheck::Check(p), SessionEvent::Checked(false)) => r matches SessionCheck::Login {
                profile,
                notice,
            } && profile@ == p@ && notice@ == login_notice(p.profile_name@),
            (SessionCheck::Login { profile: p, .. }, SessionEvent::LoggedIn(true)) => r matches SessionCheck::Recheck(
                q,
            ) && q@ == p@,
            (SessionCheck::Login { .. }, SessionEvent::LoggedIn(false)) => session_failed(r),
            (SessionCheck::Recheck(p), SessionEvent::Checked(true)) => session_ready(r, p@),
            (SessionCheck::Recheck(_), SessionEvent::Checked(false)) => session_failed(r),
            _ => true,
        },
{
    match step {
        SessionCheck::Check(p) => match event {
            SessionEvent::Checked(true) => {
                let banner = production_banner_text(p.production);
                SessionCheck::Done { profile: Some(p), errors: String::new(), banner }
            },
            _ => {
                let mut out = chars_of(" Kee: session expired for '");
                push_str(&mut out, hlt(p.profile_name.as_str()).as_str());
                push_str(&mut out, "', running 'aws sso login'...\n");
                SessionCheck::Login { profile: p, notice: string_from_chars(out.as_slice()) }
            },
        },
        SessionCheck::Login { profile, .. } => match event {
            SessionEvent::LoggedIn(true) => SessionCheck::Recheck(profile),
            _ => SessionCheck::Done {
                profile: None,
                errors: auth_failed_text(),
                banner: String::new(),
            },
        },
        SessionCheck::Recheck(p) => match event {
            SessionEvent::Checked(true) => {
                let banner = production_banner_text(p.production);
                SessionCheck::Done { profile: Some(p), errors: String::new(), banner }
            },
            _ => SessionCheck::Done {
                profile: None,
                errors: auth_failed_text(),
                banner: String::new(),
            },
        },
        SessionCheck::Done { profile, errors, banner } => SessionCheck::Done { profile, errors, banner },
    }
}

// ---------------------------------------------------------------------------
// `kee console`
// ---------------------------------------------------------------------------

/// Temporary credentials, as `aws configure export-credentials --format
/// process` prints them.
pub struct ExportedCredentials {
    pub access_key_id: String,
    pub secret_access_key: String,
    pub session_token: Option<String>,
}

/// The steps of opening the AWS console for a profile.
pub enum ConsoleStep {
    /// Let the user pick a profile; answer with `Picked`.
    Pick,
    /// Make sure the session of the profile `name` is usable (see
    /// `SessionCheck`); answer with `SessionChecked`.
    EnsureSession(String),
    /// Export the temporary credentials of the profile's AWS profile; answer
    /// with `ExportFailed` or `Exported`.
    ExportCredentials(ProfileInfo),
    /// Get a sign-in token from the federation endpoint at `url`; answer with
    /// `SigninToken`.
    FetchSigninToken { profile: ProfileInfo, url: String },
    /// Print `notice` to stderr and open `url` in the browser; answer with
    /// `BrowserOpened`.
    OpenBrowser { url: String, notice: String },
    /// Finished: print `errors` to stderr and exit with `code`.
    Finish { code: i32, errors: String },
}

/// What came of a step of `ConsoleStep`.
pub enum ConsoleEvent {
    /// The picked profile, `None` when there was none to pick or the user gave up.
    Picked(Option<String>),
    /// The profile, when its session is usable.
    SessionChecked(Option<ProfileInfo>),
    /// The export failed; what the AWS CLI wrote to stderr.
    ExportFailed(String),
    /// The export succeeded; its output read as credentials, or why it could not be.
    Exported(Result<ExportedCredentials, String>),
    /// The sign-in token, or why there is none; and the user's name
    /// (`USER`, else `USERNAME`) for the audit-log issuer.
    SigninToken { token: Result<String, String>, user: Option<String> },
    /// Whether the browser opened, or why not.
    BrowserOpened(Result<(), String>),
}

/// The event answers the step.
pub open spec fn console_answers(step: ConsoleStep, event: ConsoleEvent) -> bool {
    match step {
        ConsoleStep::Pick => event is Picked,
        ConsoleStep::EnsureSession(_) => event is SessionChecked,
        ConsoleStep::ExportCredentials(_) => event is ExportFailed || event is Exported,
        ConsoleStep::FetchSigninToken { .. } => event is SigninToken,
        ConsoleStep::OpenBrowser { .. } => event is BrowserOpened,
        ConsoleStep::Finish { .. } => false,
    }
}

/// `r` finishes with exit code `code` and the error text `errors`.
pub open spec fn console_finish(r: ConsoleStep, code: i32, errors: Seq<char>) -> bool {
    r matches ConsoleStep::Finish { code: c, errors: e } && c == code && e@ == errors
}

/// Printed when the export of credentials fails.
pub open spec fn export_failed_errors(aws_profile: Seq<char>, stderr: Seq<char>) -> Seq<char> {
    "\n [X] Could not export credentials for '"@ + hlt_spec(aws_profile) + "'.\n     "@ + trim(stderr)
        + "\n"@ + "     Requires AWS CLI v2.15+. Run "@ + hlt_spec("aws --version"@) + " to check.\n"@
}

/// Printed when the exported credentials hold no session token.
pub open spec fn no_token_errors(aws_profile: Seq<char>) -> Seq<char> {
    "\n [X] Profile '"@ + hlt_spec(aws_profile) + "' did not return a session token.\n"@
        + "     Console federation requires temporary credentials (SSO/STS).\n"@
}

/// The first step of `kee console`: the profile named on the command line,
/// else the active session's (when not empty), else the user's pick.
pub fn console_start(arg: Option<String>, session: Option<String>) -> (r: ConsoleStep)
    ensures
        match profile_target(opt_view(arg), opt_view(session)) {
            Some(n) => r matches ConsoleStep::EnsureSession(m) && m@ == n,
            None => r is Pick,
        },
{
    match crate::cli::resolve_profile_arg(arg, session) {
        Some(n) => ConsoleStep::EnsureSession(n),
        None => ConsoleStep::Pick,
    }
}

fn export_failed_text(aws_profile: &str, stderr: &str) -> (r: String)
    ensures
        r@ == export_failed_errors(aws_profile@, stderr@),
{
    let mut out = chars_of("\n [X] Could not export credentials for '");
    push_str(&mut out, hlt(aws_profile).as_str());
    push_str(&mut out, "'.\n     ");
    let t = trim_chars(&chars_of(stderr));
    crate::text::push_chars(&mut out, &t);
    push_str(&mut out, "\n");
    push_str(&mut out, "     Requires AWS CLI v2.15+. Run ");
    push_str(&mut out, hlt("aws --version").as_str());
    push_str(&mut out, " to check.\n");
    string_from_chars(out.as_slice())
}

fn no_token_text(aws_profile: &str) -> (r: String)
    ensures
        r@ == no_token_errors(aws_profile@),
{
    let mut out = chars_of("\n [X] Profile '");
    push_str(&mut out, hlt(aws_profile).as_str());
    push_str(&mut out, "' did not return a session token.\n");
    push_str(&mut out, "     Console federation requires temporary credentials (SSO/STS).\n");
    string_from_chars(out.as_slice())
}

fn prefixed_line(prefix: &str, detail: &str) -> (r: String)
    ensures
        r@ == prefix@ + detail@ + "\n"@,
{
    let mut out = chars_of(prefix);
    push_str(&mut out, detail);
    push_str(&mut out, "\n");
    string_from_chars(out.as_slice())
}

/// The step after `step` of `kee console`, given what came of it. No profile
/// picked ends with code 0; an unusable session, a failed export, unreadable
/// credentials, credentials without a session token, no sign-in token, or a
/// browser that would not open end with code 1 (the last with the URL to
/// open by hand); an opened browser ends with 0.
pub fn console_next(step: ConsoleStep, event: ConsoleEvent) -> (r: ConsoleStep)
    requires
        console_answers(step, event),
    ensures
        match (step, event) {
            (ConsoleStep::Pick, ConsoleEvent::Picked(Some(n))) => r matches ConsoleStep::EnsureSession(
                m,
            ) && m@ == n@,
            (ConsoleStep::Pick, ConsoleEvent::Picked(None)) => console_finish(r, 0, Seq::empty()),
            (ConsoleStep::EnsureSession(_), ConsoleEvent::SessionChecked(Some(p))) => r matches ConsoleStep::ExportCredentials(
                q,
            ) && q@ == p@,
            (ConsoleStep::EnsureSession(_), ConsoleEvent::SessionChecked(None)) => console_finish(
                r,
                1,
                Seq::empty(),
            ),
            (ConsoleStep::ExportCredentials(p), ConsoleEvent::ExportFailed(err)) => console_finish(
                r,
                1,
                export_failed_errors(p.profile_name@, err@),
            ),
            (ConsoleStep::ExportCredentials(_), ConsoleEvent::Exported(Err(e))) => console_finish(
                r,
                1,
                "\n [X] Could not parse exported credentials: "@ + e@ + "\n"@,
            ),
            (ConsoleStep::ExportCredentials(p), ConsoleEvent::Exported(Ok(c))) => match c.session_token {
                Some(t) if t@.len() > 0 => r matches ConsoleStep::FetchSigninToken { profile, url }
                    && profile@ == p@ && url@ == signin_request_spec(
                    session_json_spec(c.access_key_id@, c.secret_access_key@, t@),
                ),
                _ => console_finish(r, 1, no_token_errors(p.profile_name@)),
            },
            (ConsoleStep::FetchSigninToken { .. }, ConsoleEvent::SigninToken { token: Err(e), .. }) => console_finish(
                r,
                1,
                "\n [X] Could not get a signin token from AWS: "@ + e@ + "\n"@,
            ),
            (
                ConsoleStep::FetchSigninToken { profile: p, .. },
                ConsoleEvent::SigninToken { token: Ok(t), user },
            ) => r matches ConsoleStep::OpenBrowser { url, notice } && (exists|host: Option<Seq<char>>|
                #[trigger] login_url_spec(
                    issuer_spec(host, opt_view(user)),
                    console_url_spec(p.sso_region@),
                    t@,
                ) == url@) && notice@ == " Opening AWS console for "@ + hlt_spec(p.profile_name@)
                + "...\n"@,
            (ConsoleStep::OpenBrowser { url, .. }, ConsoleEvent::BrowserOpened(Err(e))) => console_finish(
                r,
                1,
                "\n [!] Could not open browser automatically: "@ + e@ + "\n"@
                    + " Open this URL manually:\n "@ + url@ + "\n"@,
            ),
            (ConsoleStep::OpenBrowser { .. }, ConsoleEvent::BrowserOpened(Ok(()))) => console_finish(
                r,
                0,
                Seq::empty(),
            ),
            _ => true,
        },
{
    match step {
        ConsoleStep::Pick => match event {
            ConsoleEvent::Picked(Some(n)) => ConsoleStep::EnsureSession(n),
            _ => ConsoleStep::Finish { code: 0, errors: String::new() },
        },
        ConsoleStep::EnsureSession(_) => match event {
            ConsoleEvent::SessionChecked(Some(p)) => ConsoleStep::ExportCredentials(p),
            _ => ConsoleStep::Finish { code: 1, errors: String::new() },
        },
        ConsoleStep::ExportCredentials(p) => match event {
            ConsoleEvent::ExportFailed(err) => ConsoleStep::Finish {
                code: 1,
                errors: export_failed_text(p.profile_name.as_str(), err.as_str()),
            },
            ConsoleEvent::Exported(Err(e)) => ConsoleStep::Finish {
                code: 1,
                errors: prefixed_line("\n [X] Could not parse exported credentials: ", e.as_str()),
            },
            ConsoleEvent::Exported(Ok(c)) => {
                let token = crate::console::usable_session_token(c.session_token);
                match token {
                    Some(t) => {
                        let json = federation_session_json(
                            c.access_key_id.as_str(),
                            c.secret_access_key.as_str(),
                            t.as_str(),
                        );
                        let url = signin_token_request_url(json.as_str());
                        ConsoleStep::FetchSigninToken { profile: p, url }
                    },
                    None => ConsoleStep::Finish {
                        code: 1,
                        errors: no_token_text(p.profile_name.as_str()),
                    },
                }
            },
            _ => ConsoleStep::Finish { code: 1, errors: String::new() },
        },
        ConsoleStep::FetchSigninToken { profile, .. } => match event {
            ConsoleEvent::SigninToken { token: Ok(t), user } => {
                let console_url = console_url_for_region(profile.sso_region.as_str());
                let user_ref: Option<&str> = match &user {
                    Some(u) => Some(u.as_str()),
                    None => None,
                };
                let issuer = build_issuer(user_ref);
                let url = federation_login_url(issuer.as_str(), console_url.as_str(), t.as_str());
                let mut notice = chars_of(" Opening AWS console for ");
                push_str(&mut notice, hlt(profile.profile_name.as_str()).as_str());
                push_str(&mut notice, "...\n");
                proof {
                    assert(str_opt_view(user_ref) == opt_view(user));
                    let host = choose|host: Option<Seq<char>>|
                        #[trigger] issuer_spec(host, str_opt_view(user_ref)) == issuer@;
                    assert(login_url_spec(
                        issuer_spec(host, opt_view(user)),
                        console_url_spec(profile.sso_region@),
                        t@,
                    ) == url@);
                }
                ConsoleStep::OpenBrowser { url, notice: string_from_chars(notice.as_slice()) }
            },
            ConsoleEvent::SigninToken { token: Err(e), .. } => ConsoleStep::Finish {
                code: 1,
                errors: prefixed_line("\n [X] Could not get a signin token from AWS: ", e.as_str()),
            },
            _ => ConsoleStep::Finish { code: 1, errors: String::new() },
        },
        ConsoleStep::OpenBrowser { url, .. } => match event {
            ConsoleEvent::BrowserOpened(Err(e)) => {
                let mut out = chars_of("\n [!] Could not open browser automatically: ");
                push_str(&mut out, e.as_str());
                push_str(&mut out, "\n");
                push_str(&mut out, " Open this URL manually:\n ");
                push_str(&mut out, url.as_str());
                push_str(&mut out, "\n");
                ConsoleStep::Finish { code: 1, errors: string_from_chars(out.as_slice()) }
            },
            _ => ConsoleStep::Finish { code: 0, errors: String::new() },
        },
        ConsoleStep::Finish { code, errors } => ConsoleStep::Finish { code, errors },
    }
}

// ---------------------------------------------------------------------------
// `kee run` and `kee aws`
// ---------------------------------------------------------------------------

/// The steps of running a command with a profile's credentials.
pub enum RunStep {
    /// Make sure the session of the profile `name` is usable (see
    /// `SessionCheck`); answer with `SessionChecked`.
    EnsureSession { name: String, command: Vec<String> },
    /// Run `program` with `args`, with `AWS_PROFILE` and `KEE_CURRENT_PROFILE`
    /// set to `aws_profile` and `KEE_ACTIVE_PROFILE` to `1`; answer with `Executed`.
    Execute { aws_profile: String, program: String, args: Vec<String> },
    /// Finished: print `errors` to stderr and exit with `code`.
    Finish { code: i32, errors: String },
}

/// What came of a step of `RunStep`.
pub enum RunEvent {
    /// The profile, when its session is usable.
    SessionChecked(Option<ProfileInfo>),
    /// The command's exit code (`None` when a signal ended it), or why it
    /// could not be started.
    Executed(Result<Option<i32>, String>),
}

/// The event answers the step.
pub open spec fn run_answers(step: RunStep, event: RunEvent) -> bool {
    match step {
        RunStep::EnsureSession { .. } => event is SessionChecked,
        RunStep::Execute { .. } => event is Executed,
        RunStep::Finish { .. } => false,
    }
}

/// Printed when `kee run` is given no command.
pub open spec fn run_usage_errors() -> Seq<char> {
    "\n [X] Please specify a command to run\n"@ + " Usage: "@ + hlt_spec(
        "kee run PROFILE_NAME -- CMD ARGS..."@,
    ) + "\n"@
}

/// The first step of running `command` under the profile `name`: a missing
/// command ends with code 2 and the usage.
pub fn run_start(name: String, command: Vec<String>) -> (r: RunStep)
    ensures
        command@.len() == 0 ==> (r matches RunStep::Finish { code, errors } && code == 2 && errors@
            == run_usage_errors()),
        command@.len() > 0 ==> (r matches RunStep::EnsureSession { name: n, command: c } && n@
            == name@ && c@ == command@),
{
    if command.len() == 0 {
        let mut out = chars_of("\n [X] Please specify a command to run\n");
        push_str(&mut out, " Usage: ");
        push_str(&mut out, hlt("kee run PROFILE_NAME -- CMD ARGS...").as_str());
        push_str(&mut out, "\n");
        RunStep::Finish { code: 2, errors: string_from_chars(out.as_slice()) }
    } else {
        RunStep::EnsureSession { name, command }
    }
}

/// The step after `step` of running a command: an unusable session ends with
/// code 1; otherwise the command's first word runs with the rest as its
/// arguments, and its exit code is Kee's (1 when a signal ended it, 127 when
/// it could not be started).
pub fn run_next(step: RunStep, event: RunEvent) -> (r: RunStep)
    requires
        run_answers(step, event),
        step matches RunStep::EnsureSession { command, .. } ==> command@.len() > 0,
    ensures
        match (step, event) {
            (RunStep::EnsureSession { .. }, RunEvent::SessionChecked(None)) => r matches RunStep::Finish {
                code,
                errors,
            } && code == 1 && errors@.len() == 0,
            (RunStep::EnsureSession { command, .. }, RunEvent::SessionChecked(Some(p))) => r matches RunStep::Execute {
                aws_profile,
                program,
                args,
            } && aws_profile@ == p.profile_name@ && program == command@[0] && args@
                == command@.drop_first(),
            (RunStep::Execute { .. }, RunEvent::Executed(Ok(Some(c)))) => r matches RunStep::Finish {
                code,
                errors,
            } && code == c && errors@.len() == 0,
            (RunStep::Execute { .. }, RunEvent::Executed(Ok(None))) => r matches RunStep::Finish {
                code,
                errors,
            } && code == 1 && errors@.len() == 0,
            (RunStep::Execute { program, .. }, RunEvent::Executed(Err(e))) => r matches RunStep::Finish {
                code,
                errors,
            } && code == 127 && errors@ == " [X] Failed to execute '"@ + program@ + "': "@ + e@
                + "\n"@,
            _ => true,
        },
{
    match step {
        RunStep::EnsureSession { command, .. } => match event {
            RunEvent::SessionChecked(Some(p)) => {
                let mut args = command;
                let program = args.remove(0);
                RunStep::Execute { aws_profile: p.profile_name, program, args }
            },
            _ => RunStep::Finish { code: 1, errors: String::new() },
        },
        RunStep::Execute { program, .. } => match event {
            RunEvent::Executed(Ok(Some(c))) => RunStep::Finish { code: c, errors: String::new() },
            RunEvent::Executed(Ok(None)) => RunStep::Finish { code: 1, errors: String::new() },
            RunEvent::Executed(Err(e)) => {
                let mut out = chars_of(" [X] Failed to execute '");
                push_str(&mut out, program.as_str());
                push_str(&mut out, "': ");
                push_str(&mut out, e.as_str());
                push_str(&mut out, "\n");
                RunStep::Finish { code: 127, errors: string_from_chars(out.as_slice()) }
            },
            _ => RunStep::Finish { code: 1, errors: String::new() },
        },
        RunStep::Finish { code, errors } => RunStep::Finish { code, errors },
    }
}

// ---------------------------------------------------------------------------
// `kee use`
// ---------------------------------------------------------------------------

/// The steps of using a profile in a sub-shell.
pub enum UseStep {
    /// Print `out`, then ask "Would you like to add now?"; answer with `Answered`.
    AskToAdd { name: String, out: String },
    /// Add the profile `name` (see `AddStep`); answer with `Added`.
    AddProfile { name: String },
    /// Ask `prompt`; answer with `Answered`.
    AskToUse { name: String, prompt: String },
    /// Load Kee's configuration again; answer with `ConfigLoaded`.
    ReloadConfig { name: String },
    /// Print a blank line and, behind a spinner reading "Checking session...",
    /// check the credentials of `profile`'s AWS profile; answer with `Checked`.
    CheckSession { profile: ProfileInfo },
    /// Stop the spinner with `status`, then run `aws sso login` for the
    /// profile's AWS profile; answer with `LoggedIn`.
    Login { profile: ProfileInfo, status: String },
    /// Stop the spinner with `status`, then refresh the SSO session of the
    /// profile's AWS profile (`aws sso login`), so that the sub-shell starts
    /// with the longest session; answer with `Refreshed`.
    Refresh { profile: ProfileInfo, status: String },
    /// Print `status` (stopping the spinner with it, when one runs); record
    /// `current` as the current profile and save; while the sub-shell for
    /// `profile` runs, keep the session of the AWS profile `keep_alive` alive
    /// in the background as `keep_alive_action` decides; then clear the
    /// current profile and save; answer with `SessionEnded`.
    RunSession { profile: ProfileInfo, current: String, status: Option<String>, keep_alive: String },
    /// Finished: print `out`; `ok` is whether the profile was used or added.
    Finish { ok: bool, out: String },
}

/// What came of a step of `UseStep`.
pub enum UseEvent {
    /// The user's yes (`true`) or no.
    Answered(bool),
    /// The profile was added (`true`) or not.
    Added(bool),
    /// Kee's configuration as loaded again.
    ConfigLoaded(KeeConfig),
    /// The credentials work (`true`) or not.
    Checked(bool),
    /// `aws sso login` succeeded (`true`) or not.
    LoggedIn(bool),
    /// The session refresh succeeded (`true`) or not.
    Refreshed(bool),
    /// The sub-shell has exited.
    SessionEnded,
}

/// The event answers the step.
pub open spec fn use_answers(step: UseStep, event: UseEvent) -> bool {
    match step {
        UseStep::AskToAdd { .. } => event is Answered,
        UseStep::AddProfile { .. } => event is Added,
        UseStep::AskToUse { .. } => event is Answered,
        UseStep::ReloadConfig { name } => event matches UseEvent::ConfigLoaded(c)
            && c@.profiles.contains_key(name@),
        UseStep::CheckSession { .. } => event is Checked,
        UseStep::Login { .. } => event is LoggedIn,
        UseStep::Refresh { .. } => event is Refreshed,
        UseStep::RunSession { .. } => event is SessionEnded,
        UseStep::Finish { .. } => false,
    }
}

/// Printed when `kee use` runs inside a Kee session.
pub open spec fn nested_session_out(current: Seq<char>) -> Seq<char> {
    "\n [!] You are using a "@ + hlt_spec("Kee"@) + " profile: "@ + hlt_spec(current) + "\n"@
        + " Exit the current session first by typing "@ + hlt_spec("exit"@) + "\n"@
}

/// The bulleted names offered when the profile is not found.
pub open spec fn available_lines(names: Seq<Seq<char>>) -> Seq<char>
    decreases names.len(),
{
    if names.len() == 0 {
        Seq::empty()
    } else {
        available_lines(names.drop_last()) + " \u{2022} "@ + hlt_spec(names.last()) + "\n\n"@
    }
}

/// Printed when the profile to use is not found: the configured names, if any.
pub open spec fn use_not_found_out(name: Seq<char>, names: Seq<Seq<char>>) -> Seq<char> {
    "\n [!] Profile '"@ + hlt_spec(name) + "' not found.\n"@ + if names.len() == 0 {
        Seq::empty()
    } else {
        " Available profiles:\n"@ + available_lines(names)
    }
}

/// The names of a configuration, in its order.
pub open spec fn config_names(config: KeeConfig) -> Seq<Seq<char>> {
    config.profiles.entry_seq().map_values(|e: (Seq<char>, ProfileView)| e.0)
}

fn available_text(names: &Vec<String>) -> (r: String)
    ensures
        r@ == available_lines(names@.map_values(|s: String| s@)),
{
    let ghost nv = names@.map_values(|s: String| s@);
    let mut out: Vec<char> = Vec::new();
    let mut i: usize = 0;
    while i < names.len()
        invariant
            0 <= i <= names@.len(),
            nv == names@.map_values(|s: String| s@),
            out@ == available_lines(nv.take(i as int)),
        decreases names@.len() - i,
    {
        assert(nv.take(i + 1).drop_last() =~= nv.take(i as int));
        push_str(&mut out, " \u{2022} ");
        push_str(&mut out, hlt(names[i].as_str()).as_str());
        push_str(&mut out, "\n\n");
        i = i + 1;
    }
    assert(nv.take(nv.len() as int) =~= nv);
    string_from_chars(out.as_slice())
}

/// The first step of `kee use name`: refuse inside a Kee session (naming its
/// profile, `unknown` when not recorded); offer to add an unknown profile;
/// otherwise check the profile's session.
pub fn use_start(in_session: bool, session_profile: Option<String>, config: &KeeConfig, name: String) -> (r: UseStep)
    ensures
        in_session ==> (r matches UseStep::Finish { ok, out } && !ok && out@ == nested_session_out(
            match session_profile {
                Some(c) => c@,
                None => "unknown"@,
            },
        )),
        !in_session && config_get(config@, name@) is None ==> (r matches UseStep::AskToAdd {
            name: n,
            out,
        } && n@ == name@ && out@ == use_not_found_out(name@, config_names(*config))),
        !in_session && config_get(config@, name@) is Some ==> (r matches UseStep::CheckSession {
            profile,
        } && config_get(config@, name@) == Some(profile@)),
{
    if in_session {
        let current = match session_profile {
            Some(c) => c,
            None => "unknown".to_owned(),
        };
        let mut out = chars_of("\n [!] You are using a ");
        push_str(&mut out, hlt("Kee").as_str());
        push_str(&mut out, " profile: ");
        push_str(&mut out, hlt(current.as_str()).as_str());
        push_str(&mut out, "\n");
        push_str(&mut out, " Exit the current session first by typing ");
        push_str(&mut out, hlt("exit").as_str());
        push_str(&mut out, "\n");
        return UseStep::Finish { ok: false, out: string_from_chars(out.as_slice()) };
    }
    match config.get_profile(name.as_str()) {
        Some(p) => UseStep::CheckSession { profile: p.duplicate() },
        None => {
            let mut out = chars_of("\n [!] Profile '");
            push_str(&mut out, hlt(name.as_str()).as_str());
            push_str(&mut out, "' not found.\n");
            let names = config.profiles.keys();
            if names.len() > 0 {
                push_str(&mut out, " Available profiles:\n");
                let avail = available_text(&names);
                push_str(&mut out, avail.as_str());
            }
            UseStep::AskToAdd { name, out: string_from_chars(out.as_slice()) }
        },
    }
}

/// The prompt that offers to use a profile just added.
pub open spec fn use_now_prompt(name: Seq<char>) -> Seq<char> {
    "Would you like to use profile '"@ + hlt_spec(name) + "' now?"@
}

/// Printed when the user adds a profile but does not use it yet.
pub open spec fn ready_later_out(name: Seq<char>) -> Seq<char> {
    "\n Profile '"@ + hlt_spec(name) + "' is ready to use. Run "@ + hlt_spec("kee use "@ + name)
        + " when needed.\n"@
}

/// The step after `step` of `kee use`. Declining to add ends unsuccessfully;
/// a failed add says so; after an add, declining to use it now ends
/// successfully with a hint, accepting reloads the configuration and goes on
/// with the added profile. Working credentials are refreshed before the
/// session (a failed refresh still starts it, the credentials being valid),
/// failing ones go to one login; a failed login ends unsuccessfully. The
/// session records the profile's AWS profile name as current and keeps that
/// profile's session alive while it runs.
pub fn use_next(step: UseStep, event: UseEvent) -> (r: UseStep)
    requires
        use_answers(step, event),
    ensures
        match (step, event) {
            (UseStep::AskToAdd { .. }, UseEvent::Answered(false)) => r matches UseStep::Finish {
                ok,
                out,
            } && !ok && out@.len() == 0,
            (UseStep::AskToAdd { name, .. }, UseEvent::Answered(true)) => r matches UseStep::AddProfile {
                name: n,
            } && n@ == name@,
            (UseStep::AddProfile { name }, UseEvent::Added(false)) => r matches UseStep::Finish {
                ok,
                out,
            } && !ok && out@ == " [X] Failed to add profile '"@ + hlt_spec(name@) + "'.\n"@,
            (UseStep::AddProfile { name }, UseEvent::Added(true)) => r matches UseStep::AskToUse {
                name: n,
                prompt,
            } && n@ == name@ && prompt@ == use_now_prompt(name@),
            (UseStep::AskToUse { name, .. }, UseEvent::Answered(false)) => r matches UseStep::Finish {
                ok,
                out,
            } && ok && out@ == ready_later_out(name@),
            (UseStep::AskToUse { name, .. }, UseEvent::Answered(true)) => r matches UseStep::ReloadConfig {
                name: n,
            } && n@ == name@,
            (UseStep::ReloadConfig { name }, UseEvent::ConfigLoaded(c)) => r matches UseStep::CheckSession {
                profile,
            } && config_get(c@, name@) == Some(profile@),
            (UseStep::CheckSession { profile: p }, UseEvent::Checked(true)) => r matches UseStep::Refresh {
                profile,
                status,
            } && profile@ == p@ && status@ == " [\u{2713}] Session is valid."@,
            (UseStep::Refresh { profile: p, .. }, UseEvent::Refreshed(true)) => r matches UseStep::RunSession {
                profile,
                current,
                status: Some(s),
                keep_alive,
            } && profile@ == p@ && current@ == p.profile_name@ && keep_alive@ == p.profile_name@ && s@
                == " [\u{2713}] Session refreshed."@,
            (UseStep::Refresh { profile: p, .. }, UseEvent::Refreshed(false)) => r matches UseStep::RunSession {
                profile,
                current,
                status: Some(s),
                keep_alive,
            } && profile@ == p@ && current@ == p.profile_name@ && keep_alive@ == p.profile_name@ && s@
                == " [!] Could not refresh the session; it is still valid."@,
            (UseStep::CheckSession { profile: p }, UseEvent::Checked(false)) => r matches UseStep::Login {
                profile,
                status,
            } && profile@ == p@ && status@ == " [!] Session expired. Opening SSO login..."@,
            (UseStep::Login { .. }, UseEvent::LoggedIn(false)) => r matches UseStep::Finish { ok, out }
                && !ok && out@ == auth_failed_errors(),
            (UseStep::Login { profile: p, .. }, UseEvent::LoggedIn(true)) => r matches UseStep::RunSession {
                profile,
                current,
                status: None,
                keep_alive,
            } && profile@ == p@ && current@ == p.profile_name@ && keep_alive@ == p.profile_name@,
            (UseStep::RunSession { .. }, UseEvent::SessionEnded) => r matches UseStep::Finish { ok, out }
                && ok && out@.len() == 0,
            _ => true,
        },
{
    match step {
        UseStep::AskToAdd { name, .. } => match event {
            UseEvent::Answered(true) => UseStep::AddProfile { name },
            _ => UseStep::Finish { ok: false, out: String::new() },
        },
        UseStep::AddProfile { name } => match event {
            UseEvent::Added(true) => {
                let mut p = chars_of("Would you like to use profile '");
                push_str(&mut p, hlt(name.as_str()).as_str());
                push_str(&mut p, "' now?");
                UseStep::AskToUse { name, prompt: string_from_chars(p.as_slice()) }
            },
            _ => {
                let mut out = chars_of(" [X] Failed to add profile '");
                push_str(&mut out, hlt(name.as_str()).as_str());
                push_str(&mut out, "'.\n");
                UseStep::Finish { ok: false, out: string_from_chars(out.as_slice()) }
            },
        },
        UseStep::AskToUse { name, .. } => match event {
            UseEvent::Answered(true) => UseStep::ReloadConfig { name },
            _ => {
                let mut out = chars_of("\n Profile '");
                push_str(&mut out, hlt(name.as_str()).as_str());
                push_str(&mut out, "' is ready to use. Run ");
                let mut cmd = chars_of("kee use ");
                push_str(&mut cmd, name.as_str());
                let cmd = string_from_chars(cmd.as_slice());
                push_str(&mut out, hlt(cmd.as_str()).as_str());
                push_str(&mut out, " when needed.\n");
                UseStep::Finish { ok: true, out: string_from_chars(out.as_slice()) }
            },
        },
        UseStep::ReloadConfig { name } => match event {
            UseEvent::ConfigLoaded(c) => match c.get_profile(name.as_str()) {
                Some(p) => UseStep::CheckSession { profile: p.duplicate() },
                None => UseStep::Finish { ok: false, out: String::new() },
            },
            _ => UseStep::Finish { ok: false, out: String::new() },
        },
        UseStep::CheckSession { profile } => match event {
            UseEvent::Checked(true) => UseStep::Refresh {
                profile,
                status: " [\u{2713}] Session is valid.".to_owned(),
            },
            _ => UseStep::Login {
                profile,
                status: " [!] Session expired. Opening SSO login...".to_owned(),
            },
        },
        UseStep::Login { profile, .. } => match event {
            UseEvent::LoggedIn(true) => {
                let current = profile.profile_name.clone();
                let keep_alive = profile.profile_name.clone();
                UseStep::RunSession { profile, current, status: None, keep_alive }
            },
            _ => UseStep::Finish { ok: false, out: auth_failed_text() },
        },
        UseStep::Refresh { profile, .. } => {
            let current = profile.profile_name.clone();
            let keep_alive = profile.profile_name.clone();
            let status = match event {
                UseEvent::Refreshed(true) => " [\u{2713}] Session refreshed.".to_owned(),
                _ => " [!] Could not refresh the session; it is still valid.".to_owned(),
            };
            UseStep::RunSession { profile, current, status: Some(status), keep_alive }
        },
        UseStep::RunSession { .. } => UseStep::Finish { ok: true, out: String::new() },
        UseStep::Finish { ok, out } => UseStep::Finish { ok, out },
    }
}

/// What the sub-shell's banner says: the profile, a warning for production
/// accounts, and how to get back.
pub open spec fn subshell_banner_spec(profile: ProfileView) -> Seq<char> {
    "\n Profile: "@ + hlt_spec(profile.profile_name) + "\n"@ + (if profile.production {
        " \x1b[1;31m\u{26a0}\u{fe0f}  PRODUCTION ACCOUNT\x1b[0m\n"@
    } else {
        Seq::empty()
    }) + " "@ + hlt_spec("Kee"@) + " is starting a sub-shell...\n"@ + " Type "@ + hlt_spec("exit"@)
        + " to return to your main shell.\n"@
}

/// The banner printed before the sub-shell starts.
pub fn subshell_banner(profile: &ProfileInfo) -> (r: String)
    ensures
        r@ == subshell_banner_spec(profile@),
{
    let mut out = chars_of("\n Profile: ");
    push_str(&mut out, hlt(profile.profile_name.as_str()).as_str());
    push_str(&mut out, "\n");
    if profile.production {
        push_str(&mut out, " \x1b[1;31m\u{26a0}\u{fe0f}  PRODUCTION ACCOUNT\x1b[0m\n");
    }
    push_str(&mut out, " ");
    push_str(&mut out, hlt("Kee").as_str());
    push_str(&mut out, " is starting a sub-shell...\n");
    push_str(&mut out, " Type ");
    push_str(&mut out, hlt("exit").as_str());
    push_str(&mut out, " to return to your main shell.\n");
    string_from_chars(out.as_slice())
}

/// Printed when the sub-shell has exited.
pub fn session_ended_message(profile_name: &str) -> (r: String)
    ensures
        r@ == "\n "@ + hlt_spec(profile_name@) + " \u{2014} Session ended.\n"@,
{
    let mut out = chars_of("\n ");
    push_str(&mut out, hlt(profile_name).as_str());
    push_str(&mut out, " \u{2014} Session ended.\n");
    string_from_chars(out.as_slice())
}

// ---------------------------------------------------------------------------
// `kee add`
// ---------------------------------------------------------------------------

/// The steps of adding a profile.
pub enum AddStep {
    /// Print `out`, then run `aws configure sso --profile name`; answer with
    /// `Configured`.
    ConfigureSso { name: String, out: String },
    /// Print `out`, then reformat the AWS config file (see
    /// `AwsManager::format_config`); answer with `Formatted`.
    FormatConfig { name: String, out: String },
    /// Read the profile from the AWS config file (see
    /// `AwsManager::read_profile`); answer with `ProfileRead`.
    ReadProfile { name: String },
    /// Ask `prompt`; answer with `Answered`.
    AskProduction { name: String, info: ProfileInfo, prompt: String },
    /// Record `info` under `name` in Kee's configuration and save it; answer
    /// with `Saved`.
    Save { name: String, info: ProfileInfo },
    /// Check the credentials of the profile `name`; answer with `Checked`.
    CheckCredentials { name: String },
    /// Finished: print `out`; `ok` is whether the profile was added.
    Finish { ok: bool, out: String },
}

/// What came of a step of `AddStep`.
pub enum AddEvent {
    /// `aws configure sso` succeeded (`true`) or not.
    Configured(bool),
    /// The AWS config file was reformatted.
    Formatted,
    /// The profile as read from the AWS config file.
    ProfileRead(Option<ProfileInfo>),
    /// The user's yes (`true`) or no.
    Answered(bool),
    /// Kee's configuration was saved.
    Saved,
    /// The credentials work (`true`) or not.
    Checked(bool),
}

/// The event answers the step.
pub open spec fn add_answers(step: AddStep, event: AddEvent) -> bool {
    match step {
        AddStep::ConfigureSso { .. } => event is Configured,
        AddStep::FormatConfig { .. } => event is Formatted,
        AddStep::ReadProfile { .. } => event is ProfileRead,
        AddStep::AskProduction { .. } => event is Answered,
        AddStep::Save { .. } => event is Saved,
        AddStep::CheckCredentials { .. } => event is Checked,
        AddStep::Finish { .. } => false,
    }
}

/// The directions printed before `aws configure sso` runs.
pub open spec fn add_instructions() -> Seq<char> {
    "\n Starting SSO configuration...\n"@ + " (This will open your browser to complete authentication.)\n"@
        + "\n Follow the prompts:\n"@ + "  "@ + hlt_spec("1."@) + " Enter your SSO start URL\n"@ + "  "@
        + hlt_spec("2."@) + " Enter your SSO region\n"@ + "  "@ + hlt_spec("3."@)
        + " Authenticate in your browser\n"@ + "  "@ + hlt_spec("4."@) + " Select your AWS account\n"@
        + "  "@ + hlt_spec("5."@) + " Select your role\n"@ + "  "@ + hlt_spec("6."@)
        + " Choose your output format (recommend: json)\n"@ + "\n  "@ + hlt_spec("Tip:"@)
        + " A session can be liked to multiple profiles.\n  When prompted for a 'session name', use something generic, like your company name.\n\n"@
}

/// Printed once `aws configure sso` has succeeded.
pub open spec fn add_note() -> Seq<char> {
    "\n "@ + hlt_spec("Note:"@) + " You can ignore the AWS CLI example above.\n "@ + hlt_spec("Kee"@)
        + " will handle profiles for you.\n"@
}

/// Printed at the end of a successful add, by whether the credentials work.
pub open spec fn add_result_out(name: Seq<char>, working: bool) -> Seq<char> {
    if working {
        "\n [\u{2713}] The profile was added and it's working!\n"@
    } else {
        "\n [X] I created the profile but credentials may need a refresh...\n"@ + " "@ + hlt_spec(
            "Try:"@,
        ) + " aws sso login --profile "@ + name + "\n"@
    }
}

fn push_numbered(out: &mut Vec<char>, number: &str, text: &str)
    ensures
        final(out)@ == old(out)@ + "  "@ + hlt_spec(number@) + text@,
{
    push_str(out, "  ");
    push_str(out, hlt(number).as_str());
    push_str(out, text);
}

fn add_instructions_text() -> (r: String)
    ensures
        r@ == add_instructions(),
{
    let mut out = chars_of("\n Starting SSO configuration...\n");
    push_str(&mut out, " (This will open your browser to complete authentication.)\n");
    push_str(&mut out, "\n Follow the prompts:\n");
    push_numbered(&mut out, "1.", " Enter your SSO start URL\n");
    push_numbered(&mut out, "2.", " Enter your SSO region\n");
    push_numbered(&mut out, "3.", " Authenticate in your browser\n");
    push_numbered(&mut out, "4.", " Select your AWS account\n");
    push_numbered(&mut out, "5.", " Select your role\n");
    push_numbered(&mut out, "6.", " Choose your output format (recommend: json)\n");
    push_str(&mut out, "\n  ");
    push_str(&mut out, hlt("Tip:").as_str());
    push_str(
        &mut out,
        " A session can be liked to multiple profiles.\n  When prompted for a 'session name', use something generic, like your company name.\n\n",
    );
    string_from_chars(out.as_slice())
}

/// The first step of `kee add name`: show the directions and run the AWS
/// CLI's SSO configuration.
pub fn add_start(name: String) -> (r: AddStep)
    ensures
        r matches AddStep::ConfigureSso { name: n, out } && n@ == name@ && out@ == add_instructions(),
{
    AddStep::ConfigureSso { name, out: add_instructions_text() }
}

/// The step after `step` of `kee add`. A failed SSO configuration or a
/// profile that cannot be read back ends unsuccessfully; otherwise the
/// profile, marked as production by the user's answer, is recorded under its
/// name and its credentials are checked, which only changes the closing message.
pub fn add_next(step: AddStep, event: AddEvent) -> (r: AddStep)
    requires
        add_answers(step, event),
    ensures
        match (step, event) {
            (AddStep::ConfigureSso { .. }, AddEvent::Configured(false)) => r matches AddStep::Finish {
                ok,
                out,
            } && !ok && out@ == " [X] SSO configuration failed.\n"@,
            (AddStep::ConfigureSso { name, .. }, AddEvent::Configured(true)) => r matches AddStep::FormatConfig {
                name: n,
                out,
            } && n@ == name@ && out@ == add_note(),
            (AddStep::FormatConfig { name, .. }, AddEvent::Formatted) => r matches AddStep::ReadProfile {
                name: n,
            } && n@ == name@,
            (AddStep::ReadProfile { .. }, AddEvent::ProfileRead(None)) => r matches AddStep::Finish {
                ok,
                out,
            } && !ok && out@ == "\n [X] Could not read profile information.\n"@,
            (AddStep::ReadProfile { name }, AddEvent::ProfileRead(Some(p))) => r matches AddStep::AskProduction {
                name: n,
                info,
                prompt,
            } && n@ == name@ && info@ == p@ && prompt@ == "Is "@ + hlt_spec(name@)
                + " a production account?"@,
            (AddStep::AskProduction { name, info: p, .. }, AddEvent::Answered(production)) => r matches AddStep::Save {
                name: n,
                info,
            } && n@ == name@ && info@ == ProfileView { production, ..p@ },
            (AddStep::Save { name, .. }, AddEvent::Saved) => r matches AddStep::CheckCredentials {
                name: n,
            } && n@ == name@,
            (AddStep::CheckCredentials { name }, AddEvent::Checked(working)) => r matches AddStep::Finish {
                ok,
                out,
            } && ok && out@ == add_result_out(name@, working),
            _ => true,
        },
{
    match step {
        AddStep::ConfigureSso { name, .. } => match event {
            AddEvent::Configured(true) => {
                let mut out = chars_of("\n ");
                push_str(&mut out, hlt("Note:").as_str());
                push_str(&mut out, " You can ignore the AWS CLI example above.\n ");
                push_str(&mut out, hlt("Kee").as_str());
                push_str(&mut out, " will handle profiles for you.\n");
                AddStep::FormatConfig { name, out: string_from_chars(out.as_slice()) }
            },
            _ => AddStep::Finish { ok: false, out: " [X] SSO configuration failed.\n".to_owned() },
        },
        AddStep::FormatConfig { name, .. } => AddStep::ReadProfile { name },
        AddStep::ReadProfile { name } => match event {
            AddEvent::ProfileRead(Some(info)) => {
                let mut p = chars_of("Is ");
                push_str(&mut p, hlt(name.as_str()).as_str());
                push_str(&mut p, " a production account?");
                AddStep::AskProduction { name, info, prompt: string_from_chars(p.as_slice()) }
            },
            _ => AddStep::Finish {
                ok: false,
                out: "\n [X] Could not read profile information.\n".to_owned(),
            },
        },
        AddStep::AskProduction { name, info, .. } => match event {
            AddEvent::Answered(production) => {
                let mut info = info;
                info.production = production;
                AddStep::Save { name, info }
            },
            _ => AddStep::Save { name, info },
        },
        AddStep::Save { name, .. } => AddStep::CheckCredentials { name },
        AddStep::CheckCredentials { name } => match event {
            AddEvent::Checked(true) => AddStep::Finish {
                ok: true,
                out: "\n [\u{2713}] The profile was added and it's working!\n".to_owned(),
            },
            _ => {
                let mut out = chars_of(
                    "\n [X] I created the profile but credentials may need a refresh...\n",
                );
                push_str(&mut out, " ");
                push_str(&mut out, hlt("Try:").as_str());
                push_str(&mut out, " aws sso login --profile ");
                push_str(&mut out, name.as_str());
                push_str(&mut out, "\n");
                AddStep::Finish { ok: true, out: string_from_chars(out.as_slice()) }
            },
        },
        AddStep::Finish { ok, out } => AddStep::Finish { ok, out },
    }
}

// ---------------------------------------------------------------------------
// `kee rm`
// ---------------------------------------------------------------------------

/// The steps of removing a profile.
pub enum RemoveStep {
    /// Ask `prompt`; answer with `Answered`.
    Confirm { name: String, prompt: String },
    /// Remove the profile `name` from Kee's configuration (see
    /// `KeeConfig::remove_profile`) and save it; answer with `Removed`.
    RemoveFromConfig { name: String },
    /// Remove the AWS profile `aws_profile` from the AWS config file (see
    /// `AwsManager::remove_profile`); answer with `AwsRemoved`.
    RemoveAwsProfile { name: String, aws_profile: String },
    /// Finished: print `out`; `ok` is whether the profile was removed.
    Finish { ok: bool, out: String },
}

/// What came of a step of `RemoveStep`.
pub enum RemoveEvent {
    /// The user's yes (`true`) or no.
    Answered(bool),
    /// The profile that was removed from Kee's configuration.
    Removed(ProfileInfo),
    /// The AWS config file was updated, or why not.
    AwsRemoved(Result<(), String>),
}

/// The event answers the step.
pub open spec fn remove_answers(step: RemoveStep, event: RemoveEvent) -> bool {
    match step {
        RemoveStep::Confirm { .. } => event is Answered,
        RemoveStep::RemoveFromConfig { .. } => event is Removed,
        RemoveStep::RemoveAwsProfile { .. } => event is AwsRemoved,
        RemoveStep::Finish { .. } => false,
    }
}

/// Printed when the AWS config file could not be updated.
pub open spec fn aws_remove_failed_out(name: Seq<char>, aws_profile: Seq<char>, error: Seq<char>) -> Seq<char> {
    " [\u{2713}] Profile '"@ + hlt_spec(name) + "' removed from "@ + hlt_spec("Kee"@) + ".\n"@
        + " [!] Could not remove AWS profile '"@ + hlt_spec(aws_profile) + "': "@ + error + "\n"@
        + " You may want to remove it manually from "@ + hlt_spec("~/.aws/config"@) + "\n"@
}

/// The first step of `kee rm name`: stop when the profile is unknown, else
/// ask for confirmation.
pub fn remove_start(config: &KeeConfig, name: String) -> (r: RemoveStep)
    ensures
        config_get(config@, name@) is None ==> (r matches RemoveStep::Finish { ok, out } && !ok && out@
            == "\n [!] Profile '"@ + hlt_spec(name@) + "' not found.\n"@),
        config_get(config@, name@) is Some ==> (r matches RemoveStep::Confirm { name: n, prompt }
            && n@ == name@ && prompt@ == "Are you sure you want to remove profile '"@ + hlt_spec(
            name@,
        ) + "'?"@),
{
    if config.profiles.contains_key(name.as_str()) {
        let mut p = chars_of("Are you sure you want to remove profile '");
        push_str(&mut p, hlt(name.as_str()).as_str());
        push_str(&mut p, "'?");
        RemoveStep::Confirm { name, prompt: string_from_chars(p.as_slice()) }
    } else {
        let mut out = chars_of("\n [!] Profile '");
        push_str(&mut out, hlt(name.as_str()).as_str());
        push_str(&mut out, "' not found.\n");
        RemoveStep::Finish { ok: false, out: string_from_chars(out.as_slice()) }
    }
}

/// The step after `step` of `kee rm`. Declining ends with nothing removed;
/// confirming removes the profile from Kee's configuration, then its AWS
/// profile from the AWS config file; a failure there still counts as removed,
/// with a hint to finish by hand.
pub fn remove_next(step: RemoveStep, event: RemoveEvent) -> (r: RemoveStep)
    requires
        remove_answers(step, event),
    ensures
        match (step, event) {
            (RemoveStep::Confirm { .. }, RemoveEvent::Answered(false)) => r matches RemoveStep::Finish {
                ok,
                out,
            } && !ok && out@.len() == 0,
            (RemoveStep::Confirm { name, .. }, RemoveEvent::Answered(true)) => r matches RemoveStep::RemoveFromConfig {
                name: n,
            } && n@ == name@,
            (RemoveStep::RemoveFromConfig { name }, RemoveEvent::Removed(p)) => r matches RemoveStep::RemoveAwsProfile {
                name: n,
                aws_profile,
            } && n@ == name@ && aws_profile@ == p.profile_name@,
            (RemoveStep::RemoveAwsProfile { name, .. }, RemoveEvent::AwsRemoved(Ok(()))) => r matches RemoveStep::Finish {
                ok,
                out,
            } && ok && out@ == " [\u{2713}] Profile '"@ + hlt_spec(name@) + "' has been removed.\n"@,
            (
                RemoveStep::RemoveAwsProfile { name, aws_profile },
                RemoveEvent::AwsRemoved(Err(e)),
            ) => r matches RemoveStep::Finish { ok, out } && ok && out@ == aws_remove_failed_out(
                name@,
                aws_profile@,
                e@,
            ),
            _ => true,
        },
{
    match step {
        RemoveStep::Confirm { name, .. } => match event {
            RemoveEvent::Answered(true) => RemoveStep::RemoveFromConfig { name },
            _ => RemoveStep::Finish { ok: false, out: String::new() },
        },
        RemoveStep::RemoveFromConfig { name } => match event {
            RemoveEvent::Removed(p) => RemoveStep::RemoveAwsProfile { name, aws_profile: p.profile_name },
            _ => RemoveStep::Finish { ok: false, out: String::new() },
        },
        RemoveStep::RemoveAwsProfile { name, aws_profile } => match event {
            RemoveEvent::AwsRemoved(Ok(())) => {
                let mut out = chars_of(" [\u{2713}] Profile '");
                push_str(&mut out, hlt(name.as_str()).as_str());
                push_str(&mut out, "' has been removed.\n");
                RemoveStep::Finish { ok: true, out: string_from_chars(out.as_slice()) }
            },
            RemoveEvent::AwsRemoved(Err(e)) => {
                let mut out = chars_of(" [\u{2713}] Profile '");
                push_str(&mut out, hlt(name.as_str()).as_str());
                push_str(&mut out, "' removed from ");
                push_str(&mut out, hlt("Kee").as_str());
                push_str(&mut out, ".\n");
                push_str(&mut out, " [!] Could not remove AWS profile '");
                push_str(&mut out, hlt(aws_profile.as_str()).as_str());
                push_str(&mut out, "': ");
                push_str(&mut out, e.as_str());
                push_str(&mut out, "\n");
                push_str(&mut out, " You may want to remove it manually from ");
                push_str(&mut out, hlt("~/.aws/config").as_str());
                push_str(&mut out, "\n");
                RemoveStep::Finish { ok: true, out: string_from_chars(out.as_slice()) }
            },
            _ => RemoveStep::Finish { ok: false, out: String::new() },
        },
        RemoveStep::Finish { ok, out } => RemoveStep::Finish { ok, out },
    }
}

// ---------------------------------------------------------------------------
// `kee set` and `kee refresh`
// ---------------------------------------------------------------------------

/// What `kee set` prints, by whether the profile exists and which flag is given.
pub open spec fn set_out(name: Seq<char>, found: bool, production: bool, no_production: bool) -> Seq<char> {
    if !found {
        "\n [!] Profile '"@ + hlt_spec(name) + "' not found.\n"@
    } else if production {
        "\n [\u{2713}] Profile '"@ + hlt_spec(name) + "' marked as production.\n"@
    } else if no_production {
        "\n [\u{2713}] Profile '"@ + hlt_spec(name) + "' unmarked as production.\n"@
    } else {
        Seq::empty()
    }
}

/// `kee set`: marks or unmarks the profile as a production account; returns
/// whether it exists (only then is the configuration to be saved) and what
/// to print.
pub fn set_profile(config: &mut KeeConfig, name: &str, production: bool, no_production: bool) -> (r: (
    bool,
    String,
))
    ensures
        r.0 == old(config)@.profiles.contains_key(name@),
        final(config)@ == config_set_production(old(config)@, name@, production, no_production),
        r.1@ == set_out(name@, r.0, production, no_production),
{
    let found = config.set_production(name, production, no_production);
    if !found {
        let mut out = chars_of("\n [!] Profile '");
        push_str(&mut out, hlt(name).as_str());
        push_str(&mut out, "' not found.\n");
        return (false, string_from_chars(out.as_slice()));
    }
    if production {
        let mut out = chars_of("\n [\u{2713}] Profile '");
        push_str(&mut out, hlt(name).as_str());
        push_str(&mut out, "' marked as production.\n");
        (true, string_from_chars(out.as_slice()))
    } else if no_production {
        let mut out = chars_of("\n [\u{2713}] Profile '");
        push_str(&mut out, hlt(name).as_str());
        push_str(&mut out, "' unmarked as production.\n");
        (true, string_from_chars(out.as_slice()))
    } else {
        (true, String::new())
    }
}

/// The steps of refreshing a profile's SSO session.
pub enum RefreshStep {
    /// Let the user pick a profile; answer with `Picked`.
    Pick,
    /// Print `out`, then run `aws sso login` for `aws_profile`; answer with `LoggedIn`.
    Login { aws_profile: String, out: String },
    /// Finished: print `out` to stdout and `errors` to stderr, exit with `code`.
    Finish { code: i32, out: String, errors: String },
}

/// What came of a step of `RefreshStep`.
pub enum RefreshEvent {
    /// The picked profile, `None` when there was none to pick or the user gave up.
    Picked(Option<String>),
    /// `aws sso login` succeeded (`true`) or not.
    LoggedIn(bool),
}

/// The login step for the profile `name`: its AWS profile name when Kee
/// knows it, else the name itself (an active session already holds the AWS
/// profile name).
pub open spec fn refresh_login(r: RefreshStep, config: KeeConfig, name: Seq<char>) -> bool {
    let aws = match config_get(config@, name) {
        Some(p) => p.profile_name,
        None => name,
    };
    r matches RefreshStep::Login { aws_profile, out } && aws_profile@ == aws && out@
        == "\n Refreshing SSO session for "@ + hlt_spec(aws) + "...\n"@
}

fn refresh_login_step(config: &KeeConfig, name: String) -> (r: RefreshStep)
    ensures
        refresh_login(r, *config, name@),
{
    let aws = config.aws_profile_name_for(name);
    let mut out = chars_of("\n Refreshing SSO session for ");
    push_str(&mut out, hlt(aws.as_str()).as_str());
    push_str(&mut out, "...\n");
    RefreshStep::Login { aws_profile: aws, out: string_from_chars(out.as_slice()) }
}

/// The first step of `kee refresh`: the profile named on the command line,
/// else the active session's (when not empty), else the user's pick.
pub fn refresh_start(arg: Option<String>, session: Option<String>, config: &KeeConfig) -> (r: RefreshStep)
    ensures
        match profile_target(opt_view(arg), opt_view(session)) {
            Some(n) => refresh_login(r, *config, n),
            None => r is Pick,
        },
{
    match crate::cli::resolve_profile_arg(arg, session) {
        Some(n) => refresh_login_step(config, n),
        None => RefreshStep::Pick,
    }
}

/// The step after `step` of `kee refresh`: no pick ends with code 0; a login
/// ends with 0 when it succeeds and 1 otherwise.
pub fn refresh_next(step: RefreshStep, event: RefreshEvent, config: &KeeConfig) -> (r: RefreshStep)
    requires
        step is Pick ==> event is Picked,
        step is Login ==> event is LoggedIn,
        !(step is Finish),
    ensures
        match (step, event) {
            (RefreshStep::Pick, RefreshEvent::Picked(Some(n))) => refresh_login(r, *config, n@),
            (RefreshStep::Pick, RefreshEvent::Picked(None)) => r matches RefreshStep::Finish {
                code,
                out,
                errors,
            } && code == 0 && out@.len() == 0 && errors@.len() == 0,
            (RefreshStep::Login { aws_profile, .. }, RefreshEvent::LoggedIn(true)) => r matches RefreshStep::Finish {
                code,
                out,
                errors,
            } && code == 0 && out@ == " [\u{2713}] Session refreshed for "@ + hlt_spec(aws_profile@)
                + ".\n"@ && errors@.len() == 0,
            (RefreshStep::Login { aws_profile, .. }, RefreshEvent::LoggedIn(false)) => r matches RefreshStep::Finish {
                code,
                out,
                errors,
            } && code == 1 && out@.len() == 0 && errors@ == " [X] Failed to refresh. Try "@ + hlt_spec(
                "aws sso login --profile "@ + aws_profile@,
            ) + " manually.\n"@,
            _ => true,
        },
{
    match step {
        RefreshStep::Pick => match event {
            RefreshEvent::Picked(Some(n)) => refresh_login_step(config, n),
            _ => RefreshStep::Finish { code: 0, out: String::new(), errors: String::new() },
        },
        RefreshStep::Login { aws_profile, .. } => match event {
            RefreshEvent::LoggedIn(true) => {
                let mut out = chars_of(" [\u{2713}] Session refreshed for ");
                push_str(&mut out, hlt(aws_profile.as_str()).as_str());
                push_str(&mut out, ".\n");
                RefreshStep::Finish { code: 0, out: string_from_chars(out.as_slice()), errors: String::new() }
            },
            _ => {
                let mut cmd = chars_of("aws sso login --profile ");
                push_str(&mut cmd, aws_profile.as_str());
                let cmd = string_from_chars(cmd.as_slice());
                let mut err = chars_of(" [X] Failed to refresh. Try ");
                push_str(&mut err, hlt(cmd.as_str()).as_str());
                push_str(&mut err, " manually.\n");
                RefreshStep::Finish { code: 1, out: String::new(), errors: string_from_chars(err.as_slice()) }
            },
        },
        RefreshStep::Finish { code, out, errors } => RefreshStep::Finish { code, out, errors },
    }
}

// ---------------------------------------------------------------------------
// `kee completions install` and `kee completions uninstall`
// ---------------------------------------------------------------------------

/// Printed when no shell is given and none is detected.
pub open spec fn no_shell_errors() -> Seq<char> {
    "\n [X] Could not detect your shell. Pass "@ + hlt_spec("--shell <SHELL>"@) + " explicitly.\n"@
}

/// The supported shells, printed after `no_shell_errors` by the installer.
pub open spec fn supported_shells() -> Seq<char> {
    "     Supported: "@ + hlt_spec("bash"@) + ", "@ + hlt_spec("zsh"@) + ", "@ + hlt_spec("fish"@)
        + "\n"@
}

fn no_shell_text(with_supported: bool) -> (r: String)
    ensures
        r@ == no_shell_errors() + if with_supported {
            supported_shells()
        } else {
            Seq::empty()
        },
{
    let mut out = chars_of("\n [X] Could not detect your shell. Pass ");
    push_str(&mut out, hlt("--shell <SHELL>").as_str());
    push_str(&mut out, " explicitly.\n");
    if with_supported {
        push_str(&mut out, "     Supported: ");
        push_str(&mut out, hlt("bash").as_str());
        push_str(&mut out, ", ");
        push_str(&mut out, hlt("zsh").as_str());
        push_str(&mut out, ", ");
        push_str(&mut out, hlt("fish").as_str());
        push_str(&mut out, "\n");
    }
    string_from_chars(out.as_slice())
}

/// The steps of installing completions.
pub enum InstallStep {
    /// Find the home directory and which of `.bashrc` and `.bash_profile`
    /// exist in it; answer with `RcFilesChecked`.
    FindTarget(ShellKind),
    /// Write the completion script of `shell` (see `finish_completion_script`)
    /// to the target's completion path under the home directory, creating its
    /// directory; answer with `ScriptWritten`.
    WriteScript { shell: ShellKind, target: InstallTarget },
    /// Read the rc file of `edit` under the home directory; answer with `RcRead`.
    ReadRc { shell: ShellKind, edit: RcEdit, out: String },
    /// Write `content` to the rc file, creating its directory; answer with `RcWritten`.
    WriteRc { content: String, out: String },
    /// Finished: print `out` to stdout and `errors` to stderr.
    Finish { out: String, errors: String },
}

/// What came of a step of `InstallStep`.
pub enum InstallEvent {
    /// Which bash rc files exist in the home directory.
    RcFilesChecked { bashrc_exists: bool, bash_profile_exists: bool },
    /// The script was written; its path as shown to the user.
    ScriptWritten(String),
    /// The rc file's content (`None` when it does not exist) and its path as shown.
    RcRead { content: Option<String>, shown: String },
    /// The rc file was written.
    RcWritten,
}

/// The event answers the step.
pub open spec fn install_answers(step: InstallStep, event: InstallEvent) -> bool {
    match step {
        InstallStep::FindTarget(_) => event is RcFilesChecked,
        InstallStep::WriteScript { .. } => event is ScriptWritten,
        InstallStep::ReadRc { .. } => event is RcRead,
        InstallStep::WriteRc { .. } => event is RcWritten,
        InstallStep::Finish { .. } => false,
    }
}

/// The first step of `kee completions install`: the shell given, else the
/// one detected; without either, stop with the supported shells.
pub fn install_start(given: Option<ShellKind>, detected: Option<ShellKind>) -> (r: InstallStep)
    ensures
        match given {
            Some(s) => r == InstallStep::FindTarget(s),
            None => match detected {
                Some(s) => r == InstallStep::FindTarget(s),
                None => r matches InstallStep::Finish { out, errors } && out@.len() == 0 && errors@
                    == no_shell_errors() + supported_shells(),
            },
        },
{
    match given {
        Some(s) => InstallStep::FindTarget(s),
        None => match detected {
            Some(s) => InstallStep::FindTarget(s),
            None => InstallStep::Finish { out: String::new(), errors: no_shell_text(true) },
        },
    }
}

/// Printed when a shell has no installer.
pub open spec fn no_installer_errors(shell: ShellKind) -> Seq<char> {
    "\n [!] Automatic install isn't supported for "@ + variant_name(shell) + ".\n     Run "@ + hlt_spec(
        "kee completions print "@ + value_name(shell),
    ) + " and follow your shell's documentation.\n"@
}

/// The step after `step` of `kee completions install`. A shell without an
/// installer stops with how to print the script instead; otherwise the
/// script is written, and the rc file, when the shell needs one, is given
/// the loading block unless it already has the marker.
pub fn install_next(step: InstallStep, event: InstallEvent) -> (r: InstallStep)
    requires
        install_answers(step, event),
    ensures
        match (step, event) {
            (
                InstallStep::FindTarget(shell),
                InstallEvent::RcFilesChecked { bashrc_exists, bash_profile_exists },
            ) => match install_target_spec(shell, bashrc_exists, bash_profile_exists) {
                None => r matches InstallStep::Finish { out, errors } && out@.len() == 0 && errors@
                    == no_installer_errors(shell),
                Some(t) => r matches InstallStep::WriteScript { shell: s, target } && s == shell
                    && target.spec_parts() == t,
            },
            (InstallStep::WriteScript { shell, target }, InstallEvent::ScriptWritten(shown)) => {
                let wrote = "\n [\u{2713}] Wrote completions to "@ + hlt_spec(shown@) + "\n"@;
                match target.rc_edit {
                    Some(e) => r matches InstallStep::ReadRc { shell: s, edit, out } && s == shell
                        && edit.rc_path@ == e.rc_path@ && edit.marker@ == e.marker@ && edit.block@
                        == e.block@ && out@ == wrote,
                    None => r matches InstallStep::Finish { out, errors } && out@ == wrote
                        + " Restart your terminal for completions to take effect.\n"@
                        && errors@.len() == 0,
                }
            },
            (InstallStep::ReadRc { shell, edit, out: before }, InstallEvent::RcRead { content, shown }) => {
                let reload = "\n Restart your terminal or run: "@ + hlt_spec(reload_spec(shell)) + "\n"@;
                match rc_with_edit(opt_view(content), edit.marker@, edit.block@) {
                    Some(c) => r matches InstallStep::WriteRc { content: w, out } && w@ == c && out@
                        == before@ + " [\u{2713}] Updated "@ + hlt_spec(shown@) + "\n"@ + reload,
                    None => r matches InstallStep::Finish { out, errors } && out@ == before@
                        + " [\u{2713}] "@ + hlt_spec(shown@) + " already configured\n"@ + reload
                        && errors@.len() == 0,
                }
            },
            (InstallStep::WriteRc { out: o, .. }, InstallEvent::RcWritten) => r matches InstallStep::Finish {
                out,
                errors,
            } && out@ == o@ && errors@.len() == 0,
            _ => true,
        },
{
    match step {
        InstallStep::FindTarget(shell) => match event {
            InstallEvent::RcFilesChecked { bashrc_exists, bash_profile_exists } => {
                match install_target(shell, bashrc_exists, bash_profile_exists) {
                    Some(target) => InstallStep::WriteScript { shell, target },
                    None => {
                        let mut err = chars_of("\n [!] Automatic install isn't supported for ");
                        push_str(&mut err, shell_variant_name(shell));
                        push_str(&mut err, ".\n     Run ");
                        let mut cmd = chars_of("kee completions print ");
                        push_str(&mut cmd, shell_value_name(shell));
                        let cmd = string_from_chars(cmd.as_slice());
                        push_str(&mut err, hlt(cmd.as_str()).as_str());
                        push_str(&mut err, " and follow your shell's documentation.\n");
                        InstallStep::Finish { out: String::new(), errors: string_from_chars(err.as_slice()) }
                    },
                }
            },
            _ => InstallStep::Finish { out: String::new(), errors: String::new() },
        },
        InstallStep::WriteScript { shell, target } => match event {
            InstallEvent::ScriptWritten(shown) => {
                let mut out = chars_of("\n [\u{2713}] Wrote completions to ");
                push_str(&mut out, hlt(shown.as_str()).as_str());
                push_str(&mut out, "\n");
                match target.rc_edit {
                    Some(edit) => InstallStep::ReadRc { shell, edit, out: string_from_chars(out.as_slice()) },
                    None => {
                        push_str(&mut out, " Restart your terminal for completions to take effect.\n");
                        InstallStep::Finish { out: string_from_chars(out.as_slice()), errors: String::new() }
                    },
                }
            },
            _ => InstallStep::Finish { out: String::new(), errors: String::new() },
        },
        InstallStep::ReadRc { shell, edit, out: before } => match event {
            InstallEvent::RcRead { content, shown } => {
                let existing: Option<&str> = match &content {
                    Some(c) => Some(c.as_str()),
                    None => None,
                };
                let new_content = rc_content_with_edit(existing, &edit);
                let mut out = chars_of(before.as_str());
                let mut reload = chars_of("\n Restart your terminal or run: ");
                push_str(&mut reload, hlt(reload_hint(shell)).as_str());
                push_str(&mut reload, "\n");
                proof {
                    assert(crate::console::str_opt_view(existing) == opt_view(content));
                }
                match new_content {
                    Some(c) => {
                        push_str(&mut out, " [\u{2713}] Updated ");
                        push_str(&mut out, hlt(shown.as_str()).as_str());
                        push_str(&mut out, "\n");
                        crate::text::push_chars(&mut out, &reload);
                        InstallStep::WriteRc { content: c, out: string_from_chars(out.as_slice()) }
                    },
                    None => {
                        push_str(&mut out, " [\u{2713}] ");
                        push_str(&mut out, hlt(shown.as_str()).as_str());
                        push_str(&mut out, " already configured\n");
                        crate::text::push_chars(&mut out, &reload);
                        InstallStep::Finish { out: string_from_chars(out.as_slice()), errors: String::new() }
                    },
                }
            },
            _ => InstallStep::Finish { out: String::new(), errors: String::new() },
        },
        InstallStep::WriteRc { out, .. } => InstallStep::Finish { out, errors: String::new() },
        InstallStep::Finish { out, errors } => InstallStep::Finish { out, errors },
    }
}

/// The steps of removing installed completions.
pub enum UninstallStep {
    /// Find the home directory and which of `.bashrc` and `.bash_profile`
    /// exist in it; answer with `RcFilesChecked`.
    FindTarget(ShellKind),
    /// Remove the target's completion script, if it exists; answer with `ScriptRemoved`.
    RemoveScript(InstallTarget),
    /// Read the rc file of `edit` under the home directory; answer with `RcRead`.
    ReadRc { edit: RcEdit, out: String },
    /// Write `content` to the rc file; answer with `RcWritten`.
    WriteRc { content: String, out: String },
    /// Finished: print `out` to stdout and `errors` to stderr.
    Finish { out: String, errors: String },
}

/// What came of a step of `UninstallStep`.
pub enum UninstallEvent {
    /// Which bash rc files exist in the home directory.
    RcFilesChecked { bashrc_exists: bool, bash_profile_exists: bool },
    /// Whether the script existed (and was removed); its path as shown.
    ScriptRemoved { existed: bool, shown: String },
    /// The rc file's content (`None` when it does not exist) and its path as shown.
    RcRead { content: Option<String>, shown: String },
    /// The rc file was written.
    RcWritten,
}

/// The event answers the step.
pub open spec fn uninstall_answers(step: UninstallStep, event: UninstallEvent) -> bool {
    match step {
        UninstallStep::FindTarget(_) => event is RcFilesChecked,
        UninstallStep::RemoveScript(_) => event is ScriptRemoved,
        UninstallStep::ReadRc { .. } => event is RcRead,
        UninstallStep::WriteRc { .. } => event is RcWritten,
        UninstallStep::Finish { .. } => false,
    }
}

/// The first step of `kee completions uninstall`: the shell given, else the
/// one detected; without either, stop.
pub fn uninstall_start(given: Option<ShellKind>, detected: Option<ShellKind>) -> (r: UninstallStep)
    ensures
        match given {
            Some(s) => r == UninstallStep::FindTarget(s),
            None => match detected {
                Some(s) => r == UninstallStep::FindTarget(s),
                None => r matches UninstallStep::Finish { out, errors } && out@.len() == 0 && errors@
                    == no_shell_errors(),
            },
        },
{
    match given {
        Some(s) => UninstallStep::FindTarget(s),
        None => match detected {
            Some(s) => UninstallStep::FindTarget(s),
            None => UninstallStep::Finish { out: String::new(), errors: no_shell_text(false) },
        },
    }
}

/// The step after `step` of `kee completions uninstall`. A shell without an
/// installer has nothing to remove; otherwise the script is removed (or
/// reported missing), and the rc file loses its loading block when it has the
/// marker.
pub fn uninstall_next(step: UninstallStep, event: UninstallEvent) -> (r: UninstallStep)
    requires
        uninstall_answers(step, event),
    ensures
        match (step, event) {
            (
                UninstallStep::FindTarget(shell),
                UninstallEvent::RcFilesChecked { bashrc_exists, bash_profile_exists },
            ) => match install_target_spec(shell, bashrc_exists, bash_profile_exists) {
                None => r matches UninstallStep::Finish { out, errors } && out@.len() == 0 && errors@
                    == "\n [!] No installer for "@ + variant_name(shell) + "; nothing to uninstall.\n"@,
                Some(t) => r matches UninstallStep::RemoveScript(target) && target.spec_parts() == t,
            },
            (UninstallStep::RemoveScript(target), UninstallEvent::ScriptRemoved { existed, shown }) => {
                let said = if existed {
                    "\n [\u{2713}] Removed "@ + hlt_spec(shown@) + "\n"@
                } else {
                    "\n [!] "@ + hlt_spec(shown@) + " did not exist\n"@
                };
                match target.rc_edit {
                    Some(e) => r matches UninstallStep::ReadRc { edit, out } && edit.rc_path@
                        == e.rc_path@ && edit.marker@ == e.marker@ && edit.block@ == e.block@ && out@
                        == said,
                    None => r matches UninstallStep::Finish { out, errors } && out@ == said
                        && errors@.len() == 0,
                }
            },
            (UninstallStep::ReadRc { edit, out: before }, UninstallEvent::RcRead { content, shown }) => {
                match rc_without_edit(opt_view(content), edit.marker@, edit.block@) {
                    Some(c) => r matches UninstallStep::WriteRc { content: w, out } && w@ == c && out@
                        == before@ + " [\u{2713}] Cleaned up "@ + hlt_spec(shown@) + "\n"@,
                    None => r matches UninstallStep::Finish { out, errors } && out@ == before@
                        && errors@.len() == 0,
                }
            },
            (UninstallStep::WriteRc { out: o, .. }, UninstallEvent::RcWritten) => r matches UninstallStep::Finish {
                out,
                errors,
            } && out@ == o@ && errors@.len() == 0,
            _ => true,
        },
{
    match step {
        UninstallStep::FindTarget(shell) => match event {
            UninstallEvent::RcFilesChecked { bashrc_exists, bash_profile_exists } => {
                match install_target(shell, bashrc_exists, bash_profile_exists) {
                    Some(target) => UninstallStep::RemoveScript(target),
                    None => {
                        let mut err = chars_of("\n [!] No installer for ");
                        push_str(&mut err, shell_variant_name(shell));
                        push_str(&mut err, "; nothing to uninstall.\n");
                        UninstallStep::Finish { out: String::new(), errors: string_from_chars(err.as_slice()) }
                    },
                }
            },
            _ => UninstallStep::Finish { out: String::new(), errors: String::new() },
        },
        UninstallStep::RemoveScript(target) => match event {
            UninstallEvent::ScriptRemoved { existed, shown } => {
                let mut out = if existed {
                    chars_of("\n [\u{2713}] Removed ")
                } else {
                    chars_of("\n [!] ")
                };
                push_str(&mut out, hlt(shown.as_str()).as_str());
                if existed {
                    push_str(&mut out, "\n");
                } else {
                    push_str(&mut out, " did not exist\n");
                }
                match target.rc_edit {
                    Some(edit) => UninstallStep::ReadRc { edit, out: string_from_chars(out.as_slice()) },
                    None => UninstallStep::Finish { out: string_from_chars(out.as_slice()), errors: String::new() },
                }
            },
            _ => UninstallStep::Finish { out: String::new(), errors: String::new() },
        },
        UninstallStep::ReadRc { edit, out: before } => match event {
            UninstallEvent::RcRead { content, shown } => {
                let existing: Option<&str> = match &content {
                    Some(c) => Some(c.as_str()),
                    None => None,
                };
                proof {
                    assert(crate::console::str_opt_view(existing) == opt_view(content));
                }
                match rc_content_without_edit(existing, &edit) {
                    Some(c) => {
                        let mut out = chars_of(before.as_str());
                        push_str(&mut out, " [\u{2713}] Cleaned up ");
                        push_str(&mut out, hlt(shown.as_str()).as_str());
                        push_str(&mut out, "\n");
                        UninstallStep::WriteRc { content: c, out: string_from_chars(out.as_slice()) }
                    },
                    None => UninstallStep::Finish { out: before, errors: String::new() },
                }
            },
            _ => UninstallStep::Finish { out: String::new(), errors: String::new() },
        },
        UninstallStep::WriteRc { out, .. } => UninstallStep::Finish { out, errors: String::new() },
        UninstallStep::Finish { out, errors } => UninstallStep::Finish { out, errors },
    }
}

} // verus!
