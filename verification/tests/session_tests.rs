use kee::session::{
    find_sso_cache_file, keep_alive_action, session_cache_file, KeepAlive, format_status_line, format_status_line_at, has_json_extension,
    session_health, session_health_now, token_expiry, CacheFile, Instant, SsoTokenCache,
};
use kee::SessionHealth;

fn cache(start_url: &str, expires_at: Option<&str>) -> SsoTokenCache {
    SsoTokenCache {
        start_url: Some(start_url.to_string()),
        region: None,
        access_token: Some("t".to_string()),
        expires_at: expires_at.map(|s| s.to_string()),
        client_id: None,
        client_secret: None,
        registration_expires_at: None,
        refresh_token: None,
    }
}

fn file(name: &str, contents: Option<SsoTokenCache>) -> CacheFile {
    CacheFile { file_name: name.to_string(), contents }
}

fn instant_of(d: chrono::DateTime<chrono::Utc>) -> Instant {
    Instant::from_timestamp(d.timestamp(), d.timestamp_subsec_nanos()).unwrap()
}

fn now() -> chrono::DateTime<chrono::Utc> {
    chrono::Utc::now()
}

// -- find_sso_cache_file ----------------------------------------------------

#[test]
fn find_sso_cache_returns_none_when_dir_missing() {
    let files: Vec<CacheFile> = Vec::new();
    assert!(find_sso_cache_file(&files, "https://acme.awsapps.com/start", "").is_none());
}

#[test]
fn find_sso_cache_matches_by_start_url() {
    let files = vec![
        file("abc.json", Some(cache("https://acme.awsapps.com/start", None))),
        file("def.json", Some(cache("https://other.awsapps.com/start", None))),
    ];
    let found = find_sso_cache_file(&files, "https://acme.awsapps.com/start", "").expect("should match");
    assert!(files[found].file_name.ends_with("abc.json"));
}

#[test]
fn find_sso_cache_returns_none_when_no_match() {
    let files = vec![file("abc.json", Some(cache("https://acme.awsapps.com/start", None)))];
    assert!(find_sso_cache_file(&files, "https://nope.awsapps.com/start", "").is_none());
}

#[test]
fn find_sso_cache_tolerates_malformed_json() {
    let files = vec![
        file("broken.json", None),
        file("ok.json", Some(cache("https://acme.awsapps.com/start", None))),
    ];
    let found = find_sso_cache_file(&files, "https://acme.awsapps.com/start", "")
        .expect("should match the well-formed file");
    assert!(files[found].file_name.ends_with("ok.json"));
}

#[test]
fn find_sso_cache_ignores_non_json_files() {
    let files = vec![
        file("README.txt", Some(cache("https://acme.awsapps.com/start", None))),
        file("ok.json", Some(cache("https://acme.awsapps.com/start", None))),
    ];
    assert_eq!(find_sso_cache_file(&files, "https://acme.awsapps.com/start", ""), Some(1));
}

#[test]
fn find_sso_cache_takes_the_first_match() {
    let files = vec![
        file("a.json", Some(cache("https://acme.awsapps.com/start", None))),
        file("b.json", Some(cache("https://acme.awsapps.com/start", None))),
    ];
    assert_eq!(find_sso_cache_file(&files, "https://acme.awsapps.com/start", ""), Some(0));
}

#[test]
fn json_extension_follows_path_rules() {
    assert!(has_json_extension("a.json"));
    assert!(has_json_extension("..json"));
    assert!(!has_json_extension(".json"));
    assert!(!has_json_extension("json"));
    assert!(!has_json_extension("a.json.bak"));
    assert!(!has_json_extension("a.JSON"));
}

// -- instants ---------------------------------------------------------------

#[test]
fn parse_reads_rfc3339_in_any_offset() {
    let t = Instant::parse("2099-01-01T00:00:00Z").unwrap();
    assert_eq!(t.timestamp(), 4070908800);
    assert_eq!(t.subsec_nanos(), 0);
    let u = Instant::parse("2099-01-01T02:00:00+02:00").unwrap();
    assert_eq!(u, t);
    assert!(Instant::parse("not a date").is_none());
}

#[test]
fn from_timestamp_rejects_what_chrono_cannot_represent() {
    assert!(Instant::from_timestamp(0, 0).is_some());
    assert!(Instant::from_timestamp(0, 2_000_000_000).is_none());
    assert!(Instant::from_timestamp(i64::MAX, 0).is_none());
}

#[test]
fn seconds_since_counts_whole_seconds_toward_zero() {
    let a = Instant::from_timestamp(100, 500_000_000).unwrap();
    let b = Instant::from_timestamp(90, 0).unwrap();
    assert_eq!(a.seconds_since(&b), 10);
    assert_eq!(b.seconds_since(&a), -10);
    assert!(a.is_after(&b));
    assert!(!b.is_after(&a));
    assert!(!a.is_after(&a));
}

// -- read_token_expiry ------------------------------------------------------

#[test]
fn read_token_expiry_parses_valid_timestamp() {
    let c = cache("https://acme.awsapps.com/start", Some("2099-01-01T00:00:00Z"));
    let expiry = token_expiry(Some(&c)).expect("should parse");
    let d = chrono::DateTime::from_timestamp(expiry.timestamp(), expiry.subsec_nanos()).unwrap();
    assert_eq!(d.format("%Y-%m-%d").to_string(), "2099-01-01");
}

#[test]
fn read_token_expiry_returns_none_for_missing_field() {
    let c = cache("https://acme.awsapps.com/start", None);
    assert!(token_expiry(Some(&c)).is_none());
}

#[test]
fn read_token_expiry_returns_none_for_unmatched_profile() {
    let files = vec![file(
        "ok.json",
        Some(cache("https://other.awsapps.com/start", Some("2099-01-01T00:00:00Z"))),
    )];
    let found = find_sso_cache_file(&files, "https://acme.awsapps.com/start", "");
    let c = found.and_then(|i| files[i].contents.as_ref());
    assert!(token_expiry(c).is_none());
}

#[test]
fn read_token_expiry_returns_none_for_malformed_timestamp() {
    let c = cache("https://acme.awsapps.com/start", Some("not a date"));
    assert!(token_expiry(Some(&c)).is_none());
}

// -- read_session_health ----------------------------------------------------

#[test]
fn session_health_active_when_access_token_valid() {
    let c = cache("https://acme.awsapps.com/start", Some("2099-01-01T00:00:00Z"));
    assert!(matches!(session_health(Some(&c), &instant_of(now())), SessionHealth::Active(_)));
    assert!(matches!(session_health_now(Some(&c)), SessionHealth::Active(_)));
}

#[test]
fn session_health_refreshable_when_expired_but_refresh_token_live() {
    let mut c = cache("https://acme.awsapps.com/start", Some("2000-01-01T00:00:00Z"));
    c.refresh_token = Some("r".to_string());
    c.registration_expires_at = Some("2099-01-01T00:00:00Z".to_string());
    assert_eq!(session_health(Some(&c), &instant_of(now())), SessionHealth::Refreshable);
}

#[test]
fn session_health_expired_when_lapsed_and_no_refresh_token() {
    let c = cache("https://acme.awsapps.com/start", Some("2000-01-01T00:00:00Z"));
    assert_eq!(session_health(Some(&c), &instant_of(now())), SessionHealth::Expired);
}

#[test]
fn session_health_expired_when_registration_also_lapsed() {
    let mut c = cache("https://acme.awsapps.com/start", Some("2000-01-01T00:00:00Z"));
    c.refresh_token = Some("r".to_string());
    c.registration_expires_at = Some("2000-06-01T00:00:00Z".to_string());
    assert_eq!(session_health(Some(&c), &instant_of(now())), SessionHealth::Expired);
}

#[test]
fn session_health_expired_when_no_cache_file() {
    assert_eq!(session_health(None, &instant_of(now())), SessionHealth::Expired);
    assert_eq!(session_health_now(None), SessionHealth::Expired);
}

#[test]
fn session_health_expired_when_refresh_token_empty() {
    let mut c = cache("https://acme.awsapps.com/start", Some("2000-01-01T00:00:00Z"));
    c.refresh_token = Some(String::new());
    c.registration_expires_at = Some("2099-01-01T00:00:00Z".to_string());
    assert_eq!(session_health(Some(&c), &instant_of(now())), SessionHealth::Expired);
}

#[test]
fn session_health_active_carries_the_expiry() {
    let c = cache("https://acme.awsapps.com/start", Some("2030-05-06T07:08:09Z"));
    let at = Instant::parse("2030-05-06T07:00:00Z").unwrap();
    assert_eq!(
        session_health(Some(&c), &at),
        SessionHealth::Active(Instant::parse("2030-05-06T07:08:09Z").unwrap())
    );
    // At the expiry itself the access token no longer counts.
    let at_expiry = Instant::parse("2030-05-06T07:08:09Z").unwrap();
    assert_eq!(session_health(Some(&c), &at_expiry), SessionHealth::Expired);
}

// -- format_status_line -----------------------------------------------------

#[test]
fn status_line_expired_state_renders_expired() {
    let s = format_status_line_at(SessionHealth::Expired, instant_of(now()));
    assert!(s.contains("Expired"));
    assert!(!s.contains("Active"));
}

#[test]
fn status_line_refreshable_reads_active_not_expired() {
    let s = format_status_line_at(SessionHealth::Refreshable, instant_of(now()));
    assert!(s.contains("Active"));
    assert!(s.contains("auto-refresh"));
    assert!(!s.contains("Expired"));
}

#[test]
fn status_line_active_in_past_renders_expired() {
    let now = now();
    let past = now - chrono::Duration::minutes(5);
    let s = format_status_line_at(SessionHealth::Active(instant_of(past)), instant_of(now));
    assert!(s.contains("Expired"));
}

#[test]
fn status_line_active_at_exact_zero_boundary_renders_expired() {
    let now = now();
    let s = format_status_line_at(SessionHealth::Active(instant_of(now)), instant_of(now));
    assert!(s.contains("Expired"));
}

#[test]
fn status_line_active_minutes_only_under_one_hour() {
    let now = now();
    let exp = now + chrono::Duration::minutes(45);
    let s = format_status_line_at(SessionHealth::Active(instant_of(exp)), instant_of(now));
    assert!(s.contains("Active"));
    assert!(!s.contains("hours"));
    assert!(s.contains("45 minutes remaining"));
}

#[test]
fn status_line_active_includes_hours_and_minutes() {
    let now = now();
    let exp = now + chrono::Duration::hours(2) + chrono::Duration::minutes(15);
    let s = format_status_line_at(SessionHealth::Active(instant_of(exp)), instant_of(now));
    assert!(s.contains("2 hours"));
    assert!(s.contains("15 minutes"));
}

#[test]
fn status_line_active_minutes_modulo_when_hours_present() {
    let now = now();
    let exp = now + chrono::Duration::minutes(90);
    let s = format_status_line_at(SessionHealth::Active(instant_of(exp)), instant_of(now));
    assert!(s.contains("1 hours"));
    assert!(s.contains("30 minutes"));
}

#[test]
fn status_line_exact_texts() {
    let now = Instant::from_timestamp(1_000_000, 0).unwrap();
    let exp = Instant::from_timestamp(1_000_000 + 26 * 3600 + 7 * 60 + 59, 0).unwrap();
    assert_eq!(
        format_status_line_at(SessionHealth::Active(exp), now),
        "\x1b[0;32m\u{25cf}\x1b[0m Active (26 hours, 7 minutes remaining)"
    );
    let soon = Instant::from_timestamp(1_000_059, 0).unwrap();
    assert_eq!(
        format_status_line_at(SessionHealth::Active(soon), now),
        "\x1b[0;32m\u{25cf}\x1b[0m Active (0 minutes remaining)"
    );
    assert_eq!(
        format_status_line_at(SessionHealth::Refreshable, now),
        "\x1b[0;33m\u{25cf}\x1b[0m Active (auto-refresh)"
    );
    assert_eq!(format_status_line_at(SessionHealth::Expired, now), "\x1b[0;31m\u{25cf}\x1b[0m Expired");
    let almost = Instant::from_timestamp(1_000_000, 500_000_000).unwrap();
    assert_eq!(
        format_status_line_at(SessionHealth::Active(almost), now),
        "\x1b[0;31m\u{25cf}\x1b[0m Expired"
    );
}

#[test]
fn status_line_with_the_clock_reads_active_for_a_far_expiry() {
    let exp = Instant::parse("2099-01-01T00:00:00Z").unwrap();
    let s = format_status_line(SessionHealth::Active(exp));
    assert!(s.contains("hours"));
    assert!(!s.contains("Expired"));
}

// -- finding the token by the sso-session name ------------------------------

#[test]
fn sha1_hex_matches_known_digests() {
    assert_eq!(kee::sha1::sha1_hex(b""), "da39a3ee5e6b4b0d3255bfef95601890afd80709");
    assert_eq!(kee::sha1::sha1_hex(b"abc"), "a9993e364706816aba3e25717850c26c9cd0d89d");
    let long = vec![b'a'; 100];
    assert_eq!(kee::sha1::sha1_hex(&long), "7f9000257a4918d7072655ea468540cdcbd42e0c");
}

#[test]
fn session_cache_file_is_named_by_the_sha1_of_the_session() {
    assert_eq!(session_cache_file("acme"), "293abb6b76d7791c0732cc517d38c4b5c734b87f.json");
}

#[test]
fn find_sso_cache_matches_by_session_name() {
    let mut other = cache("https://elsewhere.awsapps.com/start", None);
    other.start_url = None;
    let files = vec![
        file("abc.json", Some(cache("https://other.awsapps.com/start", None))),
        file("293abb6b76d7791c0732cc517d38c4b5c734b87f.json", Some(other)),
    ];
    assert_eq!(find_sso_cache_file(&files, "https://acme.awsapps.com/start", "acme"), Some(1));
    assert_eq!(find_sso_cache_file(&files, "https://acme.awsapps.com/start", ""), None);
    assert_eq!(find_sso_cache_file(&files, "https://acme.awsapps.com/start", "other"), None);
}

// -- keeping a session alive ------------------------------------------------

#[test]
fn keep_alive_refreshes_within_the_margin() {
    let n = now();
    let at = instant_of(n);
    let soon = instant_of(n + chrono::Duration::seconds(300));
    let later = instant_of(n + chrono::Duration::seconds(3600));
    assert_eq!(keep_alive_action(&SessionHealth::Active(soon), &at), KeepAlive::Refresh);
    assert_eq!(keep_alive_action(&SessionHealth::Active(later), &at), KeepAlive::Wait);
    assert_eq!(keep_alive_action(&SessionHealth::Refreshable, &at), KeepAlive::Refresh);
    assert_eq!(keep_alive_action(&SessionHealth::Expired, &at), KeepAlive::Stop);
}

#[test]
fn seconds_since_counts_a_leap_second_as_chrono_does() {
    let leap = Instant::from_timestamp(59, 1_500_000_000).expect("leap second");
    let later = Instant::from_timestamp(120, 0).unwrap();
    assert_eq!(later.seconds_since(&leap), 60);
    let end = Instant::from_timestamp(86_399, 1_500_000_000).expect("leap second");
    let start = Instant::from_timestamp(0, 0).unwrap();
    assert_eq!(end.seconds_since(&start), 86_400);
    let next = Instant::from_timestamp(86_410, 0).unwrap();
    assert_eq!(next.seconds_since(&end), 9);
}
