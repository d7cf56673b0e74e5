use kee::ini::{render_ini, IniDoc, IniSection};
use kee::session::{CacheFile, Instant};
use kee::{AwsManager, ProfileInfo, SessionHealth};

fn manager() -> AwsManager {
    AwsManager::new(Some("/home/user")).unwrap()
}

#[test]
fn test_aws_config_parsing() {
    let aws_config_content = r#"
[profile test-profile]
sso_start_url = https://test.awsapps.com/start
sso_region = us-east-1
sso_account_id = 123456789012
sso_role_name = TestRole
sso_session = test-session

[sso-session test-session]
sso_start_url = https://test.awsapps.com/start
sso_region = us-east-1

[profile other-profile]
sso_account_id = 999999999999
"#;
    let p = manager()
        .read_profile(Some(aws_config_content.to_string()), "test-profile")
        .unwrap();
    assert_eq!(p.sso_start_url, "https://test.awsapps.com/start");
    assert_eq!(p.sso_region, "us-east-1");
    assert_eq!(p.sso_account_id, "123456789012");
    assert_eq!(p.sso_role_name, "TestRole");
    assert_eq!(p.session_name, "test-session");
    assert!(!p.production);
    // The other profile has no role, so it cannot be read.
    assert!(manager().read_profile(Some(aws_config_content.to_string()), "other-profile").is_none());
}

#[test]
fn test_aws_config_with_sso_session() {
    let aws_config_content = r#"
[profile modern-profile]
sso_session = company-session
sso_account_id = 123456789012
sso_role_name = ModernRole

[sso-session company-session]
sso_start_url = https://company.awsapps.com/start
sso_region = us-west-2
"#;
    let p = manager()
        .read_profile(Some(aws_config_content.to_string()), "modern-profile")
        .unwrap();
    assert_eq!(p.session_name, "company-session");
    assert_eq!(p.sso_account_id, "123456789012");
    assert_eq!(p.sso_start_url, "https://company.awsapps.com/start");
    assert_eq!(p.sso_region, "us-west-2");
    assert_eq!(p.profile_name, "modern-profile");
}

#[test]
fn read_profile_legacy_layout_and_missing_session_section() {
    let legacy = "[profile old]\nsso_start_url = https://old/start\nsso_region = eu-west-1\nsso_account_id = 1\nsso_role_name = R\n";
    let p = manager().read_profile(Some(legacy.to_string()), "old").unwrap();
    assert_eq!(p.sso_start_url, "https://old/start");
    assert_eq!(p.sso_region, "eu-west-1");
    assert_eq!(p.session_name, "");

    let dangling = "[profile p]\nsso_session = gone\nsso_account_id = 1\nsso_role_name = R\nsso_start_url = https://ignored\n";
    let p = manager().read_profile(Some(dangling.to_string()), "p").unwrap();
    assert_eq!(p.sso_start_url, "");
    assert_eq!(p.sso_region, "");
    assert_eq!(p.session_name, "gone");
}

#[test]
fn read_profile_needs_a_file_that_parses() {
    assert!(manager().read_profile(None, "x").is_none());
    assert!(manager().read_profile(Some("[broken\nk = v\n".to_string()), "x").is_none());
    // Keys without values do not count.
    let no_value = "[profile p]\nsso_account_id\nsso_role_name = R\n";
    assert!(manager().read_profile(Some(no_value.to_string()), "p").is_none());
}

#[test]
fn new_places_files_under_home() {
    let m = AwsManager::new(Some("/home/user")).unwrap();
    assert_eq!(m.aws_config_file(), "/home/user/.aws/config");
    assert_eq!(m.sso_cache_dir(), "/home/user/.aws/sso/cache");
    let slash = AwsManager::new(Some("/root/")).unwrap();
    assert_eq!(slash.aws_config_file(), "/root/.aws/config");
    assert!(AwsManager::new(None).is_none());
    let custom = AwsManager::new_with_paths("c".to_string(), "d".to_string());
    assert_eq!((custom.aws_config_file(), custom.sso_cache_dir()), ("c", "d"));
}

#[test]
fn format_config_rewrites_in_kee_layout() {
    let text = "[Profile A]\nKey=Value\nnovalue\n";
    let out = manager().format_config(Some(text.to_string())).unwrap();
    assert_eq!(out, "[profile a]\nkey = Value\n\n");
    assert_eq!(manager().format_config(None).unwrap(), "");
}

#[test]
fn format_config_keeps_every_section() {
    let text = "[a]\nx = 1\n[b]\ny = 2\nz = 3\n";
    let out = manager().format_config(Some(text.to_string())).unwrap();
    let a = "[a]\nx = 1\n\n";
    assert!(out.contains(a));
    assert!(out.contains("[b]\n"));
    assert!(out.contains("y = 2\n"));
    assert!(out.contains("z = 3\n"));
    assert_eq!(out.len(), a.len() + "[b]\ny = 2\nz = 3\n\n".len());
}

#[test]
fn format_config_reports_parse_errors() {
    let err = manager().format_config(Some("[unclosed\n".to_string())).unwrap_err();
    assert!(err.contains("closing bracket"));
}

#[test]
fn remove_profile_drops_its_section_case_insensitively() {
    let text = "[profile Prod]\nsso_account_id = 1\n\n[profile dev]\nsso_account_id = 2\n";
    let out = manager().remove_profile(Some(text.to_string()), "Prod").unwrap();
    assert_eq!(out, "[profile dev]\nsso_account_id = 2\n\n");
    let kept = manager().remove_profile(Some(text.to_string()), "missing").unwrap();
    assert!(kept.contains("[profile prod]"));
    assert!(kept.contains("[profile dev]"));
    assert_eq!(manager().remove_profile(None, "x").unwrap(), "");
}

#[test]
fn removed_profile_cannot_be_read_back() {
    let text = "[profile gone]\nsso_account_id = 1\nsso_role_name = R\n";
    assert!(manager().read_profile(Some(text.to_string()), "gone").is_some());
    let out = manager().remove_profile(Some(text.to_string()), "gone").unwrap();
    assert!(manager().read_profile(Some(out), "gone").is_none());
}

#[test]
fn render_lists_sections_in_order() {
    let doc = IniDoc {
        sections: vec![
            IniSection {
                name: "one".to_string(),
                entries: vec![
                    ("a".to_string(), Some("1".to_string())),
                    ("b".to_string(), None),
                    ("c".to_string(), Some(String::new())),
                ],
            },
            IniSection { name: "two".to_string(), entries: vec![] },
        ],
    };
    assert_eq!(render_ini(&doc), "[one]\na = 1\nc = \n\n[two]\n\n");
}

fn token(url: &str, expires_at: &str) -> kee::session::SsoTokenCache {
    kee::session::SsoTokenCache {
        start_url: Some(url.to_string()),
        region: None,
        access_token: Some("t".to_string()),
        expires_at: Some(expires_at.to_string()),
        client_id: None,
        client_secret: None,
        registration_expires_at: None,
        refresh_token: None,
    }
}

#[test]
fn manager_reads_the_token_of_the_profiles_start_url() {
    let files = vec![
        CacheFile { file_name: "x.txt".to_string(), contents: Some(token("https://acme/start", "2000-01-01T00:00:00Z")) },
        CacheFile { file_name: "a.json".to_string(), contents: Some(token("https://other/start", "2099-01-01T00:00:00Z")) },
        CacheFile { file_name: "b.json".to_string(), contents: Some(token("https://acme/start", "2099-01-01T00:00:00Z")) },
    ];
    let profile = ProfileInfo {
        profile_name: "p".to_string(),
        sso_start_url: "https://acme/start".to_string(),
        sso_region: "r".to_string(),
        sso_account_id: "1".to_string(),
        sso_role_name: "R".to_string(),
        session_name: "s".to_string(),
        production: false,
    };
    let m = manager();
    assert_eq!(m.find_sso_cache_file(&files, &profile), Some(2));
    assert_eq!(m.read_token_expiry(&files, &profile), Instant::parse("2099-01-01T00:00:00Z"));
    assert!(matches!(m.read_session_health(&files, &profile), SessionHealth::Active(_)));
    let none: Vec<CacheFile> = Vec::new();
    assert_eq!(m.read_token_expiry(&none, &profile), None);
    assert_eq!(m.read_session_health(&none, &profile), SessionHealth::Expired);
}
