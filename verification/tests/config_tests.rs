use kee::cli::VERSION;
use kee::{KeeConfig, ProfileInfo};

fn profile(name: &str, account: &str, role: &str, region: &str, session: &str) -> ProfileInfo {
    ProfileInfo {
        profile_name: name.to_string(),
        sso_start_url: "https://test.awsapps.com/start".to_string(),
        sso_region: region.to_string(),
        sso_account_id: account.to_string(),
        sso_role_name: role.to_string(),
        session_name: session.to_string(),
        production: false,
    }
}

#[test]
fn test_kee_config_default() {
    let config = KeeConfig::default();
    assert!(config.profiles.is_empty());
    assert!(config.current_profile.is_none());
    assert!(config.is_empty());
}

#[test]
fn lib_test_kee_config_new() {
    let config = KeeConfig::new();
    assert!(config.profiles.is_empty());
    assert!(config.current_profile.is_none());
}

#[test]
fn test_kee_config_add_profile() {
    let mut config = KeeConfig::new();
    let profile = profile("kee-test", "123456789012", "TestRole", "us-east-1", "test-session");
    config.add_profile("test".to_string(), profile.clone());
    assert!(!config.is_empty());
    assert_eq!(config.profiles.len(), 1);
    assert_eq!(config.get_profile("test"), Some(&profile));
}

#[test]
fn test_kee_config_remove_profile() {
    let mut config = KeeConfig::new();
    let profile = profile("kee-test", "123456789012", "TestRole", "us-east-1", "test-session");
    config.add_profile("test".to_string(), profile.clone());
    config.set_current_profile(Some("test".to_string()));
    let removed = config.remove_profile("test");
    assert_eq!(removed, Some(profile));
    assert!(config.is_empty());
    assert!(config.current_profile.is_none());
}

#[test]
fn test_kee_config_remove_nonexistent_profile() {
    let mut config = KeeConfig::new();
    let removed = config.remove_profile("nonexistent");
    assert!(removed.is_none());
}

#[test]
fn test_kee_config_get_profile() {
    let mut config = KeeConfig::new();
    let profile = profile("kee-test", "123456789012", "TestRole", "us-east-1", "test-session");
    config.add_profile("test".to_string(), profile.clone());
    assert_eq!(config.get_profile("test"), Some(&profile));
    assert_eq!(config.get_profile("nonexistent"), None);
}

#[test]
fn test_kee_config_list_profiles() {
    let mut config = KeeConfig::new();
    let profile1 = profile("kee-test1", "123456789012", "TestRole", "us-east-1", "test-session1");
    let profile2 = profile("kee-test2", "123456789013", "TestRole2", "us-west-2", "test-session2");
    config.add_profile("test1".to_string(), profile1);
    config.add_profile("test2".to_string(), profile2);

    let profiles = config.list_profiles();
    assert_eq!(profiles.len(), 2);

    let profile_names: Vec<&String> = profiles.iter().map(|(name, _)| *name).collect();
    assert!(profile_names.contains(&&"test1".to_string()));
    assert!(profile_names.contains(&&"test2".to_string()));
}

#[test]
fn test_kee_config_set_current_profile() {
    let mut config = KeeConfig::new();

    config.set_current_profile(Some("test".to_string()));
    assert_eq!(config.current_profile, Some("test".to_string()));

    config.set_current_profile(None);
    assert!(config.current_profile.is_none());
}

#[test]
fn unit_tests_test_kee_config_new() {
    let config = KeeConfig::default();
    assert!(config.profiles.is_empty());
    assert!(config.current_profile.is_none());
}

#[test]
fn test_profile_info_creation() {
    let profile = ProfileInfo {
        profile_name: "test-profile".to_string(),
        sso_start_url: "https://test.awsapps.com/start".to_string(),
        sso_region: "us-east-1".to_string(),
        sso_account_id: "123456789012".to_string(),
        sso_role_name: "TestRole".to_string(),
        session_name: "test-session".to_string(),
        production: false,
    };

    assert_eq!(profile.profile_name, "test-profile");
    assert_eq!(profile.sso_account_id, "123456789012");
    assert_eq!(profile.sso_role_name, "TestRole");
}

#[test]
fn test_config_with_multiple_profiles() {
    let mut config = KeeConfig::default();

    let profile1 = ProfileInfo {
        profile_name: "prod-profile".to_string(),
        sso_start_url: "https://prod.awsapps.com/start".to_string(),
        sso_region: "us-east-1".to_string(),
        sso_account_id: "111111111111".to_string(),
        sso_role_name: "ProdRole".to_string(),
        session_name: "prod-session".to_string(),
        production: false,
    };

    let profile2 = ProfileInfo {
        profile_name: "dev-profile".to_string(),
        sso_start_url: "https://dev.awsapps.com/start".to_string(),
        sso_region: "us-west-2".to_string(),
        sso_account_id: "222222222222".to_string(),
        sso_role_name: "DevRole".to_string(),
        session_name: "dev-session".to_string(),
        production: false,
    };

    config.profiles.insert("prod".to_string(), profile1.clone());
    config.profiles.insert("dev".to_string(), profile2.clone());

    assert_eq!(config.profiles.len(), 2);
    assert_eq!(config.profiles.get("prod"), Some(&profile1));
    assert_eq!(config.profiles.get("dev"), Some(&profile2));
}

#[test]
fn test_profile_info_clone() {
    let profile = ProfileInfo {
        profile_name: "test".to_string(),
        sso_start_url: "https://test.com".to_string(),
        sso_region: "us-east-1".to_string(),
        sso_account_id: "123456789012".to_string(),
        sso_role_name: "TestRole".to_string(),
        session_name: "session".to_string(),
        production: false,
    };

    let cloned = profile.clone();
    assert_eq!(profile.profile_name, cloned.profile_name);
    assert_eq!(profile.sso_account_id, cloned.sso_account_id);
}

#[test]
fn test_version_from_cargo() {
    let version = VERSION;
    assert!(!version.is_empty());
    assert!(version.contains('.'));

    let parts: Vec<&str> = version.split('.').collect();
    assert!(parts.len() >= 2);

    for part in parts {
        assert!(part.chars().all(|c| c.is_ascii_digit()));
    }
}

// -- laws of the configuration, on concrete values ---------------------------

#[test]
fn get_after_add_returns_what_was_added() {
    let mut config = KeeConfig::new();
    let p = profile("a", "1", "R", "eu-west-1", "s");
    config.add_profile("a".to_string(), p.clone());
    assert_eq!(config.get_profile("a"), Some(&p));
}

#[test]
fn add_replaces_a_profile_of_the_same_name() {
    let mut config = KeeConfig::new();
    config.add_profile("a".to_string(), profile("a", "1", "R", "eu-west-1", "s"));
    let newer = profile("a2", "2", "R2", "us-east-1", "t");
    config.add_profile("a".to_string(), newer.clone());
    assert_eq!(config.profiles.len(), 1);
    assert_eq!(config.get_profile("a"), Some(&newer));
}

#[test]
fn add_keeps_other_profiles_and_current() {
    let mut config = KeeConfig::new();
    let a = profile("a", "1", "R", "eu-west-1", "s");
    config.add_profile("a".to_string(), a.clone());
    config.set_current_profile(Some("a".to_string()));
    config.add_profile("b".to_string(), profile("b", "2", "R", "eu-west-1", "s"));
    assert_eq!(config.get_profile("a"), Some(&a));
    assert_eq!(config.current_profile, Some("a".to_string()));
}

#[test]
fn remove_of_other_profile_keeps_current() {
    let mut config = KeeConfig::new();
    config.add_profile("a".to_string(), profile("a", "1", "R", "eu-west-1", "s"));
    config.add_profile("b".to_string(), profile("b", "2", "R", "eu-west-1", "s"));
    config.set_current_profile(Some("a".to_string()));
    let removed = config.remove_profile("b");
    assert_eq!(removed.map(|p| p.profile_name), Some("b".to_string()));
    assert_eq!(config.current_profile, Some("a".to_string()));
    assert!(config.get_profile("b").is_none());
    assert!(config.get_profile("a").is_some());
}

#[test]
fn remove_of_absent_current_name_still_clears_current() {
    let mut config = KeeConfig::new();
    config.set_current_profile(Some("ghost".to_string()));
    assert!(config.remove_profile("ghost").is_none());
    assert!(config.current_profile.is_none());
}

#[test]
fn add_then_remove_restores_empty_config() {
    let mut config = KeeConfig::new();
    config.add_profile("x".to_string(), profile("x", "1", "R", "eu-west-1", "s"));
    config.remove_profile("x");
    assert!(config.is_empty());
    assert!(config.current_profile.is_none());
}

#[test]
fn set_production_marks_and_unmarks_only_that_profile() {
    let mut config = KeeConfig::new();
    config.add_profile("a".to_string(), profile("a", "1", "R", "eu-west-1", "s"));
    config.add_profile("b".to_string(), profile("b", "2", "R", "eu-west-1", "s"));
    assert!(config.set_production("a", true, false));
    assert!(config.get_profile("a").unwrap().production);
    assert!(!config.get_profile("b").unwrap().production);
    assert_eq!(config.get_profile("a").unwrap().sso_account_id, "1");
    assert!(config.set_production("a", false, true));
    assert!(!config.get_profile("a").unwrap().production);
    assert!(config.set_production("a", false, false));
    assert!(!config.get_profile("a").unwrap().production);
    assert!(!config.set_production("missing", true, false));
}

#[test]
fn sorted_profile_names_are_in_string_order() {
    let mut config = KeeConfig::new();
    for n in ["zeta", "alpha", "Mid", "beta"] {
        config.add_profile(n.to_string(), profile(n, "1", "R", "eu-west-1", "s"));
    }
    assert_eq!(config.sorted_profile_names(), vec!["Mid", "alpha", "beta", "zeta"]);
}

#[test]
fn aws_profile_name_for_known_and_unknown_names() {
    let mut config = KeeConfig::new();
    config.add_profile("short".to_string(), profile("long-aws-name", "1", "R", "eu-west-1", "s"));
    assert_eq!(config.aws_profile_name_for("short".to_string()), "long-aws-name");
    assert_eq!(config.aws_profile_name_for("other".to_string()), "other");
}

#[test]
fn duplicate_copies_every_field() {
    let mut p = profile("a", "1", "R", "eu-west-1", "s");
    p.production = true;
    assert_eq!(p.duplicate(), p);
}
