use kee::grouping::group_profiles_by_session;
use kee::ProfileInfo;

fn profile_on(name: &str, start_url: &str) -> (String, ProfileInfo) {
    (
        name.to_string(),
        ProfileInfo {
            profile_name: name.to_string(),
            sso_start_url: start_url.to_string(),
            sso_region: "ap-southeast-2".to_string(),
            sso_account_id: "123456789012".to_string(),
            sso_role_name: "Role".to_string(),
            session_name: "sess".to_string(),
            production: false,
        },
    )
}

#[test]
fn group_collapses_shared_start_url_into_one_bucket() {
    let groups = group_profiles_by_session(vec![
        profile_on("acme.dev", "https://acme.awsapps.com/start"),
        profile_on("acme.prod", "https://acme.awsapps.com/start"),
    ]);
    assert_eq!(groups.len(), 1);
    assert_eq!(groups[0].len(), 2);
}

#[test]
fn group_keeps_distinct_start_urls_separate() {
    let groups = group_profiles_by_session(vec![
        profile_on("acme", "https://acme.awsapps.com/start"),
        profile_on("other", "https://other.awsapps.com/start"),
    ]);
    assert_eq!(groups.len(), 2);
    assert!(groups.iter().all(|g| g.len() == 1));
}

#[test]
fn group_does_not_lump_empty_url_profiles_together() {
    let groups = group_profiles_by_session(vec![profile_on("a", ""), profile_on("b", "")]);
    assert_eq!(groups.len(), 2);
}

#[test]
fn group_preserves_first_seen_order() {
    let groups = group_profiles_by_session(vec![
        profile_on("b", "https://b.example/start"),
        profile_on("a", "https://a.example/start"),
        profile_on("b2", "https://b.example/start"),
    ]);
    assert_eq!(groups.len(), 2);
    assert_eq!(groups[0][0].0, "b");
    assert_eq!(groups[0][1].0, "b2");
    assert_eq!(groups[1][0].0, "a");
}

#[test]
fn groups_partition_the_profiles() {
    let input = vec![
        profile_on("x1", "https://x/start"),
        profile_on("solo", ""),
        profile_on("y1", "https://y/start"),
        profile_on("x2", "https://x/start"),
        profile_on("other", ""),
        profile_on("y2", "https://y/start"),
    ];
    let groups = group_profiles_by_session(input.clone());
    let total: usize = groups.iter().map(|g| g.len()).sum();
    assert_eq!(total, input.len());
    for g in &groups {
        assert!(!g.is_empty());
        assert!(g.iter().all(|(_, p)| p.sso_start_url == g[0].1.sso_start_url));
    }
    let names: Vec<Vec<&str>> =
        groups.iter().map(|g| g.iter().map(|(n, _)| n.as_str()).collect()).collect();
    assert_eq!(names, vec![vec!["x1", "x2"], vec!["solo"], vec!["y1", "y2"], vec!["other"]]);
}

#[test]
fn grouping_nothing_gives_no_groups() {
    assert!(group_profiles_by_session(Vec::new()).is_empty());
}
