use kee::cli::account_alias_from_output;
use kee::json::{first_string_in, JsonValue};
use kee::console::{
    browser_command, build_issuer, console_url_for_region, federation_login_url,
    federation_session_json, issuer_from, signin_token_request_url, url_encode,
    usable_session_token, Platform,
};

#[test]
fn url_encode_empty() {
    assert_eq!(url_encode(""), "");
}

#[test]
fn url_encode_unreserved_passes_through() {
    assert_eq!(
        url_encode("ABCabc012-_.~"),
        "ABCabc012-_.~",
        "RFC 3986 unreserved characters should not be encoded"
    );
}

#[test]
fn url_encode_reserved_is_percent_encoded() {
    assert_eq!(url_encode("="), "%3D");
    assert_eq!(url_encode("&"), "%26");
    assert_eq!(url_encode("?"), "%3F");
    assert_eq!(url_encode("/"), "%2F");
    assert_eq!(url_encode(" "), "%20");
}

#[test]
fn url_encode_multi_byte_utf8() {
    assert_eq!(url_encode("é"), "%C3%A9");
}

#[test]
fn url_encode_realistic_session_payload() {
    let input = r#"{"sessionId":"AKIA","sessionKey":"secret"}"#;
    let out = url_encode(input);
    assert!(out.starts_with("%7B%22sessionId%22"));
    assert!(out.ends_with("%22secret%22%7D"));
}

#[test]
fn url_encode_uses_only_url_safe_characters() {
    let out = url_encode("a b/c?d=e&f#g~h_i.j-k\u{1f600}");
    assert!(out
        .chars()
        .all(|c| c.is_ascii_alphanumeric() || "-_.~%".contains(c)));
    assert_eq!(out, "a%20b%2Fc%3Fd%3De%26f%23g~h_i.j-k%F0%9F%98%80");
}

#[test]
fn url_encode_tells_different_texts_apart() {
    assert_ne!(url_encode("%41"), url_encode("A"));
    assert_eq!(url_encode("%41"), "%2541");
}

#[test]
fn console_url_default_for_empty_region() {
    assert_eq!(console_url_for_region(""), "https://console.aws.amazon.com/");
}

#[test]
fn console_url_includes_region() {
    assert_eq!(
        console_url_for_region("ap-southeast-2"),
        "https://ap-southeast-2.console.aws.amazon.com/"
    );
}

#[test]
fn console_url_passes_region_through() {
    assert_eq!(
        console_url_for_region("us-gov-west-1"),
        "https://us-gov-west-1.console.aws.amazon.com/"
    );
}

#[test]
fn build_issuer_has_kee_suffix_and_slash_structure() {
    let issuer = build_issuer(None);
    let parts: Vec<&str> = issuer.split('/').collect();
    assert_eq!(parts.len(), 3, "issuer should have three slash-separated parts: {issuer}");
    assert_eq!(parts[2], "kee");
    assert!(!parts[0].is_empty());
    assert!(!parts[1].is_empty());
    assert_eq!(parts[1], "unknown-user");
    let named = build_issuer(Some("alice"));
    assert!(named.ends_with("/alice/kee"));
}

#[test]
fn issuer_falls_back_for_missing_or_blank_host() {
    assert_eq!(issuer_from(Some("  box \n"), Some("bob")), "box/bob/kee");
    assert_eq!(issuer_from(Some("   "), Some("bob")), "unknown-host/bob/kee");
    assert_eq!(issuer_from(None, None), "unknown-host/unknown-user/kee");
}

#[test]
fn issuer_falls_back_for_missing_or_empty_user() {
    assert_eq!(issuer_from(Some("box"), Some("")), "box/unknown-user/kee");
    assert_eq!(issuer_from(Some("box"), Some("  \t")), "box/  \t/kee");
    assert_eq!(issuer_from(Some("box"), Some(" carol ")), "box/ carol /kee");
    let empty = build_issuer(Some(""));
    let parts: Vec<&str> = empty.split('/').collect();
    assert_eq!(parts.len(), 3);
    assert_eq!(parts[1], "unknown-user");
}

#[test]
fn session_payload_and_federation_urls() {
    let json = federation_session_json("AKIA", "secret", "tok");
    assert_eq!(json, r#"{"sessionId":"AKIA","sessionKey":"secret","sessionToken":"tok"}"#);
    assert_eq!(
        signin_token_request_url(&json),
        format!(
            "https://signin.aws.amazon.com/federation?Action=getSigninToken&Session={}",
            url_encode(&json)
        )
    );
    assert_eq!(
        federation_login_url("h/u/kee", "https://console.aws.amazon.com/", "T+1"),
        "https://signin.aws.amazon.com/federation?Action=login&Issuer=h%2Fu%2Fkee&Destination=https%3A%2F%2Fconsole.aws.amazon.com%2F&SigninToken=T%2B1"
    );
}

#[test]
fn session_token_must_be_present_and_non_empty() {
    assert_eq!(usable_session_token(Some("t".to_string())), Some("t".to_string()));
    assert_eq!(usable_session_token(Some(String::new())), None);
    assert_eq!(usable_session_token(None), None);
}

#[test]
fn browser_command_per_platform() {
    let (p, a) = browser_command(Platform::MacOs, "https://x");
    assert_eq!((p.as_str(), a), ("open", vec!["https://x".to_string()]));
    let (p, a) = browser_command(Platform::Windows, "https://x");
    assert_eq!(p, "cmd");
    assert_eq!(a, vec!["/C", "start", "", "https://x"]);
    let (p, a) = browser_command(Platform::Other, "https://x");
    assert_eq!((p.as_str(), a), ("xdg-open", vec!["https://x".to_string()]));
}

#[test]
fn account_alias_is_the_first_listed() {
    let out = br#"{"AccountAliases": ["acme-prod", "second"]}"#;
    assert_eq!(account_alias_from_output(out), Some("acme-prod".to_string()));
    assert_eq!(account_alias_from_output(br#"{"AccountAliases": []}"#), None);
    assert_eq!(account_alias_from_output(br#"{"AccountAliases": [3]}"#), None);
    assert_eq!(account_alias_from_output(b"not json"), None);
    assert_eq!(account_alias_from_output(br#"{"Other": ["x"]}"#), None);
}

#[test]
fn first_string_takes_the_first_element_of_the_named_array() {
    let doc = Some(JsonValue::Object(vec![
        ("Other".to_string(), JsonValue::Array(vec![JsonValue::Str("x".to_string())])),
        (
            "AccountAliases".to_string(),
            JsonValue::Array(vec![JsonValue::Str("first".to_string()), JsonValue::Str("second".to_string())]),
        ),
    ]));
    assert_eq!(first_string_in(&doc, "AccountAliases"), Some("first".to_string()));
    assert_eq!(first_string_in(&doc, "Missing"), None);
    let numbers = Some(JsonValue::Object(vec![(
        "AccountAliases".to_string(),
        JsonValue::Array(vec![JsonValue::Number("3".to_string())]),
    )]));
    assert_eq!(first_string_in(&numbers, "AccountAliases"), None);
    assert_eq!(first_string_in(&Some(JsonValue::Null), "AccountAliases"), None);
    assert_eq!(first_string_in(&None, "AccountAliases"), None);
}
