use ioscpy::update::{
    cache_record, cached_version, latest_tag, newer, parse_ver, pending_notice,
    phone_behind_notice, refresh_due, release_tag, REFRESH_SECS,
};

#[test]
fn parse_ver_reads_three_numbers() {
    assert_eq!(parse_ver("1.2.3"), Some((1, 2, 3)));
    assert_eq!(parse_ver("  v1.2.3\n"), Some((1, 2, 3)));
    assert_eq!(parse_ver("vv2.0"), Some((2, 0, 0)));
    assert_eq!(parse_ver("7"), Some((7, 0, 0)));
    assert_eq!(parse_ver("1.x.3"), Some((1, 0, 3)));
    assert_eq!(parse_ver("1.2.3.4"), Some((1, 2, 3)));
    assert_eq!(parse_ver("+4.5"), Some((4, 5, 0)));
}

#[test]
fn parse_ver_needs_a_major_number() {
    assert_eq!(parse_ver(""), None);
    assert_eq!(parse_ver("abc"), None);
    assert_eq!(parse_ver(".1.2"), None);
    assert_eq!(parse_ver("-1.2"), None);
    assert_eq!(parse_ver("18446744073709551616"), None);
    assert_eq!(parse_ver("18446744073709551615"), Some((u64::MAX, 0, 0)));
}

#[test]
fn newer_compares_in_order() {
    assert!(newer("1.2.4", "1.2.3"));
    assert!(newer("2.0.0", "1.9.9"));
    assert!(newer("v1.10", "1.9"));
    assert!(!newer("1.2.3", "1.2.3"));
    assert!(!newer("1.2.3", "1.2.4"));
    assert!(!newer("junk", "1.0.0"));
    assert!(!newer("1.0.0", "junk"));
}

#[test]
fn pending_notice_only_when_newer() {
    let n = pending_notice(Some("1.3.0".to_string()), "1.2.0").unwrap();
    assert_eq!(
        n,
        "🚨 NEW VERSION 🚨 ioscpy 1.3.0 is available. Update with: brew upgrade ioscpy"
    );
    assert_eq!(pending_notice(Some("1.2.0".to_string()), "1.2.0"), None);
    assert_eq!(pending_notice(None, "1.2.0"), None);
}

#[test]
fn phone_behind_notice_text() {
    let n = phone_behind_notice("1.0.0", "1.1.0").unwrap();
    assert_eq!(
        n,
        "Your iPhone is running an older ioscpy (1.0.0) than this Mac (1.1.0). Update it from your Sileo or Zebra repo."
    );
    assert_eq!(phone_behind_notice("1.1.0", "1.1.0"), None);
    assert_eq!(phone_behind_notice("1.2.0", "1.1.0"), None);
}

#[test]
fn cached_version_is_the_first_line() {
    assert_eq!(cached_version("1.4.2\n1700000000\n"), Some("1.4.2".to_string()));
    assert_eq!(cached_version("  1.4.2 \r\nrest"), Some("1.4.2".to_string()));
    assert_eq!(cached_version(""), None);
    assert_eq!(cached_version("\n1.4.2\n"), None);
    assert_eq!(cached_version("   \n"), None);
}

#[test]
fn cache_record_is_read_back() {
    let text = cache_record("1.4.2", 1700000000);
    assert_eq!(text, "1.4.2\n1700000000\n");
    assert_eq!(cached_version(&text), Some("1.4.2".to_string()));
    assert_eq!(cache_record("2", 0), "2\n0\n");
}

#[test]
fn latest_tag_reads_tag_name() {
    assert_eq!(latest_tag(br#"{"tag_name": " v1.5.0 ", "name": "x"}"#), Some("1.5.0".to_string()));
    assert_eq!(latest_tag(br#"{"tag_name": "2.0"}"#), Some("2.0".to_string()));
    assert_eq!(latest_tag(br#"{"tag_name": "v"}"#), None);
    assert_eq!(latest_tag(br#"{"tag_name": 5}"#), None);
    assert_eq!(latest_tag(br#"{"name": "1.0"}"#), None);
    assert_eq!(latest_tag(br#"["tag_name"]"#), None);
    assert_eq!(latest_tag(b"not json"), None);
}

#[test]
fn release_tag_cleans_up() {
    assert_eq!(release_tag(Some("\tv3.1\n".to_string())), Some("3.1".to_string()));
    assert_eq!(release_tag(Some("   ".to_string())), None);
    assert_eq!(release_tag(None), None);
}

#[test]
fn refresh_is_due_once_a_day() {
    assert!(refresh_due(None));
    assert!(!refresh_due(Some(0)));
    assert!(!refresh_due(Some(REFRESH_SECS - 1)));
    assert!(refresh_due(Some(REFRESH_SECS)));
    assert_eq!(REFRESH_SECS, 86400);
}
