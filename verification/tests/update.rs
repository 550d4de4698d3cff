use eoliann_tools::update::{is_update_available, parse_or_zero, update_offer, GithubRelease};

#[test]
fn newer_release_is_detected() {
    assert!(is_update_available("1.1.7", "v1.1.8"));
    assert!(is_update_available("1.1.7", "1.2.0"));
    assert!(is_update_available("1.9.9", "v2.0.0"));
    assert!(!is_update_available("1.1.8", "v1.1.8"));
    assert!(!is_update_available("1.1.8", "v1.1.7"));
    assert!(!is_update_available("2.0.0", "1.99.99"));
}

#[test]
fn prereleases_and_garbage_follow_semver() {
    assert!(is_update_available("1.0.0-alpha", "1.0.0"));
    assert!(!is_update_available("1.0.0", "1.0.0-rc.1"));
    // a tag that is no version counts as 0.0.0
    assert!(!is_update_available("0.1.0", "latest"));
    assert!(is_update_available("not a version", "0.0.1"));
    assert!(is_update_available("1.0.0", "vvv1.0.1"));
}

#[test]
fn parsed_versions() {
    let v = parse_or_zero("3.4.5-beta+build7");
    assert_eq!((v.major(), v.minor(), v.patch()), (3, 4, 5));
    let z = parse_or_zero("1.0");
    assert_eq!((z.major(), z.minor(), z.patch()), (0, 0, 0));
}

#[test]
fn update_offer_at_start() {
    let rel = GithubRelease { tag_name: "v9.0.0".to_string(), html_url: "https://example.org/r".to_string() };
    let (avail, shown) = update_offer("1.0.0", Some(rel));
    assert!(avail);
    assert_eq!(shown.unwrap().html_url, "https://example.org/r");
    let rel = GithubRelease { tag_name: "v1.0.0".to_string(), html_url: String::new() };
    let (avail, shown) = update_offer("1.0.0", Some(rel));
    assert!(!avail);
    assert!(shown.is_none());
    let (avail, shown) = update_offer("1.0.0", None);
    assert!(!avail && shown.is_none());
}
