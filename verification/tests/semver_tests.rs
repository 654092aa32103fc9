use upmc::semver::{is_remote_newer, parse_semver};

#[test]
fn equal_versions_are_not_newer() {
    assert_eq!(is_remote_newer("1.2.3", "1.2.3"), false);
}

#[test]
fn higher_minor_is_newer() {
    assert_eq!(is_remote_newer("1.2.3", "1.3.0"), true);
}

#[test]
fn malformed_remote_fails_closed() {
    assert_eq!(is_remote_newer("1.2.3", "bad"), false);
}

#[test]
fn malformed_current_fails_closed() {
    assert_eq!(is_remote_newer("bad", "9.9.9"), false);
}

#[test]
fn older_remote_is_not_newer() {
    assert_eq!(is_remote_newer("2.0.0", "1.99.99"), false);
    assert_eq!(is_remote_newer("1.2.3", "1.2.2"), false);
}

#[test]
fn patch_difference_decides() {
    assert_eq!(is_remote_newer("0.3.5", "0.3.6"), true);
}

#[test]
fn parse_accepts_strict_triples_only() {
    assert_eq!(parse_semver("1.2.3"), Some((1, 2, 3)));
    assert_eq!(parse_semver(" 10.0.7 "), Some((10, 0, 7)));
    assert_eq!(parse_semver("007.2.3"), Some((7, 2, 3)));
    assert_eq!(parse_semver("1.2"), None);
    assert_eq!(parse_semver("1.2.3.4"), None);
    assert_eq!(parse_semver("1.2.x"), None);
    assert_eq!(parse_semver(""), None);
    assert_eq!(parse_semver("1..3"), None);
    assert_eq!(parse_semver("+1.2.3"), None);
}
