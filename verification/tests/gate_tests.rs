use aur_updater::config::{default_pkgver_regex, CheckPolicy};
use aur_updater::gate::{check_version, pattern_is_valid, VersionGate};

#[test]
fn default_policy_carries_the_default_pattern() {
    let policy = CheckPolicy::default();
    assert_eq!(policy.pkgver_regex, default_pkgver_regex());
}

#[test]
fn default_pattern_gates_versions() {
    let pattern = default_pkgver_regex();
    assert_eq!(pattern, "^[0-9]+(\\.[0-9]+)+$");
    assert_eq!(check_version(&pattern, &b"2.14.0".to_vec()), VersionGate::Match);
    assert_eq!(check_version(&pattern, &b"v2.14".to_vec()), VersionGate::NoMatch);
    assert_eq!(check_version(&pattern, &b"2.14.0-rc1".to_vec()), VersionGate::NoMatch);
}

#[test]
fn default_pattern_needs_at_least_one_dot() {
    let pattern = default_pkgver_regex();
    assert_eq!(check_version(&pattern, &b"2".to_vec()), VersionGate::NoMatch);
    assert_eq!(check_version(&pattern, &b"1.2.3.4".to_vec()), VersionGate::Match);
    assert_eq!(check_version(&pattern, &b"".to_vec()), VersionGate::NoMatch);
}

#[test]
fn invalid_pattern_is_reported() {
    assert!(!pattern_is_valid("("));
    assert!(pattern_is_valid("^a+$"));
    assert_eq!(check_version("(", &b"1.0".to_vec()), VersionGate::BadPattern);
}

#[test]
fn custom_pattern_is_used() {
    assert_eq!(check_version("^v[0-9]+$", &b"v7".to_vec()), VersionGate::Match);
    assert_eq!(check_version("^v[0-9]+$", &b"7".to_vec()), VersionGate::NoMatch);
}
