use aur_updater::provider::{CratesIoRelease, GithubRelease, GithubTag, ReleaseEntry};

fn entry(draft: bool, prerelease: bool, tag: &str) -> ReleaseEntry {
    ReleaseEntry { draft, prerelease, tag_name: tag.as_bytes().to_vec() }
}

#[test]
fn drafts_are_always_dropped() {
    let source = GithubRelease { repo: b"owner/repo".to_vec(), prerelease: true };
    let entries = vec![entry(true, false, "2.0.0"), entry(false, false, "1.0.0")];
    let tags = source.select_tags(&entries);
    assert_eq!(tags, vec![b"1.0.0".to_vec()]);
}

#[test]
fn prereleases_need_an_opt_in() {
    let entries = vec![
        entry(false, true, "2.0.0-rc1"),
        entry(false, false, "1.9.0"),
        entry(true, true, "draft"),
    ];
    let strict = GithubRelease { repo: b"owner/repo".to_vec(), prerelease: false };
    assert_eq!(strict.select_tags(&entries), vec![b"1.9.0".to_vec()]);
    let lenient = GithubRelease { repo: b"owner/repo".to_vec(), prerelease: true };
    assert_eq!(lenient.select_tags(&entries), vec![b"2.0.0-rc1".to_vec(), b"1.9.0".to_vec()]);
}

#[test]
fn order_of_kept_entries_is_preserved() {
    let source = GithubRelease { repo: b"o/r".to_vec(), prerelease: false };
    let entries = vec![
        entry(false, false, "3.0.0"),
        entry(false, true, "3.1.0-beta"),
        entry(false, false, "2.0.0"),
        entry(false, false, "1.0.0"),
    ];
    assert_eq!(
        source.select_tags(&entries),
        vec![b"3.0.0".to_vec(), b"2.0.0".to_vec(), b"1.0.0".to_vec()]
    );
}

#[test]
fn request_urls_name_the_configured_source() {
    let releases = GithubRelease { repo: b"owner/repo".to_vec(), prerelease: false };
    assert_eq!(releases.releases_url(), b"https://api.github.com/repos/owner/repo/releases".to_vec());
    let tags = GithubTag { repo: b"owner/repo".to_vec() };
    assert_eq!(tags.tags_url(), b"https://api.github.com/repos/owner/repo/tags".to_vec());
    let registry = CratesIoRelease { krate: b"demo".to_vec() };
    assert_eq!(registry.versions_url(), b"https://crates.io/api/v1/crates/demo/versions".to_vec());
}
