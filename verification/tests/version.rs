use magoo::version::{get_supported_versions, is_supported, parse_git_version, supported_git_versions, Version};

#[test]
fn test_parse_git_version() {
    assert_eq!(
        parse_git_version("git version 2.40.0"),
        Some(Version::new(2, 40, 0))
    );
    assert_eq!(
        parse_git_version("git version 2.30.1"),
        Some(Version::new(2, 30, 1))
    );
    assert_eq!(
        parse_git_version("git version 2.43.0.windows.1"),
        Some(Version::new(2, 43, 0))
    );
    assert_eq!(parse_git_version("gi version 2.43.0.windows.1"), None);
}

#[test]
fn supported_version_parses() {
    for version in supported_git_versions() {
        assert!(semver::VersionReq::parse(&version).is_ok());
    }
    assert!(is_supported(
        &parse_git_version("git version 2.45.1").unwrap()
    ));
    assert!(!is_supported(
        &parse_git_version("git version 2.45.0").unwrap()
    ));
    assert!(is_supported(
        &parse_git_version("git version 2.44.1").unwrap()
    ));
    assert!(!is_supported(
        &parse_git_version("git version 2.44.0").unwrap()
    ));
    assert!(is_supported(
        &parse_git_version("git version 2.43.4").unwrap()
    ));
    assert!(!is_supported(
        &parse_git_version("git version 2.43.3").unwrap()
    ));
}

#[test]
fn supported_versions_join() {
    assert_eq!(get_supported_versions(), ">=2.45.1, ~2.44.1, ~2.43.4");
}

#[test]
fn parse_git_version_rejects_garbage() {
    assert_eq!(parse_git_version(""), None);
    assert_eq!(parse_git_version("git version "), None);
    assert_eq!(parse_git_version("2.40"), None);
}

#[test]
fn parse_git_version_without_prefix() {
    assert_eq!(parse_git_version(" 2.40.0 "), Some(Version::new(2, 40, 0)));
}
