use orchestrator::errors::ReleaseError;
use orchestrator::version::{check_semver, normalize};

#[test]
fn normalize_accepts_bare_and_prefixed_equally() {
    let a = normalize("1.2.3").unwrap();
    let b = normalize("v1.2.3").unwrap();
    assert_eq!(a.tag, "v1.2.3");
    assert_eq!(a.version, "1.2.3");
    assert_eq!(b.tag, "v1.2.3");
    assert_eq!(b.version, "1.2.3");
    assert_eq!(a, b);
}

#[test]
fn normalize_rejects_double_v() {
    match normalize("vv1.2.3") {
        Err(ReleaseError::InvalidVersion { input }) => assert_eq!(input, "vv1.2.3"),
        other => panic!("expected InvalidVersion, got {:?}", other),
    }
}

#[test]
fn normalize_rejects_garbage() {
    match normalize("not-a-version") {
        Err(ReleaseError::InvalidVersion { input }) => assert_eq!(input, "not-a-version"),
        other => panic!("expected InvalidVersion, got {:?}", other),
    }
}

#[test]
fn normalize_preserves_prerelease_and_build_metadata() {
    let v = normalize("v1.2.3-rc.1+build.5").unwrap();
    assert_eq!(v.tag, "v1.2.3-rc.1+build.5");
    assert_eq!(v.version, "1.2.3-rc.1+build.5");
}

#[test]
fn normalize_rejects_incomplete_core() {
    assert!(normalize("1.2").is_err());
    assert!(normalize("1").is_err());
    assert!(normalize("").is_err());
    assert!(normalize("v").is_err());
    assert!(normalize("1.2.3.4").is_err());
}

#[test]
fn normalize_rejects_leading_zeros_in_core() {
    assert!(normalize("1.02.3").is_err());
    assert!(normalize("01.2.3").is_err());
    assert!(normalize("1.2.03").is_err());
    assert!(normalize("0.1.0").is_ok());
}

#[test]
fn prerelease_numeric_identifiers_reject_leading_zeros() {
    assert!(normalize("1.2.3-01").is_err());
    assert!(normalize("1.2.3-0").is_ok());
    assert!(normalize("1.2.3-rc.01").is_err());
    assert!(normalize("1.2.3-01a").is_ok());
}

#[test]
fn build_metadata_allows_leading_zeros() {
    assert!(normalize("1.2.3+01").is_ok());
    assert!(normalize("1.2.3+build.007").is_ok());
}

#[test]
fn empty_identifiers_are_rejected() {
    assert!(normalize("1.2.3-").is_err());
    assert!(normalize("1.2.3+").is_err());
    assert!(normalize("1.2.3-rc..1").is_err());
    assert!(normalize("1.2.3+a..b").is_err());
}

#[test]
fn check_semver_matches_grammar() {
    assert!(check_semver("0.0.0"));
    assert!(check_semver("10.20.30"));
    assert!(check_semver("1.2.3-alpha.1.x-y.0"));
    assert!(check_semver("1.2.3+x.y-z.0"));
    assert!(!check_semver("1.2.3-alpha_1"));
    assert!(!check_semver("1.2.3 "));
    assert!(!check_semver("v1.2.3"));
}
