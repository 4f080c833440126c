use alvr_transport::version::{compute_protocol_id, SemVer};

fn semver(major: u64, minor: u64, patch: u64, pre: &[u8], build: &[u8]) -> SemVer {
    SemVer { major, minor, patch, pre: pre.to_vec(), build: build.to_vec() }
}

#[test]
fn protocol_id_of_plain_major_version() {
    // FNV-1a of the canonical substring "1".
    let id = compute_protocol_id(&semver(1, 0, 0, b"", b""));
    assert_eq!(id, 12638134423997487868);
}

#[test]
fn protocol_id_of_two_digit_major_version() {
    // FNV-1a of the canonical substring "16".
    let id = compute_protocol_id(&semver(16, 2, 3, b"", b""));
    assert_eq!(id, 574367315260998974);
}

#[test]
fn protocol_id_with_prerelease_label() {
    // FNV-1a of the canonical substring "1-beta".
    let id = compute_protocol_id(&semver(1, 0, 0, b"beta", b""));
    assert_eq!(id, 12201377761312435225);
}

#[test]
fn patch_and_minor_releases_stay_wire_compatible() {
    let a = compute_protocol_id(&semver(16, 0, 0, b"", b""));
    let b = compute_protocol_id(&semver(16, 9, 123, b"", b"nightly"));
    assert_eq!(a, b);
}

#[test]
fn prerelease_releases_stay_compatible_across_patches() {
    let a = compute_protocol_id(&semver(2, 0, 0, b"rc.1", b""));
    let b = compute_protocol_id(&semver(2, 1, 7, b"rc.1", b"build5"));
    assert_eq!(a, b);
}

#[test]
fn different_major_versions_get_different_ids() {
    let a = compute_protocol_id(&semver(16, 0, 0, b"", b""));
    let b = compute_protocol_id(&semver(17, 0, 0, b"", b""));
    assert_ne!(a, b);
}

#[test]
fn different_prerelease_labels_get_different_ids() {
    let a = compute_protocol_id(&semver(1, 0, 0, b"alpha", b""));
    let b = compute_protocol_id(&semver(1, 0, 0, b"beta", b""));
    assert_ne!(a, b);
    let plain = compute_protocol_id(&semver(1, 0, 0, b"", b""));
    assert_ne!(a, plain);
    assert_ne!(b, plain);
}
