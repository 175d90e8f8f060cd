use cargo_agdk::error::Error;
use cargo_agdk::package::{derive_release_tag, refuse_placeholder_host};

#[test]
fn derive_release_tag_is_deterministic() {
    let t1 = derive_release_tag("8.4.0", "27.2.12479018", "8.6", "a", "b", "c");
    let t2 = derive_release_tag("8.4.0", "27.2.12479018", "8.6", "a", "b", "c");
    assert_eq!(t1, t2);
}

#[test]
fn derive_release_tag_includes_pins_and_sha8() {
    let tag = derive_release_tag("8.4.0", "27.2.12479018", "8.6", "a", "b", "c");
    assert!(tag.starts_with("android-toolchain-agp8.4.0-ndk27-gradle8.6-"));
    let sha = tag.rsplit('-').next().unwrap();
    assert_eq!(sha.len(), 8);
    assert!(sha.chars().all(|c| c.is_ascii_hexdigit()));
}

#[test]
fn derive_release_tag_changes_with_content() {
    let t1 = derive_release_tag("8.4.0", "27.2.12479018", "8.6", "a", "b", "c");
    let t2 = derive_release_tag("8.4.0", "27.2.12479018", "8.6", "a", "b", "d");
    assert_ne!(t1, t2);
}

#[test]
fn derive_release_tag_changes_with_pins() {
    let t1 = derive_release_tag("8.4.0", "27.2.12479018", "8.6", "a", "b", "c");
    let t2 = derive_release_tag("8.5.0", "27.2.12479018", "8.6", "a", "b", "c");
    assert_ne!(t1, t2);
}

#[test]
fn derive_release_tag_takes_ndk_major_only() {
    let tag = derive_release_tag("8.4.0", "28.0.99999", "8.6", "a", "b", "c");
    assert!(tag.contains("-ndk28-"));
    assert!(!tag.contains("-ndk28.0.99999-"));
}

#[test]
fn derive_release_tag_exact_digest() {
    // sha256("abc") = ba7816bf...
    let tag = derive_release_tag("1", "2", "3", "a", "b", "c");
    assert_eq!(tag, "android-toolchain-agp1-ndk2-gradle3-ba7816bf");
}

#[test]
fn refuses_tbd_release_host() {
    assert!(matches!(
        refuse_placeholder_host("acme/TBD-toolchain"),
        Err(Error::PlaceholderReleaseHost(_))
    ));
    assert!(refuse_placeholder_host("acme/toolchain").is_ok());
}
