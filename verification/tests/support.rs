use cargo_agdk::cache::{
    android_home_from, android_home_in, gradle_user_home_from, gradle_user_home_in, ndk_home_from,
    ndk_home_in, root, root_from, root_in,
};
use cargo_agdk::error::Error;
use cargo_agdk::digest::{to_hex_lower, Sha256State};
use cargo_agdk::pins::Pins;
use cargo_agdk::text::{decimal_of, join_path, join_strings, replace_all, same_text};
use cargo_agdk::verify::absolute;

fn pins() -> Pins {
    Pins {
        agp: "8.4.0".into(),
        ndk: "27.2.12479018".into(),
        gradle: "8.6".into(),
    }
}

#[test]
fn cache_layout_under_base() {
    let p = pins();
    let r = "/home/u/.cache/cargo-agdk/android-toolchain-agp8.4.0-ndk27-gradle8.6";
    assert_eq!(root_in("/home/u/.cache", &p), r);
    assert_eq!(android_home_in("/home/u/.cache", &p), format!("{r}/android-home"));
    assert_eq!(gradle_user_home_in("/home/u/.cache/", &p), format!("{r}/gradle-user-home"));
    assert_eq!(
        ndk_home_in("/home/u/.cache", &p),
        format!("{r}/android-home/ndk/27.2.12479018")
    );
}

#[test]
fn cache_root_ends_with_tag_when_available() {
    if let Ok(path) = root(&pins()) {
        assert!(path.ends_with("/cargo-agdk/android-toolchain-agp8.4.0-ndk27-gradle8.6"));
    }
}

#[test]
fn path_joining() {
    assert_eq!(join_path("a", "b"), "a/b");
    assert_eq!(join_path("a/", "b"), "a/b");
    assert_eq!(join_path("", "b"), "b");
    assert_eq!(join_path("a", "/b"), "/b");
    assert_eq!(join_path("a", ""), "a/");
}

#[test]
fn sha256_hex_digest() {
    let mut h = Sha256State::new();
    h.update(b"ab");
    h.update(b"c");
    assert_eq!(
        h.finish_hex(),
        "ba7816bf8f01cfea414140de5dae2223b00361a396177a9cb410ff61f20015ad"
    );
    assert_eq!(
        Sha256State::new().finish_hex(),
        "e3b0c44298fc1c149afbf4c8996fb92427ae41e4649b934ca495991b7852b855"
    );
}

#[test]
fn hex_rendering() {
    assert_eq!(to_hex_lower(&[0x0a, 0x14, 0x1e, 0xff]), "0a141eff");
    assert_eq!(to_hex_lower(&[]), "");
}

#[test]
fn text_equality() {
    assert!(same_text("abc", "abc"));
    assert!(!same_text("abc", "abd"));
    assert!(!same_text("abc", "ab"));
}

#[test]
fn decimal_rendering() {
    assert_eq!(decimal_of(0), "0");
    assert_eq!(decimal_of(127), "127");
    assert_eq!(decimal_of(-1), "-1");
    assert_eq!(decimal_of(i32::MIN), "-2147483648");
    assert_eq!(decimal_of(i32::MAX), "2147483647");
}

#[test]
fn replacing_and_joining() {
    assert_eq!(replace_all("a__X__b__X__", "__X__", "1.0"), "a1.0b1.0");
    assert_eq!(replace_all("aaa", "aa", "b"), "ba");
    assert_eq!(replace_all("none", "x", "y"), "none");
    let parts = vec!["gh".to_string(), "tar".to_string()];
    assert_eq!(join_strings(&parts, ", "), "gh, tar");
    assert_eq!(join_strings(&Vec::new(), ", "), "");
}

#[test]
fn absolute_paths() {
    assert_eq!(absolute("android", "/w"), "/w/android");
    assert_eq!(absolute("/abs/android", "/w"), "/abs/android");
    assert_eq!(absolute("a/b", "/w/"), "/w/a/b");
}

#[test]
fn cache_roots_follow_the_tag() {
    let a = pins();
    let same_major = Pins { ndk: "27.0.1".into(), ..pins() };
    let other_gradle = Pins { gradle: "8.7".into(), ..pins() };
    assert_eq!(root_in("/c", &a), root_in("/c", &same_major));
    assert_ne!(root_in("/c", &a), root_in("/c", &other_gradle));
}

#[test]
fn cache_paths_from_user_cache_dir() {
    let p = pins();
    let r = "/h/.cache/cargo-agdk/android-toolchain-agp8.4.0-ndk27-gradle8.6";
    assert_eq!(root_from(Some("/h/.cache".into()), &p).unwrap(), r);
    assert_eq!(android_home_from(Some("/h/.cache".into()), &p).unwrap(), format!("{r}/android-home"));
    assert_eq!(gradle_user_home_from(Some("/h/.cache".into()), &p).unwrap(), format!("{r}/gradle-user-home"));
    assert_eq!(
        ndk_home_from(Some("/h/.cache".into()), &p).unwrap(),
        format!("{r}/android-home/ndk/27.2.12479018")
    );
    for r in [
        root_from(None, &p),
        android_home_from(None, &p),
        gradle_user_home_from(None, &p),
        ndk_home_from(None, &p),
    ] {
        match r {
            Err(Error::Other(m)) => assert_eq!(m, "no user cache directory (HOME unset?)"),
            other => panic!("unexpected {other:?}"),
        }
    }
}
