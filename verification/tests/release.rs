use cargo_agdk::manifest::AssetKind;
use cargo_agdk::pins::Pins;
use cargo_agdk::release::{asset_url, manifest_url, tag, HOST};

fn pins() -> Pins {
    Pins {
        agp: "8.4.0".into(),
        ndk: "27.2.12479018".into(),
        gradle: "8.6".into(),
    }
}

#[test]
fn tag_format() {
    assert_eq!(tag(&pins()), "android-toolchain-agp8.4.0-ndk27-gradle8.6");
}

#[test]
fn asset_url_format() {
    assert_eq!(
        asset_url(&pins(), AssetKind::Ndk),
        "https://github.com/noahkagan/cargo-agdk/releases/download/android-toolchain-agp8.4.0-ndk27-gradle8.6/ndk-linux-x86_64.tar.zst",
    );
}

#[test]
fn manifest_url_format() {
    assert_eq!(
        manifest_url(&pins()),
        "https://github.com/noahkagan/cargo-agdk/releases/download/android-toolchain-agp8.4.0-ndk27-gradle8.6/manifest.toml",
    );
    assert_eq!(HOST, "noahkagan/cargo-agdk");
}

#[test]
fn tag_shared_by_ndk_minor_versions() {
    let mut other = pins();
    other.ndk = "27.0.11718014".into();
    assert_eq!(tag(&pins()), tag(&other));
}

#[test]
fn tag_differs_between_tuples() {
    let mut a = pins();
    a.agp = "8.5.0".into();
    let mut g = pins();
    g.gradle = "8.7".into();
    let mut n = pins();
    n.ndk = "28.0.1".into();
    assert_ne!(tag(&pins()), tag(&a));
    assert_ne!(tag(&pins()), tag(&g));
    assert_ne!(tag(&pins()), tag(&n));
}

#[test]
fn asset_urls_of_the_three_kinds_differ() {
    let p = pins();
    assert_ne!(asset_url(&p, AssetKind::Ndk), asset_url(&p, AssetKind::Sdk));
    assert_ne!(asset_url(&p, AssetKind::Sdk), asset_url(&p, AssetKind::GradleCache));
    assert!(asset_url(&p, AssetKind::GradleCache).ends_with("/gradle-cache.tar.zst"));
}
