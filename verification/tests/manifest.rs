use cargo_agdk::manifest::{AssetKind, Manifest, ALL};

fn fixture() -> Manifest {
    Manifest {
        agp_version: "8.4.0".into(),
        ndk_version: "27.2.12479018".into(),
        gradle_version: "8.6".into(),
        ndk_sha256: "ndk".into(),
        sdk_sha256: "sdk".into(),
        gradle_cache_sha256: "gc".into(),
    }
}

#[test]
fn sha256_for_dispatches() {
    let m = fixture();
    assert_eq!(m.sha256_for(AssetKind::Ndk), "ndk");
    assert_eq!(m.sha256_for(AssetKind::Sdk), "sdk");
    assert_eq!(m.sha256_for(AssetKind::GradleCache), "gc");
}

#[test]
fn asset_kind_names() {
    assert_eq!(AssetKind::Ndk.as_str(), "ndk");
    assert_eq!(AssetKind::Sdk.as_str(), "sdk");
    assert_eq!(AssetKind::GradleCache.as_str(), "gradle-cache");
    assert_eq!(AssetKind::Sdk.filename(), "sdk-pieces-linux-x86_64.tar.zst");
    assert_eq!(AssetKind::Ndk.extract_into(), "android-home");
    assert_eq!(AssetKind::Sdk.extract_into(), "android-home");
    assert_eq!(AssetKind::GradleCache.extract_into(), "gradle-user-home");
}

#[test]
fn all_lists_each_kind_once_in_order() {
    assert_eq!(ALL, [AssetKind::Ndk, AssetKind::Sdk, AssetKind::GradleCache]);
    for (i, k) in ALL.iter().enumerate() {
        assert_eq!(cargo_agdk::manifest::all_kind(i), *k);
    }
}
