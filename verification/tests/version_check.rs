use cargo_agdk::config::{default_agp_file, default_gradle_file, default_ndk_file, Config};
use cargo_agdk::error::{Error, PinKind};
use cargo_agdk::lock::Lock;
use cargo_agdk::version_check::{
    assert_pinned, check_pin, parse_gradle_version, read_agp_version, read_gradle_version, read_ndk_version,
};

#[test]
fn parse_gradle_finds_version() {
    let txt = "distributionUrl=https\\://services.gradle.org/distributions/gradle-8.6-bin.zip\n";
    assert_eq!(parse_gradle_version(txt), Some("8.6".into()));
}

#[test]
fn parse_gradle_misses_when_missing() {
    assert_eq!(parse_gradle_version("# empty\n"), None);
}

fn config() -> Config {
    Config {
        release_host: "acme/x".into(),
        lockfile: String::new(),
        android_project: String::new(),
        agp_file: default_agp_file(),
        ndk_file: default_ndk_file(),
        gradle_file: default_gradle_file(),
        targets: vec![],
        workspace_root: "/ws".into(),
    }
}

#[test]
fn read_versions_from_configured_files() {
    let cfg = config();
    assert_eq!(
        read_agp_version(&cfg, Ok("[versions]\nagp = \"8.4.0\"".into())).unwrap(),
        "8.4.0"
    );
    assert_eq!(read_ndk_version(Ok(" 27.2 \n".into())).unwrap(), "27.2");
    match read_gradle_version(&cfg, Ok("nothing".into())) {
        Err(Error::Parse { file, .. }) => {
            assert_eq!(file, "/ws/android/gradle/wrapper/gradle-wrapper.properties")
        }
        other => panic!("unexpected {other:?}"),
    }
    assert!(matches!(read_ndk_version(Err("gone".into())), Err(Error::Io(_))));
}

#[test]
fn check_pin_reports_mismatch() {
    assert!(check_pin(PinKind::Agp, "f", "8.4.0".into(), "8.4.0").is_ok());
    match check_pin(PinKind::Ndk, "f", "27".into(), "26") {
        Err(Error::PinMismatch {
            kind,
            file,
            in_repo,
            pinned,
        }) => {
            assert_eq!(kind, PinKind::Ndk);
            assert_eq!(file, "f");
            assert_eq!(in_repo, "27");
            assert_eq!(pinned, "26");
        }
        other => panic!("unexpected {other:?}"),
    }
}

#[test]
fn pin_kind_names() {
    assert_eq!(PinKind::Agp.name(), "AGP");
    assert_eq!(PinKind::Ndk.name(), "NDK");
    assert_eq!(PinKind::Gradle.name(), "Gradle");
}

fn lock() -> Lock {
    Lock {
        release_tag: "android-toolchain-agp8.4.0-ndk27-gradle8.6-0a1b2c3d".into(),
        agp_version: "8.4.0".into(),
        ndk_version: "27.2.12479018".into(),
        gradle_version: "8.6".into(),
        ndk_sha256: "n".into(),
        sdk_sha256: "s".into(),
        gradle_cache_sha256: "g".into(),
    }
}

const CATALOG: &str = "[versions]\nagp = \"8.4.0\"\n";
const WRAPPER: &str = "distributionUrl=https\\://services.gradle.org/distributions/gradle-8.6-bin.zip\n";

#[test]
fn assert_pinned_accepts_matching_pins() {
    let r = assert_pinned(
        &config(),
        &lock(),
        Ok(CATALOG.into()),
        Ok("27.2.12479018\n".into()),
        Ok(WRAPPER.into()),
    );
    assert!(r.is_ok());
}

#[test]
fn assert_pinned_reports_first_disagreement() {
    match assert_pinned(
        &config(),
        &lock(),
        Ok("[versions]\nagp = \"8.5.0\"\n".into()),
        Err("unreadable".into()),
        Ok("nothing".into()),
    ) {
        Err(Error::PinMismatch { kind, file, in_repo, pinned }) => {
            assert_eq!(kind, PinKind::Agp);
            assert_eq!(file, "/ws/android/gradle/libs.versions.toml");
            assert_eq!(in_repo, "8.5.0");
            assert_eq!(pinned, "8.4.0");
        }
        other => panic!("unexpected {other:?}"),
    }
    match assert_pinned(
        &config(),
        &lock(),
        Ok(CATALOG.into()),
        Err("unreadable".into()),
        Ok(WRAPPER.into()),
    ) {
        Err(Error::Io(m)) => assert_eq!(m, "unreadable"),
        other => panic!("unexpected {other:?}"),
    }
    match assert_pinned(
        &config(),
        &lock(),
        Ok(CATALOG.into()),
        Ok("27.2.12479018".into()),
        Ok(WRAPPER.replace("8.6", "8.7")),
    ) {
        Err(Error::PinMismatch { kind, in_repo, .. }) => {
            assert_eq!(kind, PinKind::Gradle);
            assert_eq!(in_repo, "8.7");
        }
        other => panic!("unexpected {other:?}"),
    }
}
