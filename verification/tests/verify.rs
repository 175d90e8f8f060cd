use cargo_agdk::error::Error;
use cargo_agdk::manifest::{AssetKind, Manifest};
use cargo_agdk::pins::Pins;
use cargo_agdk::verify::{
    BuildAction, BuildEvent, BuildStep, Builder,
    apk_outcome, capitalize_first, cargo_ndk_outcome, declares_workspace, find_workspace_root,
    gradle_outcome,
    kebab_to_camel, no_workspace_above, plan_build, InstallAction, InstallEvent, InstallStep,
    Installer,
};

#[test]
fn kebab_to_camel_basic() {
    assert_eq!(kebab_to_camel("hello-world"), "helloWorld");
    assert_eq!(kebab_to_camel("my-game"), "myGame");
    assert_eq!(kebab_to_camel("solo"), "solo");
}

#[test]
fn kebab_to_camel_multiple_segments() {
    assert_eq!(kebab_to_camel("one-two-three"), "oneTwoThree");
}

#[test]
fn capitalize_first_basic() {
    assert_eq!(capitalize_first("arenaZero"), "ArenaZero");
    assert_eq!(capitalize_first(""), "");
}

#[test]
fn kebab_to_camel_edge_cases() {
    assert_eq!(kebab_to_camel("snake_case_name"), "snakeCaseName");
    assert_eq!(kebab_to_camel("a--b"), "aB");
    assert_eq!(kebab_to_camel("-lead"), "Lead");
    assert_eq!(kebab_to_camel("trail-"), "trail");
    assert_eq!(kebab_to_camel(""), "");
    assert_eq!(kebab_to_camel("x-ßig"), "xSSig");
    assert_eq!(capitalize_first("ßa"), "SSa");
}

#[test]
fn workspace_detection() {
    assert!(declares_workspace("[workspace]\nmembers = [\"a\"]\n"));
    assert!(!declares_workspace("[package]\nname = \"a\"\n"));
    assert!(!declares_workspace("[workspace\n"));
    assert!(!declares_workspace("workspace = \"yes\"\n"));
    assert!(!declares_workspace("workspace = 1\n"));
    assert!(declares_workspace("[workspace.package]\nversion = \"1.0.0\"\n"));
    match no_workspace_above("/a/b") {
        Error::Other(m) => assert_eq!(m, "no [workspace] Cargo.toml above /a/b"),
        other => panic!("unexpected {other:?}"),
    }
}

#[test]
fn build_plan_layout() {
    let plan = plan_build("hello-world", "/w/android", "/c/ah", "/c/gh", "/c/ah/ndk/27.2");
    assert_eq!(plan.flavor, "helloWorld");
    assert_eq!(plan.jnilibs, "/w/android/app/src/helloWorld/jniLibs");
    assert_eq!(
        plan.cargo_args,
        vec![
            "ndk",
            "-t",
            "arm64-v8a",
            "-o",
            "/w/android/app/src/helloWorld/jniLibs",
            "build",
            "--release",
            "-p",
            "hello-world"
        ]
    );
    assert_eq!(
        plan.cargo_env,
        vec![
            ("ANDROID_NDK_HOME".to_string(), "/c/ah/ndk/27.2".to_string()),
            ("ANDROID_NDK_ROOT".to_string(), "/c/ah/ndk/27.2".to_string()),
        ]
    );
    assert_eq!(plan.gradlew, "/w/android/gradlew");
    assert_eq!(
        plan.gradle_args,
        vec!["--offline", "--no-daemon", "assembleHelloWorldDebug"]
    );
    assert_eq!(plan.gradle_env.len(), 4);
    assert_eq!(plan.gradle_env[2], ("GRADLE_USER_HOME".to_string(), "/c/gh".to_string()));
    assert_eq!(
        plan.apk,
        "/w/android/app/build/outputs/apk/helloWorld/debug/app-helloWorld-debug.apk"
    );
}

#[test]
fn process_outcomes() {
    assert!(cargo_ndk_outcome(true, Some(0)).is_ok());
    assert!(matches!(cargo_ndk_outcome(false, Some(3)), Err(Error::CargoNdkFailed(3))));
    assert!(matches!(cargo_ndk_outcome(false, None), Err(Error::CargoNdkFailed(-1))));
    assert!(matches!(gradle_outcome(false, Some(1)), Err(Error::GradleFailed(1))));
    assert!(gradle_outcome(true, None).is_ok());
    assert!(apk_outcome(true, "a.apk").is_ok());
    match apk_outcome(false, "a.apk") {
        Err(Error::ApkNotFound(p)) => assert_eq!(p, "a.apk"),
        other => panic!("unexpected {other:?}"),
    }
}

fn pins() -> Pins {
    Pins {
        agp: "8.4.0".into(),
        ndk: "27.2.12479018".into(),
        gradle: "8.6".into(),
    }
}

fn manifest() -> Manifest {
    Manifest {
        agp_version: "8.4.0".into(),
        ndk_version: "27.2.12479018".into(),
        gradle_version: "8.6".into(),
        ndk_sha256: "n".into(),
        sdk_sha256: "s".into(),
        gradle_cache_sha256: "g".into(),
    }
}

#[test]
fn installer_stops_when_marker_present() {
    let (mut inst, a) = Installer::new(pins(), "/c/root".into());
    match a {
        InstallAction::CheckMarker { marker } => assert_eq!(marker, "/c/root/.installed"),
        other => panic!("unexpected {other:?}"),
    }
    assert!(matches!(inst.advance(InstallEvent::MarkerChecked(true)), InstallAction::Finish));
    assert_eq!(inst.step(), InstallStep::Done);
}

#[test]
fn installer_full_run() {
    let base = "https://github.com/noahkagan/cargo-agdk/releases/download/android-toolchain-agp8.4.0-ndk27-gradle8.6/";
    let (mut inst, _) = Installer::new(pins(), "/c/root".into());
    match inst.advance(InstallEvent::MarkerChecked(false)) {
        InstallAction::FetchManifest { url } => assert_eq!(url, format!("{base}manifest.toml")),
        other => panic!("unexpected {other:?}"),
    }
    match inst.advance(InstallEvent::ManifestFetched(manifest())) {
        InstallAction::CreateRoot { root } => assert_eq!(root, "/c/root"),
        other => panic!("unexpected {other:?}"),
    }
    let mut next = inst.advance(InstallEvent::Completed);
    let expected = [
        (AssetKind::Ndk, "n", "/c/root/android-home"),
        (AssetKind::Sdk, "s", "/c/root/android-home"),
        (AssetKind::GradleCache, "g", "/c/root/gradle-user-home"),
    ];
    for (kind, sha, dest_dir) in expected {
        match next {
            InstallAction::Download { kind: k, url, tmp } => {
                assert_eq!(k, kind);
                assert_eq!(url, format!("{base}{}", kind.filename()));
                assert_eq!(tmp, format!("/c/root/.download.{}", kind.as_str()));
            }
            other => panic!("unexpected {other:?}"),
        }
        match inst.advance(InstallEvent::Downloaded { sha256: sha.into() }) {
            InstallAction::Extract { kind: k, dest, .. } => {
                assert_eq!(k, kind);
                assert_eq!(dest, dest_dir);
            }
            other => panic!("unexpected {other:?}"),
        }
        next = inst.advance(InstallEvent::Completed);
    }
    match next {
        InstallAction::WriteMarker { marker, contents } => {
            assert_eq!(marker, "/c/root/.installed");
            assert_eq!(contents, "android-toolchain-agp8.4.0-ndk27-gradle8.6");
        }
        other => panic!("unexpected {other:?}"),
    }
    assert!(matches!(inst.advance(InstallEvent::Completed), InstallAction::Finish));
    assert_eq!(inst.step(), InstallStep::Done);
}

#[test]
fn installer_rejects_checksum_mismatch() {
    let (mut inst, _) = Installer::new(pins(), "/r".into());
    inst.advance(InstallEvent::MarkerChecked(false));
    inst.advance(InstallEvent::ManifestFetched(manifest()));
    inst.advance(InstallEvent::Completed);
    match inst.advance(InstallEvent::Downloaded { sha256: "bad".into() }) {
        InstallAction::Reject {
            tmp,
            error:
                Error::ChecksumMismatch {
                    asset,
                    expected,
                    actual,
                    tag,
                },
        } => {
            assert_eq!(tmp, "/r/.download.ndk");
            assert_eq!(asset, "ndk");
            assert_eq!(expected, "n");
            assert_eq!(actual, "bad");
            assert_eq!(tag, "android-toolchain-agp8.4.0-ndk27-gradle8.6");
        }
        other => panic!("unexpected {other:?}"),
    }
    assert_eq!(inst.step(), InstallStep::Failed);
}

#[test]
fn installer_classifies_manifest_failures() {
    let (mut inst, _) = Installer::new(pins(), "/r".into());
    inst.advance(InstallEvent::MarkerChecked(false));
    match inst.advance(InstallEvent::FetchFailed {
        status: Some(404),
        message: "not found".into(),
    }) {
        InstallAction::Fail(Error::NoBundle { agp, ndk, gradle, url }) => {
            assert_eq!(agp, "8.4.0");
            assert_eq!(ndk, "27.2.12479018");
            assert_eq!(gradle, "8.6");
            assert!(url.ends_with("/manifest.toml"));
        }
        other => panic!("unexpected {other:?}"),
    }
    let (mut inst, _) = Installer::new(pins(), "/r".into());
    inst.advance(InstallEvent::MarkerChecked(false));
    assert!(matches!(
        inst.advance(InstallEvent::FetchFailed { status: Some(500), message: "boom".into() }),
        InstallAction::Fail(Error::Network { .. })
    ));
    let (mut inst, _) = Installer::new(pins(), "/r".into());
    inst.advance(InstallEvent::MarkerChecked(false));
    match inst.advance(InstallEvent::ManifestInvalid("bad key".into())) {
        InstallAction::Fail(Error::Other(m)) => assert_eq!(m, "manifest parse: bad key"),
        other => panic!("unexpected {other:?}"),
    }
}

#[test]
fn installer_asset_download_failures_are_network_errors() {
    let (mut inst, _) = Installer::new(pins(), "/r".into());
    inst.advance(InstallEvent::MarkerChecked(false));
    inst.advance(InstallEvent::ManifestFetched(manifest()));
    inst.advance(InstallEvent::Completed);
    match inst.advance(InstallEvent::FetchFailed {
        status: Some(404),
        message: "gone".into(),
    }) {
        InstallAction::Fail(Error::Network { url, source }) => {
            assert!(url.ends_with("/ndk-linux-x86_64.tar.zst"));
            assert_eq!(source, "gone");
        }
        other => panic!("unexpected {other:?}"),
    }
    let (mut inst, _) = Installer::new(pins(), "/r".into());
    inst.advance(InstallEvent::MarkerChecked(false));
    inst.advance(InstallEvent::ManifestFetched(manifest()));
    assert!(matches!(
        inst.advance(InstallEvent::IoFailed("disk full".into())),
        InstallAction::Fail(Error::Io(_))
    ));
}

#[test]
fn workspace_root_is_nearest_workspace_ancestor() {
    let ancestors = vec![
        ("/w/crates/game".to_string(), Some("[package]\nname = \"game\"\n".to_string())),
        ("/w/crates".to_string(), None),
        ("/w".to_string(), Some("[workspace]\nmembers = [\"crates/*\"]\n".to_string())),
        ("/".to_string(), Some("[workspace]\n".to_string())),
    ];
    assert_eq!(find_workspace_root("/w/crates/game", &ancestors).unwrap(), "/w");
    let none = vec![
        ("/a".to_string(), Some("workspace = \"x\"\n".to_string())),
        ("/".to_string(), None),
    ];
    match find_workspace_root("/a", &none) {
        Err(Error::Other(m)) => assert_eq!(m, "no [workspace] Cargo.toml above /a"),
        other => panic!("unexpected {other:?}"),
    }
}

#[test]
fn installer_takes_only_expected_events() {
    let (mut inst, _) = Installer::new(pins(), "/r".into());
    assert!(inst.takes(&InstallEvent::MarkerChecked(false)));
    assert!(!inst.takes(&InstallEvent::Completed));
    inst.advance(InstallEvent::MarkerChecked(true));
    assert!(!inst.takes(&InstallEvent::Completed));
}

#[test]
fn kebab_to_camel_is_idempotent() {
    for s in ["hello-world", "a--b_c", "x-\u{df}ig", "-\u{e9}t\u{e9}", "solo", ""] {
        let once = kebab_to_camel(s);
        assert!(!once.contains('-') && !once.contains('_'));
        assert_eq!(kebab_to_camel(&once), once);
    }
}

fn builder() -> (Builder, BuildAction) {
    Builder::new("hello-world", "/w/android", "/w", "/c/ah", "/c/gh", "/c/ah/ndk/27.2")
}

#[test]
fn build_runs_cargo_then_gradle_then_checks_apk() {
    let (mut b, a) = builder();
    match a {
        BuildAction::CreateDir { path } => assert_eq!(path, "/w/android/app/src/helloWorld/jniLibs"),
        other => panic!("unexpected {other:?}"),
    }
    match b.advance(BuildEvent::Completed) {
        BuildAction::Run { note, program, args, env, dir } => {
            assert_eq!(note, "cargo-agdk: cargo ndk -t arm64-v8a build --release -p hello-world");
            assert_eq!(program, "cargo");
            assert_eq!(args[4], "/w/android/app/src/helloWorld/jniLibs");
            assert_eq!(env[0], ("ANDROID_NDK_HOME".to_string(), "/c/ah/ndk/27.2".to_string()));
            assert_eq!(dir, "/w");
        }
        other => panic!("unexpected {other:?}"),
    }
    match b.advance(BuildEvent::Exited { success: true, code: Some(0) }) {
        BuildAction::Run { note, program, args, dir, .. } => {
            assert_eq!(note, "cargo-agdk: ./gradlew --offline --no-daemon assembleHelloWorldDebug");
            assert_eq!(program, "/w/android/gradlew");
            assert_eq!(args, vec!["--offline", "--no-daemon", "assembleHelloWorldDebug"]);
            assert_eq!(dir, "/w/android");
        }
        other => panic!("unexpected {other:?}"),
    }
    match b.advance(BuildEvent::Exited { success: true, code: Some(0) }) {
        BuildAction::CheckExists { path } => assert_eq!(
            path,
            "/w/android/app/build/outputs/apk/helloWorld/debug/app-helloWorld-debug.apk"
        ),
        other => panic!("unexpected {other:?}"),
    }
    match b.advance(BuildEvent::Exists(true)) {
        BuildAction::Finish { note } => assert_eq!(
            note,
            "cargo-agdk: OK \u{2014} APK at /w/android/app/build/outputs/apk/helloWorld/debug/app-helloWorld-debug.apk"
        ),
        other => panic!("unexpected {other:?}"),
    }
    assert_eq!(b.step(), BuildStep::Done);
    assert!(!b.takes(&BuildEvent::Completed));
}

#[test]
fn build_stops_at_first_failure() {
    let (mut b, _) = builder();
    b.advance(BuildEvent::Completed);
    assert!(matches!(
        b.advance(BuildEvent::Exited { success: false, code: None }),
        BuildAction::Fail(Error::CargoNdkFailed(-1))
    ));
    assert_eq!(b.step(), BuildStep::Failed);

    let (mut b, _) = builder();
    b.advance(BuildEvent::Completed);
    b.advance(BuildEvent::Exited { success: true, code: Some(0) });
    assert!(matches!(
        b.advance(BuildEvent::Exited { success: false, code: Some(2) }),
        BuildAction::Fail(Error::GradleFailed(2))
    ));

    let (mut b, _) = builder();
    b.advance(BuildEvent::Completed);
    b.advance(BuildEvent::Exited { success: true, code: Some(0) });
    b.advance(BuildEvent::Exited { success: true, code: Some(0) });
    assert!(matches!(b.advance(BuildEvent::Exists(false)), BuildAction::Fail(Error::ApkNotFound(_))));

    let (mut b, _) = builder();
    assert!(b.takes(&BuildEvent::IoFailed("denied".into())));
    assert!(matches!(
        b.advance(BuildEvent::IoFailed("denied".into())),
        BuildAction::Fail(Error::Io(ref m)) if m == "denied"
    ));
}
