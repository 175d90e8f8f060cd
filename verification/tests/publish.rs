use cargo_agdk::error::Error;
use cargo_agdk::manifest::AssetKind;
use cargo_agdk::pins::Pins;
use cargo_agdk::publish::{PublishAction, PublishEvent, PublishOp, PublishOptions, PublishStep, Publisher};

fn opts(project: Option<&str>, skip_upload: bool) -> PublishOptions {
    PublishOptions {
        pins: Pins {
            agp: "8.4.0".into(),
            ndk: "27.2.12479018".into(),
            gradle: "8.6".into(),
        },
        output: "./toolchain-out".into(),
        project: project.map(|p| p.to_string()),
        skip_upload,
    }
}

fn exited(success: bool, code: i32) -> PublishEvent {
    PublishEvent::Exited { success, code: Some(code) }
}

fn run_args(a: &PublishAction) -> (String, Vec<String>) {
    match &a.op {
        PublishOp::Run { program, args, .. } => (program.clone(), args.clone()),
        other => panic!("expected a run, got {other:?}"),
    }
}

fn fail_message(a: &PublishAction) -> String {
    match &a.op {
        PublishOp::Fail(Error::Other(m)) => m.clone(),
        other => panic!("expected a failure, got {other:?}"),
    }
}

/// Drives the publisher from its start up to the point where the Gradle
/// launcher is looked for, with every tool present.
fn through_setup(p: &mut Publisher, first: PublishAction) -> PublishAction {
    assert_eq!(run_args(&first), ("gh".to_string(), vec!["--version".to_string()]));
    let a = p.advance(exited(true, 0));
    assert_eq!(run_args(&a).0, "tar");
    let a = p.advance(exited(true, 0));
    assert_eq!(run_args(&a).0, "sha256sum");
    let a = p.advance(exited(true, 0));
    assert_eq!(run_args(&a), ("gh".to_string(), vec!["auth".to_string(), "status".to_string()]));
    let a = p.advance(exited(true, 0));
    assert!(matches!(&a.op, PublishOp::ReadEnv { name } if name == "ANDROID_HOME"));
    let a = p.advance(PublishEvent::Env(Some("/sdk".into())));
    assert!(matches!(&a.op, PublishOp::CheckExists { path } if path == "/sdk/ndk/27.2.12479018"));
    let a = p.advance(PublishEvent::Exists(true));
    assert!(matches!(&a.op, PublishOp::CreateDir { path } if path == "./toolchain-out"));
    let a = p.advance(PublishEvent::Completed);
    assert!(matches!(&a.op, PublishOp::Resolve { path } if path == "./toolchain-out"));
    let a = p.advance(PublishEvent::Resolved("/out".into()));
    assert!(matches!(&a.op, PublishOp::CheckExists { path } if path == "/out/staging-project"));
    let a = p.advance(PublishEvent::Exists(true));
    assert!(matches!(&a.op, PublishOp::RemoveDir { path } if path == "/out/staging-project"));
    let a = p.advance(PublishEvent::Completed);
    assert!(matches!(&a.op, PublishOp::CheckExists { path } if path == "/out/gradle-user-home"));
    let a = p.advance(PublishEvent::Exists(false));
    assert!(matches!(&a.op, PublishOp::CreateDir { path } if path == "/out/gradle-user-home"));
    p.advance(PublishEvent::Completed)
}

/// From the tarball of the NDK to the report of the assets.
fn through_packing(p: &mut Publisher, a: PublishAction) -> PublishAction {
    let (prog, args) = run_args(&a);
    assert_eq!(prog, "tar");
    assert_eq!(
        args,
        vec!["--zstd", "-cf", "/out/ndk-linux-x86_64.tar.zst", "-C", "/sdk", "ndk/27.2.12479018"]
    );
    assert_eq!(a.notes, vec!["publish: packing NDK -> /out/ndk-linux-x86_64.tar.zst"]);
    let a = p.advance(exited(true, 0));
    assert!(matches!(&a.op, PublishOp::CheckExists { path } if path == "/sdk/cmdline-tools"));
    let a = p.advance(PublishEvent::Exists(false));
    let a2 = p.advance(PublishEvent::Exists(true));
    let a3 = p.advance(PublishEvent::Exists(true));
    let a4 = p.advance(PublishEvent::Exists(false));
    drop((a, a2, a3));
    let (_, args) = run_args(&a4);
    assert_eq!(
        args,
        vec![
            "--zstd",
            "-cf",
            "/out/sdk-pieces-linux-x86_64.tar.zst",
            "-C",
            "/sdk",
            "platform-tools",
            "build-tools"
        ]
    );
    let a = p.advance(exited(true, 0));
    assert!(matches!(&a.op, PublishOp::CheckExists { path } if path == "/out/gradle-user-home/caches"));
    let _ = p.advance(PublishEvent::Exists(true));
    let a = p.advance(PublishEvent::Exists(true));
    let (_, args) = run_args(&a);
    assert_eq!(
        args,
        vec!["--zstd", "-cf", "/out/gradle-cache.tar.zst", "-C", "/out/gradle-user-home", "caches", "wrapper"]
    );
    let a = p.advance(exited(true, 0));
    assert!(matches!(&a.op, PublishOp::Hash { path } if path == "/out/ndk-linux-x86_64.tar.zst"));
    let _ = p.advance(PublishEvent::Hashed("aa".into()));
    let _ = p.advance(PublishEvent::Hashed("bb".into()));
    let a = p.advance(PublishEvent::Hashed("cc".into()));
    match &a.op {
        PublishOp::WriteManifest { path, manifest } => {
            assert_eq!(path, "/out/manifest.toml");
            assert_eq!(manifest.agp_version, "8.4.0");
            assert_eq!(manifest.ndk_version, "27.2.12479018");
            assert_eq!(manifest.gradle_version, "8.6");
            assert_eq!(manifest.sha256_for(AssetKind::Ndk), "aa");
            assert_eq!(manifest.sha256_for(AssetKind::Sdk), "bb");
            assert_eq!(manifest.sha256_for(AssetKind::GradleCache), "cc");
        }
        other => panic!("expected the manifest, got {other:?}"),
    }
    let a = p.advance(PublishEvent::Completed);
    match &a.op {
        PublishOp::ReportAssets { entries } => {
            assert_eq!(entries.len(), 3);
            assert_eq!(entries[1].0, AssetKind::Sdk);
            assert_eq!(entries[1].1, "bb");
            assert_eq!(entries[1].2, "/out/sdk-pieces-linux-x86_64.tar.zst");
        }
        other => panic!("expected the report, got {other:?}"),
    }
    a
}

#[test]
fn publish_with_stock_sample_and_skip_upload() {
    let (mut p, first) = Publisher::new(opts(None, true));
    assert_eq!(p.step(), PublishStep::ProbeTool(0));
    let a = through_setup(&mut p, first);
    assert_eq!(a.notes, vec!["publish: priming via vendored stock sample at /out/staging-project"]);
    assert!(matches!(&a.op, PublishOp::CreateDir { path } if path == "/out/staging-project"));
    let a = p.advance(PublishEvent::Completed);
    assert!(matches!(&a.op, PublishOp::ExtractSample { dest } if dest == "/out/staging-project"));
    let a = p.advance(PublishEvent::Completed);
    assert!(matches!(&a.op, PublishOp::ReadFile { path } if path == "/out/staging-project/gradle/libs.versions.toml"));
    let a = p.advance(PublishEvent::Read("[versions]\nagp = \"__AGP_VERSION__\"\nx = \"__AGP_VERSION__\"\n".into()));
    match &a.op {
        PublishOp::WriteFile { path, contents } => {
            assert_eq!(path, "/out/staging-project/gradle/libs.versions.toml");
            assert_eq!(contents, "[versions]\nagp = \"8.4.0\"\nx = \"8.4.0\"\n");
        }
        other => panic!("expected a write, got {other:?}"),
    }
    let a = p.advance(PublishEvent::Completed);
    assert!(matches!(&a.op, PublishOp::WriteFile { path, contents }
        if path == "/out/staging-project/ndk.version" && contents == "27.2.12479018"));
    let a = p.advance(PublishEvent::Completed);
    assert!(matches!(&a.op, PublishOp::CheckExists { path } if path == "/out/gradle-8.6/bin/gradle"));
    let a = p.advance(PublishEvent::Exists(false));
    assert_eq!(a.notes, vec!["publish: downloading https://services.gradle.org/distributions/gradle-8.6-bin.zip"]);
    assert!(matches!(&a.op, PublishOp::Download { url, dest }
        if url == "https://services.gradle.org/distributions/gradle-8.6-bin.zip"
            && dest == "/out/gradle-8.6-bin.zip"));
    let a = p.advance(PublishEvent::Completed);
    assert!(matches!(&a.op, PublishOp::Unzip { archive, into } if archive == "/out/gradle-8.6-bin.zip" && into == "/out"));
    let a = p.advance(PublishEvent::Completed);
    assert!(matches!(&a.op, PublishOp::RemoveFileQuietly { path } if path == "/out/gradle-8.6-bin.zip"));
    let _ = p.advance(PublishEvent::Completed);
    let a = p.advance(PublishEvent::Exists(true));
    assert!(matches!(&a.op, PublishOp::MakeExecutable { path } if path == "/out/gradle-8.6/bin/gradle"));
    let a = p.advance(PublishEvent::Completed);
    assert_eq!(a.notes, vec!["publish: /out/gradle-8.6/bin/gradle wrapper --gradle-version=8.6"]);
    match &a.op {
        PublishOp::Run { program, args, dir, .. } => {
            assert_eq!(program, "/out/gradle-8.6/bin/gradle");
            assert_eq!(args, &vec!["wrapper", "--gradle-version", "8.6", "--distribution-type", "bin"]);
            assert_eq!(dir.as_deref(), Some("/out/staging-project"));
        }
        other => panic!("expected a run, got {other:?}"),
    }
    let a = p.advance(exited(true, 0));
    match &a.op {
        PublishOp::Run { program, args, env, .. } => {
            assert_eq!(program, "/out/staging-project/gradlew");
            assert_eq!(args, &vec!["--no-daemon", "assembleDebug"]);
            assert_eq!(env[2], ("ANDROID_NDK_HOME".to_string(), "/sdk/ndk/27.2.12479018".to_string()));
            assert_eq!(env[3], ("GRADLE_USER_HOME".to_string(), "/out/gradle-user-home".to_string()));
        }
        other => panic!("expected a run, got {other:?}"),
    }
    let a = p.advance(exited(true, 0));
    let _ = through_packing(&mut p, a);
    let a = p.advance(PublishEvent::Completed);
    assert_eq!(a.notes, vec!["publish: --skip-upload set; stopping before gh release."]);
    assert!(matches!(a.op, PublishOp::Finish));
    assert_eq!(p.step(), PublishStep::Done);
}

#[test]
fn publish_with_own_project_uploads_and_recreates_release() {
    let (mut p, first) = Publisher::new(opts(Some("/games/android"), false));
    let a = through_setup(&mut p, first);
    assert_eq!(a.notes, vec!["publish: priming via consumer-supplied project at /games/android"]);
    assert!(matches!(&a.op, PublishOp::CheckExists { path } if path == "/out/gradle-8.6/bin/gradle"));
    let a = p.advance(PublishEvent::Exists(true));
    assert_eq!(
        a.notes,
        vec![
            "publish: reusing gradle dist at /out/gradle-8.6",
            "publish: /out/gradle-8.6/bin/gradle wrapper --gradle-version=8.6"
        ]
    );
    let a = p.advance(exited(true, 0));
    assert_eq!(run_args(&a).0, "/games/android/gradlew");
    let a = p.advance(exited(true, 0));
    let _ = through_packing(&mut p, a);
    let a = p.advance(PublishEvent::Completed);
    let tag = "android-toolchain-agp8.4.0-ndk27-gradle8.6";
    assert_eq!(
        run_args(&a),
        (
            "gh".to_string(),
            vec!["release", "view", tag, "--repo", "noahkagan/cargo-agdk", "--json", "isDraft"]
                .into_iter()
                .map(String::from)
                .collect()
        )
    );
    let a = p.advance(exited(true, 0));
    assert_eq!(
        run_args(&a).1,
        vec!["release", "delete", tag, "--repo", "noahkagan/cargo-agdk", "--yes", "--cleanup-tag"]
    );
    let a = p.advance(exited(false, 1));
    assert_eq!(a.notes, vec![format!("publish: gh release create {tag} on noahkagan/cargo-agdk")]);
    assert_eq!(
        run_args(&a).1,
        vec![
            "release",
            "create",
            tag,
            "--repo",
            "noahkagan/cargo-agdk",
            "--title",
            tag,
            "--notes",
            "Toolchain bundle for AGP 8.4.0, NDK 27.2.12479018, Gradle 8.6. Generated by `cargo agdk publish`.",
            "/out/ndk-linux-x86_64.tar.zst",
            "/out/sdk-pieces-linux-x86_64.tar.zst",
            "/out/gradle-cache.tar.zst",
            "/out/manifest.toml"
        ]
    );
    let a = p.advance(exited(true, 0));
    assert_eq!(a.notes, vec![format!("publish: https://github.com/noahkagan/cargo-agdk/releases/tag/{tag}")]);
    assert!(matches!(a.op, PublishOp::Finish));
}

#[test]
fn publish_reports_missing_tools() {
    let (mut p, _) = Publisher::new(opts(None, true));
    let _ = p.advance(exited(false, 127));
    let _ = p.advance(exited(true, 0));
    let a = p.advance(PublishEvent::IoFailed("not found".into()));
    assert_eq!(fail_message(&a), "publish requires tools on PATH: gh, sha256sum");
    assert_eq!(p.step(), PublishStep::Failed);
    let a = p.advance(PublishEvent::Completed);
    assert!(matches!(a.op, PublishOp::Finish));
}

#[test]
fn publish_refuses_unauthenticated_gh() {
    let (mut p, _) = Publisher::new(opts(None, true));
    for _ in 0..3 {
        let _ = p.advance(exited(true, 0));
    }
    let a = p.advance(exited(false, 1));
    assert_eq!(fail_message(&a), "gh is not authenticated; run `gh auth login`");
}

#[test]
fn publish_needs_android_home_and_ndk() {
    let (mut p, _) = Publisher::new(opts(None, true));
    for _ in 0..4 {
        let _ = p.advance(exited(true, 0));
    }
    let a = p.advance(PublishEvent::Env(None));
    assert_eq!(fail_message(&a), "ANDROID_HOME not set");

    let (mut p, _) = Publisher::new(opts(None, true));
    for _ in 0..4 {
        let _ = p.advance(exited(true, 0));
    }
    let _ = p.advance(PublishEvent::Env(Some("/sdk".into())));
    let a = p.advance(PublishEvent::Exists(false));
    assert_eq!(fail_message(&a), "NDK 27.2.12479018 not present under /sdk \u{2014} install it first");
}

#[test]
fn publish_reports_failed_gradle_wrapper_and_gradlew() {
    let (mut p, first) = Publisher::new(opts(Some("/proj"), true));
    let _ = through_setup(&mut p, first);
    let _ = p.advance(PublishEvent::Exists(true));
    let a = p.advance(PublishEvent::Exited { success: false, code: None });
    assert_eq!(fail_message(&a), "bootstrap `gradle wrapper` failed with status -1");

    let (mut p, first) = Publisher::new(opts(Some("/proj"), true));
    let _ = through_setup(&mut p, first);
    let _ = p.advance(PublishEvent::Exists(true));
    let _ = p.advance(exited(true, 0));
    let a = p.advance(exited(false, 3));
    assert!(matches!(a.op, PublishOp::Fail(Error::GradleFailed(3))));
}

#[test]
fn publish_reports_download_and_unzip_failures() {
    let (mut p, first) = Publisher::new(opts(Some("/proj"), true));
    let _ = through_setup(&mut p, first);
    let _ = p.advance(PublishEvent::Exists(false));
    let a = p.advance(PublishEvent::FetchFailed("404".into()));
    match a.op {
        PublishOp::Fail(Error::Network { url, source }) => {
            assert_eq!(url, "https://services.gradle.org/distributions/gradle-8.6-bin.zip");
            assert_eq!(source, "404");
        }
        other => panic!("expected a network error, got {other:?}"),
    }

    let (mut p, first) = Publisher::new(opts(Some("/proj"), true));
    let _ = through_setup(&mut p, first);
    let _ = p.advance(PublishEvent::Exists(false));
    let _ = p.advance(PublishEvent::Completed);
    let a = p.advance(PublishEvent::ArchiveFailed { opening: true, message: "bad zip".into() });
    assert_eq!(fail_message(&a), "opening gradle zip: bad zip");

    let (mut p, first) = Publisher::new(opts(Some("/proj"), true));
    let _ = through_setup(&mut p, first);
    let _ = p.advance(PublishEvent::Exists(false));
    let _ = p.advance(PublishEvent::Completed);
    let _ = p.advance(PublishEvent::Completed);
    let _ = p.advance(PublishEvent::Completed);
    let a = p.advance(PublishEvent::Exists(false));
    assert_eq!(fail_message(&a), "extracted gradle but /out/gradle-8.6/bin/gradle is missing");
}

#[test]
fn publish_refuses_sdk_without_pieces_and_failed_tar() {
    let (mut p, first) = Publisher::new(opts(Some("/proj"), true));
    let _ = through_setup(&mut p, first);
    let _ = p.advance(PublishEvent::Exists(true));
    let _ = p.advance(exited(true, 0));
    let _ = p.advance(exited(true, 0));
    let a = p.advance(exited(false, 2));
    assert_eq!(fail_message(&a), "tar failed (status 2) producing /out/ndk-linux-x86_64.tar.zst");

    let (mut p, first) = Publisher::new(opts(Some("/proj"), true));
    let _ = through_setup(&mut p, first);
    let _ = p.advance(PublishEvent::Exists(true));
    let _ = p.advance(exited(true, 0));
    let _ = p.advance(exited(true, 0));
    let _ = p.advance(exited(true, 0));
    for _ in 0..3 {
        let _ = p.advance(PublishEvent::Exists(false));
    }
    let a = p.advance(PublishEvent::Exists(false));
    assert_eq!(
        fail_message(&a),
        "no SDK subdirs under $ANDROID_HOME (cmdline-tools / build-tools / platforms / platform-tools)"
    );
}

#[test]
fn publish_reports_io_failure() {
    let (mut p, first) = Publisher::new(opts(None, true));
    let _ = through_setup(&mut p, first);
    let a = p.advance(PublishEvent::IoFailed("denied".into()));
    assert!(matches!(a.op, PublishOp::Fail(Error::Io(ref m)) if m == "denied"));
}

#[test]
fn publisher_takes_only_expected_events() {
    let (p, _) = Publisher::new(opts(None, true));
    assert!(p.takes(&exited(true, 0)));
    assert!(p.takes(&PublishEvent::IoFailed("x".into())));
    assert!(!p.takes(&PublishEvent::Exists(true)));
}
