use cargo_agdk::config::{default_android_project, default_lockfile, Config};
use cargo_agdk::error::Error;
use cargo_agdk::target::{lookup, Target};

fn fixture() -> Target {
    Target {
        name: "main".into(),
        package: "my-game".into(),
        flavor: "myGame".into(),
        cdylib: "my_game_lib".into(),
    }
}

#[test]
fn flavor_capitalization() {
    assert_eq!(fixture().flavor_capitalized(), "MyGame");
}

#[test]
fn flavor_capitalization_is_ascii_only() {
    let mut t = fixture();
    t.flavor = String::new();
    assert_eq!(t.flavor_capitalized(), "");
    t.flavor = "ßeta".into();
    assert_eq!(t.flavor_capitalized(), "ßeta");
}

#[test]
fn lookup_finds_by_name() {
    let cfg = Config {
        release_host: "acme/x".into(),
        lockfile: Default::default(),
        android_project: Default::default(),
        agp_file: Default::default(),
        ndk_file: Default::default(),
        gradle_file: Default::default(),
        targets: vec![fixture()],
        workspace_root: Default::default(),
    };
    assert_eq!(lookup(&cfg, "main").unwrap().package, "my-game");
    assert!(matches!(
        lookup(&cfg, "missing"),
        Err(Error::UnknownTarget(_))
    ));
}

#[test]
fn config_paths_resolve_against_workspace_root() {
    let cfg = Config {
        release_host: "acme/x".into(),
        lockfile: default_lockfile(),
        android_project: default_android_project(),
        agp_file: String::new(),
        ndk_file: String::new(),
        gradle_file: String::new(),
        targets: vec![],
        workspace_root: "/ws".into(),
    };
    assert_eq!(cfg.abs(&cfg.lockfile), "/ws/android/toolchain.lock");
    assert_eq!(cfg.abs("/abs/x"), "/abs/x");
    assert_eq!(cfg.android_project, "android");
}
