use cargo_agdk::error::Error;
use cargo_agdk::pins::{
    agp_file, agp_from_catalog, gradle_file, ndk_file, ndk_from_text, parse_gradle_distribution_url,
    read, Pins,
};

#[test]
fn ndk_major_extracts_major() {
    let p = Pins {
        agp: "8.4.0".into(),
        ndk: "27.2.12479018".into(),
        gradle: "8.6".into(),
    };
    assert_eq!(p.ndk_major(), "27");
}

#[test]
fn ndk_major_falls_back_when_no_dot() {
    let p = Pins {
        agp: "8.4.0".into(),
        ndk: "27".into(),
        gradle: "8.6".into(),
    };
    assert_eq!(p.ndk_major(), "27");
}

#[test]
fn parses_gradle_url() {
    let txt = "distributionUrl=https\\://services.gradle.org/distributions/gradle-8.6-bin.zip\n";
    assert_eq!(parse_gradle_distribution_url(txt), Some("8.6".into()));
}

#[test]
fn rejects_url_without_gradle_dash() {
    assert_eq!(parse_gradle_distribution_url("foo=bar\n"), None);
}

#[test]
fn gradle_url_found_on_a_later_indented_crlf_line() {
    let txt = "distributionBase=GRADLE_USER_HOME\r\n  distributionUrl=https\\://x/gradle-8.7-all-bin.zip\r\nzipStorePath=x\r\n";
    assert_eq!(parse_gradle_distribution_url(txt), Some("8.7-all".into()));
}

#[test]
fn gradle_url_first_matching_line_wins() {
    let txt = "distributionUrl=a/gradle-1-bin\ndistributionUrl=a/gradle-2-bin";
    assert_eq!(parse_gradle_distribution_url(txt), Some("1".into()));
}

#[test]
fn gradle_url_without_bin_suffix_is_skipped() {
    let txt = "distributionUrl=a/gradle-9.zip\ndistributionUrl=b/gradle-8.1-bin.zip";
    assert_eq!(parse_gradle_distribution_url(txt), Some("8.1".into()));
}

#[test]
fn gradle_url_on_last_line_without_newline() {
    assert_eq!(
        parse_gradle_distribution_url("x=y\ndistributionUrl=gradle-7.0-bin"),
        Some("7.0".into())
    );
    assert_eq!(parse_gradle_distribution_url(""), None);
}

#[test]
fn pin_file_paths_follow_agp_conventions() {
    assert_eq!(agp_file("/w/android"), "/w/android/gradle/libs.versions.toml");
    assert_eq!(ndk_file("/w/android/"), "/w/android/ndk.version");
    assert_eq!(
        gradle_file("android"),
        "android/gradle/wrapper/gradle-wrapper.properties"
    );
}

#[test]
fn agp_read_from_version_catalog() {
    let text = "[versions]\nagp = \"8.4.0\"\nkotlin = \"1.9\"\n";
    assert_eq!(agp_from_catalog("f", text).unwrap(), "8.4.0");
}

#[test]
fn agp_missing_key_is_a_parse_error() {
    match agp_from_catalog("cat.toml", "[versions]\nkotlin = \"1.9\"\n") {
        Err(Error::Parse { file, reason }) => {
            assert_eq!(file, "cat.toml");
            assert_eq!(reason, "no `agp = \"…\"` key under [versions]");
        }
        other => panic!("unexpected {other:?}"),
    }
    match agp_from_catalog("cat.toml", "[versions]\nagp = 8\n") {
        Err(Error::Parse { reason, .. }) => {
            assert_eq!(reason, "no `agp = \"…\"` key under [versions]")
        }
        other => panic!("unexpected {other:?}"),
    }
}

#[test]
fn agp_invalid_toml_reports_the_parser_message() {
    match agp_from_catalog("cat.toml", "[versions\nagp = ") {
        Err(Error::Parse { file, reason }) => {
            assert_eq!(file, "cat.toml");
            assert!(!reason.is_empty());
            assert_ne!(reason, "no `agp = \"…\"` key under [versions]");
        }
        other => panic!("unexpected {other:?}"),
    }
}

#[test]
fn ndk_version_is_trimmed() {
    assert_eq!(ndk_from_text("  27.2.12479018\n"), "27.2.12479018");
    assert_eq!(ndk_from_text("\u{a0}26\t"), "26");
}

#[test]
fn read_assembles_the_three_pins() {
    let pins = read(
        "/p",
        Ok("[versions]\nagp = \"8.4.0\"\n".into()),
        Ok("27.2.12479018\n".into()),
        Ok("distributionUrl=https\\://services.gradle.org/distributions/gradle-8.6-bin.zip\n".into()),
    )
    .unwrap();
    assert_eq!(
        pins,
        Pins {
            agp: "8.4.0".into(),
            ndk: "27.2.12479018".into(),
            gradle: "8.6".into()
        }
    );
}

#[test]
fn read_reports_the_first_failure() {
    match read("/p", Err("no agp".into()), Err("no ndk".into()), Ok(String::new())) {
        Err(Error::Io(m)) => assert_eq!(m, "no agp"),
        other => panic!("unexpected {other:?}"),
    }
    match read(
        "/p",
        Ok("[versions]\n".into()),
        Err("no ndk".into()),
        Ok(String::new()),
    ) {
        Err(Error::Parse { file, .. }) => assert_eq!(file, "/p/gradle/libs.versions.toml"),
        other => panic!("unexpected {other:?}"),
    }
    match read(
        "/p",
        Ok("[versions]\nagp = \"8\"\n".into()),
        Err("no ndk".into()),
        Err("no gradle".into()),
    ) {
        Err(Error::Io(m)) => assert_eq!(m, "no ndk"),
        other => panic!("unexpected {other:?}"),
    }
    match read(
        "/p",
        Ok("[versions]\nagp = \"8\"\n".into()),
        Ok("27".into()),
        Ok("foo=bar\n".into()),
    ) {
        Err(Error::Parse { file, reason }) => {
            assert_eq!(file, "/p/gradle/wrapper/gradle-wrapper.properties");
            assert_eq!(reason, "no `distributionUrl=…gradle-X-bin.zip` line found");
        }
        other => panic!("unexpected {other:?}"),
    }
}
