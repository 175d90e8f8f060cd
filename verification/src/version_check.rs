//! Reading each pinned version out of the pin files a [`Config`] names,
//! and comparing what the repository pins with what a bundle was built
//! for. The parsing rules are those of [`crate::pins`]: the AGP version
//! is `[versions] agp` in TOML, the NDK version the whole file trimmed,
//! the Gradle version the one in the `distributionUrl=` line.
use vstd::prelude::*;

use crate::config::Config;
use crate::error::{Error, ErrorV, PinKind};
use crate::lock::{Lock, LockV};
use crate::pins::{
    agp_from_catalog, agp_from_lookup, gradle_from_properties, gradle_from_text,
    gradle_version_in, ndk_from_text, opt_string, parse_gradle_distribution_url,
};
use crate::document::toml_entry;
use crate::text::{path_join, same_text, trim};

verus! {

broadcast use vstd::string::group_string_axioms;

/// The AGP version read from the catalog `file`, given what reading it
/// produced (its text, or the I/O error's message).
pub open spec fn agp_read(file: Seq<char>, text: Result<String, String>) -> Result<Seq<char>, ErrorV> {
    match text {
        Err(m) => Err(ErrorV::Io(m@)),
        Ok(t) => agp_from_lookup(file, toml_entry(t@, "versions"@, Some("agp"@))),
    }
}

/// The NDK version read from its pin file.
pub open spec fn ndk_read(text: Result<String, String>) -> Result<Seq<char>, ErrorV> {
    match text {
        Err(m) => Err(ErrorV::Io(m@)),
        Ok(t) => Ok(trim(t@)),
    }
}

/// The Gradle version read from the wrapper properties `file`.
pub open spec fn gradle_read(file: Seq<char>, text: Result<String, String>) -> Result<Seq<char>, ErrorV> {
    match text {
        Err(m) => Err(ErrorV::Io(m@)),
        Ok(t) => gradle_from_text(file, t@),
    }
}

/// The AGP version in the pin file `config.agp_file`, given what reading
/// it produced (its text, or the I/O error's message).
pub fn read_agp_version(config: &Config, text: Result<String, String>) -> (r: Result<String, Error>)
    ensures
        crate::error::string_result(r) == agp_read(
            path_join(config.workspace_root@, config.agp_file@),
            text,
        ),
{
    match text {
        Err(m) => Err(Error::Io(m)),
        Ok(t) => {
            let path = config.abs(config.agp_file.as_str());
            agp_from_catalog(path.as_str(), t.as_str())
        },
    }
}

/// The NDK version in the pin file `config.ndk_file`.
pub fn read_ndk_version(text: Result<String, String>) -> (r: Result<String, Error>)
    ensures
        crate::error::string_result(r) == ndk_read(text),
{
    match text {
        Err(m) => Err(Error::Io(m)),
        Ok(t) => Ok(ndk_from_text(t.as_str())),
    }
}

/// The Gradle version in the pin file `config.gradle_file`.
pub fn read_gradle_version(config: &Config, text: Result<String, String>) -> (r: Result<
    String,
    Error,
>)
    ensures
        crate::error::string_result(r) == gradle_read(
            path_join(config.workspace_root@, config.gradle_file@),
            text,
        ),
{
    match text {
        Err(m) => Err(Error::Io(m)),
        Ok(t) => {
            let path = config.abs(config.gradle_file.as_str());
            gradle_from_properties(path.as_str(), t.as_str())
        },
    }
}

/// The Gradle version in a `gradle-wrapper.properties` text.
pub fn parse_gradle_version(text: &str) -> (r: Option<String>)
    ensures
        opt_string(r) == gradle_version_in(text@),
{
    parse_gradle_distribution_url(text)
}

/// The verdict on one pin: the error reading it, or whether the version
/// read agrees with the one pinned.
pub open spec fn pin_verdict(
    kind: PinKind,
    file: Seq<char>,
    read: Result<Seq<char>, ErrorV>,
    pinned: Seq<char>,
) -> Result<(), ErrorV> {
    match read {
        Err(e) => Err(e),
        Ok(v) => if v == pinned {
            Ok(())
        } else {
            Err(ErrorV::PinMismatch { kind, file, in_repo: v, pinned })
        },
    }
}

/// The verdict on the repository's pins against a lock: the AGP pin is
/// read and compared first, then the NDK pin, then the Gradle pin; the
/// first failure is the verdict.
pub open spec fn pins_verdict(
    root: Seq<char>,
    agp_file: Seq<char>,
    ndk_file: Seq<char>,
    gradle_file: Seq<char>,
    lock: LockV,
    agp_text: Result<String, String>,
    ndk_text: Result<String, String>,
    gradle_text: Result<String, String>,
) -> Result<(), ErrorV> {
    let agp = pin_verdict(
        PinKind::Agp,
        path_join(root, agp_file),
        agp_read(path_join(root, agp_file), agp_text),
        lock.agp_version,
    );
    let ndk = pin_verdict(PinKind::Ndk, path_join(root, ndk_file), ndk_read(ndk_text), lock.ndk_version);
    let gradle = pin_verdict(
        PinKind::Gradle,
        path_join(root, gradle_file),
        gradle_read(path_join(root, gradle_file), gradle_text),
        lock.gradle_version,
    );
    if agp is Err {
        agp
    } else if ndk is Err {
        ndk
    } else {
        gradle
    }
}

/// Fails fast when the repository's pinned AGP / NDK / Gradle differs
/// from the lock's pin snapshot, given what reading each of the three pin
/// files that `config` names produced.
pub fn assert_pinned(
    config: &Config,
    lock: &Lock,
    agp_text: Result<String, String>,
    ndk_text: Result<String, String>,
    gradle_text: Result<String, String>,
) -> (r: Result<(), Error>)
    ensures
        crate::error::unit_result(r) == pins_verdict(
            config.workspace_root@,
            config.agp_file@,
            config.ndk_file@,
            config.gradle_file@,
            lock@,
            agp_text,
            ndk_text,
            gradle_text,
        ),
{
    let agp = match read_agp_version(config, agp_text) {
        Ok(v) => v,
        Err(e) => return Err(e),
    };
    let agp_path = config.abs(config.agp_file.as_str());
    match check_pin(PinKind::Agp, agp_path.as_str(), agp, lock.agp_version.as_str()) {
        Ok(()) => {},
        Err(e) => return Err(e),
    }
    let ndk = match read_ndk_version(ndk_text) {
        Ok(v) => v,
        Err(e) => return Err(e),
    };
    let ndk_path = config.abs(config.ndk_file.as_str());
    match check_pin(PinKind::Ndk, ndk_path.as_str(), ndk, lock.ndk_version.as_str()) {
        Ok(()) => {},
        Err(e) => return Err(e),
    }
    let gradle = match read_gradle_version(config, gradle_text) {
        Ok(v) => v,
        Err(e) => return Err(e),
    };
    let gradle_path = config.abs(config.gradle_file.as_str());
    check_pin(PinKind::Gradle, gradle_path.as_str(), gradle, lock.gradle_version.as_str())
}

/// Agreement of the version the repository pins (`in_repo`, read from
/// `file`) with the version a bundle was built for (`pinned`).
pub fn check_pin(kind: PinKind, file: &str, in_repo: String, pinned: &str) -> (r: Result<(), Error>)
    ensures
        crate::error::unit_result(r) == (if in_repo@ == pinned@ {
            Ok(())
        } else {
            Err(ErrorV::PinMismatch { kind, file: file@, in_repo: in_repo@, pinned: pinned@ })
        }),
{
    if same_text(in_repo.as_str(), pinned) {
        return Ok(());
    }
    Err(Error::PinMismatch { kind, file: file.to_owned(), in_repo, pinned: pinned.to_owned() })
}

} // verus!
