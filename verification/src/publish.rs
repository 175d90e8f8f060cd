//! Maintainer publish path. Builds the bundle of an (AGP, NDK, Gradle)
//! tuple: checks the host's tools, primes a Gradle cache by building a
//! project (the vendored stock sample, or one the maintainer names),
//! packs the NDK, SDK pieces and Gradle cache into three zstd tarballs,
//! records their sha256s in a manifest and uploads everything as a
//! release of this tool's repository.
//!
//! [`Publisher`] decides each step; the caller performs the operation it
//! asks for (running a program, touching the file system, downloading)
//! and reports what happened.
use vstd::prelude::*;

use crate::error::{Error, ErrorV};
use crate::manifest::{all_kind, kind_at, AssetKind, Manifest, ManifestV};
use crate::pins::{Pins, PinsV};
use crate::release::{tag, tag_spec, HOST};
use crate::text::{
    assignments, concat, decimal, decimal_of, join_path, join_strings, joined, owned_strings,
    path_join, replace_all, replaced, strings,
};

verus! {

broadcast use vstd::string::group_string_axioms;

/// What the maintainer asked to publish.
pub struct PublishOptions {
    pub pins: Pins,
    /// Output directory for the tarballs and manifest before upload.
    pub output: String,
    /// A Gradle project to prime the cache with, in place of the vendored
    /// stock sample.
    pub project: Option<String>,
    /// Stop before the `gh release` step.
    pub skip_upload: bool,
}

/// Where a publication stands: what it waits to hear about.
#[derive(Debug, Clone, Copy, PartialEq, Eq)]
pub enum PublishStep {
    ProbeTool(usize),
    GhAuth,
    AndroidHome,
    NdkPresent,
    CreateOutput,
    ResolveOutput,
    StagingExists,
    RemoveStaging,
    GradleHomeExists,
    RemoveGradleHome,
    CreateGradleHome,
    CreateStaging,
    ExtractSample,
    ReadCatalog,
    WriteCatalog,
    WriteNdkVersion,
    GradleBinExists,
    DownloadGradle,
    UnzipGradle,
    RemoveZip,
    GradleBinExtracted,
    MakeExecutable,
    GradleWrapper,
    Gradlew,
    TarNdk,
    SdkDirExists(usize),
    TarSdk,
    CacheDirExists(usize),
    TarCache,
    Hash(usize),
    WriteManifest,
    ReportAssets,
    ReleaseExists,
    DeleteRelease,
    CreateRelease,
    Done,
    Failed,
}

/// What the caller reports after performing a [`PublishOp`].
#[derive(Debug)]
pub enum PublishEvent {
    /// The program ran to its end.
    Exited { success: bool, code: Option<i32> },
    /// The environment variable's value, if set.
    Env(Option<String>),
    /// Whether the path exists.
    Exists(bool),
    /// The canonical form of the path.
    Resolved(String),
    /// The text of the file.
    Read(String),
    /// The lower-case hex sha256 of the file.
    Hashed(String),
    /// The operation completed.
    Completed,
    /// A file-system operation failed, or a program could not be started;
    /// the failure's message.
    IoFailed(String),
    /// The HTTP request failed; its message.
    FetchFailed(String),
    /// An archive could not be opened (`opening`) or extracted.
    ArchiveFailed { opening: bool, message: String },
}

/// An operation for the caller to perform.
#[derive(Debug)]
pub enum PublishOp {
    /// Run `program` with `args` (in `dir` when given, with `env` added);
    /// with `quiet`, its output is discarded. Report `Exited`, or
    /// `IoFailed` when it cannot be started.
    Run {
        program: String,
        args: Vec<String>,
        dir: Option<String>,
        env: Vec<(String, String)>,
        quiet: bool,
    },
    /// Report the environment variable `name`.
    ReadEnv { name: String },
    /// Report whether `path` exists.
    CheckExists { path: String },
    /// Create the directory `path` and its parents.
    CreateDir { path: String },
    /// Report the canonical form of `path`.
    Resolve { path: String },
    /// Remove the directory `path` and everything under it.
    RemoveDir { path: String },
    /// Extract the vendored stock sample project into `dest`.
    ExtractSample { dest: String },
    /// Report the text of the file `path`.
    ReadFile { path: String },
    /// Write `contents` to the file `path`.
    WriteFile { path: String, contents: String },
    /// Download `url` into the file `dest`.
    Download { url: String, dest: String },
    /// Extract the zip archive `archive` into the directory `into`.
    Unzip { archive: String, into: String },
    /// Remove the file `path`; report `Completed` whether or not that works.
    RemoveFileQuietly { path: String },
    /// Make the file `path` executable (mode 0755).
    MakeExecutable { path: String },
    /// Report the sha256 of the file `path`.
    Hash { path: String },
    /// Write `manifest` as TOML to the file `path`.
    WriteManifest { path: String, manifest: Manifest },
    /// Show each asset's sha256 and the size of its tarball.
    ReportAssets { entries: Vec<(AssetKind, String, String)> },
    /// The publication is complete.
    Finish,
    /// Stop with this error.
    Fail(Error),
}

/// An operation, with the lines to show the user before performing it.
#[derive(Debug)]
pub struct PublishAction {
    pub notes: Vec<String>,
    pub op: PublishOp,
}

/// The content of a [`PublishOp`].
pub enum OpV {
    Run {
        program: Seq<char>,
        args: Seq<Seq<char>>,
        dir: Option<Seq<char>>,
        env: Seq<(Seq<char>, Seq<char>)>,
        quiet: bool,
    },
    ReadEnv { name: Seq<char> },
    CheckExists { path: Seq<char> },
    CreateDir { path: Seq<char> },
    Resolve { path: Seq<char> },
    RemoveDir { path: Seq<char> },
    ExtractSample { dest: Seq<char> },
    ReadFile { path: Seq<char> },
    WriteFile { path: Seq<char>, contents: Seq<char> },
    Download { url: Seq<char>, dest: Seq<char> },
    Unzip { archive: Seq<char>, into: Seq<char> },
    RemoveFileQuietly { path: Seq<char> },
    MakeExecutable { path: Seq<char> },
    Hash { path: Seq<char> },
    WriteManifest { path: Seq<char>, manifest: ManifestV },
    ReportAssets { entries: Seq<(AssetKind, Seq<char>, Seq<char>)> },
    Finish,
    Fail(ErrorV),
}

/// The content of a [`PublishAction`].
pub struct ActionV {
    pub notes: Seq<Seq<char>>,
    pub op: OpV,
}

pub open spec fn opt_view(o: Option<String>) -> Option<Seq<char>> {
    match o {
        Some(s) => Some(s@),
        None => None,
    }
}

pub open spec fn entries_view(v: Vec<(AssetKind, String, String)>) -> Seq<(AssetKind, Seq<char>, Seq<char>)> {
    v@.map_values(|e: (AssetKind, String, String)| (e.0, e.1@, e.2@))
}

impl View for PublishOp {
    type V = OpV;

    open spec fn view(&self) -> OpV {
        match self {
            PublishOp::Run { program, args, dir, env, quiet } => OpV::Run {
                program: program@,
                args: strings(*args),
                dir: opt_view(*dir),
                env: assignments(*env),
                quiet: *quiet,
            },
            PublishOp::ReadEnv { name } => OpV::ReadEnv { name: name@ },
            PublishOp::CheckExists { path } => OpV::CheckExists { path: path@ },
            PublishOp::CreateDir { path } => OpV::CreateDir { path: path@ },
            PublishOp::Resolve { path } => OpV::Resolve { path: path@ },
            PublishOp::RemoveDir { path } => OpV::RemoveDir { path: path@ },
            PublishOp::ExtractSample { dest } => OpV::ExtractSample { dest: dest@ },
            PublishOp::ReadFile { path } => OpV::ReadFile { path: path@ },
            PublishOp::WriteFile { path, contents } => OpV::WriteFile {
                path: path@,
                contents: contents@,
            },
            PublishOp::Download { url, dest } => OpV::Download { url: url@, dest: dest@ },
            PublishOp::Unzip { archive, into } => OpV::Unzip { archive: archive@, into: into@ },
            PublishOp::RemoveFileQuietly { path } => OpV::RemoveFileQuietly { path: path@ },
            PublishOp::MakeExecutable { path } => OpV::MakeExecutable { path: path@ },
            PublishOp::Hash { path } => OpV::Hash { path: path@ },
            PublishOp::WriteManifest { path, manifest } => OpV::WriteManifest {
                path: path@,
                manifest: manifest@,
            },
            PublishOp::ReportAssets { entries } => OpV::ReportAssets { entries: entries_view(*entries) },
            PublishOp::Finish => OpV::Finish,
            PublishOp::Fail(e) => OpV::Fail(e@),
        }
    }
}

impl View for PublishAction {
    type V = ActionV;

    open spec fn view(&self) -> ActionV {
        ActionV { notes: strings(self.notes), op: self.op@ }
    }
}


/// A publication in progress.
pub struct Publisher {
    opts: PublishOptions,
    /// The tools found missing so far.
    missing: Vec<String>,
    /// `$ANDROID_HOME`.
    android_home: String,
    /// The output directory, canonicalized.
    out: String,
    /// The project that primes the Gradle cache.
    project_dir: String,
    /// The SDK subdirectories found so far.
    sdk: Vec<String>,
    /// The Gradle-cache subdirectories found so far.
    cache: Vec<String>,
    /// The sha256s of the tarballs hashed so far, in the order of `ALL`.
    shas: Vec<String>,
    step: PublishStep,
}

/// The content of a [`Publisher`].
pub struct PublisherV {
    pub pins: PinsV,
    pub output: Seq<char>,
    pub project: Option<Seq<char>>,
    pub skip_upload: bool,
    pub missing: Seq<Seq<char>>,
    pub android_home: Seq<char>,
    pub out: Seq<char>,
    pub project_dir: Seq<char>,
    pub sdk: Seq<Seq<char>>,
    pub cache: Seq<Seq<char>>,
    pub shas: Seq<Seq<char>>,
    pub step: PublishStep,
}

impl View for Publisher {
    type V = PublisherV;

    closed spec fn view(&self) -> PublisherV {
        PublisherV {
            pins: self.opts.pins@,
            output: self.opts.output@,
            project: opt_view(self.opts.project),
            skip_upload: self.opts.skip_upload,
            missing: strings(self.missing),
            android_home: self.android_home@,
            out: self.out@,
            project_dir: self.project_dir@,
            sdk: strings(self.sdk),
            cache: strings(self.cache),
            shas: strings(self.shas),
            step: self.step,
        }
    }
}

/// The tools the publish host needs on its `PATH`, in probing order.
pub open spec fn tool(i: int) -> Seq<char> {
    if i == 0 {
        "gh"@
    } else if i == 1 {
        "tar"@
    } else {
        "sha256sum"@
    }
}

/// The SDK subdirectories packed when present, in order.
pub open spec fn sdk_candidate(i: int) -> Seq<char> {
    if i == 0 {
        "cmdline-tools"@
    } else if i == 1 {
        "platform-tools"@
    } else if i == 2 {
        "build-tools"@
    } else {
        "platforms"@
    }
}

/// The Gradle user home subdirectories packed when present, in order.
pub open spec fn cache_candidate(i: int) -> Seq<char> {
    if i == 0 {
        "caches"@
    } else {
        "wrapper"@
    }
}

/// An action without notes.
pub open spec fn act(op: OpV) -> ActionV {
    ActionV { notes: seq![], op }
}

/// An action with one note.
pub open spec fn act1(note: Seq<char>, op: OpV) -> ActionV {
    ActionV { notes: seq![note], op }
}

/// Running a program with no extra environment.
pub open spec fn run_op(program: Seq<char>, args: Seq<Seq<char>>, dir: Option<Seq<char>>, quiet: bool) -> OpV {
    OpV::Run { program, args, dir, env: seq![], quiet }
}

/// The failure message of a program's exit status.
pub open spec fn status_text(code: Option<i32>) -> Seq<char> {
    decimal(
        match code {
            Some(c) => c as int,
            None => -1,
        },
    )
}

impl PublisherV {
    pub open spec fn ndk_dir(self) -> Seq<char> {
        path_join(path_join(self.android_home, "ndk"@), self.pins.ndk)
    }

    pub open spec fn staging(self) -> Seq<char> {
        path_join(self.out, "staging-project"@)
    }

    pub open spec fn gradle_home(self) -> Seq<char> {
        path_join(self.out, "gradle-user-home"@)
    }

    pub open spec fn dist_root(self) -> Seq<char> {
        path_join(self.out, "gradle-"@ + self.pins.gradle)
    }

    pub open spec fn gradle_bin(self) -> Seq<char> {
        path_join(self.dist_root(), "bin/gradle"@)
    }

    pub open spec fn gradle_zip(self) -> Seq<char> {
        path_join(self.out, "gradle-"@ + self.pins.gradle + "-bin.zip"@)
    }

    pub open spec fn gradle_url(self) -> Seq<char> {
        "https://services.gradle.org/distributions/gradle-"@ + self.pins.gradle + "-bin.zip"@
    }

    pub open spec fn catalog(self) -> Seq<char> {
        path_join(self.staging(), "gradle/libs.versions.toml"@)
    }

    pub open spec fn tarball(self, kind: AssetKind) -> Seq<char> {
        path_join(self.out, kind.filename_spec())
    }

    pub open spec fn manifest_path(self) -> Seq<char> {
        path_join(self.out, "manifest.toml"@)
    }

    /// The manifest of the bundle: the pins, and the sha256 of each
    /// tarball in the order of `ALL`.
    pub open spec fn manifest(self) -> ManifestV {
        ManifestV {
            agp_version: self.pins.agp,
            ndk_version: self.pins.ndk,
            gradle_version: self.pins.gradle,
            ndk_sha256: self.shas[0],
            sdk_sha256: self.shas[1],
            gradle_cache_sha256: self.shas[2],
        }
    }

    pub open spec fn at(self, step: PublishStep) -> PublisherV {
        PublisherV { step, ..self }
    }

    pub open spec fn fail(self, e: ErrorV) -> (PublisherV, ActionV) {
        (self.at(PublishStep::Failed), act(OpV::Fail(e)))
    }

    pub open spec fn probe(i: int) -> ActionV {
        act(run_op(tool(i), seq!["--version"@], None, true))
    }

    pub open spec fn gh_auth() -> ActionV {
        act(run_op("gh"@, seq!["auth"@, "status"@], None, true))
    }

    pub open spec fn check_gradle_bin(self) -> ActionV {
        act(OpV::CheckExists { path: self.gradle_bin() })
    }

    pub open spec fn wrapper_note(self) -> Seq<char> {
        "publish: "@ + self.gradle_bin() + " wrapper --gradle-version="@ + self.pins.gradle
    }

    pub open spec fn wrapper_op(self) -> OpV {
        run_op(
            self.gradle_bin(),
            seq!["wrapper"@, "--gradle-version"@, self.pins.gradle, "--distribution-type"@, "bin"@],
            Some(self.project_dir),
            false,
        )
    }

    pub open spec fn gradlew_op(self) -> OpV {
        OpV::Run {
            program: path_join(self.project_dir, "gradlew"@),
            args: seq!["--no-daemon"@, "assembleDebug"@],
            dir: Some(self.project_dir),
            env: seq![
                ("ANDROID_HOME"@, self.android_home),
                ("ANDROID_SDK_ROOT"@, self.android_home),
                ("ANDROID_NDK_HOME"@, self.ndk_dir()),
                ("GRADLE_USER_HOME"@, self.gradle_home()),
            ],
            quiet: false,
        }
    }

    /// `tar --zstd -cf <dest> -C <dir> <subdirs...>`.
    pub open spec fn tar_op(dest: Seq<char>, dir: Seq<char>, subdirs: Seq<Seq<char>>) -> OpV {
        run_op("tar"@, seq!["--zstd"@, "-cf"@, dest, "-C"@, dir] + subdirs, None, false)
    }

    pub open spec fn tar_failed(dest: Seq<char>, code: Option<i32>) -> ErrorV {
        ErrorV::Other("tar failed (status "@ + status_text(code) + ") producing "@ + dest)
    }

    pub open spec fn release_tag(self) -> Seq<char> {
        tag_spec(self.pins)
    }

    pub open spec fn release_notes(self) -> Seq<char> {
        "Toolchain bundle for AGP "@ + self.pins.agp + ", NDK "@ + self.pins.ndk + ", Gradle "@
            + self.pins.gradle + ". Generated by `cargo agdk publish`."@
    }

    pub open spec fn view_release(self) -> ActionV {
        act(
            run_op(
                "gh"@,
                seq![
                    "release"@,
                    "view"@,
                    self.release_tag(),
                    "--repo"@,
                    HOST@,
                    "--json"@,
                    "isDraft"@,
                ],
                None,
                false,
            ),
        )
    }

    pub open spec fn delete_release(self) -> ActionV {
        act1(
            "publish: release "@ + self.release_tag() + " already exists on "@ + HOST@
                + "; deleting + recreating"@,
            run_op(
                "gh"@,
                seq![
                    "release"@,
                    "delete"@,
                    self.release_tag(),
                    "--repo"@,
                    HOST@,
                    "--yes"@,
                    "--cleanup-tag"@,
                ],
                None,
                false,
            ),
        )
    }

    pub open spec fn create_release(self) -> ActionV {
        act1(
            "publish: gh release create "@ + self.release_tag() + " on "@ + HOST@,
            run_op(
                "gh"@,
                seq![
                    "release"@,
                    "create"@,
                    self.release_tag(),
                    "--repo"@,
                    HOST@,
                    "--title"@,
                    self.release_tag(),
                    "--notes"@,
                    self.release_notes(),
                    self.tarball(AssetKind::Ndk),
                    self.tarball(AssetKind::Sdk),
                    self.tarball(AssetKind::GradleCache),
                    self.manifest_path(),
                ],
                None,
                false,
            ),
        )
    }

    /// The state invariant: positions stay within their lists, and the
    /// lists filled so far are as long as the steps taken.
    pub open spec fn wf(self) -> bool {
        match self.step {
            PublishStep::ProbeTool(i) => i < 3 && self.shas.len() == 0,
            PublishStep::SdkDirExists(i) => i < 4 && self.shas.len() == 0,
            PublishStep::CacheDirExists(i) => i < 2 && self.shas.len() == 0,
            PublishStep::Hash(i) => i < 3 && self.shas.len() == i,
            PublishStep::WriteManifest | PublishStep::ReportAssets => self.shas.len() == 3,
            PublishStep::ReleaseExists | PublishStep::DeleteRelease | PublishStep::CreateRelease =>
                self.shas.len() == 3 && !self.skip_upload,
            PublishStep::Done | PublishStep::Failed => true,
            _ => self.shas.len() == 0,
        }
    }
}

/// Whether the publisher, at `step`, can take `e`: the events that the
/// operation issued at that step can lead to.
pub open spec fn accepts(step: PublishStep, e: PublishEvent) -> bool {
    match step {
        PublishStep::ProbeTool(_) | PublishStep::GhAuth | PublishStep::GradleWrapper
        | PublishStep::Gradlew | PublishStep::TarNdk | PublishStep::TarSdk | PublishStep::TarCache
        | PublishStep::ReleaseExists | PublishStep::DeleteRelease | PublishStep::CreateRelease => e is Exited
            || e is IoFailed,
        PublishStep::AndroidHome => e is Env,
        PublishStep::NdkPresent | PublishStep::StagingExists | PublishStep::GradleHomeExists
        | PublishStep::GradleBinExists | PublishStep::GradleBinExtracted | PublishStep::SdkDirExists(_)
        | PublishStep::CacheDirExists(_) => e is Exists,
        PublishStep::ResolveOutput => e is Resolved || e is IoFailed,
        PublishStep::ReadCatalog => e is Read || e is IoFailed,
        PublishStep::Hash(_) => e is Hashed || e is IoFailed,
        PublishStep::ExtractSample | PublishStep::UnzipGradle => e is Completed || e is ArchiveFailed
            || e is IoFailed,
        PublishStep::DownloadGradle => e is Completed || e is FetchFailed || e is IoFailed,
        PublishStep::RemoveZip => e is Completed,
        PublishStep::CreateOutput | PublishStep::RemoveStaging | PublishStep::RemoveGradleHome
        | PublishStep::CreateGradleHome | PublishStep::CreateStaging | PublishStep::WriteCatalog
        | PublishStep::WriteNdkVersion | PublishStep::MakeExecutable | PublishStep::WriteManifest
        | PublishStep::ReportAssets => e is Completed || e is IoFailed,
        PublishStep::Done | PublishStep::Failed => false,
    }
}

/// After the tool probe `i` (found or not): the next probe, or the verdict
/// on the tools.
pub open spec fn after_probe(s: PublisherV, i: int, found: bool) -> (PublisherV, ActionV) {
    let t = PublisherV { missing: if found { s.missing } else { s.missing.push(tool(i)) }, ..s };
    if i + 1 < 3 {
        (t.at(PublishStep::ProbeTool((i + 1) as usize)), PublisherV::probe(i + 1))
    } else if t.missing.len() > 0 {
        t.fail(ErrorV::Other("publish requires tools on PATH: "@ + joined(t.missing, ", "@)))
    } else {
        (t.at(PublishStep::GhAuth), PublisherV::gh_auth())
    }
}

/// The publication's transitions: from a state and an event, the next
/// state and what to do.
pub open spec fn publish_next(s: PublisherV, e: PublishEvent) -> (PublisherV, ActionV) {
    match s.step {
        PublishStep::ProbeTool(i) => match e {
            PublishEvent::Exited { success, .. } => after_probe(s, i as int, success),
            _ => after_probe(s, i as int, false),
        },
        PublishStep::GhAuth => match e {
            PublishEvent::Exited { success: true, .. } => (
                s.at(PublishStep::AndroidHome),
                act(OpV::ReadEnv { name: "ANDROID_HOME"@ }),
            ),
            PublishEvent::IoFailed(m) => s.fail(ErrorV::Io(m@)),
            _ => s.fail(ErrorV::Other("gh is not authenticated; run `gh auth login`"@)),
        },
        PublishStep::AndroidHome => match e {
            PublishEvent::Env(Some(h)) => {
                let t = PublisherV { android_home: h@, step: PublishStep::NdkPresent, ..s };
                (t, act(OpV::CheckExists { path: t.ndk_dir() }))
            },
            _ => s.fail(ErrorV::Other("ANDROID_HOME not set"@)),
        },
        PublishStep::NdkPresent => match e {
            PublishEvent::Exists(true) => (
                s.at(PublishStep::CreateOutput),
                act(OpV::CreateDir { path: s.output }),
            ),
            _ => s.fail(
                ErrorV::Other(
                    "NDK "@ + s.pins.ndk + " not present under "@ + s.android_home
                        + " \u{2014} install it first"@,
                ),
            ),
        },
        PublishStep::ResolveOutput => match e {
            PublishEvent::Resolved(o) => {
                let t = PublisherV { out: o@, step: PublishStep::StagingExists, ..s };
                (t, act(OpV::CheckExists { path: t.staging() }))
            },
            PublishEvent::IoFailed(m) => s.fail(ErrorV::Io(m@)),
            _ => s.fail(ErrorV::Io(seq![])),
        },
        PublishStep::StagingExists => match e {
            PublishEvent::Exists(true) => (
                s.at(PublishStep::RemoveStaging),
                act(OpV::RemoveDir { path: s.staging() }),
            ),
            _ => (
                s.at(PublishStep::GradleHomeExists),
                act(OpV::CheckExists { path: s.gradle_home() }),
            ),
        },
        PublishStep::GradleHomeExists => match e {
            PublishEvent::Exists(true) => (
                s.at(PublishStep::RemoveGradleHome),
                act(OpV::RemoveDir { path: s.gradle_home() }),
            ),
            _ => (
                s.at(PublishStep::CreateGradleHome),
                act(OpV::CreateDir { path: s.gradle_home() }),
            ),
        },
        PublishStep::GradleBinExists => match e {
            PublishEvent::Exists(true) => (
                s.at(PublishStep::GradleWrapper),
                ActionV {
                    notes: seq!["publish: reusing gradle dist at "@ + s.dist_root(), s.wrapper_note()],
                    op: s.wrapper_op(),
                },
            ),
            _ => (
                s.at(PublishStep::DownloadGradle),
                act1(
                    "publish: downloading "@ + s.gradle_url(),
                    OpV::Download { url: s.gradle_url(), dest: s.gradle_zip() },
                ),
            ),
        },
        PublishStep::GradleBinExtracted => match e {
            PublishEvent::Exists(true) => (
                s.at(PublishStep::MakeExecutable),
                act(OpV::MakeExecutable { path: s.gradle_bin() }),
            ),
            _ => s.fail(ErrorV::Other("extracted gradle but "@ + s.gradle_bin() + " is missing"@)),
        },
        PublishStep::SdkDirExists(i) => {
            let t = PublisherV {
                sdk: if e == PublishEvent::Exists(true) {
                    s.sdk.push(sdk_candidate(i as int))
                } else {
                    s.sdk
                },
                ..s
            };
            if i + 1 < 4 {
                (
                    t.at(PublishStep::SdkDirExists((i + 1) as usize)),
                    act(OpV::CheckExists { path: path_join(s.android_home, sdk_candidate(i + 1)) }),
                )
            } else if t.sdk.len() == 0 {
                t.fail(
                    ErrorV::Other(
                        "no SDK subdirs under $ANDROID_HOME (cmdline-tools / build-tools / platforms / platform-tools)"@,
                    ),
                )
            } else {
                (
                    t.at(PublishStep::TarSdk),
                    act(PublisherV::tar_op(t.tarball(AssetKind::Sdk), t.android_home, t.sdk)),
                )
            }
        },
        PublishStep::CacheDirExists(i) => {
            let t = PublisherV {
                cache: if e == PublishEvent::Exists(true) {
                    s.cache.push(cache_candidate(i as int))
                } else {
                    s.cache
                },
                ..s
            };
            if i + 1 < 2 {
                (
                    t.at(PublishStep::CacheDirExists((i + 1) as usize)),
                    act(OpV::CheckExists { path: path_join(s.gradle_home(), cache_candidate(i + 1)) }),
                )
            } else {
                (
                    t.at(PublishStep::TarCache),
                    act(PublisherV::tar_op(t.tarball(AssetKind::GradleCache), t.gradle_home(), t.cache)),
                )
            }
        },
        PublishStep::ReleaseExists => match e {
            PublishEvent::Exited { success: true, .. } => (s.at(PublishStep::DeleteRelease), s.delete_release()),
            _ => (s.at(PublishStep::CreateRelease), s.create_release()),
        },
        PublishStep::DeleteRelease => (s.at(PublishStep::CreateRelease), s.create_release()),
        PublishStep::Done | PublishStep::Failed => (s, act(OpV::Finish)),
        _ => match e {
            PublishEvent::IoFailed(m) => s.fail(ErrorV::Io(m@)),
            _ => publish_progress(s, e),
        },
    }
}

/// The transitions of the steps whose operations can only fail with an
/// I/O error (handled in [`publish_next`]) or in ways of their own.
pub open spec fn publish_progress(s: PublisherV, e: PublishEvent) -> (PublisherV, ActionV) {
    match s.step {
        PublishStep::CreateOutput => (s.at(PublishStep::ResolveOutput), act(OpV::Resolve { path: s.output })),
        PublishStep::RemoveStaging => (
            s.at(PublishStep::GradleHomeExists),
            act(OpV::CheckExists { path: s.gradle_home() }),
        ),
        PublishStep::RemoveGradleHome => (
            s.at(PublishStep::CreateGradleHome),
            act(OpV::CreateDir { path: s.gradle_home() }),
        ),
        PublishStep::CreateGradleHome => match s.project {
            Some(p) => {
                let t = PublisherV { project_dir: p, step: PublishStep::GradleBinExists, ..s };
                (t, act1("publish: priming via consumer-supplied project at "@ + p, OpV::CheckExists {
                    path: t.gradle_bin(),
                }))
            },
            None => {
                let t = PublisherV { project_dir: s.staging(), step: PublishStep::CreateStaging, ..s };
                (
                    t,
                    act1(
                        "publish: priming via vendored stock sample at "@ + s.staging(),
                        OpV::CreateDir { path: s.staging() },
                    ),
                )
            },
        },
        PublishStep::CreateStaging => (s.at(PublishStep::ExtractSample), act(OpV::ExtractSample { dest: s.staging() })),
        PublishStep::ExtractSample => match e {
            PublishEvent::ArchiveFailed { message, .. } => s.fail(
                ErrorV::Other("extracting stock sample: "@ + message@),
            ),
            _ => (s.at(PublishStep::ReadCatalog), act(OpV::ReadFile { path: s.catalog() })),
        },
        PublishStep::ReadCatalog => match e {
            PublishEvent::Read(text) => (
                s.at(PublishStep::WriteCatalog),
                act(
                    OpV::WriteFile {
                        path: s.catalog(),
                        contents: replaced(text@, "__AGP_VERSION__"@, s.pins.agp),
                    },
                ),
            ),
            _ => s.fail(ErrorV::Io(seq![])),
        },
        PublishStep::WriteCatalog => (
            s.at(PublishStep::WriteNdkVersion),
            act(OpV::WriteFile { path: path_join(s.staging(), "ndk.version"@), contents: s.pins.ndk }),
        ),
        PublishStep::WriteNdkVersion => (s.at(PublishStep::GradleBinExists), s.check_gradle_bin()),
        PublishStep::DownloadGradle => match e {
            PublishEvent::FetchFailed(m) => s.fail(ErrorV::Network { url: s.gradle_url(), source: m@ }),
            _ => (
                s.at(PublishStep::UnzipGradle),
                act1(
                    "publish: extracting "@ + s.gradle_zip() + " into "@ + s.out,
                    OpV::Unzip { archive: s.gradle_zip(), into: s.out },
                ),
            ),
        },
        PublishStep::UnzipGradle => match e {
            PublishEvent::ArchiveFailed { opening, message } => s.fail(
                ErrorV::Other(
                    (if opening {
                        "opening gradle zip: "@
                    } else {
                        "extracting gradle zip: "@
                    }) + message@,
                ),
            ),
            _ => (s.at(PublishStep::RemoveZip), act(OpV::RemoveFileQuietly { path: s.gradle_zip() })),
        },
        PublishStep::RemoveZip => (s.at(PublishStep::GradleBinExtracted), s.check_gradle_bin()),
        PublishStep::MakeExecutable => (
            s.at(PublishStep::GradleWrapper),
            act1(s.wrapper_note(), s.wrapper_op()),
        ),
        PublishStep::GradleWrapper => match e {
            PublishEvent::Exited { success: true, .. } => (
                s.at(PublishStep::Gradlew),
                act1("publish: ./gradlew assembleDebug (priming the cache)"@, s.gradlew_op()),
            ),
            PublishEvent::Exited { code, .. } => s.fail(
                ErrorV::Other("bootstrap `gradle wrapper` failed with status "@ + status_text(code)),
            ),
            _ => s.fail(ErrorV::Io(seq![])),
        },
        PublishStep::Gradlew => match e {
            PublishEvent::Exited { success: true, .. } => (
                s.at(PublishStep::TarNdk),
                act1(
                    "publish: packing NDK -> "@ + s.tarball(AssetKind::Ndk),
                    PublisherV::tar_op(
                        s.tarball(AssetKind::Ndk),
                        s.android_home,
                        seq!["ndk/"@ + s.pins.ndk],
                    ),
                ),
            ),
            PublishEvent::Exited { code, .. } => s.fail(
                ErrorV::GradleFailed(
                    match code {
                        Some(c) => c,
                        None => -1i32,
                    },
                ),
            ),
            _ => s.fail(ErrorV::Io(seq![])),
        },
        PublishStep::TarNdk => match e {
            PublishEvent::Exited { success: true, .. } => (
                s.at(PublishStep::SdkDirExists(0)),
                act1(
                    "publish: packing SDK pieces -> "@ + s.tarball(AssetKind::Sdk),
                    OpV::CheckExists { path: path_join(s.android_home, sdk_candidate(0)) },
                ),
            ),
            PublishEvent::Exited { code, .. } => s.fail(PublisherV::tar_failed(s.tarball(AssetKind::Ndk), code)),
            _ => s.fail(ErrorV::Io(seq![])),
        },
        PublishStep::TarSdk => match e {
            PublishEvent::Exited { success: true, .. } => (
                s.at(PublishStep::CacheDirExists(0)),
                act1(
                    "publish: packing Gradle cache -> "@ + s.tarball(AssetKind::GradleCache),
                    OpV::CheckExists { path: path_join(s.gradle_home(), cache_candidate(0)) },
                ),
            ),
            PublishEvent::Exited { code, .. } => s.fail(PublisherV::tar_failed(s.tarball(AssetKind::Sdk), code)),
            _ => s.fail(ErrorV::Io(seq![])),
        },
        PublishStep::TarCache => match e {
            PublishEvent::Exited { success: true, .. } => (
                s.at(PublishStep::Hash(0)),
                act(OpV::Hash { path: s.tarball(kind_at(0)) }),
            ),
            PublishEvent::Exited { code, .. } => s.fail(
                PublisherV::tar_failed(s.tarball(AssetKind::GradleCache), code),
            ),
            _ => s.fail(ErrorV::Io(seq![])),
        },
        PublishStep::Hash(i) => match e {
            PublishEvent::Hashed(h) => {
                let t = PublisherV { shas: s.shas.push(h@), ..s };
                if i + 1 < 3 {
                    (
                        t.at(PublishStep::Hash((i + 1) as usize)),
                        act(OpV::Hash { path: s.tarball(kind_at(i + 1)) }),
                    )
                } else {
                    (
                        t.at(PublishStep::WriteManifest),
                        act(OpV::WriteManifest { path: t.manifest_path(), manifest: t.manifest() }),
                    )
                }
            },
            _ => s.fail(ErrorV::Io(seq![])),
        },
        PublishStep::WriteManifest => (
            s.at(PublishStep::ReportAssets),
            ActionV {
                notes: seq!["publish: wrote "@ + s.manifest_path(), seq![]],
                op: OpV::ReportAssets {
                    entries: seq![
                        (AssetKind::Ndk, s.shas[0], s.tarball(AssetKind::Ndk)),
                        (AssetKind::Sdk, s.shas[1], s.tarball(AssetKind::Sdk)),
                        (AssetKind::GradleCache, s.shas[2], s.tarball(AssetKind::GradleCache)),
                    ],
                },
            },
        ),
        PublishStep::ReportAssets => if s.skip_upload {
            (
                s.at(PublishStep::Done),
                act1("publish: --skip-upload set; stopping before gh release."@, OpV::Finish),
            )
        } else {
            (s.at(PublishStep::ReleaseExists), s.view_release())
        },
        PublishStep::CreateRelease => match e {
            PublishEvent::Exited { success: true, .. } => (
                s.at(PublishStep::Done),
                act1("publish: https://github.com/"@ + HOST@ + "/releases/tag/"@ + s.release_tag(), OpV::Finish),
            ),
            PublishEvent::Exited { code, .. } => s.fail(
                ErrorV::Other("gh release create failed with status "@ + status_text(code)),
            ),
            _ => s.fail(ErrorV::Io(seq![])),
        },
        _ => (s, act(OpV::Finish)),
    }
}


fn action(op: PublishOp) -> (a: PublishAction)
    ensures
        a@ == act(op@),
{
    let notes: Vec<String> = Vec::new();
    assert(strings(notes) =~= Seq::<Seq<char>>::empty());
    PublishAction { notes, op }
}

fn action1(note: String, op: PublishOp) -> (a: PublishAction)
    ensures
        a@ == act1(note@, op@),
{
    let mut notes: Vec<String> = Vec::new();
    notes.push(note);
    assert(strings(notes) =~= seq![note@]);
    PublishAction { notes, op }
}

fn run(program: &str, args: &[&str], dir: Option<String>, quiet: bool) -> (op: PublishOp)
    ensures
        op@ == run_op(program@, args@.map_values(|x: &str| x@), opt_view(dir), quiet),
{
    let env: Vec<(String, String)> = Vec::new();
    assert(assignments(env) =~= Seq::<(Seq<char>, Seq<char>)>::empty());
    PublishOp::Run { program: program.to_owned(), args: owned_strings(args), dir, env, quiet }
}

/// The name of the `i`-th tool.
fn tool_name(i: usize) -> (t: &'static str)
    requires
        i < 3,
    ensures
        t@ == tool(i as int),
{
    if i == 0 {
        "gh"
    } else if i == 1 {
        "tar"
    } else {
        "sha256sum"
    }
}

fn sdk_candidate_name(i: usize) -> (t: &'static str)
    requires
        i < 4,
    ensures
        t@ == sdk_candidate(i as int),
{
    if i == 0 {
        "cmdline-tools"
    } else if i == 1 {
        "platform-tools"
    } else if i == 2 {
        "build-tools"
    } else {
        "platforms"
    }
}

fn cache_candidate_name(i: usize) -> (t: &'static str)
    requires
        i < 2,
    ensures
        t@ == cache_candidate(i as int),
{
    if i == 0 {
        "caches"
    } else {
        "wrapper"
    }
}

fn probe_action(i: usize) -> (a: PublishAction)
    requires
        i < 3,
    ensures
        a@ == PublisherV::probe(i as int),
{
    let op = run(tool_name(i), &["--version"], None, true);
    assert(["--version"]@.map_values(|x: &str| x@) =~= seq!["--version"@]);
    action(op)
}

fn status_message(code: Option<i32>) -> (m: String)
    ensures
        m@ == status_text(code),
{
    decimal_of(code.unwrap_or(-1))
}

fn fail(step: &mut PublishStep, e: Error) -> (a: PublishAction)
    ensures
        *final(step) == PublishStep::Failed,
        a@ == act(OpV::Fail(e@)),
{
    *step = PublishStep::Failed;
    action(PublishOp::Fail(e))
}

impl Publisher {
    /// Starts publishing what `opts` asks for: first, the host's tools are
    /// probed.
    pub fn new(opts: PublishOptions) -> (r: (Publisher, PublishAction))
        ensures
            r.0@ == (PublisherV {
                pins: opts.pins@,
                output: opts.output@,
                project: opt_view(opts.project),
                skip_upload: opts.skip_upload,
                missing: seq![],
                android_home: seq![],
                out: seq![],
                project_dir: seq![],
                sdk: seq![],
                cache: seq![],
                shas: seq![],
                step: PublishStep::ProbeTool(0),
            }),
            r.1@ == PublisherV::probe(0),
    {
        let p = Publisher {
            opts,
            missing: Vec::new(),
            android_home: String::new(),
            out: String::new(),
            project_dir: String::new(),
            sdk: Vec::new(),
            cache: Vec::new(),
            shas: Vec::new(),
            step: PublishStep::ProbeTool(0),
        };
        assert(strings(p.missing) =~= Seq::<Seq<char>>::empty());
        assert(strings(p.sdk) =~= Seq::<Seq<char>>::empty());
        assert(strings(p.cache) =~= Seq::<Seq<char>>::empty());
        assert(strings(p.shas) =~= Seq::<Seq<char>>::empty());
        (p, probe_action(0))
    }

    /// What the publisher waits for.
    pub fn step(&self) -> (s: PublishStep)
        ensures
            s == self@.step,
    {
        self.step
    }

    /// Whether the publisher can take `event` now: whether `event` is one
    /// that the last operation can lead to.
    pub fn takes(&self, event: &PublishEvent) -> (b: bool)
        ensures
            b == accepts(self@.step, *event),
    {
        let exited_or_io = match event {
            PublishEvent::Exited { .. } | PublishEvent::IoFailed(_) => true,
            _ => false,
        };
        let completed_or_io = match event {
            PublishEvent::Completed | PublishEvent::IoFailed(_) => true,
            _ => false,
        };
        let exists = matches!(event, PublishEvent::Exists(_));
        match self.step {
            PublishStep::ProbeTool(_) | PublishStep::GhAuth | PublishStep::GradleWrapper
            | PublishStep::Gradlew | PublishStep::TarNdk | PublishStep::TarSdk | PublishStep::TarCache
            | PublishStep::ReleaseExists | PublishStep::DeleteRelease | PublishStep::CreateRelease => exited_or_io,
            PublishStep::AndroidHome => matches!(event, PublishEvent::Env(_)),
            PublishStep::NdkPresent | PublishStep::StagingExists | PublishStep::GradleHomeExists
            | PublishStep::GradleBinExists | PublishStep::GradleBinExtracted | PublishStep::SdkDirExists(_)
            | PublishStep::CacheDirExists(_) => exists,
            PublishStep::ResolveOutput => match event {
                PublishEvent::Resolved(_) | PublishEvent::IoFailed(_) => true,
                _ => false,
            },
            PublishStep::ReadCatalog => match event {
                PublishEvent::Read(_) | PublishEvent::IoFailed(_) => true,
                _ => false,
            },
            PublishStep::Hash(_) => match event {
                PublishEvent::Hashed(_) | PublishEvent::IoFailed(_) => true,
                _ => false,
            },
            PublishStep::ExtractSample | PublishStep::UnzipGradle => match event {
                PublishEvent::Completed | PublishEvent::ArchiveFailed { .. } | PublishEvent::IoFailed(_) => true,
                _ => false,
            },
            PublishStep::DownloadGradle => match event {
                PublishEvent::Completed | PublishEvent::FetchFailed(_) | PublishEvent::IoFailed(_) => true,
                _ => false,
            },
            PublishStep::RemoveZip => matches!(event, PublishEvent::Completed),
            PublishStep::CreateOutput | PublishStep::RemoveStaging | PublishStep::RemoveGradleHome
            | PublishStep::CreateGradleHome | PublishStep::CreateStaging | PublishStep::WriteCatalog
            | PublishStep::WriteNdkVersion | PublishStep::MakeExecutable | PublishStep::WriteManifest
            | PublishStep::ReportAssets => completed_or_io,
            PublishStep::Done | PublishStep::Failed => false,
        }
    }

    fn ndk_dir(&self) -> (p: String)
        ensures
            p@ == self@.ndk_dir(),
    {
        let n = join_path(self.android_home.as_str(), "ndk");
        join_path(n.as_str(), self.opts.pins.ndk.as_str())
    }

    fn staging(&self) -> (p: String)
        ensures
            p@ == self@.staging(),
    {
        join_path(self.out.as_str(), "staging-project")
    }

    fn gradle_home(&self) -> (p: String)
        ensures
            p@ == self@.gradle_home(),
    {
        join_path(self.out.as_str(), "gradle-user-home")
    }

    fn dist_root(&self) -> (p: String)
        ensures
            p@ == self@.dist_root(),
    {
        let d = concat("gradle-", self.opts.pins.gradle.as_str());
        join_path(self.out.as_str(), d.as_str())
    }

    fn gradle_bin(&self) -> (p: String)
        ensures
            p@ == self@.gradle_bin(),
    {
        let d = self.dist_root();
        join_path(d.as_str(), "bin/gradle")
    }

    fn gradle_zip(&self) -> (p: String)
        ensures
            p@ == self@.gradle_zip(),
    {
        let mut z = concat("gradle-", self.opts.pins.gradle.as_str());
        z.append("-bin.zip");
        join_path(self.out.as_str(), z.as_str())
    }

    fn gradle_url(&self) -> (u: String)
        ensures
            u@ == self@.gradle_url(),
    {
        let mut u = concat(
            "https://services.gradle.org/distributions/gradle-",
            self.opts.pins.gradle.as_str(),
        );
        u.append("-bin.zip");
        u
    }

    fn catalog(&self) -> (p: String)
        ensures
            p@ == self@.catalog(),
    {
        let st = self.staging();
        join_path(st.as_str(), "gradle/libs.versions.toml")
    }

    fn tarball(&self, kind: AssetKind) -> (p: String)
        ensures
            p@ == self@.tarball(kind),
    {
        join_path(self.out.as_str(), kind.filename())
    }

    fn manifest_path(&self) -> (p: String)
        ensures
            p@ == self@.manifest_path(),
    {
        join_path(self.out.as_str(), "manifest.toml")
    }

    fn check_gradle_bin(&self) -> (a: PublishAction)
        ensures
            a@ == self@.check_gradle_bin(),
    {
        action(PublishOp::CheckExists { path: self.gradle_bin() })
    }

    fn wrapper_note(&self) -> (n: String)
        ensures
            n@ == self@.wrapper_note(),
    {
        let b = self.gradle_bin();
        let mut n = concat("publish: ", b.as_str());
        n.append(" wrapper --gradle-version=");
        n.append(self.opts.pins.gradle.as_str());
        n
    }

    fn wrapper_op(&self) -> (op: PublishOp)
        ensures
            op@ == self@.wrapper_op(),
    {
        let b = self.gradle_bin();
        let g = self.opts.pins.gradle.as_str();
        let args = [ "wrapper", "--gradle-version", g, "--distribution-type", "bin" ];
        let op = run(b.as_str(), &args, Some(self.project_dir.clone()), false);
        assert(args@.map_values(|x: &str| x@) =~= seq![
            "wrapper"@,
            "--gradle-version"@,
            self@.pins.gradle,
            "--distribution-type"@,
            "bin"@,
        ]);
        op
    }

    fn gradlew_op(&self) -> (op: PublishOp)
        ensures
            op@ == self@.gradlew_op(),
    {
        let mut env: Vec<(String, String)> = Vec::new();
        env.push(("ANDROID_HOME".to_owned(), self.android_home.clone()));
        env.push(("ANDROID_SDK_ROOT".to_owned(), self.android_home.clone()));
        env.push(("ANDROID_NDK_HOME".to_owned(), self.ndk_dir()));
        env.push(("GRADLE_USER_HOME".to_owned(), self.gradle_home()));
        assert(assignments(env) =~= seq![
            ("ANDROID_HOME"@, self@.android_home),
            ("ANDROID_SDK_ROOT"@, self@.android_home),
            ("ANDROID_NDK_HOME"@, self@.ndk_dir()),
            ("GRADLE_USER_HOME"@, self@.gradle_home()),
        ]);
        let args = owned_strings(&["--no-daemon", "assembleDebug"]);
        assert(strings(args) =~= seq!["--no-daemon"@, "assembleDebug"@]);
        PublishOp::Run {
            program: join_path(self.project_dir.as_str(), "gradlew"),
            args,
            dir: Some(self.project_dir.clone()),
            env,
            quiet: false,
        }
    }

    fn tar_op(dest: String, dir: &str, subdirs: &Vec<String>) -> (op: PublishOp)
        ensures
            op@ == PublisherV::tar_op(dest@, dir@, strings(*subdirs)),
    {
        let head = [ "--zstd", "-cf", dest.as_str(), "-C", dir ];
        let mut args = owned_strings(&head);
        assert(head@.map_values(|x: &str| x@) =~= seq!["--zstd"@, "-cf"@, dest@, "-C"@, dir@]);
        let ghost first = strings(args);
        let mut i: usize = 0;
        while i < subdirs.len()
            invariant
                i <= subdirs.len(),
                strings(args) == first + strings(*subdirs).take(i as int),
            decreases subdirs.len() - i,
        {
            let ghost before = args@;
            args.push(subdirs[i].clone());
            proof {
                crate::text::lemma_strings_push(before, subdirs@[i as int]);
                assert(strings(*subdirs).take(i + 1) =~= strings(*subdirs).take(i as int).push(
                    subdirs@[i as int]@,
                ));
            }
            assert(strings(args) =~= first + strings(*subdirs).take(i + 1));
            i = i + 1;
        }
        assert(strings(*subdirs).take(subdirs.len() as int) =~= strings(*subdirs));
        let env: Vec<(String, String)> = Vec::new();
        assert(assignments(env) =~= Seq::<(Seq<char>, Seq<char>)>::empty());
        PublishOp::Run { program: "tar".to_owned(), args, dir: None, env, quiet: false }
    }

    fn tar_failed(dest: &str, code: Option<i32>) -> (e: Error)
        ensures
            e@ == PublisherV::tar_failed(dest@, code),
    {
        let mut m = concat("tar failed (status ", status_message(code).as_str());
        m.append(") producing ");
        m.append(dest);
        Error::Other(m)
    }

    fn release_notes(&self) -> (n: String)
        ensures
            n@ == self@.release_notes(),
    {
        let mut n = concat("Toolchain bundle for AGP ", self.opts.pins.agp.as_str());
        n.append(", NDK ");
        n.append(self.opts.pins.ndk.as_str());
        n.append(", Gradle ");
        n.append(self.opts.pins.gradle.as_str());
        n.append(". Generated by `cargo agdk publish`.");
        n
    }

    fn view_release(&self) -> (a: PublishAction)
        ensures
            a@ == self@.view_release(),
    {
        let t = tag(&self.opts.pins);
        let args = ["release", "view", t.as_str(), "--repo", HOST, "--json", "isDraft"];
        let op = run("gh", &args, None, false);
        assert(args@.map_values(|x: &str| x@) =~= seq![
            "release"@,
            "view"@,
            self@.release_tag(),
            "--repo"@,
            HOST@,
            "--json"@,
            "isDraft"@,
        ]);
        action(op)
    }

    fn delete_release(&self) -> (a: PublishAction)
        ensures
            a@ == self@.delete_release(),
    {
        let t = tag(&self.opts.pins);
        let args = ["release", "delete", t.as_str(), "--repo", HOST, "--yes", "--cleanup-tag"];
        let op = run("gh", &args, None, false);
        assert(args@.map_values(|x: &str| x@) =~= seq![
            "release"@,
            "delete"@,
            self@.release_tag(),
            "--repo"@,
            HOST@,
            "--yes"@,
            "--cleanup-tag"@,
        ]);
        let mut note = concat("publish: release ", t.as_str());
        note.append(" already exists on ");
        note.append(HOST);
        note.append("; deleting + recreating");
        action1(note, op)
    }

    fn create_release(&self) -> (a: PublishAction)
        ensures
            a@ == self@.create_release(),
    {
        let t = tag(&self.opts.pins);
        let notes = self.release_notes();
        let nt = self.tarball(AssetKind::Ndk);
        let st = self.tarball(AssetKind::Sdk);
        let ct = self.tarball(AssetKind::GradleCache);
        let mp = self.manifest_path();
        let args = [
            "release",
            "create",
            t.as_str(),
            "--repo",
            HOST,
            "--title",
            t.as_str(),
            "--notes",
            notes.as_str(),
            nt.as_str(),
            st.as_str(),
            ct.as_str(),
            mp.as_str(),
        ];
        let op = run("gh", &args, None, false);
        assert(args@.map_values(|x: &str| x@) =~= seq![
            "release"@,
            "create"@,
            self@.release_tag(),
            "--repo"@,
            HOST@,
            "--title"@,
            self@.release_tag(),
            "--notes"@,
            self@.release_notes(),
            self@.tarball(AssetKind::Ndk),
            self@.tarball(AssetKind::Sdk),
            self@.tarball(AssetKind::GradleCache),
            self@.manifest_path(),
        ]);
        let mut note = concat("publish: gh release create ", t.as_str());
        note.append(" on ");
        note.append(HOST);
        action1(note, op)
    }
}

impl Publisher {
    fn fail(&mut self, e: Error) -> (a: PublishAction)
        ensures
            final(self)@ == old(self)@.at(PublishStep::Failed),
            a@ == act(OpV::Fail(e@)),
    {
        self.step = PublishStep::Failed;
        action(PublishOp::Fail(e))
    }

    fn go(&mut self, step: PublishStep, a: PublishAction) -> (r: PublishAction)
        ensures
            final(self)@ == old(self)@.at(step),
            r == a,
    {
        self.step = step;
        a
    }

    fn after_probe(&mut self, i: usize, found: bool) -> (a: PublishAction)
        requires
            i < 3,
        ensures
            (final(self)@, a@) == after_probe(old(self)@, i as int, found),
    {
        if !found {
            let ghost before = self.missing@;
            self.missing.push(tool_name(i).to_owned());
            proof {
                crate::text::lemma_strings_push(before, self.missing@[i as int]);
            }
            assert(strings(self.missing) == strings(old(self).missing).push(tool(i as int))) by {
                crate::text::lemma_strings_push(before, self.missing@.last());
                assert(self.missing@ == before.push(self.missing@.last()));
            }
        }
        if i + 1 < 3 {
            self.step = PublishStep::ProbeTool(i + 1);
            probe_action(i + 1)
        } else if self.missing.len() > 0 {
            let list = join_strings(&self.missing, ", ");
            let m = concat("publish requires tools on PATH: ", list.as_str());
            self.fail(Error::Other(m))
        } else {
            self.step = PublishStep::GhAuth;
            let op = run("gh", &["auth", "status"], None, true);
            assert(["auth", "status"]@.map_values(|x: &str| x@) =~= seq!["auth"@, "status"@]);
            action(op)
        }
    }

    /// Takes what happened to the last operation and decides the next one.
    pub fn advance(&mut self, event: PublishEvent) -> (a: PublishAction)
        requires
            old(self)@.wf(),
            accepts(old(self)@.step, event),
        ensures
            final(self)@.wf(),
            (final(self)@, a@) == publish_next(old(self)@, event),
    {
        match self.step {
            PublishStep::ProbeTool(i) => {
                let found = match event {
                    PublishEvent::Exited { success, .. } => success,
                    _ => false,
                };
                self.after_probe(i, found)
            },
            PublishStep::GhAuth => match event {
                PublishEvent::Exited { success: true, .. } => {
                    let a = action(PublishOp::ReadEnv { name: "ANDROID_HOME".to_owned() });
                    self.go(PublishStep::AndroidHome, a)
                },
                PublishEvent::IoFailed(m) => self.fail(Error::Io(m)),
                _ => self.fail(Error::Other("gh is not authenticated; run `gh auth login`".to_owned())),
            },
            PublishStep::AndroidHome => match event {
                PublishEvent::Env(Some(h)) => {
                    self.android_home = h;
                    self.step = PublishStep::NdkPresent;
                    action(PublishOp::CheckExists { path: self.ndk_dir() })
                },
                _ => self.fail(Error::Other("ANDROID_HOME not set".to_owned())),
            },
            PublishStep::NdkPresent => match event {
                PublishEvent::Exists(true) => {
                    let a = action(PublishOp::CreateDir { path: self.opts.output.clone() });
                    self.go(PublishStep::CreateOutput, a)
                },
                _ => {
                    let mut m = concat("NDK ", self.opts.pins.ndk.as_str());
                    m.append(" not present under ");
                    m.append(self.android_home.as_str());
                    m.append(" \u{2014} install it first");
                    self.fail(Error::Other(m))
                },
            },
            PublishStep::ResolveOutput => match event {
                PublishEvent::Resolved(o) => {
                    self.out = o;
                    self.step = PublishStep::StagingExists;
                    action(PublishOp::CheckExists { path: self.staging() })
                },
                PublishEvent::IoFailed(m) => self.fail(Error::Io(m)),
                _ => self.fail(Error::Io(String::new())),
            },
            PublishStep::StagingExists => match event {
                PublishEvent::Exists(true) => {
                    let a = action(PublishOp::RemoveDir { path: self.staging() });
                    self.go(PublishStep::RemoveStaging, a)
                },
                _ => {
                    let a = action(PublishOp::CheckExists { path: self.gradle_home() });
                    self.go(PublishStep::GradleHomeExists, a)
                },
            },
            PublishStep::GradleHomeExists => match event {
                PublishEvent::Exists(true) => {
                    let a = action(PublishOp::RemoveDir { path: self.gradle_home() });
                    self.go(PublishStep::RemoveGradleHome, a)
                },
                _ => {
                    let a = action(PublishOp::CreateDir { path: self.gradle_home() });
                    self.go(PublishStep::CreateGradleHome, a)
                },
            },
            PublishStep::GradleBinExists => match event {
                PublishEvent::Exists(true) => {
                    let d = self.dist_root();
                    let first = concat("publish: reusing gradle dist at ", d.as_str());
                    let mut notes: Vec<String> = Vec::new();
                    notes.push(first);
                    notes.push(self.wrapper_note());
                    assert(strings(notes) =~= seq![
                        "publish: reusing gradle dist at "@ + self@.dist_root(),
                        self@.wrapper_note(),
                    ]);
                    let a = PublishAction { notes, op: self.wrapper_op() };
                    self.go(PublishStep::GradleWrapper, a)
                },
                _ => {
                    let url = self.gradle_url();
                    let note = concat("publish: downloading ", url.as_str());
                    let a = action1(note, PublishOp::Download { url, dest: self.gradle_zip() });
                    self.go(PublishStep::DownloadGradle, a)
                },
            },
            PublishStep::GradleBinExtracted => match event {
                PublishEvent::Exists(true) => {
                    let a = action(PublishOp::MakeExecutable { path: self.gradle_bin() });
                    self.go(PublishStep::MakeExecutable, a)
                },
                _ => {
                    let b = self.gradle_bin();
                    let mut m = concat("extracted gradle but ", b.as_str());
                    m.append(" is missing");
                    self.fail(Error::Other(m))
                },
            },
            PublishStep::SdkDirExists(i) => {
                let present = match event {
                    PublishEvent::Exists(b) => b,
                    _ => false,
                };
                if present {
                    let ghost before = self.sdk@;
                    self.sdk.push(sdk_candidate_name(i).to_owned());
                    proof {
                        crate::text::lemma_strings_push(before, self.sdk@.last());
                        assert(self.sdk@ == before.push(self.sdk@.last()));
                    }
                }
                if i + 1 < 4 {
                    let p = join_path(self.android_home.as_str(), sdk_candidate_name(i + 1));
                    let a = action(PublishOp::CheckExists { path: p });
                    self.go(PublishStep::SdkDirExists(i + 1), a)
                } else if self.sdk.len() == 0 {
                    self.fail(
                        Error::Other(
                            "no SDK subdirs under $ANDROID_HOME (cmdline-tools / build-tools / platforms / platform-tools)".to_owned(),
                        ),
                    )
                } else {
                    let op = Publisher::tar_op(
                        self.tarball(AssetKind::Sdk),
                        self.android_home.as_str(),
                        &self.sdk,
                    );
                    let a = action(op);
                    self.go(PublishStep::TarSdk, a)
                }
            },
            PublishStep::CacheDirExists(i) => {
                let present = match event {
                    PublishEvent::Exists(b) => b,
                    _ => false,
                };
                if present {
                    let ghost before = self.cache@;
                    self.cache.push(cache_candidate_name(i).to_owned());
                    proof {
                        crate::text::lemma_strings_push(before, self.cache@.last());
                        assert(self.cache@ == before.push(self.cache@.last()));
                    }
                }
                if i + 1 < 2 {
                    let h = self.gradle_home();
                    let p = join_path(h.as_str(), cache_candidate_name(i + 1));
                    let a = action(PublishOp::CheckExists { path: p });
                    self.go(PublishStep::CacheDirExists(i + 1), a)
                } else {
                    let h = self.gradle_home();
                    let op = Publisher::tar_op(self.tarball(AssetKind::GradleCache), h.as_str(), &self.cache);
                    let a = action(op);
                    self.go(PublishStep::TarCache, a)
                }
            },
            PublishStep::ReleaseExists => match event {
                PublishEvent::Exited { success: true, .. } => {
                    let a = self.delete_release();
                    self.go(PublishStep::DeleteRelease, a)
                },
                _ => {
                    let a = self.create_release();
                    self.go(PublishStep::CreateRelease, a)
                },
            },
            PublishStep::DeleteRelease => {
                let a = self.create_release();
                self.go(PublishStep::CreateRelease, a)
            },
            PublishStep::Done | PublishStep::Failed => action(PublishOp::Finish),
            _ => match event {
                PublishEvent::IoFailed(m) => self.fail(Error::Io(m)),
                _ => self.progress(event),
            },
        }
    }
}

impl Publisher {
    fn progress_setup(&mut self, event: PublishEvent) -> (a: PublishAction)
        requires
            old(self)@.wf(),
            accepts(old(self)@.step, event),
            !(event is IoFailed),
            old(self)@.step is CreateOutput || old(self)@.step is RemoveStaging || old(self)@.step is RemoveGradleHome || old(self)@.step is CreateGradleHome || old(self)@.step is CreateStaging || old(self)@.step is ExtractSample || old(self)@.step is ReadCatalog || old(self)@.step is WriteCatalog || old(self)@.step is WriteNdkVersion,
        ensures
            final(self)@.wf(),
            (final(self)@, a@) == publish_progress(old(self)@, event),
    {
        match self.step {
            PublishStep::CreateOutput => {
                let a = action(PublishOp::Resolve { path: self.opts.output.clone() });
                self.go(PublishStep::ResolveOutput, a)
            },
            PublishStep::RemoveStaging => {
                let a = action(PublishOp::CheckExists { path: self.gradle_home() });
                self.go(PublishStep::GradleHomeExists, a)
            },
            PublishStep::RemoveGradleHome => {
                let a = action(PublishOp::CreateDir { path: self.gradle_home() });
                self.go(PublishStep::CreateGradleHome, a)
            },
            PublishStep::CreateGradleHome => {
                match &self.opts.project {
                    Some(p) => {
                        let note = concat("publish: priming via consumer-supplied project at ", p.as_str());
                        self.project_dir = p.clone();
                        self.step = PublishStep::GradleBinExists;
                        action1(note, PublishOp::CheckExists { path: self.gradle_bin() })
                    },
                    None => {
                        let st = self.staging();
                        let note = concat("publish: priming via vendored stock sample at ", st.as_str());
                        self.project_dir = st.clone();
                        self.step = PublishStep::CreateStaging;
                        action1(note, PublishOp::CreateDir { path: st })
                    },
                }
            },
            PublishStep::CreateStaging => {
                let a = action(PublishOp::ExtractSample { dest: self.staging() });
                self.go(PublishStep::ExtractSample, a)
            },
            PublishStep::ExtractSample => match event {
                PublishEvent::ArchiveFailed { message, .. } => {
                    let m = concat("extracting stock sample: ", message.as_str());
                    self.fail(Error::Other(m))
                },
                _ => {
                    let a = action(PublishOp::ReadFile { path: self.catalog() });
                    self.go(PublishStep::ReadCatalog, a)
                },
            },
            PublishStep::ReadCatalog => match event {
                PublishEvent::Read(text) => {
                    proof {
                        reveal_strlit("__AGP_VERSION__");
                    }
                    let contents = replace_all(text.as_str(), "__AGP_VERSION__", self.opts.pins.agp.as_str());
                    let a = action(PublishOp::WriteFile { path: self.catalog(), contents });
                    self.go(PublishStep::WriteCatalog, a)
                },
                _ => self.fail(Error::Io(String::new())),
            },
            PublishStep::WriteCatalog => {
                let st = self.staging();
                let path = join_path(st.as_str(), "ndk.version");
                let a = action(PublishOp::WriteFile { path, contents: self.opts.pins.ndk.clone() });
                self.go(PublishStep::WriteNdkVersion, a)
            },
            PublishStep::WriteNdkVersion => {
                let a = self.check_gradle_bin();
                self.go(PublishStep::GradleBinExists, a)
            },
            _ => action(PublishOp::Finish),
        }
    }

    fn progress_gradle(&mut self, event: PublishEvent) -> (a: PublishAction)
        requires
            old(self)@.wf(),
            accepts(old(self)@.step, event),
            !(event is IoFailed),
            old(self)@.step is DownloadGradle || old(self)@.step is UnzipGradle || old(self)@.step is RemoveZip || old(self)@.step is MakeExecutable || old(self)@.step is GradleWrapper || old(self)@.step is Gradlew,
        ensures
            final(self)@.wf(),
            (final(self)@, a@) == publish_progress(old(self)@, event),
    {
        match self.step {
            PublishStep::DownloadGradle => match event {
                PublishEvent::FetchFailed(m) => {
                    let url = self.gradle_url();
                    self.fail(Error::Network { url, source: m })
                },
                _ => {
                    let z = self.gradle_zip();
                    let mut note = concat("publish: extracting ", z.as_str());
                    note.append(" into ");
                    note.append(self.out.as_str());
                    let a = action1(note, PublishOp::Unzip { archive: z, into: self.out.clone() });
                    self.go(PublishStep::UnzipGradle, a)
                },
            },
            PublishStep::UnzipGradle => match event {
                PublishEvent::ArchiveFailed { opening, message } => {
                    let prefix = if opening {
                        "opening gradle zip: "
                    } else {
                        "extracting gradle zip: "
                    };
                    self.fail(Error::Other(concat(prefix, message.as_str())))
                },
                _ => {
                    let a = action(PublishOp::RemoveFileQuietly { path: self.gradle_zip() });
                    self.go(PublishStep::RemoveZip, a)
                },
            },
            PublishStep::RemoveZip => {
                let a = self.check_gradle_bin();
                self.go(PublishStep::GradleBinExtracted, a)
            },
            PublishStep::MakeExecutable => {
                let a = action1(self.wrapper_note(), self.wrapper_op());
                self.go(PublishStep::GradleWrapper, a)
            },
            PublishStep::GradleWrapper => match event {
                PublishEvent::Exited { success: true, .. } => {
                    let a = action1(
                        "publish: ./gradlew assembleDebug (priming the cache)".to_owned(),
                        self.gradlew_op(),
                    );
                    self.go(PublishStep::Gradlew, a)
                },
                PublishEvent::Exited { code, .. } => {
                    let m = concat(
                        "bootstrap `gradle wrapper` failed with status ",
                        status_message(code).as_str(),
                    );
                    self.fail(Error::Other(m))
                },
                _ => self.fail(Error::Io(String::new())),
            },
            PublishStep::Gradlew => match event {
                PublishEvent::Exited { success: true, .. } => {
                    let t = self.tarball(AssetKind::Ndk);
                    let note = concat("publish: packing NDK -> ", t.as_str());
                    let mut subdirs: Vec<String> = Vec::new();
                    subdirs.push(concat("ndk/", self.opts.pins.ndk.as_str()));
                    assert(strings(subdirs) =~= seq!["ndk/"@ + self@.pins.ndk]);
                    let op = Publisher::tar_op(t, self.android_home.as_str(), &subdirs);
                    let a = action1(note, op);
                    self.go(PublishStep::TarNdk, a)
                },
                PublishEvent::Exited { code, .. } => self.fail(Error::GradleFailed(code.unwrap_or(-1))),
                _ => self.fail(Error::Io(String::new())),
            },
            _ => action(PublishOp::Finish),
        }
    }

    fn progress_pack(&mut self, event: PublishEvent) -> (a: PublishAction)
        requires
            old(self)@.wf(),
            accepts(old(self)@.step, event),
            !(event is IoFailed),
            old(self)@.step is TarNdk || old(self)@.step is TarSdk || old(self)@.step is TarCache || old(self)@.step is Hash,
        ensures
            final(self)@.wf(),
            (final(self)@, a@) == publish_progress(old(self)@, event),
    {
        match self.step {
            PublishStep::TarNdk => match event {
                PublishEvent::Exited { success: true, .. } => {
                    let t = self.tarball(AssetKind::Sdk);
                    let note = concat("publish: packing SDK pieces -> ", t.as_str());
                    let p = join_path(self.android_home.as_str(), sdk_candidate_name(0));
                    let a = action1(note, PublishOp::CheckExists { path: p });
                    self.go(PublishStep::SdkDirExists(0), a)
                },
                PublishEvent::Exited { code, .. } => {
                    let t = self.tarball(AssetKind::Ndk);
                    self.fail(Publisher::tar_failed(t.as_str(), code))
                },
                _ => self.fail(Error::Io(String::new())),
            },
            PublishStep::TarSdk => match event {
                PublishEvent::Exited { success: true, .. } => {
                    let t = self.tarball(AssetKind::GradleCache);
                    let note = concat("publish: packing Gradle cache -> ", t.as_str());
                    let h = self.gradle_home();
                    let p = join_path(h.as_str(), cache_candidate_name(0));
                    let a = action1(note, PublishOp::CheckExists { path: p });
                    self.go(PublishStep::CacheDirExists(0), a)
                },
                PublishEvent::Exited { code, .. } => {
                    let t = self.tarball(AssetKind::Sdk);
                    self.fail(Publisher::tar_failed(t.as_str(), code))
                },
                _ => self.fail(Error::Io(String::new())),
            },
            PublishStep::TarCache => match event {
                PublishEvent::Exited { success: true, .. } => {
                    let a = action(PublishOp::Hash { path: self.tarball(all_kind(0)) });
                    self.go(PublishStep::Hash(0), a)
                },
                PublishEvent::Exited { code, .. } => {
                    let t = self.tarball(AssetKind::GradleCache);
                    self.fail(Publisher::tar_failed(t.as_str(), code))
                },
                _ => self.fail(Error::Io(String::new())),
            },
            PublishStep::Hash(i) => match event {
                PublishEvent::Hashed(h) => {
                    let ghost before = self.shas@;
                    self.shas.push(h);
                    proof {
                        crate::text::lemma_strings_push(before, self.shas@.last());
                        assert(self.shas@ == before.push(self.shas@.last()));
                    }
                    if i + 1 < 3 {
                        let a = action(PublishOp::Hash { path: self.tarball(all_kind(i + 1)) });
                        self.go(PublishStep::Hash(i + 1), a)
                    } else {
                        let manifest = Manifest {
                            agp_version: self.opts.pins.agp.clone(),
                            ndk_version: self.opts.pins.ndk.clone(),
                            gradle_version: self.opts.pins.gradle.clone(),
                            ndk_sha256: self.shas[0].clone(),
                            sdk_sha256: self.shas[1].clone(),
                            gradle_cache_sha256: self.shas[2].clone(),
                        };
                        let a = action(PublishOp::WriteManifest { path: self.manifest_path(), manifest });
                        self.go(PublishStep::WriteManifest, a)
                    }
                },
                _ => self.fail(Error::Io(String::new())),
            },
            _ => action(PublishOp::Finish),
        }
    }

    fn progress_release(&mut self, event: PublishEvent) -> (a: PublishAction)
        requires
            old(self)@.wf(),
            accepts(old(self)@.step, event),
            !(event is IoFailed),
            old(self)@.step is WriteManifest || old(self)@.step is ReportAssets || old(self)@.step is CreateRelease,
        ensures
            final(self)@.wf(),
            (final(self)@, a@) == publish_progress(old(self)@, event),
    {
        match self.step {
            PublishStep::WriteManifest => {
                let mp = self.manifest_path();
                let mut notes: Vec<String> = Vec::new();
                notes.push(concat("publish: wrote ", mp.as_str()));
                notes.push(String::new());
                assert(strings(notes) =~= seq!["publish: wrote "@ + self@.manifest_path(), seq![]]);
                let mut entries: Vec<(AssetKind, String, String)> = Vec::new();
                entries.push((AssetKind::Ndk, self.shas[0].clone(), self.tarball(AssetKind::Ndk)));
                entries.push((AssetKind::Sdk, self.shas[1].clone(), self.tarball(AssetKind::Sdk)));
                entries.push(
                    (AssetKind::GradleCache, self.shas[2].clone(), self.tarball(AssetKind::GradleCache)),
                );
                assert(entries_view(entries) =~= seq![
                    (AssetKind::Ndk, self@.shas[0], self@.tarball(AssetKind::Ndk)),
                    (AssetKind::Sdk, self@.shas[1], self@.tarball(AssetKind::Sdk)),
                    (AssetKind::GradleCache, self@.shas[2], self@.tarball(AssetKind::GradleCache)),
                ]);
                let a = PublishAction { notes, op: PublishOp::ReportAssets { entries } };
                self.go(PublishStep::ReportAssets, a)
            },
            PublishStep::ReportAssets => {
                if self.opts.skip_upload {
                    let a = action1(
                        "publish: --skip-upload set; stopping before gh release.".to_owned(),
                        PublishOp::Finish,
                    );
                    self.go(PublishStep::Done, a)
                } else {
                    let a = self.view_release();
                    self.go(PublishStep::ReleaseExists, a)
                }
            },
            PublishStep::CreateRelease => match event {
                PublishEvent::Exited { success: true, .. } => {
                    let t = tag(&self.opts.pins);
                    let mut note = concat("publish: https://github.com/", HOST);
                    note.append("/releases/tag/");
                    note.append(t.as_str());
                    let a = action1(note, PublishOp::Finish);
                    self.go(PublishStep::Done, a)
                },
                PublishEvent::Exited { code, .. } => {
                    let m = concat("gh release create failed with status ", status_message(code).as_str());
                    self.fail(Error::Other(m))
                },
                _ => self.fail(Error::Io(String::new())),
            },
            _ => action(PublishOp::Finish),
        }
    }

    fn progress(&mut self, event: PublishEvent) -> (a: PublishAction)
        requires
            old(self)@.wf(),
            accepts(old(self)@.step, event),
            !(event is IoFailed),
        ensures
            final(self)@.wf(),
            (final(self)@, a@) == publish_progress(old(self)@, event),
    {
        match self.step {
            PublishStep::CreateOutput | PublishStep::RemoveStaging | PublishStep::RemoveGradleHome | PublishStep::CreateGradleHome | PublishStep::CreateStaging | PublishStep::ExtractSample | PublishStep::ReadCatalog | PublishStep::WriteCatalog | PublishStep::WriteNdkVersion => self.progress_setup(event),
            PublishStep::DownloadGradle | PublishStep::UnzipGradle | PublishStep::RemoveZip | PublishStep::MakeExecutable | PublishStep::GradleWrapper | PublishStep::Gradlew => self.progress_gradle(event),
            PublishStep::TarNdk | PublishStep::TarSdk | PublishStep::TarCache | PublishStep::Hash(_) => self.progress_pack(event),
            PublishStep::WriteManifest | PublishStep::ReportAssets | PublishStep::CreateRelease => self.progress_release(event),
            _ => action(PublishOp::Finish),
        }
    }

}

/// A Gradle distribution already unpacked under the output directory is
/// reused: when its launcher `<output>/gradle-<version>/bin/gradle` exists,
/// nothing is downloaded, unzipped or written, and the wrapper is
/// bootstrapped with that same launcher, the one a fresh download would
/// have produced.
pub proof fn lemma_gradle_dist_reused(s: PublisherV)
    requires
        s.wf(),
        s.step == PublishStep::GradleBinExists,
    ensures
        ({
            let (t, a) = publish_next(s, PublishEvent::Exists(true));
            &&& t == s.at(PublishStep::GradleWrapper)
            &&& a.notes == seq!["publish: reusing gradle dist at "@ + s.dist_root(), s.wrapper_note()]
            &&& a.op == s.wrapper_op()
            &&& a.op matches OpV::Run { program, .. } && program == path_join(
                path_join(s.out, "gradle-"@ + s.pins.gradle),
                "bin/gradle"@,
            )
        }),
        PublisherV::check_gradle_bin(s).op == (OpV::CheckExists { path: s.gradle_bin() }),
        s.at(PublishStep::GradleBinExtracted).gradle_bin() == s.gradle_bin(),
{
}

/// The SDK pieces that a bundle packs: of `cmdline-tools`, `platform-tools`,
/// `build-tools` and `platforms`, in that order, those present under
/// `$ANDROID_HOME`. After the NDK tarball is packed, each of the four is
/// probed in turn under `$ANDROID_HOME`, and the SDK tarball then packs
/// exactly the ones found (`found[i]` says whether the `i`-th is there);
/// when none is, publishing stops.
pub proof fn lemma_sdk_pieces(s: PublisherV, code: Option<i32>, found: Seq<bool>)
    requires
        s.step == PublishStep::TarNdk,
        found.len() == 4,
    ensures
        ({
            let names = seq!["cmdline-tools"@, "platform-tools"@, "build-tools"@, "platforms"@];
            let (s0, a0) = publish_next(s, PublishEvent::Exited { success: true, code });
            let (s1, a1) = publish_next(s0, PublishEvent::Exists(found[0]));
            let (s2, a2) = publish_next(s1, PublishEvent::Exists(found[1]));
            let (s3, a3) = publish_next(s2, PublishEvent::Exists(found[2]));
            let (s4, a4) = publish_next(s3, PublishEvent::Exists(found[3]));
            let packed = s.sdk + (if found[0] { seq![names[0]] } else { seq![] }) + (if found[1] {
                seq![names[1]]
            } else {
                seq![]
            }) + (if found[2] { seq![names[2]] } else { seq![] }) + (if found[3] {
                seq![names[3]]
            } else {
                seq![]
            });
            &&& a0.op == OpV::CheckExists { path: path_join(s.android_home, names[0]) }
            &&& a1.op == OpV::CheckExists { path: path_join(s.android_home, names[1]) }
            &&& a2.op == OpV::CheckExists { path: path_join(s.android_home, names[2]) }
            &&& a3.op == OpV::CheckExists { path: path_join(s.android_home, names[3]) }
            &&& packed.len() > 0 ==> s4.step == PublishStep::TarSdk && a4.op == OpV::Run {
                program: "tar"@,
                args: seq![
                    "--zstd"@,
                    "-cf"@,
                    path_join(s.out, "sdk-pieces-linux-x86_64.tar.zst"@),
                    "-C"@,
                    s.android_home,
                ] + packed,
                dir: None,
                env: seq![],
                quiet: false,
            }
            &&& packed.len() == 0 ==> s4.step == PublishStep::Failed && a4.op is Fail
        }),
{
    let names = seq!["cmdline-tools"@, "platform-tools"@, "build-tools"@, "platforms"@];
    let (s0, a0) = publish_next(s, PublishEvent::Exited { success: true, code });
    let (s1, a1) = publish_next(s0, PublishEvent::Exists(found[0]));
    let (s2, a2) = publish_next(s1, PublishEvent::Exists(found[1]));
    let (s3, a3) = publish_next(s2, PublishEvent::Exists(found[2]));
    let (s4, a4) = publish_next(s3, PublishEvent::Exists(found[3]));
    let p0 = if found[0] { seq![names[0]] } else { seq![] };
    let p1 = if found[1] { seq![names[1]] } else { seq![] };
    let p2 = if found[2] { seq![names[2]] } else { seq![] };
    let p3 = if found[3] { seq![names[3]] } else { seq![] };
    assert(s0.step == PublishStep::SdkDirExists(0) && s0.sdk == s.sdk);
    assert(s1.step == PublishStep::SdkDirExists(1));
    assert(s1.sdk =~= s.sdk + p0);
    assert(s2.step == PublishStep::SdkDirExists(2));
    assert(s2.sdk =~= s.sdk + p0 + p1);
    assert(s3.step == PublishStep::SdkDirExists(3));
    assert(s3.sdk =~= s.sdk + p0 + p1 + p2);
    let packed = s.sdk + p0 + p1 + p2 + p3;
    assert(packed =~= if found[3] { s3.sdk.push(names[3]) } else { s3.sdk });
    assert(s.tarball(AssetKind::Sdk) == path_join(s.out, "sdk-pieces-linux-x86_64.tar.zst"@));
}

/// The operation runs `gh release ...`.
pub open spec fn touches_release(op: OpV) -> bool {
    op matches OpV::Run { program, args, .. } && program == "gh"@ && args.len() > 0 && args[0]
        == "release"@
}

/// Nothing is ever done to the GitHub release when `--skip-upload` is set,
/// and otherwise only once the assets are packed, hashed and recorded in
/// the manifest (the steps from reporting the assets on).
pub proof fn lemma_release_untouched_until_reported(s: PublisherV, e: PublishEvent)
    requires
        s.wf(),
        accepts(s.step, e),
        touches_release(publish_next(s, e).1.op),
    ensures
        !s.skip_upload,
        s.step == PublishStep::ReportAssets || s.step == PublishStep::ReleaseExists || s.step
            == PublishStep::DeleteRelease,
        s.shas.len() == 3,
{
    reveal_strlit("release");
    reveal_strlit("auth");
    reveal_strlit("--version");
    reveal_strlit("wrapper");
    reveal_strlit("--no-daemon");
    reveal_strlit("--zstd");
    assert("release"@[0] != "auth"@[0]);
    assert("release"@[0] != "--version"@[0]);
    assert("release"@[1] != "wrapper"@[1]);
    assert("release"@[0] != "--no-daemon"@[0]);
    assert("release"@[0] != "--zstd"@[0]);
    let op = publish_next(s, e).1.op;
    match s.step {
        PublishStep::ProbeTool(i) => {
            let found = match e {
                PublishEvent::Exited { success, .. } => success,
                _ => false,
            };
            let t = PublisherV { missing: if found { s.missing } else { s.missing.push(tool(i as int)) }, ..s };
            assert(publish_next(s, e) == after_probe(s, i as int, found));
            if i + 1 < 3 {
                assert(op == PublisherV::probe(i + 1).op);
                assert(seq!["--version"@][0] == "--version"@);
                assert(!touches_release(op));
            } else if t.missing.len() > 0 {
                assert(!touches_release(op));
            } else {
                assert(seq!["auth"@, "status"@][0] == "auth"@);
                assert(!touches_release(op));
            }
        },
        PublishStep::GradleBinExists | PublishStep::MakeExecutable => {
            assert(seq!["wrapper"@, "--gradle-version"@, s.pins.gradle, "--distribution-type"@, "bin"@][0]
                == "wrapper"@);
        },
        PublishStep::GradleWrapper => {
            assert(seq!["--no-daemon"@, "assembleDebug"@][0] == "--no-daemon"@);
        },
        PublishStep::Gradlew | PublishStep::SdkDirExists(_) | PublishStep::CacheDirExists(_) => {
            assert(forall|d: Seq<char>, dir: Seq<char>, sub: Seq<Seq<char>>|
                (seq!["--zstd"@, "-cf"@, d, "-C"@, dir] + sub)[0] == "--zstd"@);
        },
        _ => {},
    }
}

/// The manifest written records, for each asset, the sha256 reported for
/// that asset's tarball: the tarballs are hashed in the order of `ALL`,
/// the `j`-th digest reported being the `j`-th recorded.
pub proof fn lemma_manifest_records_hashes(s: PublisherV, e: PublishEvent)
    requires
        s.wf(),
        accepts(s.step, e),
    ensures
        ({
            let (t, a) = publish_next(s, e);
            &&& a.op matches OpV::Hash { path } ==> t.step == PublishStep::Hash(t.shas.len() as usize)
                && path == t.tarball(kind_at(t.shas.len() as int))
            &&& s.step is Hash ==> (e matches PublishEvent::Hashed(h) ==> t.shas == s.shas.push(h@))
            &&& a.op matches OpV::WriteManifest { path, manifest } ==> {
                &&& path == t.manifest_path()
                &&& t.shas.len() == 3
                &&& forall|j: int| 0 <= j < 3 ==> manifest.sha_of(#[trigger] kind_at(j)) == t.shas[j]
                &&& manifest.agp_version == s.pins.agp
                &&& manifest.ndk_version == s.pins.ndk
                &&& manifest.gradle_version == s.pins.gradle
            }
        }),
{
    let (t, a) = publish_next(s, e);
    if a.op is WriteManifest {
        assert(kind_at(0) == AssetKind::Ndk);
        assert(kind_at(1) == AssetKind::Sdk);
        assert(kind_at(2) == AssetKind::GradleCache);
    }
}

} // verus!
