//! Consumer hot path: from a cargo package name and the pins of the
//! Android project, decide what to install, what to build and how to
//! judge each outcome. Reading files, downloading, extracting and
//! running `cargo ndk` / `gradlew` are left to the caller, which performs
//! the actions decided here and reports back what happened.
use vstd::prelude::*;

use crate::document::{lookup, toml_entry, TomlEntry, TomlEntryV};
use crate::error::{Error, ErrorV};
use crate::manifest::{all_kind, kind_at, AssetKind, Manifest, ManifestV};
use crate::pins::{Pins, PinsV};
use crate::release::{asset_url, download_base, manifest_url, tag, tag_spec};
use crate::text::{
    assignments, chars_of, concat, join_path, path_join, push_char, push_range, same_text, strings,
    uppercase_chars, uppercase_of,
};

verus! {

broadcast use vstd::string::group_string_axioms;

/// kebab-case (or snake_case) to camelCase: separators (`-`, `_`) are
/// dropped and the character after one is upper-cased. `upper_next` says
/// whether a separator was just dropped.
pub open spec fn camel_from(s: Seq<char>, upper_next: bool) -> Seq<char>
    decreases s.len(),
{
    if s.len() == 0 {
        seq![]
    } else if s[0] == '-' || s[0] == '_' {
        camel_from(s.drop_first(), true)
    } else if upper_next {
        uppercase_of(s[0]) + camel_from(s.drop_first(), false)
    } else {
        seq![s[0]] + camel_from(s.drop_first(), false)
    }
}

/// The Gradle flavor inferred from a cargo package name.
pub open spec fn camel(s: Seq<char>) -> Seq<char> {
    camel_from(s, false)
}

/// `s` with its first character upper-cased.
pub open spec fn capitalized(s: Seq<char>) -> Seq<char> {
    if s.len() == 0 {
        seq![]
    } else {
        uppercase_of(s[0]) + s.drop_first()
    }
}

proof fn lemma_camel_step(s: Seq<char>, i: int, upper: bool)
    requires
        0 <= i < s.len(),
    ensures
        camel_from(s.skip(i), upper) == if s[i] == '-' || s[i] == '_' {
            camel_from(s.skip(i + 1), true)
        } else if upper {
            uppercase_of(s[i]) + camel_from(s.skip(i + 1), false)
        } else {
            seq![s[i]] + camel_from(s.skip(i + 1), false)
        },
{
    assert(s.skip(i).drop_first() =~= s.skip(i + 1));
    assert(s.skip(i)[0] == s[i]);
}

/// Appends all of `v` to `s`.
fn push_all(s: &mut String, v: &Vec<char>)
    ensures
        final(s)@ == old(s)@ + v@,
{
    push_range(s, v, 0, v.len());
    assert(v@.subrange(0, v.len() as int) =~= v@);
}

/// `hello-world` becomes `helloWorld`: the Gradle flavor for a cargo
/// package. The flavor holds no separator, so it is its own flavor.
pub fn kebab_to_camel(s: &str) -> (out: String)
    ensures
        out@ == camel(s@),
        separator_free(out@),
        camel(out@) == out@,
{
    let v = chars_of(s);
    let mut out = String::new();
    let mut upper_next = false;
    let mut i: usize = 0;
    assert(v@.skip(0) =~= v@);
    while i < v.len()
        invariant
            v@ == s@,
            i <= v.len(),
            camel(s@) == out@ + camel_from(v@.skip(i as int), upper_next),
            separator_free(out@),
        decreases v.len() - i,
    {
        let c = v[i];
        proof {
            lemma_camel_step(v@, i as int, upper_next);
        }
        if c == '-' || c == '_' {
            upper_next = true;
        } else if upper_next {
            let u = uppercase_chars(c);
            let ghost before = out@;
            push_all(&mut out, &u);
            assert forall|j: int| 0 <= j < out@.len() implies out@[j] != '-' && out@[j] != '_' by {
                if j >= before.len() {
                    assert(out@[j] == u@[j - before.len()]);
                } else {
                    assert(out@[j] == before[j]);
                }
            }
            assert(before + (u@ + camel_from(v@.skip(i + 1), false)) =~= out@ + camel_from(
                v@.skip(i + 1),
                false,
            ));
            upper_next = false;
        } else {
            let ghost before = out@;
            push_char(&mut out, c);
            assert forall|j: int| 0 <= j < out@.len() implies out@[j] != '-' && out@[j] != '_' by {
                if j < before.len() {
                    assert(out@[j] == before[j]);
                }
            }
            assert(before + (seq![c] + camel_from(v@.skip(i + 1), false)) =~= out@ + camel_from(
                v@.skip(i + 1),
                false,
            ));
        }
        i = i + 1;
    }
    assert(v@.skip(i as int) =~= Seq::<char>::empty());
    assert(out@ + Seq::<char>::empty() =~= out@);
    proof {
        lemma_camel_keeps_plain_names(out@);
    }
    out
}

/// `arenaZero` becomes `ArenaZero`.
pub fn capitalize_first(s: &str) -> (out: String)
    ensures
        out@ == capitalized(s@),
{
    let v = chars_of(s);
    if v.len() == 0 {
        return String::new();
    }
    let u = uppercase_chars(v[0]);
    let mut out = String::new();
    push_all(&mut out, &u);
    push_range(&mut out, &v, 1, v.len());
    assert(v@.subrange(1, v.len() as int) =~= v@.drop_first());
    out
}


/// Where an installation stands: what it waits to hear about.
#[derive(Debug, Clone, Copy, PartialEq, Eq)]
pub enum InstallStep {
    /// Whether the install marker exists.
    CheckMarker,
    /// The bundle's manifest.
    FetchManifest,
    /// The creation of the cache root.
    CreateRoot,
    /// The download (and digest) of the `i`-th asset of `ALL`.
    Download(usize),
    /// The extraction of the `i`-th asset of `ALL`.
    Extract(usize),
    /// The writing of the install marker.
    WriteMarker,
    /// Installed; nothing more to do.
    Done,
    /// Given up; nothing more to do.
    Failed,
}

/// What the caller reports after performing an [`InstallAction`].
#[derive(Debug)]
pub enum InstallEvent {
    /// Whether the install marker exists.
    MarkerChecked(bool),
    /// The manifest was downloaded and parsed.
    ManifestFetched(Manifest),
    /// The manifest was downloaded but does not parse; the parser's message.
    ManifestInvalid(String),
    /// The HTTP request failed: the status code when the server answered
    /// with an error status, and the failure's message.
    FetchFailed { status: Option<u16>, message: String },
    /// The asset was downloaded; the lower-case hex sha256 of its bytes.
    Downloaded { sha256: String },
    /// A file-system operation failed; its message.
    IoFailed(String),
    /// The requested step completed.
    Completed,
}

/// What the caller is asked to do next.
#[derive(Debug)]
pub enum InstallAction {
    /// Report whether the file `marker` exists.
    CheckMarker { marker: String },
    /// Download and parse the manifest at `url`.
    FetchManifest { url: String },
    /// Create the directory `root` and its parents.
    CreateRoot { root: String },
    /// Download `url` into the file `tmp`, hashing its bytes.
    Download { kind: AssetKind, url: String, tmp: String },
    /// Create `dest`, unpack the zstd-compressed tarball `tmp` into it
    /// (keeping permissions), then delete `tmp`.
    Extract { kind: AssetKind, tmp: String, dest: String },
    /// Delete `tmp` (ignoring any failure to), then stop with `error`.
    Reject { tmp: String, error: Error },
    /// Write `contents` to the file `marker`.
    WriteMarker { marker: String, contents: String },
    /// The toolchain is installed.
    Finish,
    /// Stop with this error.
    Fail(Error),
}

/// The content of an [`InstallAction`].
pub enum ActionV {
    CheckMarker { marker: Seq<char> },
    FetchManifest { url: Seq<char> },
    CreateRoot { root: Seq<char> },
    Download { kind: AssetKind, url: Seq<char>, tmp: Seq<char> },
    Extract { kind: AssetKind, tmp: Seq<char>, dest: Seq<char> },
    Reject { tmp: Seq<char>, error: ErrorV },
    WriteMarker { marker: Seq<char>, contents: Seq<char> },
    Finish,
    Fail(ErrorV),
}

impl View for InstallAction {
    type V = ActionV;

    open spec fn view(&self) -> ActionV {
        match self {
            InstallAction::CheckMarker { marker } => ActionV::CheckMarker { marker: marker@ },
            InstallAction::FetchManifest { url } => ActionV::FetchManifest { url: url@ },
            InstallAction::CreateRoot { root } => ActionV::CreateRoot { root: root@ },
            InstallAction::Download { kind, url, tmp } => ActionV::Download {
                kind: *kind,
                url: url@,
                tmp: tmp@,
            },
            InstallAction::Extract { kind, tmp, dest } => ActionV::Extract {
                kind: *kind,
                tmp: tmp@,
                dest: dest@,
            },
            InstallAction::Reject { tmp, error } => ActionV::Reject { tmp: tmp@, error: error@ },
            InstallAction::WriteMarker { marker, contents } => ActionV::WriteMarker {
                marker: marker@,
                contents: contents@,
            },
            InstallAction::Finish => ActionV::Finish,
            InstallAction::Fail(e) => ActionV::Fail(e@),
        }
    }
}

/// Installs the toolchain bundle of a pin tuple into its cache root, one
/// step at a time: once the cache root carries its install marker nothing
/// is downloaded; otherwise the manifest is fetched, each asset is
/// downloaded, checked against the manifest's sha256 and only then
/// extracted, and the marker is written last.
pub struct Installer {
    pins: Pins,
    root: String,
    manifest: Option<Manifest>,
    step: InstallStep,
}

/// The content of an [`Installer`].
pub struct InstallerV {
    pub pins: PinsV,
    pub root: Seq<char>,
    pub manifest: Option<ManifestV>,
    pub step: InstallStep,
}

impl View for Installer {
    type V = InstallerV;

    closed spec fn view(&self) -> InstallerV {
        InstallerV {
            pins: self.pins@,
            root: self.root@,
            manifest: match self.manifest {
                Some(m) => Some(m@),
                None => None,
            },
            step: self.step,
        }
    }
}

/// The install marker under a cache root.
pub open spec fn marker_of(root: Seq<char>) -> Seq<char> {
    path_join(root, ".installed"@)
}

/// Where an asset is downloaded to before it is checked.
pub open spec fn tmp_of(root: Seq<char>, kind: AssetKind) -> Seq<char> {
    path_join(root, ".download."@ + kind.name_spec())
}

/// Where an asset is extracted.
pub open spec fn dest_of(root: Seq<char>, kind: AssetKind) -> Seq<char> {
    path_join(root, kind.extract_into_spec())
}

/// The URL of an asset of a pin tuple's bundle.
pub open spec fn asset_url_of(p: PinsV, kind: AssetKind) -> Seq<char> {
    download_base(p) + kind.filename_spec()
}

/// The URL of a pin tuple's manifest.
pub open spec fn manifest_url_of(p: PinsV) -> Seq<char> {
    download_base(p) + "manifest.toml"@
}

impl InstallerV {
    /// The state invariant: the manifest is known from the creation of the
    /// cache root on, and asset positions stay within `ALL`.
    pub open spec fn wf(self) -> bool {
        &&& match self.step {
            InstallStep::CreateRoot | InstallStep::WriteMarker => self.manifest is Some,
            InstallStep::Download(i) | InstallStep::Extract(i) => self.manifest is Some && i < 3,
            _ => true,
        }
    }

    pub open spec fn with_step(self, step: InstallStep) -> InstallerV {
        InstallerV { step, ..self }
    }

    /// The request to download the `i`-th asset.
    pub open spec fn download(self, i: int) -> ActionV {
        ActionV::Download {
            kind: kind_at(i),
            url: asset_url_of(self.pins, kind_at(i)),
            tmp: tmp_of(self.root, kind_at(i)),
        }
    }
}

/// Whether the installer, at `step`, can take `e`: the events that the
/// action issued at that step can lead to.
pub open spec fn accepts(step: InstallStep, e: InstallEvent) -> bool {
    match step {
        InstallStep::CheckMarker => e is MarkerChecked,
        InstallStep::FetchManifest => e is ManifestFetched || e is ManifestInvalid || e is FetchFailed
            || e is IoFailed,
        InstallStep::Download(_) => e is Downloaded || e is FetchFailed || e is IoFailed,
        InstallStep::CreateRoot | InstallStep::Extract(_) | InstallStep::WriteMarker => e is Completed
            || e is IoFailed,
        InstallStep::Done | InstallStep::Failed => false,
    }
}

/// The installer's transitions: from a state and an event, the next state
/// and what to do.
pub open spec fn install_next(s: InstallerV, e: InstallEvent) -> (InstallerV, ActionV) {
    let failed = s.with_step(InstallStep::Failed);
    match e {
        InstallEvent::IoFailed(m) => (failed, ActionV::Fail(ErrorV::Io(m@))),
        InstallEvent::MarkerChecked(present) => if present {
            (s.with_step(InstallStep::Done), ActionV::Finish)
        } else {
            (
                s.with_step(InstallStep::FetchManifest),
                ActionV::FetchManifest { url: manifest_url_of(s.pins) },
            )
        },
        InstallEvent::ManifestFetched(m) => (
            InstallerV { manifest: Some(m@), step: InstallStep::CreateRoot, ..s },
            ActionV::CreateRoot { root: s.root },
        ),
        InstallEvent::ManifestInvalid(m) => (
            failed,
            ActionV::Fail(ErrorV::Other("manifest parse: "@ + m@)),
        ),
        InstallEvent::FetchFailed { status, message } => match s.step {
            InstallStep::Download(i) => (
                failed,
                ActionV::Fail(
                    ErrorV::Network { url: asset_url_of(s.pins, kind_at(i as int)), source: message@ },
                ),
            ),
            _ => if status == Some(404u16) {
                (
                    failed,
                    ActionV::Fail(
                        ErrorV::NoBundle {
                            agp: s.pins.agp,
                            ndk: s.pins.ndk,
                            gradle: s.pins.gradle,
                            url: manifest_url_of(s.pins),
                        },
                    ),
                )
            } else {
                (
                    failed,
                    ActionV::Fail(ErrorV::Network { url: manifest_url_of(s.pins), source: message@ }),
                )
            },
        },
        InstallEvent::Downloaded { sha256 } => {
            let i = s.step->Download_0 as int;
            let kind = kind_at(i);
            let expected = s.manifest->0.sha_of(kind);
            if sha256@ == expected {
                (
                    s.with_step(InstallStep::Extract(i as usize)),
                    ActionV::Extract { kind, tmp: tmp_of(s.root, kind), dest: dest_of(s.root, kind) },
                )
            } else {
                (
                    failed,
                    ActionV::Reject {
                        tmp: tmp_of(s.root, kind),
                        error: ErrorV::ChecksumMismatch {
                            asset: kind.name_spec(),
                            expected,
                            actual: sha256@,
                            tag: tag_spec(s.pins),
                        },
                    },
                )
            }
        },
        InstallEvent::Completed => match s.step {
            InstallStep::CreateRoot => (s.with_step(InstallStep::Download(0)), s.download(0)),
            InstallStep::Extract(i) => if i + 1 < 3 {
                (s.with_step(InstallStep::Download((i + 1) as usize)), s.download(i + 1))
            } else {
                (
                    s.with_step(InstallStep::WriteMarker),
                    ActionV::WriteMarker { marker: marker_of(s.root), contents: tag_spec(s.pins) },
                )
            },
            _ => (s.with_step(InstallStep::Done), ActionV::Finish),
        },
    }
}

impl Installer {
    /// Starts installing the bundle of `pins` into the cache root `root`:
    /// the first thing to find out is whether it is already installed.
    pub fn new(pins: Pins, root: String) -> (r: (Installer, InstallAction))
        ensures
            r.0@ == (InstallerV { pins: pins@, root: root@, manifest: None, step: InstallStep::CheckMarker }),
            r.1@ == (ActionV::CheckMarker { marker: marker_of(root@) }),
    {
        let marker = join_path(root.as_str(), ".installed");
        (Installer { pins, root, manifest: None, step: InstallStep::CheckMarker }, InstallAction::CheckMarker { marker })
    }

    /// What the installer waits for.
    pub fn step(&self) -> (s: InstallStep)
        ensures
            s == self@.step,
    {
        self.step
    }

    /// Whether the installer can take `event` now: whether `event` is one
    /// that the last action can lead to.
    pub fn takes(&self, event: &InstallEvent) -> (b: bool)
        ensures
            b == accepts(self@.step, *event),
    {
        match self.step {
            InstallStep::CheckMarker => matches!(event, InstallEvent::MarkerChecked(_)),
            InstallStep::FetchManifest => match event {
                InstallEvent::ManifestFetched(_) | InstallEvent::ManifestInvalid(_)
                | InstallEvent::FetchFailed { .. } | InstallEvent::IoFailed(_) => true,
                _ => false,
            },
            InstallStep::Download(_) => match event {
                InstallEvent::Downloaded { .. } | InstallEvent::FetchFailed { .. }
                | InstallEvent::IoFailed(_) => true,
                _ => false,
            },
            InstallStep::CreateRoot | InstallStep::Extract(_) | InstallStep::WriteMarker => match event {
                InstallEvent::Completed | InstallEvent::IoFailed(_) => true,
                _ => false,
            },
            InstallStep::Done | InstallStep::Failed => false,
        }
    }

    fn download_action(&self, i: usize) -> (a: InstallAction)
        requires
            i < 3,
        ensures
            a@ == self@.download(i as int),
    {
        let kind = all_kind(i);
        let url = asset_url(&self.pins, kind);
        let name = concat(".download.", kind.as_str());
        let tmp = join_path(self.root.as_str(), name.as_str());
        InstallAction::Download { kind, url, tmp }
    }

    /// Takes what happened to the last action and decides the next one.
    pub fn advance(&mut self, event: InstallEvent) -> (a: InstallAction)
        requires
            old(self)@.wf(),
            accepts(old(self)@.step, event),
        ensures
            final(self)@.wf(),
            (final(self)@, a@) == install_next(old(self)@, event),
    {
        match event {
            InstallEvent::IoFailed(m) => {
                self.step = InstallStep::Failed;
                InstallAction::Fail(Error::Io(m))
            },
            InstallEvent::MarkerChecked(present) => {
                if present {
                    self.step = InstallStep::Done;
                    InstallAction::Finish
                } else {
                    self.step = InstallStep::FetchManifest;
                    InstallAction::FetchManifest { url: manifest_url(&self.pins) }
                }
            },
            InstallEvent::ManifestFetched(m) => {
                self.manifest = Some(m);
                self.step = InstallStep::CreateRoot;
                InstallAction::CreateRoot { root: self.root.clone() }
            },
            InstallEvent::ManifestInvalid(m) => {
                self.step = InstallStep::Failed;
                InstallAction::Fail(Error::Other(concat("manifest parse: ", m.as_str())))
            },
            InstallEvent::FetchFailed { status, message } => {
                let error = match self.step {
                    InstallStep::Download(i) => Error::Network {
                        url: asset_url(&self.pins, all_kind(i)),
                        source: message,
                    },
                    _ => {
                        let url = manifest_url(&self.pins);
                        if status == Some(404u16) {
                            Error::NoBundle {
                                agp: self.pins.agp.clone(),
                                ndk: self.pins.ndk.clone(),
                                gradle: self.pins.gradle.clone(),
                                url,
                            }
                        } else {
                            Error::Network { url, source: message }
                        }
                    },
                };
                self.step = InstallStep::Failed;
                InstallAction::Fail(error)
            },
            InstallEvent::Downloaded { sha256 } => {
                let i = match self.step {
                    InstallStep::Download(i) => i,
                    _ => 0,
                };
                let kind = all_kind(i);
                let name = concat(".download.", kind.as_str());
                let tmp = join_path(self.root.as_str(), name.as_str());
                let expected = match &self.manifest {
                    Some(m) => m.sha256_for(kind).to_owned(),
                    None => String::new(),
                };
                if same_text(sha256.as_str(), expected.as_str()) {
                    let dest = join_path(self.root.as_str(), kind.extract_into());
                    self.step = InstallStep::Extract(i);
                    InstallAction::Extract { kind, tmp, dest }
                } else {
                    self.step = InstallStep::Failed;
                    InstallAction::Reject {
                        tmp,
                        error: Error::ChecksumMismatch {
                            asset: kind.as_str().to_owned(),
                            expected,
                            actual: sha256,
                            tag: tag(&self.pins),
                        },
                    }
                }
            },
            InstallEvent::Completed => {
                match self.step {
                    InstallStep::CreateRoot => {
                        self.step = InstallStep::Download(0);
                        self.download_action(0)
                    },
                    InstallStep::Extract(i) => {
                        if i + 1 < 3 {
                            self.step = InstallStep::Download(i + 1);
                            self.download_action(i + 1)
                        } else {
                            self.step = InstallStep::WriteMarker;
                            let marker = join_path(self.root.as_str(), ".installed");
                            InstallAction::WriteMarker { marker, contents: tag(&self.pins) }
                        }
                    },
                    _ => {
                        self.step = InstallStep::Done;
                        InstallAction::Finish
                    },
                }
            },
        }
    }
}


/// Everything `verify` needs to build the debug APK of a package.
pub struct BuildPlan {
    /// The Gradle product flavor (the package name, kebab to camel).
    pub flavor: String,
    /// Where `cargo ndk` puts the built libraries.
    pub jnilibs: String,
    /// Arguments to `cargo`.
    pub cargo_args: Vec<String>,
    /// Environment of `cargo ndk`.
    pub cargo_env: Vec<(String, String)>,
    /// The Gradle wrapper of the Android project.
    pub gradlew: String,
    /// Arguments to the Gradle wrapper.
    pub gradle_args: Vec<String>,
    /// Environment of the Gradle wrapper.
    pub gradle_env: Vec<(String, String)>,
    /// Where the debug APK is expected.
    pub apk: String,
}

/// `assemble<Flavor>Debug`.
pub open spec fn gradle_task(flavor: Seq<char>) -> Seq<char> {
    "assemble"@ + capitalized(flavor) + "Debug"@
}

/// `<android-project>/app/src/<flavor>/jniLibs`.
pub open spec fn jnilibs_of(project: Seq<char>, flavor: Seq<char>) -> Seq<char> {
    path_join(path_join(path_join(project, "app/src"@), flavor), "jniLibs"@)
}

/// `<android-project>/app/build/outputs/apk/<flavor>/debug/app-<flavor>-debug.apk`.
pub open spec fn apk_of(project: Seq<char>, flavor: Seq<char>) -> Seq<char> {
    path_join(
        project,
        "app/build/outputs/apk/"@ + flavor + "/debug/app-"@ + flavor + "-debug.apk"@,
    )
}

impl BuildPlan {
    /// The plan for `package` in the Android project `project`, with the
    /// bundle's Android home, Gradle user home and NDK home.
    pub open spec fn is_plan_for(
        self,
        package: Seq<char>,
        project: Seq<char>,
        android_home: Seq<char>,
        gradle_home: Seq<char>,
        ndk_home: Seq<char>,
    ) -> bool {
        let flavor = camel(package);
        &&& self.flavor@ == flavor
        &&& self.jnilibs@ == jnilibs_of(project, flavor)
        &&& strings(self.cargo_args) == seq![
            "ndk"@,
            "-t"@,
            "arm64-v8a"@,
            "-o"@,
            jnilibs_of(project, flavor),
            "build"@,
            "--release"@,
            "-p"@,
            package,
        ]
        &&& assignments(self.cargo_env) == seq![
            ("ANDROID_NDK_HOME"@, ndk_home),
            ("ANDROID_NDK_ROOT"@, ndk_home),
        ]
        &&& self.gradlew@ == path_join(project, "gradlew"@)
        &&& strings(self.gradle_args) == seq!["--offline"@, "--no-daemon"@, gradle_task(flavor)]
        &&& assignments(self.gradle_env) == seq![
            ("ANDROID_HOME"@, android_home),
            ("ANDROID_SDK_ROOT"@, android_home),
            ("GRADLE_USER_HOME"@, gradle_home),
            ("ANDROID_NDK_HOME"@, ndk_home),
        ]
        &&& self.apk@ == apk_of(project, flavor)
    }
}

fn pair(k: &str, v: &str) -> (p: (String, String))
    ensures
        p.0@ == k@,
        p.1@ == v@,
{
    (k.to_owned(), v.to_owned())
}

/// Lays out the build of `package` in the Android project
/// `android_project`, given the bundle's Android home, Gradle user home
/// and NDK home.
pub fn plan_build(
    package: &str,
    android_project: &str,
    android_home: &str,
    gradle_home: &str,
    ndk_home: &str,
) -> (plan: BuildPlan)
    ensures
        plan.is_plan_for(package@, android_project@, android_home@, gradle_home@, ndk_home@),
{
    let flavor = kebab_to_camel(package);
    let src = join_path(android_project, "app/src");
    let fl = join_path(src.as_str(), flavor.as_str());
    let jnilibs = join_path(fl.as_str(), "jniLibs");
    let mut cargo_args: Vec<String> = Vec::new();
    cargo_args.push("ndk".to_owned());
    cargo_args.push("-t".to_owned());
    cargo_args.push("arm64-v8a".to_owned());
    cargo_args.push("-o".to_owned());
    cargo_args.push(jnilibs.clone());
    cargo_args.push("build".to_owned());
    cargo_args.push("--release".to_owned());
    cargo_args.push("-p".to_owned());
    cargo_args.push(package.to_owned());
    let mut cargo_env: Vec<(String, String)> = Vec::new();
    cargo_env.push(pair("ANDROID_NDK_HOME", ndk_home));
    cargo_env.push(pair("ANDROID_NDK_ROOT", ndk_home));
    let cap = capitalize_first(flavor.as_str());
    let mut task = concat("assemble", cap.as_str());
    task.append("Debug");
    let mut gradle_args: Vec<String> = Vec::new();
    gradle_args.push("--offline".to_owned());
    gradle_args.push("--no-daemon".to_owned());
    gradle_args.push(task);
    let mut gradle_env: Vec<(String, String)> = Vec::new();
    gradle_env.push(pair("ANDROID_HOME", android_home));
    gradle_env.push(pair("ANDROID_SDK_ROOT", android_home));
    gradle_env.push(pair("GRADLE_USER_HOME", gradle_home));
    gradle_env.push(pair("ANDROID_NDK_HOME", ndk_home));
    let gradlew = join_path(android_project, "gradlew");
    let mut rel = concat("app/build/outputs/apk/", flavor.as_str());
    rel.append("/debug/app-");
    rel.append(flavor.as_str());
    rel.append("-debug.apk");
    let apk = join_path(android_project, rel.as_str());
    let plan = BuildPlan {
        flavor,
        jnilibs,
        cargo_args,
        cargo_env,
        gradlew,
        gradle_args,
        gradle_env,
        apk,
    };
    assert(strings(plan.cargo_args) =~= seq![
        "ndk"@,
        "-t"@,
        "arm64-v8a"@,
        "-o"@,
        jnilibs_of(android_project@, camel(package@)),
        "build"@,
        "--release"@,
        "-p"@,
        package@,
    ]);
    assert(assignments(plan.cargo_env) =~= seq![
        ("ANDROID_NDK_HOME"@, ndk_home@),
        ("ANDROID_NDK_ROOT"@, ndk_home@),
    ]);
    assert(strings(plan.gradle_args) =~= seq![
        "--offline"@,
        "--no-daemon"@,
        gradle_task(camel(package@)),
    ]);
    assert(assignments(plan.gradle_env) =~= seq![
        ("ANDROID_HOME"@, android_home@),
        ("ANDROID_SDK_ROOT"@, android_home@),
        ("GRADLE_USER_HOME"@, gradle_home@),
        ("ANDROID_NDK_HOME"@, ndk_home@),
    ]);
    plan
}

/// The exit code reported for a process: its code, or -1 when it has none
/// (it was killed by a signal).
pub open spec fn exit_code(code: Option<i32>) -> i32 {
    match code {
        Some(c) => c,
        None => -1i32,
    }
}

/// The outcome of `cargo ndk`, from its exit status: failure carries the
/// exit code, or -1 when it was killed by a signal.
pub fn cargo_ndk_outcome(success: bool, code: Option<i32>) -> (r: Result<(), Error>)
    ensures
        crate::error::unit_result(r) == (if success { Ok(()) } else { Err(ErrorV::CargoNdkFailed(exit_code(code))) }),
{
    if success {
        Ok(())
    } else {
        Err(Error::CargoNdkFailed(code.unwrap_or(-1)))
    }
}

/// The outcome of the Gradle wrapper, from its exit status.
pub fn gradle_outcome(success: bool, code: Option<i32>) -> (r: Result<(), Error>)
    ensures
        crate::error::unit_result(r) == (if success { Ok(()) } else { Err(ErrorV::GradleFailed(exit_code(code))) }),
{
    if success {
        Ok(())
    } else {
        Err(Error::GradleFailed(code.unwrap_or(-1)))
    }
}

/// The build is good when the APK is where it is expected.
pub fn apk_outcome(exists: bool, apk: &str) -> (r: Result<(), Error>)
    ensures
        crate::error::unit_result(r) == (if exists { Ok(()) } else { Err(ErrorV::ApkNotFound(apk@)) }),
{
    if exists {
        Ok(())
    } else {
        Err(Error::ApkNotFound(apk.to_owned()))
    }
}


/// Where a build stands: what it waits to hear about.
#[derive(Debug, Clone, Copy, PartialEq, Eq)]
pub enum BuildStep {
    /// The creation of the `jniLibs` directory.
    CreateJniLibs,
    /// The exit of `cargo ndk`.
    CargoNdk,
    /// The exit of the Gradle wrapper.
    Gradle,
    /// Whether the APK exists.
    CheckApk,
    /// Built; nothing more to do.
    Done,
    /// Given up; nothing more to do.
    Failed,
}

/// What the caller reports after performing a [`BuildAction`].
#[derive(Debug)]
pub enum BuildEvent {
    /// The directory was created.
    Completed,
    /// The directory could not be created, or the program could not be
    /// started; the failure's message.
    IoFailed(String),
    /// The program ran to its end.
    Exited { success: bool, code: Option<i32> },
    /// Whether the file exists.
    Exists(bool),
}

/// What the caller is asked to do next.
#[derive(Debug)]
pub enum BuildAction {
    /// Create the directory `path` and its parents.
    CreateDir { path: String },
    /// Show `note`, then run `program` with `args` in the directory `dir`,
    /// with `env` added to its environment.
    Run { note: String, program: String, args: Vec<String>, env: Vec<(String, String)>, dir: String },
    /// Report whether the file `path` exists.
    CheckExists { path: String },
    /// The APK is built; show `note`.
    Finish { note: String },
    /// Stop with this error.
    Fail(Error),
}

/// The content of a [`BuildAction`].
pub enum BuildActionV {
    CreateDir { path: Seq<char> },
    Run {
        note: Seq<char>,
        program: Seq<char>,
        args: Seq<Seq<char>>,
        env: Seq<(Seq<char>, Seq<char>)>,
        dir: Seq<char>,
    },
    CheckExists { path: Seq<char> },
    Finish { note: Seq<char> },
    Fail(ErrorV),
}

impl View for BuildAction {
    type V = BuildActionV;

    open spec fn view(&self) -> BuildActionV {
        match self {
            BuildAction::CreateDir { path } => BuildActionV::CreateDir { path: path@ },
            BuildAction::Run { note, program, args, env, dir } => BuildActionV::Run {
                note: note@,
                program: program@,
                args: strings(*args),
                env: assignments(*env),
                dir: dir@,
            },
            BuildAction::CheckExists { path } => BuildActionV::CheckExists { path: path@ },
            BuildAction::Finish { note } => BuildActionV::Finish { note: note@ },
            BuildAction::Fail(e) => BuildActionV::Fail(e@),
        }
    }
}

/// Builds the debug APK of a package, one step at a time: `cargo ndk`
/// builds the package's libraries into the Android project's `jniLibs`
/// from the workspace root, then, only if it succeeded, the Gradle wrapper
/// assembles the flavor offline in the Android project, and last the APK
/// is looked for.
pub struct Builder {
    package: String,
    project: String,
    workspace: String,
    android_home: String,
    gradle_home: String,
    ndk_home: String,
    step: BuildStep,
}

/// The content of a [`Builder`].
pub struct BuilderV {
    pub package: Seq<char>,
    pub project: Seq<char>,
    pub workspace: Seq<char>,
    pub android_home: Seq<char>,
    pub gradle_home: Seq<char>,
    pub ndk_home: Seq<char>,
    pub step: BuildStep,
}

impl View for Builder {
    type V = BuilderV;

    closed spec fn view(&self) -> BuilderV {
        BuilderV {
            package: self.package@,
            project: self.project@,
            workspace: self.workspace@,
            android_home: self.android_home@,
            gradle_home: self.gradle_home@,
            ndk_home: self.ndk_home@,
            step: self.step,
        }
    }
}

impl BuilderV {
    pub open spec fn at(self, step: BuildStep) -> BuilderV {
        BuilderV { step, ..self }
    }

    pub open spec fn flavor(self) -> Seq<char> {
        camel(self.package)
    }

    pub open spec fn apk(self) -> Seq<char> {
        apk_of(self.project, self.flavor())
    }

    /// `cargo ndk -t arm64-v8a -o <jniLibs> build --release -p <package>`,
    /// run in the workspace root with the bundle's NDK.
    pub open spec fn cargo_run(self) -> BuildActionV {
        BuildActionV::Run {
            note: "cargo-agdk: cargo ndk -t arm64-v8a build --release -p "@ + self.package,
            program: "cargo"@,
            args: seq![
                "ndk"@,
                "-t"@,
                "arm64-v8a"@,
                "-o"@,
                jnilibs_of(self.project, self.flavor()),
                "build"@,
                "--release"@,
                "-p"@,
                self.package,
            ],
            env: seq![("ANDROID_NDK_HOME"@, self.ndk_home), ("ANDROID_NDK_ROOT"@, self.ndk_home)],
            dir: self.workspace,
        }
    }

    /// `<android-project>/gradlew --offline --no-daemon assemble<Flavor>Debug`,
    /// run in the Android project with the bundle's homes.
    pub open spec fn gradle_run(self) -> BuildActionV {
        BuildActionV::Run {
            note: "cargo-agdk: ./gradlew --offline --no-daemon "@ + gradle_task(self.flavor()),
            program: path_join(self.project, "gradlew"@),
            args: seq!["--offline"@, "--no-daemon"@, gradle_task(self.flavor())],
            env: seq![
                ("ANDROID_HOME"@, self.android_home),
                ("ANDROID_SDK_ROOT"@, self.android_home),
                ("GRADLE_USER_HOME"@, self.gradle_home),
                ("ANDROID_NDK_HOME"@, self.ndk_home),
            ],
            dir: self.project,
        }
    }
}

/// Whether the builder, at `step`, can take `e`.
pub open spec fn build_accepts(step: BuildStep, e: BuildEvent) -> bool {
    match step {
        BuildStep::CreateJniLibs => e is Completed || e is IoFailed,
        BuildStep::CargoNdk | BuildStep::Gradle => e is Exited || e is IoFailed,
        BuildStep::CheckApk => e is Exists,
        BuildStep::Done | BuildStep::Failed => false,
    }
}

/// The build's transitions: from a state and an event, the next state and
/// what to do.
pub open spec fn build_next(s: BuilderV, e: BuildEvent) -> (BuilderV, BuildActionV) {
    match e {
        BuildEvent::IoFailed(m) => (s.at(BuildStep::Failed), BuildActionV::Fail(ErrorV::Io(m@))),
        BuildEvent::Completed => (s.at(BuildStep::CargoNdk), s.cargo_run()),
        BuildEvent::Exited { success, code } => if s.step == BuildStep::CargoNdk {
            if success {
                (s.at(BuildStep::Gradle), s.gradle_run())
            } else {
                (s.at(BuildStep::Failed), BuildActionV::Fail(ErrorV::CargoNdkFailed(exit_code(code))))
            }
        } else {
            if success {
                (s.at(BuildStep::CheckApk), BuildActionV::CheckExists { path: s.apk() })
            } else {
                (s.at(BuildStep::Failed), BuildActionV::Fail(ErrorV::GradleFailed(exit_code(code))))
            }
        },
        BuildEvent::Exists(present) => if present {
            (s.at(BuildStep::Done), BuildActionV::Finish { note: "cargo-agdk: OK \u{2014} APK at "@ + s.apk() })
        } else {
            (s.at(BuildStep::Failed), BuildActionV::Fail(ErrorV::ApkNotFound(s.apk())))
        },
    }
}

/// The build runs in order: `cargo ndk` first, in the workspace root, once
/// the `jniLibs` directory exists; the Gradle wrapper only after `cargo ndk`
/// succeeded, in the Android project; the APK is looked for only after the
/// wrapper succeeded, and the build is done only when it is there.
pub proof fn lemma_build_order(s: BuilderV, e: BuildEvent)
    requires
        build_accepts(s.step, e),
    ensures
        ({
            let (t, a) = build_next(s, e);
            &&& a is Run ==> (s.step == BuildStep::CreateJniLibs && e is Completed && a == s.cargo_run()
                && t.step == BuildStep::CargoNdk) || (s.step == BuildStep::CargoNdk
                && (e matches BuildEvent::Exited { success: true, .. }) && a == s.gradle_run()
                && t.step == BuildStep::Gradle)
            &&& a is CheckExists ==> (s.step == BuildStep::Gradle && (e matches BuildEvent::Exited {
                success: true,
                ..
            }))
            &&& a is Finish ==> s.step == BuildStep::CheckApk && e == BuildEvent::Exists(true)
            &&& (s.step == BuildStep::CargoNdk && e is Exited && !e->success) ==> a == BuildActionV::Fail(
                ErrorV::CargoNdkFailed(exit_code(e->code)),
            ) && t.step == BuildStep::Failed
        }),
{
}

/// The value an environment gives `key`: the last assignment of it wins,
/// as with repeated `Command::env`.
pub open spec fn env_value(env: Seq<(Seq<char>, Seq<char>)>, key: Seq<char>) -> Option<Seq<char>>
    decreases env.len(),
{
    if env.len() == 0 {
        None
    } else if env.last().0 == key {
        Some(env.last().1)
    } else {
        env_value(env.drop_last(), key)
    }
}

/// The programs of a build see the bundle's toolchain. `cargo ndk` runs
/// in the workspace root with `ANDROID_NDK_HOME` and `ANDROID_NDK_ROOT` set
/// to the NDK home; after it succeeded, the Gradle wrapper runs in the
/// Android project with `ANDROID_HOME` and `ANDROID_SDK_ROOT` set to the
/// Android home, `GRADLE_USER_HOME` to the Gradle user home and
/// `ANDROID_NDK_HOME` to the NDK home. Both runs are the ones that
/// [`plan_build`] lays out for the same inputs.
pub proof fn lemma_build_environments(s: BuilderV, plan: BuildPlan, code: Option<i32>)
    requires
        plan.is_plan_for(s.package, s.project, s.android_home, s.gradle_home, s.ndk_home),
    ensures
        build_next(s.at(BuildStep::CreateJniLibs), BuildEvent::Completed).1 matches BuildActionV::Run {
            program,
            args,
            env,
            dir,
            ..
        } && program == "cargo"@ && args == strings(plan.cargo_args) && env == assignments(
            plan.cargo_env,
        ) && dir == s.workspace && env_value(env, "ANDROID_NDK_HOME"@) == Some(s.ndk_home)
            && env_value(env, "ANDROID_NDK_ROOT"@) == Some(s.ndk_home),
        build_next(s.at(BuildStep::CargoNdk), BuildEvent::Exited { success: true, code }).1 matches BuildActionV::Run {
            program,
            args,
            env,
            dir,
            ..
        } && program == plan.gradlew@ && args == strings(plan.gradle_args) && env == assignments(
            plan.gradle_env,
        ) && dir == s.project && env_value(env, "ANDROID_HOME"@) == Some(s.android_home)
            && env_value(env, "ANDROID_SDK_ROOT"@) == Some(s.android_home) && env_value(
            env,
            "GRADLE_USER_HOME"@,
        ) == Some(s.gradle_home) && env_value(env, "ANDROID_NDK_HOME"@) == Some(s.ndk_home),
{
    reveal_strlit("ANDROID_NDK_HOME");
    reveal_strlit("ANDROID_NDK_ROOT");
    reveal_strlit("ANDROID_HOME");
    reveal_strlit("ANDROID_SDK_ROOT");
    reveal_strlit("GRADLE_USER_HOME");
    let ce = seq![("ANDROID_NDK_HOME"@, s.ndk_home), ("ANDROID_NDK_ROOT"@, s.ndk_home)];
    assert("ANDROID_NDK_ROOT"@ != "ANDROID_NDK_HOME"@) by {
        assert("ANDROID_NDK_ROOT"@[12] != "ANDROID_NDK_HOME"@[12]);
    }
    assert(ce.drop_last() =~= seq![("ANDROID_NDK_HOME"@, s.ndk_home)]);
    assert(ce.drop_last().drop_last() =~= Seq::<(Seq<char>, Seq<char>)>::empty());
    let ge = seq![
        ("ANDROID_HOME"@, s.android_home),
        ("ANDROID_SDK_ROOT"@, s.android_home),
        ("GRADLE_USER_HOME"@, s.gradle_home),
        ("ANDROID_NDK_HOME"@, s.ndk_home),
    ];
    let g3 = ge.drop_last();
    let g2 = g3.drop_last();
    let g1 = g2.drop_last();
    assert(g3 =~= seq![
        ("ANDROID_HOME"@, s.android_home),
        ("ANDROID_SDK_ROOT"@, s.android_home),
        ("GRADLE_USER_HOME"@, s.gradle_home),
    ]);
    assert(g2 =~= seq![("ANDROID_HOME"@, s.android_home), ("ANDROID_SDK_ROOT"@, s.android_home)]);
    assert(g1 =~= seq![("ANDROID_HOME"@, s.android_home)]);
    assert("ANDROID_HOME"@ != "ANDROID_NDK_HOME"@) by {
        assert("ANDROID_HOME"@.len() != "ANDROID_NDK_HOME"@.len());
    }
    assert("ANDROID_SDK_ROOT"@ != "ANDROID_NDK_HOME"@) by {
        assert("ANDROID_SDK_ROOT"@[8] != "ANDROID_NDK_HOME"@[8]);
    }
    assert("GRADLE_USER_HOME"@ != "ANDROID_NDK_HOME"@) by {
        assert("GRADLE_USER_HOME"@[0] != "ANDROID_NDK_HOME"@[0]);
    }
    assert("ANDROID_HOME"@ != "GRADLE_USER_HOME"@) by {
        assert("ANDROID_HOME"@[0] != "GRADLE_USER_HOME"@[0]);
    }
    assert("ANDROID_SDK_ROOT"@ != "GRADLE_USER_HOME"@) by {
        assert("ANDROID_SDK_ROOT"@[0] != "GRADLE_USER_HOME"@[0]);
    }
    assert("ANDROID_HOME"@ != "ANDROID_SDK_ROOT"@) by {
        assert("ANDROID_HOME"@.len() != "ANDROID_SDK_ROOT"@.len());
    }
    assert(env_value(g1, "ANDROID_HOME"@) == Some(s.android_home));
    assert(env_value(g2, "ANDROID_HOME"@) == Some(s.android_home));
    assert(env_value(g3, "ANDROID_HOME"@) == Some(s.android_home));
    assert(env_value(ge, "ANDROID_HOME"@) == Some(s.android_home));
    assert(env_value(g2, "ANDROID_SDK_ROOT"@) == Some(s.android_home));
    assert(env_value(g3, "ANDROID_SDK_ROOT"@) == Some(s.android_home));
    assert(env_value(ge, "ANDROID_SDK_ROOT"@) == Some(s.android_home));
    assert(env_value(g3, "GRADLE_USER_HOME"@) == Some(s.gradle_home));
    assert(env_value(ge, "GRADLE_USER_HOME"@) == Some(s.gradle_home));
    assert(env_value(ge, "ANDROID_NDK_HOME"@) == Some(s.ndk_home));
    assert(env_value(ce, "ANDROID_NDK_ROOT"@) == Some(s.ndk_home));
    assert(env_value(ce.drop_last(), "ANDROID_NDK_HOME"@) == Some(s.ndk_home));
    assert(env_value(ce, "ANDROID_NDK_HOME"@) == Some(s.ndk_home));
    let c1 = s.at(BuildStep::CreateJniLibs);
    assert(build_next(c1, BuildEvent::Completed).1 == c1.cargo_run());
    assert(c1.cargo_run() matches BuildActionV::Run { env, .. } && env == ce);
    let c2 = s.at(BuildStep::CargoNdk);
    assert(build_next(c2, BuildEvent::Exited { success: true, code }).1 == c2.gradle_run());
    assert(c2.gradle_run() matches BuildActionV::Run { env, .. } && env == ge);
}

fn cargo_note(package: &str) -> (n: String)
    ensures
        n@ == "cargo-agdk: cargo ndk -t arm64-v8a build --release -p "@ + package@,
{
    concat("cargo-agdk: cargo ndk -t arm64-v8a build --release -p ", package)
}

fn gradle_note(flavor: &str) -> (n: String)
    ensures
        n@ == "cargo-agdk: ./gradlew --offline --no-daemon "@ + gradle_task(flavor@),
{
    let cap = capitalize_first(flavor);
    let mut n = concat("cargo-agdk: ./gradlew --offline --no-daemon ", "assemble");
    n.append(cap.as_str());
    n.append("Debug");
    assert(n@ =~= "cargo-agdk: ./gradlew --offline --no-daemon "@ + gradle_task(flavor@));
    n
}

impl Builder {
    /// Starts building `package` (a package of the workspace at
    /// `workspace_root`) in the Android project `android_project`, with the
    /// bundle's Android home, Gradle user home and NDK home: first, the
    /// directory that receives the built libraries is created.
    pub fn new(
        package: &str,
        android_project: &str,
        workspace_root: &str,
        android_home: &str,
        gradle_home: &str,
        ndk_home: &str,
    ) -> (r: (Builder, BuildAction))
        ensures
            r.0@ == (BuilderV {
                package: package@,
                project: android_project@,
                workspace: workspace_root@,
                android_home: android_home@,
                gradle_home: gradle_home@,
                ndk_home: ndk_home@,
                step: BuildStep::CreateJniLibs,
            }),
            r.1@ == (BuildActionV::CreateDir { path: jnilibs_of(android_project@, camel(package@)) }),
    {
        let plan = plan_build(package, android_project, android_home, gradle_home, ndk_home);
        let b = Builder {
            package: package.to_owned(),
            project: android_project.to_owned(),
            workspace: workspace_root.to_owned(),
            android_home: android_home.to_owned(),
            gradle_home: gradle_home.to_owned(),
            ndk_home: ndk_home.to_owned(),
            step: BuildStep::CreateJniLibs,
        };
        (b, BuildAction::CreateDir { path: plan.jnilibs })
    }

    /// What the builder waits for.
    pub fn step(&self) -> (s: BuildStep)
        ensures
            s == self@.step,
    {
        self.step
    }

    /// Whether the builder can take `event` now.
    pub fn takes(&self, event: &BuildEvent) -> (b: bool)
        ensures
            b == build_accepts(self@.step, *event),
    {
        match self.step {
            BuildStep::CreateJniLibs => match event {
                BuildEvent::Completed | BuildEvent::IoFailed(_) => true,
                _ => false,
            },
            BuildStep::CargoNdk | BuildStep::Gradle => match event {
                BuildEvent::Exited { .. } | BuildEvent::IoFailed(_) => true,
                _ => false,
            },
            BuildStep::CheckApk => matches!(event, BuildEvent::Exists(_)),
            BuildStep::Done | BuildStep::Failed => false,
        }
    }

    fn plan(&self) -> (p: BuildPlan)
        ensures
            p.is_plan_for(
                self@.package,
                self@.project,
                self@.android_home,
                self@.gradle_home,
                self@.ndk_home,
            ),
    {
        plan_build(
            self.package.as_str(),
            self.project.as_str(),
            self.android_home.as_str(),
            self.gradle_home.as_str(),
            self.ndk_home.as_str(),
        )
    }

    /// Takes what happened to the last action and decides the next one.
    pub fn advance(&mut self, event: BuildEvent) -> (a: BuildAction)
        requires
            build_accepts(old(self)@.step, event),
        ensures
            (final(self)@, a@) == build_next(old(self)@, event),
    {
        match event {
            BuildEvent::IoFailed(m) => {
                self.step = BuildStep::Failed;
                BuildAction::Fail(Error::Io(m))
            },
            BuildEvent::Completed => {
                let plan = self.plan();
                self.step = BuildStep::CargoNdk;
                BuildAction::Run {
                    note: cargo_note(self.package.as_str()),
                    program: "cargo".to_owned(),
                    args: plan.cargo_args,
                    env: plan.cargo_env,
                    dir: self.workspace.clone(),
                }
            },
            BuildEvent::Exited { success, code } => {
                let plan = self.plan();
                if matches!(self.step, BuildStep::CargoNdk) {
                    match cargo_ndk_outcome(success, code) {
                        Ok(()) => {
                            self.step = BuildStep::Gradle;
                            BuildAction::Run {
                                note: gradle_note(plan.flavor.as_str()),
                                program: plan.gradlew,
                                args: plan.gradle_args,
                                env: plan.gradle_env,
                                dir: self.project.clone(),
                            }
                        },
                        Err(e) => {
                            self.step = BuildStep::Failed;
                            BuildAction::Fail(e)
                        },
                    }
                } else {
                    match gradle_outcome(success, code) {
                        Ok(()) => {
                            self.step = BuildStep::CheckApk;
                            BuildAction::CheckExists { path: plan.apk }
                        },
                        Err(e) => {
                            self.step = BuildStep::Failed;
                            BuildAction::Fail(e)
                        },
                    }
                }
            },
            BuildEvent::Exists(present) => {
                let plan = self.plan();
                match apk_outcome(present, plan.apk.as_str()) {
                    Ok(()) => {
                        self.step = BuildStep::Done;
                        BuildAction::Finish { note: concat("cargo-agdk: OK \u{2014} APK at ", plan.apk.as_str()) }
                    },
                    Err(e) => {
                        self.step = BuildStep::Failed;
                        BuildAction::Fail(e)
                    },
                }
            },
        }
    }
}

/// A `Cargo.toml` text declares a workspace when it parses as TOML and
/// has a top-level `[workspace]` table.
pub open spec fn declares_workspace_spec(cargo_toml: Seq<char>) -> bool {
    toml_entry(cargo_toml, "workspace"@, None) == Ok::<TomlEntryV, Seq<char>>(TomlEntryV::Table)
}

/// Whether the `Cargo.toml` text `cargo_toml` makes its directory a
/// workspace root.
pub fn declares_workspace(cargo_toml: &str) -> (b: bool)
    ensures
        b == declares_workspace_spec(cargo_toml@),
{
    match lookup(cargo_toml, "workspace", None) {
        Ok(TomlEntry::Table) => true,
        _ => false,
    }
}

/// The error when no directory from `start` up holds a workspace
/// `Cargo.toml`.
pub fn no_workspace_above(start: &str) -> (e: Error)
    ensures
        e@ == ErrorV::Other("no [workspace] Cargo.toml above "@ + start@),
{
    Error::Other(concat("no [workspace] Cargo.toml above ", start))
}

/// Whether the ancestor `a` (a directory and, when it could be read, the
/// text of its `Cargo.toml`) is a workspace root.
pub open spec fn is_workspace_dir(a: (Seq<char>, Option<Seq<char>>)) -> bool {
    a.1 matches Some(t) && declares_workspace_spec(t)
}

/// The ancestors of a directory, nearest first, as the caller saw them.
pub open spec fn ancestors_view(v: Vec<(String, Option<String>)>) -> Seq<(Seq<char>, Option<Seq<char>>)> {
    v@.map_values(|a: (String, Option<String>)| (a.0@, match a.1 {
        Some(t) => Some(t@),
        None => None,
    }))
}

/// The workspace root found walking up from `start` over `ancestors`
/// (nearest first, `start` itself first): the nearest ancestor whose
/// `Cargo.toml` has a `[workspace]` table, or the error naming `start`.
pub open spec fn workspace_root_of(start: Seq<char>, ancestors: Seq<(Seq<char>, Option<Seq<char>>)>) -> Result<
    Seq<char>,
    ErrorV,
>
    decreases ancestors.len(),
{
    if ancestors.len() == 0 {
        Err(ErrorV::Other("no [workspace] Cargo.toml above "@ + start))
    } else if is_workspace_dir(ancestors[0]) {
        Ok(ancestors[0].0)
    } else {
        workspace_root_of(start, ancestors.drop_first())
    }
}

/// Locates the workspace root of `start`: `ancestors` are `start` and the
/// directories above it, nearest first, each with the text of its
/// `Cargo.toml` when that file could be read. The result is the nearest
/// one whose `Cargo.toml` is TOML with a top-level `[workspace]` table.
pub fn find_workspace_root(start: &str, ancestors: &Vec<(String, Option<String>)>) -> (r: Result<String, Error>)
    ensures
        crate::error::string_result(r) == workspace_root_of(start@, ancestors_view(*ancestors)),
        r is Ok <==> exists|i: int|
            0 <= i < ancestors@.len() && #[trigger] is_workspace_dir(ancestors_view(*ancestors)[i]),
{
    let ghost all = ancestors_view(*ancestors);
    let mut i: usize = 0;
    assert(all.skip(0) =~= all);
    while i < ancestors.len()
        invariant
            i <= ancestors@.len(),
            all == ancestors_view(*ancestors),
            all.len() == ancestors@.len(),
            workspace_root_of(start@, all) == workspace_root_of(start@, all.skip(i as int)),
            forall|j: int| 0 <= j < i ==> !is_workspace_dir(#[trigger] all[j]),
        decreases ancestors.len() - i,
    {
        let a = &ancestors[i];
        assert(all[i as int] == (a.0@, match a.1 {
            Some(t) => Some(t@),
            None => None::<Seq<char>>,
        }));
        assert(all.skip(i as int)[0] == all[i as int]);
        assert(all.skip(i as int).drop_first() =~= all.skip(i + 1));
        let found = match &a.1 {
            Some(t) => declares_workspace(t.as_str()),
            None => false,
        };
        if found {
            return Ok(a.0.clone());
        }
        i = i + 1;
    }
    assert(all.skip(i as int) =~= Seq::<(Seq<char>, Option<Seq<char>>)>::empty());
    Err(no_workspace_above(start))
}

/// `s` holds no kebab or snake separator.
pub open spec fn separator_free(s: Seq<char>) -> bool {
    forall|i: int| 0 <= i < s.len() ==> s[i] != '-' && s[i] != '_'
}


proof fn lemma_camel_plain_from(s: Seq<char>)
    requires
        separator_free(s),
    ensures
        camel_from(s, false) == s,
    decreases s.len(),
{
    if s.len() > 0 {
        lemma_camel_plain_from(s.drop_first());
        assert(seq![s[0]] + s.drop_first() =~= s);
    }
}

/// A package name without separators is its own flavor (`solo` stays
/// `solo`).
pub proof fn lemma_camel_keeps_plain_names(s: Seq<char>)
    requires
        separator_free(s),
    ensures
        camel(s) == s,
{
    lemma_camel_plain_from(s);
}

/// Once the cache root carries its install marker, installation stops:
/// nothing is fetched and no further event is taken, so a steady-state
/// `verify` stays offline.
pub proof fn lemma_installed_marker_short_circuits(s: InstallerV)
    requires
        s.step == InstallStep::CheckMarker,
    ensures
        install_next(s, InstallEvent::MarkerChecked(true)).1 == ActionV::Finish,
        install_next(s, InstallEvent::MarkerChecked(true)).0.step == InstallStep::Done,
        forall|e: InstallEvent| !accepts(InstallStep::Done, e),
{
}

/// An asset is extracted only right after its download was found to have
/// the sha256 the manifest records for it: a corrupt asset is never
/// extracted.
pub proof fn lemma_extract_only_checked(s: InstallerV, e: InstallEvent)
    requires
        s.wf(),
        accepts(s.step, e),
        install_next(s, e).1 is Extract,
    ensures
        s.step is Download,
        install_next(s, e).1 matches ActionV::Extract { kind, .. } && kind == kind_at(
            s.step->Download_0 as int,
        ),
        e matches InstallEvent::Downloaded { sha256 } && sha256@ == s.manifest->0.sha_of(
            kind_at(s.step->Download_0 as int),
        ),
{
}

/// A download whose sha256 differs from the manifest's is discarded and
/// ends the installation with a checksum mismatch naming both digests.
pub proof fn lemma_mismatch_rejected(s: InstallerV, sha256: String)
    requires
        s.wf(),
        s.step is Download,
        sha256@ != s.manifest->0.sha_of(kind_at(s.step->Download_0 as int)),
    ensures
        ({
            let kind = kind_at(s.step->Download_0 as int);
            let (t, a) = install_next(s, InstallEvent::Downloaded { sha256 });
            &&& t.step == InstallStep::Failed
            &&& a == ActionV::Reject {
                tmp: tmp_of(s.root, kind),
                error: ErrorV::ChecksumMismatch {
                    asset: kind.name_spec(),
                    expected: s.manifest->0.sha_of(kind),
                    actual: sha256@,
                    tag: tag_spec(s.pins),
                },
            }
        }),
{
}

/// The assets are fetched in the order of `ALL`: the first after the
/// cache root is created, each next one after the previous is extracted.
pub proof fn lemma_assets_in_order(s: InstallerV, e: InstallEvent)
    requires
        s.wf(),
        accepts(s.step, e),
        install_next(s, e).1 is Download,
    ensures
        s.step == InstallStep::CreateRoot ==> install_next(s, e).1 == s.download(0),
        s.step is Extract ==> install_next(s, e).1 == s.download(s.step->Extract_0 + 1),
        s.step == InstallStep::CreateRoot || (s.step is Extract && s.step->Extract_0 < 2),
{
}

/// The install marker is written last, after the last asset was
/// extracted, and it records the bundle's release tag.
pub proof fn lemma_marker_written_last(s: InstallerV, e: InstallEvent)
    requires
        s.wf(),
        accepts(s.step, e),
        install_next(s, e).1 is WriteMarker,
    ensures
        s.step == InstallStep::Extract(2),
        e is Completed,
        install_next(s, e).1 == (ActionV::WriteMarker {
            marker: marker_of(s.root),
            contents: tag_spec(s.pins),
        }),
{
}

/// A fresh installer of the bundle of `pins` into `root`, as
/// [`Installer::new`] makes it.
pub open spec fn fresh_installer(pins: PinsV, root: Seq<char>) -> InstallerV {
    InstallerV { pins, root, manifest: None, step: InstallStep::CheckMarker }
}

/// The actions the installer takes from `s` on the events `events`.
pub open spec fn install_trace(s: InstallerV, events: Seq<InstallEvent>) -> Seq<ActionV>
    decreases events.len(),
{
    if events.len() == 0 {
        seq![]
    } else {
        let (t, a) = install_next(s, events[0]);
        seq![a] + install_trace(t, events.drop_first())
    }
}

/// Each of `events` is one the installer can take when it comes.
pub open spec fn install_run_ok(s: InstallerV, events: Seq<InstallEvent>) -> bool
    decreases events.len(),
{
    events.len() == 0 || (accepts(s.step, events[0]) && install_run_ok(
        install_next(s, events[0]).0,
        events.drop_first(),
    ))
}

/// The asset an action extracts, if it is an extraction.
pub open spec fn extracted_by(a: ActionV) -> Seq<AssetKind> {
    match a {
        ActionV::Extract { kind, .. } => seq![kind],
        _ => seq![],
    }
}

/// The assets `actions` extract, in order.
pub open spec fn extracted(actions: Seq<ActionV>) -> Seq<AssetKind>
    decreases actions.len(),
{
    if actions.len() == 0 {
        seq![]
    } else {
        extracted_by(actions[0]) + extracted(actions.drop_first())
    }
}

/// The assets of a bundle, in the order of `ALL`.
pub open spec fn bundle_kinds() -> Seq<AssetKind> {
    seq![AssetKind::Ndk, AssetKind::Sdk, AssetKind::GradleCache]
}

/// The assets already extracted when the installer is at `step`.
spec fn extracted_at(step: InstallStep) -> Seq<AssetKind> {
    match step {
        InstallStep::Download(i) => bundle_kinds().take(i as int),
        InstallStep::Extract(i) => bundle_kinds().take(i + 1),
        InstallStep::WriteMarker => bundle_kinds(),
        _ => seq![],
    }
}

proof fn lemma_trace_len(s: InstallerV, events: Seq<InstallEvent>)
    ensures
        install_trace(s, events).len() == events.len(),
    decreases events.len(),
{
    if events.len() > 0 {
        lemma_trace_len(install_next(s, events[0]).0, events.drop_first());
    }
}

proof fn lemma_extracted_cons(a: ActionV, rest: Seq<ActionV>)
    ensures
        extracted(seq![a] + rest) == extracted_by(a) + extracted(rest),
{
    assert((seq![a] + rest).drop_first() =~= rest);
}

/// One step moves the assets extracted so far by what the step extracts.
proof fn lemma_extracted_step(s: InstallerV, e: InstallEvent)
    requires
        s.wf(),
        accepts(s.step, e),
        install_next(s, e).0.step != InstallStep::Done,
        install_next(s, e).0.step != InstallStep::Failed,
    ensures
        install_next(s, e).0.wf(),
        extracted_at(install_next(s, e).0.step) == extracted_at(s.step) + extracted_by(
            install_next(s, e).1,
        ),
{
    let (t, a) = install_next(s, e);
    match s.step {
        InstallStep::Download(i) => {
            assert(bundle_kinds().take(i + 1) =~= bundle_kinds().take(i as int) + seq![kind_at(i as int)]);
        },
        InstallStep::Extract(i) => {
            if i + 1 < 3 {
                assert(bundle_kinds().take((i + 1) as int) =~= bundle_kinds().take(i + 1) + seq![]);
            } else {
                assert(bundle_kinds().take(i + 1) =~= bundle_kinds());
                assert(bundle_kinds() =~= bundle_kinds() + Seq::<AssetKind>::empty());
            }
        },
        InstallStep::CreateRoot => {
            assert(bundle_kinds().take(0) =~= Seq::<AssetKind>::empty() + Seq::<AssetKind>::empty());
        },
        _ => {
            assert(Seq::<AssetKind>::empty() =~= Seq::<AssetKind>::empty() + Seq::<AssetKind>::empty());
        },
    }
}

proof fn lemma_trace_extracts(s: InstallerV, events: Seq<InstallEvent>, k: int)
    requires
        s.wf(),
        install_run_ok(s, events),
        0 <= k < events.len(),
        install_trace(s, events)[k] is WriteMarker,
    ensures
        extracted_at(s.step) + extracted(install_trace(s, events).take(k)) == bundle_kinds(),
    decreases events.len(),
{
    let (t, a) = install_next(s, events[0]);
    let rest = events.drop_first();
    let tr = install_trace(s, events);
    assert(tr == seq![a] + install_trace(t, rest));
    lemma_trace_len(t, rest);
    if k == 0 {
        lemma_marker_written_last(s, events[0]);
        assert(tr.take(0) =~= Seq::<ActionV>::empty());
        assert(bundle_kinds().take(3) =~= bundle_kinds());
        assert(extracted_at(s.step) =~= extracted_at(s.step) + Seq::<AssetKind>::empty());
    } else {
        assert(install_run_ok(t, rest));
        assert(accepts(t.step, rest[0]));
        assert(install_trace(t, rest)[k - 1] == tr[k]);
        lemma_extracted_step(s, events[0]);
        lemma_trace_extracts(t, rest, k - 1);
        let later = install_trace(t, rest).take(k - 1);
        assert(tr.take(k) =~= seq![a] + later);
        lemma_extracted_cons(a, later);
        assert(extracted_at(s.step) + (extracted_by(a) + extracted(later)) =~= (extracted_at(s.step)
            + extracted_by(a)) + extracted(later));
    }
}

/// Whatever happens during an installation, the install marker is written
/// only once every asset of the bundle was extracted, each once and in the
/// order of `ALL`; and each extraction follows a download whose sha256
/// matched the manifest (see [`lemma_extract_only_checked`]).
pub proof fn lemma_marker_after_all_extracted(
    pins: PinsV,
    root: Seq<char>,
    events: Seq<InstallEvent>,
    k: int,
)
    requires
        install_run_ok(fresh_installer(pins, root), events),
        0 <= k < events.len(),
        install_trace(fresh_installer(pins, root), events)[k] is WriteMarker,
    ensures
        extracted(install_trace(fresh_installer(pins, root), events).take(k)) == bundle_kinds(),
{
    lemma_trace_extracts(fresh_installer(pins, root), events, k);
    assert(extracted_at(InstallStep::CheckMarker) + extracted(
        install_trace(fresh_installer(pins, root), events).take(k),
    ) =~= extracted(install_trace(fresh_installer(pins, root), events).take(k)));
}

/// The last action issued on the way to `s`, as far as a pending download
/// is concerned: while the installer waits for a download, the last
/// action is the request for that download.
spec fn download_pending(s: InstallerV, prev: ActionV) -> bool {
    s.step is Download ==> prev == s.download(s.step->Download_0 as int)
}

proof fn lemma_extract_follows_download(s: InstallerV, prev: ActionV, events: Seq<InstallEvent>, k: int)
    requires
        s.wf(),
        download_pending(s, prev),
        install_run_ok(s, events),
        0 <= k < events.len(),
        install_trace(s, events)[k] is Extract,
    ensures
        ({
            let full = seq![prev] + install_trace(s, events);
            &&& full[k] is Download
            &&& full[k + 1]->Extract_kind == full[k]->Download_kind
            &&& full[k + 1]->Extract_tmp == full[k]->Download_tmp
        }),
    decreases events.len(),
{
    let (t, a) = install_next(s, events[0]);
    let rest = events.drop_first();
    let tr = install_trace(s, events);
    assert(tr == seq![a] + install_trace(t, rest));
    lemma_trace_len(t, rest);
    let full = seq![prev] + tr;
    if k == 0 {
        lemma_extract_only_checked(s, events[0]);
        assert(full[0] == prev);
        assert(full[1] == a);
    } else {
        assert(install_run_ok(t, rest));
        assert(install_trace(t, rest)[k - 1] == tr[k]);
        assert(t.wf());
        assert(download_pending(t, a));
        lemma_extract_follows_download(t, a, rest, k - 1);
        let full_t = seq![a] + install_trace(t, rest);
        assert(full_t[k - 1] == full[k]);
        assert(full_t[k] == full[k + 1]);
    }
}

/// Each asset is unpacked from the very file its download wrote: in every
/// run of a fresh installer, an extraction comes right after the download
/// of the same asset and reads that download's temporary file.
pub proof fn lemma_extract_reads_downloaded_file(
    pins: PinsV,
    root: Seq<char>,
    events: Seq<InstallEvent>,
    k: int,
)
    requires
        install_run_ok(fresh_installer(pins, root), events),
        0 <= k < events.len(),
        install_trace(fresh_installer(pins, root), events)[k] is Extract,
    ensures
        ({
            let tr = install_trace(fresh_installer(pins, root), events);
            &&& k >= 1
            &&& tr[k - 1] is Download
            &&& tr[k]->Extract_kind == tr[k - 1]->Download_kind
            &&& tr[k]->Extract_tmp == tr[k - 1]->Download_tmp
        }),
{
    let s = fresh_installer(pins, root);
    let first = ActionV::CheckMarker { marker: marker_of(root) };
    lemma_extract_follows_download(s, first, events, k);
    let tr = install_trace(s, events);
    lemma_trace_len(s, events);
    let full = seq![first] + tr;
    assert(full[k + 1] == tr[k]);
    if k == 0 {
        assert(full[0] == first);
    } else {
        assert(full[k] == tr[k - 1]);
    }
}

/// A command-line path made absolute: kept when it already is, otherwise
/// taken relative to the workspace root.
pub fn absolute(p: &str, workspace: &str) -> (a: String)
    ensures
        a@ == path_join(workspace@, p@),
{
    if p.unicode_len() > 0 && p.get_char(0) == '/' {
        p.to_owned()
    } else {
        join_path(workspace, p)
    }
}

} // verus!
