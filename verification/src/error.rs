//! The library's error type and the pin kinds it reports on.
use vstd::prelude::*;

verus! {

/// Which of the three pinned versions a mismatch concerns.
#[derive(Debug, Clone, Copy, PartialEq, Eq)]
pub enum PinKind {
    Agp,
    Ndk,
    Gradle,
}

impl PinKind {
    /// Human-readable name of the pin.
    pub open spec fn name_spec(self) -> Seq<char> {
        match self {
            PinKind::Agp => "AGP"@,
            PinKind::Ndk => "NDK"@,
            PinKind::Gradle => "Gradle"@,
        }
    }

    /// The name under which the pin is shown to users.
    pub fn name(&self) -> (s: &'static str)
        ensures
            s@ == self.name_spec(),
    {
        match self {
            PinKind::Agp => "AGP",
            PinKind::Ndk => "NDK",
            PinKind::Gradle => "Gradle",
        }
    }
}

/// Everything that can go wrong. Paths are carried as strings; I/O and
/// network failures carry the message of the underlying failure.
#[derive(Debug)]
pub enum Error {
    Io(String),
    Network { url: String, source: String },
    NoBundle { agp: String, ndk: String, gradle: String, url: String },
    ChecksumMismatch { asset: String, expected: String, actual: String, tag: String },
    Parse { file: String, reason: String },
    CargoNdkFailed(i32),
    GradleFailed(i32),
    ApkNotFound(String),
    PlaceholderReleaseHost(String),
    UnknownTarget(String),
    PinMismatch { kind: PinKind, file: String, in_repo: String, pinned: String },
    Other(String),
}

/// The mathematical content of an [`Error`].
pub enum ErrorV {
    Io(Seq<char>),
    Network { url: Seq<char>, source: Seq<char> },
    NoBundle { agp: Seq<char>, ndk: Seq<char>, gradle: Seq<char>, url: Seq<char> },
    ChecksumMismatch { asset: Seq<char>, expected: Seq<char>, actual: Seq<char>, tag: Seq<char> },
    Parse { file: Seq<char>, reason: Seq<char> },
    CargoNdkFailed(i32),
    GradleFailed(i32),
    ApkNotFound(Seq<char>),
    PlaceholderReleaseHost(Seq<char>),
    UnknownTarget(Seq<char>),
    PinMismatch { kind: PinKind, file: Seq<char>, in_repo: Seq<char>, pinned: Seq<char> },
    Other(Seq<char>),
}

impl View for Error {
    type V = ErrorV;

    open spec fn view(&self) -> ErrorV {
        match self {
            Error::Io(m) => ErrorV::Io(m@),
            Error::Network { url, source } => ErrorV::Network { url: url@, source: source@ },
            Error::NoBundle { agp, ndk, gradle, url } => ErrorV::NoBundle {
                agp: agp@,
                ndk: ndk@,
                gradle: gradle@,
                url: url@,
            },
            Error::ChecksumMismatch { asset, expected, actual, tag } => ErrorV::ChecksumMismatch {
                asset: asset@,
                expected: expected@,
                actual: actual@,
                tag: tag@,
            },
            Error::Parse { file, reason } => ErrorV::Parse { file: file@, reason: reason@ },
            Error::CargoNdkFailed(c) => ErrorV::CargoNdkFailed(*c),
            Error::GradleFailed(c) => ErrorV::GradleFailed(*c),
            Error::ApkNotFound(p) => ErrorV::ApkNotFound(p@),
            Error::PlaceholderReleaseHost(h) => ErrorV::PlaceholderReleaseHost(h@),
            Error::UnknownTarget(n) => ErrorV::UnknownTarget(n@),
            Error::PinMismatch { kind, file, in_repo, pinned } => ErrorV::PinMismatch {
                kind: *kind,
                file: file@,
                in_repo: in_repo@,
                pinned: pinned@,
            },
            Error::Other(m) => ErrorV::Other(m@),
        }
    }
}

/// The view of a string-valued result.
pub open spec fn string_result(r: Result<String, Error>) -> Result<Seq<char>, ErrorV> {
    match r {
        Ok(s) => Ok(s@),
        Err(e) => Err(e@),
    }
}

/// The view of a unit result.
pub open spec fn unit_result(r: Result<(), Error>) -> Result<(), ErrorV> {
    match r {
        Ok(()) => Ok(()),
        Err(e) => Err(e@),
    }
}

} // verus!
