//! The pin snapshot a bundle was built with, as a per-consumer lockfile
//! records it: the bundle's release tag, the three pinned versions and the
//! sha256 of each asset.
use vstd::prelude::*;

verus! {

#[derive(Debug, Clone, PartialEq, Eq)]
pub struct Lock {
    pub release_tag: String,
    pub agp_version: String,
    pub ndk_version: String,
    pub gradle_version: String,
    pub ndk_sha256: String,
    pub sdk_sha256: String,
    pub gradle_cache_sha256: String,
}

/// The content of a [`Lock`].
pub struct LockV {
    pub release_tag: Seq<char>,
    pub agp_version: Seq<char>,
    pub ndk_version: Seq<char>,
    pub gradle_version: Seq<char>,
    pub ndk_sha256: Seq<char>,
    pub sdk_sha256: Seq<char>,
    pub gradle_cache_sha256: Seq<char>,
}

impl View for Lock {
    type V = LockV;

    open spec fn view(&self) -> LockV {
        LockV {
            release_tag: self.release_tag@,
            agp_version: self.agp_version@,
            ndk_version: self.ndk_version@,
            gradle_version: self.gradle_version@,
            ndk_sha256: self.ndk_sha256@,
            sdk_sha256: self.sdk_sha256@,
            gradle_cache_sha256: self.gradle_cache_sha256@,
        }
    }
}

} // verus!
