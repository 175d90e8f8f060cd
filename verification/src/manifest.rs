//! Per-bundle manifest published alongside the three tarballs on every
//! release. Maps the bundle's pin tuple to the assets' sha256s so the
//! consumer can verify without a local lockfile.
use vstd::prelude::*;

verus! {

broadcast use vstd::string::group_string_axioms;

/// The three assets of a toolchain bundle.
#[derive(Debug, Clone, Copy, PartialEq, Eq)]
pub enum AssetKind {
    Ndk,
    Sdk,
    GradleCache,
}

/// Every asset of a bundle, in the order they are fetched and packed.
pub const ALL: [AssetKind; 3] = [AssetKind::Ndk, AssetKind::Sdk, AssetKind::GradleCache];

impl AssetKind {
    pub open spec fn name_spec(self) -> Seq<char> {
        match self {
            AssetKind::Ndk => "ndk"@,
            AssetKind::Sdk => "sdk"@,
            AssetKind::GradleCache => "gradle-cache"@,
        }
    }

    pub open spec fn filename_spec(self) -> Seq<char> {
        match self {
            AssetKind::Ndk => "ndk-linux-x86_64.tar.zst"@,
            AssetKind::Sdk => "sdk-pieces-linux-x86_64.tar.zst"@,
            AssetKind::GradleCache => "gradle-cache.tar.zst"@,
        }
    }

    pub open spec fn extract_into_spec(self) -> Seq<char> {
        match self {
            AssetKind::Ndk | AssetKind::Sdk => "android-home"@,
            AssetKind::GradleCache => "gradle-user-home"@,
        }
    }

    /// Short name of the asset.
    pub fn as_str(&self) -> (s: &'static str)
        ensures
            s@ == self.name_spec(),
    {
        match self {
            AssetKind::Ndk => "ndk",
            AssetKind::Sdk => "sdk",
            AssetKind::GradleCache => "gradle-cache",
        }
    }

    /// File name of the asset's tarball in a release.
    pub fn filename(&self) -> (s: &'static str)
        ensures
            s@ == self.filename_spec(),
    {
        match self {
            AssetKind::Ndk => "ndk-linux-x86_64.tar.zst",
            AssetKind::Sdk => "sdk-pieces-linux-x86_64.tar.zst",
            AssetKind::GradleCache => "gradle-cache.tar.zst",
        }
    }

    /// Where to extract under the per-bundle cache root.
    pub fn extract_into(&self) -> (s: &'static str)
        ensures
            s@ == self.extract_into_spec(),
    {
        match self {
            AssetKind::Ndk | AssetKind::Sdk => "android-home",
            AssetKind::GradleCache => "gradle-user-home",
        }
    }
}

/// The asset at position `i` of [`ALL`].
pub open spec fn kind_at(i: int) -> AssetKind {
    if i == 0 {
        AssetKind::Ndk
    } else if i == 1 {
        AssetKind::Sdk
    } else {
        AssetKind::GradleCache
    }
}

/// The `i`-th asset of [`ALL`].
pub fn all_kind(i: usize) -> (k: AssetKind)
    requires
        i < 3,
    ensures
        k == kind_at(i as int),
{
    if i == 0 {
        AssetKind::Ndk
    } else if i == 1 {
        AssetKind::Sdk
    } else {
        AssetKind::GradleCache
    }
}

/// The three assets have three different tarball names, and three
/// different short names: each lands in a file of its own in a release
/// and in the cache.
pub proof fn lemma_asset_names_distinct(a: AssetKind, b: AssetKind)
    requires
        a != b,
    ensures
        a.filename_spec() != b.filename_spec(),
        a.name_spec() != b.name_spec(),
{
    reveal_strlit("ndk");
    reveal_strlit("sdk");
    reveal_strlit("gradle-cache");
    reveal_strlit("ndk-linux-x86_64.tar.zst");
    reveal_strlit("sdk-pieces-linux-x86_64.tar.zst");
    reveal_strlit("gradle-cache.tar.zst");
    assert("ndk"@[0] != "sdk"@[0]);
    assert("ndk"@[0] != "gradle-cache"@[0]);
    assert("sdk"@[0] != "gradle-cache"@[0]);
    assert("ndk-linux-x86_64.tar.zst"@[0] != "sdk-pieces-linux-x86_64.tar.zst"@[0]);
    assert("ndk-linux-x86_64.tar.zst"@[0] != "gradle-cache.tar.zst"@[0]);
    assert("sdk-pieces-linux-x86_64.tar.zst"@[0] != "gradle-cache.tar.zst"@[0]);
}

#[derive(Debug, Clone, PartialEq, Eq)]
pub struct Manifest {
    pub agp_version: String,
    pub ndk_version: String,
    pub gradle_version: String,
    pub ndk_sha256: String,
    pub sdk_sha256: String,
    pub gradle_cache_sha256: String,
}

/// The content of a [`Manifest`].
pub struct ManifestV {
    pub agp_version: Seq<char>,
    pub ndk_version: Seq<char>,
    pub gradle_version: Seq<char>,
    pub ndk_sha256: Seq<char>,
    pub sdk_sha256: Seq<char>,
    pub gradle_cache_sha256: Seq<char>,
}

impl View for Manifest {
    type V = ManifestV;

    open spec fn view(&self) -> ManifestV {
        ManifestV {
            agp_version: self.agp_version@,
            ndk_version: self.ndk_version@,
            gradle_version: self.gradle_version@,
            ndk_sha256: self.ndk_sha256@,
            sdk_sha256: self.sdk_sha256@,
            gradle_cache_sha256: self.gradle_cache_sha256@,
        }
    }
}

impl ManifestV {
    /// The sha256 the manifest records for `kind`.
    pub open spec fn sha_of(self, kind: AssetKind) -> Seq<char> {
        match kind {
            AssetKind::Ndk => self.ndk_sha256,
            AssetKind::Sdk => self.sdk_sha256,
            AssetKind::GradleCache => self.gradle_cache_sha256,
        }
    }
}

impl Manifest {
    /// The sha256 the manifest records for `kind`.
    pub fn sha256_for(&self, kind: AssetKind) -> (s: &str)
        ensures
            s@ == self@.sha_of(kind),
    {
        match kind {
            AssetKind::Ndk => self.ndk_sha256.as_str(),
            AssetKind::Sdk => self.sdk_sha256.as_str(),
            AssetKind::GradleCache => self.gradle_cache_sha256.as_str(),
        }
    }
}

} // verus!
