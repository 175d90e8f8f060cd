//! Map a `Pins` tuple to a GitHub release tag + asset URLs.
//!
//! The release host is hard-coded to `noahkagan/cargo-agdk`, this tool's
//! own repository: bundles are central, not per-consumer.
use vstd::prelude::*;

use crate::manifest::AssetKind;
use crate::pins::{major_of, Pins, PinsV};
use crate::text::concat;

verus! {

broadcast use vstd::string::group_string_axioms;

pub const HOST: &'static str = "noahkagan/cargo-agdk";

/// `android-toolchain-agp{AGP}-ndk{NDK_MAJOR}-gradle{GRADLE}`.
pub open spec fn tag_of(agp: Seq<char>, ndk_major: Seq<char>, gradle: Seq<char>) -> Seq<char> {
    "android-toolchain-agp"@ + agp + "-ndk"@ + ndk_major + "-gradle"@ + gradle
}

/// The release tag of a pin tuple.
pub open spec fn tag_spec(p: PinsV) -> Seq<char> {
    tag_of(p.agp, major_of(p.ndk), p.gradle)
}

/// The download directory of the release that holds a pin tuple's bundle.
pub open spec fn download_base(p: PinsV) -> Seq<char> {
    "https://github.com/"@ + HOST@ + "/releases/download/"@ + tag_spec(p) + "/"@
}

/// `android-toolchain-agp{AGP}-ndk{NDK_MAJOR}-gradle{GRADLE}`.
/// One bundle per (AGP, NDK_MAJOR, Gradle) tuple. No content-hash
/// suffix: there is one canonical bundle per tuple.
pub fn tag(pins: &Pins) -> (t: String)
    ensures
        t@ == tag_spec(pins@),
{
    let mut t = concat("android-toolchain-agp", pins.agp.as_str());
    t.append("-ndk");
    t.append(pins.ndk_major());
    t.append("-gradle");
    t.append(pins.gradle.as_str());
    t
}

fn download_base_of(pins: &Pins) -> (u: String)
    ensures
        u@ == download_base(pins@),
{
    let mut u = concat("https://github.com/", HOST);
    u.append("/releases/download/");
    let t = tag(pins);
    u.append(t.as_str());
    u.append("/");
    u
}

/// URL of the bundle's `manifest.toml`.
pub fn manifest_url(pins: &Pins) -> (u: String)
    ensures
        u@ == download_base(pins@) + "manifest.toml"@,
{
    let mut u = download_base_of(pins);
    u.append("manifest.toml");
    u
}

/// URL of one of the bundle's tarballs.
pub fn asset_url(pins: &Pins, kind: AssetKind) -> (u: String)
    ensures
        u@ == download_base(pins@) + kind.filename_spec(),
{
    let mut u = download_base_of(pins);
    u.append(kind.filename());
    u
}


/// `s` holds no `'-'`.
pub open spec fn dash_free(s: Seq<char>) -> bool {
    forall|i: int| 0 <= i < s.len() ==> s[i] != '-'
}

/// Pin tuples that agree on AGP, the NDK's major version and Gradle share
/// one release tag (and so one bundle): a new NDK minor or patch release
/// needs no new bundle.
pub proof fn lemma_tag_keyed_on_ndk_major(p: PinsV, q: PinsV)
    requires
        p.agp == q.agp,
        major_of(p.ndk) == major_of(q.ndk),
        p.gradle == q.gradle,
    ensures
        tag_spec(p) == tag_spec(q),
{
}

/// Splitting `pre + a + sep + rest` at a separator that starts with
/// `'-'`, when `a` holds no `'-'`: equal results have equal `a` parts.
proof fn lemma_split_at_dash(
    pre: Seq<char>,
    a: Seq<char>,
    b: Seq<char>,
    sep: Seq<char>,
    r1: Seq<char>,
    r2: Seq<char>,
)
    requires
        dash_free(a),
        dash_free(b),
        sep.len() > 0,
        sep[0] == '-',
        pre + a + sep + r1 == pre + b + sep + r2,
    ensures
        a == b,
        r1 == r2,
{
    let x = pre + a + sep + r1;
    let y = pre + b + sep + r2;
    let n: int = pre.len() as int;
    if a.len() < b.len() {
        assert(x[n + a.len()] == sep[0]);
        assert(y[n + a.len()] == b[a.len() as int]);
        assert(false);
    }
    if b.len() < a.len() {
        assert(y[n + b.len()] == sep[0]);
        assert(x[n + b.len()] == a[b.len() as int]);
        assert(false);
    }
    assert(a =~= x.subrange(n as int, n + a.len()));
    assert(b =~= y.subrange(n as int, n + b.len()));
    assert(r1 =~= x.skip(n + a.len() + sep.len()));
    assert(r2 =~= y.skip(n + b.len() + sep.len()));
}

/// Release tags tell pin tuples apart: as long as the AGP version and
/// the NDK major carry no `'-'` (true of every AGP and NDK version
/// string), two tuples with the same tag agree on AGP, NDK major and
/// Gradle.
pub proof fn lemma_tag_identifies_tuple(p: PinsV, q: PinsV)
    requires
        dash_free(p.agp),
        dash_free(q.agp),
        dash_free(major_of(p.ndk)),
        dash_free(major_of(q.ndk)),
        tag_spec(p) == tag_spec(q),
    ensures
        p.agp == q.agp,
        major_of(p.ndk) == major_of(q.ndk),
        p.gradle == q.gradle,
{
    reveal_strlit("-ndk");
    reveal_strlit("-gradle");
    let pre = "android-toolchain-agp"@;
    let (ma, mb) = (major_of(p.ndk), major_of(q.ndk));
    let r1 = ma + "-gradle"@ + p.gradle;
    let r2 = mb + "-gradle"@ + q.gradle;
    assert(tag_spec(p) =~= pre + p.agp + "-ndk"@ + r1);
    assert(tag_spec(q) =~= pre + q.agp + "-ndk"@ + r2);
    lemma_split_at_dash(pre, p.agp, q.agp, "-ndk"@, r1, r2);
    let e = Seq::<char>::empty();
    assert(r1 =~= e + ma + "-gradle"@ + p.gradle);
    assert(r2 =~= e + mb + "-gradle"@ + q.gradle);
    lemma_split_at_dash(e, ma, mb, "-gradle"@, p.gradle, q.gradle);
}

} // verus!
