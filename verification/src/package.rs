//! Naming and guarding a locally packed toolchain bundle: its
//! content-addressed release tag, and the refusal to publish to a
//! placeholder release host.
use vstd::prelude::*;

use crate::digest::{
    hex_lower, is_hex_digit, lemma_hex_digits, lemma_hex_len, sha256_absorbed, sha256_of, Sha256State,
};
use crate::error::{Error, ErrorV};
use crate::pins::{major_of, major_version};
use crate::text::{chars_of, concat, find, find_in, push_range};
use vstd::string::StringSliceAdditionalSpecFns;

verus! {

broadcast use vstd::string::group_string_axioms;

/// A release host containing `TBD` is a placeholder.
pub open spec fn is_placeholder(host: Seq<char>) -> bool {
    find(host, "TBD"@) is Some
}

/// A release host that still holds the `TBD` placeholder blocks
/// publishing, so nothing is ever uploaded to a repository that does not
/// exist.
pub fn refuse_placeholder_host(host: &str) -> (r: Result<(), Error>)
    ensures
        crate::error::unit_result(r) == (if is_placeholder(host@) {
            Err(ErrorV::PlaceholderReleaseHost(host@))
        } else {
            Ok(())
        }),
{
    let h = chars_of(host);
    let tbd = chars_of("TBD");
    assert(h@.subrange(0, h.len() as int) =~= h@);
    match find_in(&h, 0, h.len(), &tbd) {
        Some(_) => Err(Error::PlaceholderReleaseHost(host.to_owned())),
        None => Ok(()),
    }
}

/// The digest that names a bundle's content: the lower-case hex sha256 of
/// the three assets' hex sha256s, concatenated in the order NDK, SDK,
/// Gradle cache.
pub open spec fn content_digest(ndk_sha: &str, sdk_sha: &str, cache_sha: &str) -> Seq<char> {
    hex_lower(sha256_of(ndk_sha.spec_bytes() + sdk_sha.spec_bytes() + cache_sha.spec_bytes()))
}

/// `android-toolchain-agp{AGP}-ndk{NDK_MAJOR}-gradle{GRADLE}-{SHA8}`, SHA8
/// being the first 8 characters of the content digest.
pub open spec fn release_tag_spec(
    agp: Seq<char>,
    ndk: Seq<char>,
    gradle: Seq<char>,
    digest: Seq<char>,
) -> Seq<char> {
    "android-toolchain-agp"@ + agp + "-ndk"@ + major_of(ndk) + "-gradle"@ + gradle + "-"@
        + digest.take(8)
}

/// The content-addressed release tag of a packed bundle.
pub fn derive_release_tag(
    agp: &str,
    ndk: &str,
    gradle: &str,
    ndk_sha: &str,
    sdk_sha: &str,
    cache_sha: &str,
) -> (t: String)
    ensures
        t@ == release_tag_spec(agp@, ndk@, gradle@, content_digest(ndk_sha, sdk_sha, cache_sha)),
        t@.len() >= 9,
        t@[t@.len() - 9] == '-',
        forall|i: int| t@.len() - 8 <= i < t@.len() ==> #[trigger] is_hex_digit(t@[i]),
{
    let ndk_major = major_version(ndk);
    let mut hasher = Sha256State::new();
    hasher.update(ndk_sha.as_bytes());
    hasher.update(sdk_sha.as_bytes());
    hasher.update(cache_sha.as_bytes());
    let ghost absorbed = sha256_absorbed(hasher);
    let combined = hasher.finish_hex();
    proof {
        lemma_hex_digits(sha256_of(absorbed));
    }
    let c = chars_of(combined.as_str());
    let mut t = concat("android-toolchain-agp", agp);
    t.append("-ndk");
    t.append(ndk_major);
    t.append("-gradle");
    t.append(gradle);
    t.append("-");
    let ghost pre = t@;
    proof {
        reveal_strlit("-");
        assert(pre[pre.len() - 1] == '-');
    }
    push_range(&mut t, &c, 0, 8);
    assert(c@.subrange(0, 8) =~= c@.take(8));
    assert(t@ == pre + c@.take(8));
    assert forall|i: int| t@.len() - 8 <= i < t@.len() implies #[trigger] is_hex_digit(t@[i]) by {
        assert(t@[i] == c@[i - pre.len()]);
        assert(is_hex_digit(combined@[i - pre.len()]));
    }
    t
}

/// The tag ends in exactly eight lower-case hex digits.
pub proof fn lemma_release_tag_suffix(
    agp: Seq<char>,
    ndk: Seq<char>,
    gradle: Seq<char>,
    data: Seq<u8>,
)
    requires
        data.len() == 32,
    ensures
        ({
            let t = release_tag_spec(agp, ndk, gradle, hex_lower(data));
            let sha8 = t.skip(t.len() - 8);
            &&& sha8 == hex_lower(data).take(8)
            &&& forall|i: int| 0 <= i < 8 ==> #[trigger] is_hex_digit(sha8[i])
        }),
{
    lemma_hex_len(data);
    lemma_hex_digits(data);
    let t = release_tag_spec(agp, ndk, gradle, hex_lower(data));
    assert(t.skip(t.len() - 8) =~= hex_lower(data).take(8));
    assert forall|i: int| 0 <= i < 8 implies #[trigger] is_hex_digit(t.skip(t.len() - 8)[i]) by {
        assert(t.skip(t.len() - 8)[i] == hex_lower(data)[i]);
    }
}

} // verus!
