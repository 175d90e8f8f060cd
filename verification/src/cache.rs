//! Per-bundle cache under `<user cache dir>/cargo-agdk/<tag>/`. Keyed on
//! the release tag so different pin tuples land in sibling directories.
use vstd::prelude::*;

use crate::error::{string_result, Error, ErrorV};
use crate::pins::{Pins, PinsV};
use crate::release::{tag, tag_spec};
use crate::text::{join_path, path_join};

verus! {

broadcast use vstd::string::group_string_axioms;

/// `dirs::cache_dir()`, as a string (lossily for a non-UTF-8 path). It
/// depends on the environment (`$XDG_CACHE_HOME`, `$HOME`), so nothing is
/// stated of it.
#[verifier::external_body]
fn user_cache_dir() -> (d: Option<String>) {
    dirs::cache_dir().map(|p| p.to_string_lossy().into_owned())
}

/// The reason given when the user has no cache directory.
pub open spec fn no_cache_dir() -> ErrorV {
    ErrorV::Other("no user cache directory (HOME unset?)"@)
}

/// The bundle cache of a pin tuple under the user cache directory `base`.
pub open spec fn root_under(base: Seq<char>, p: PinsV) -> Seq<char> {
    path_join(path_join(base, "cargo-agdk"@), tag_spec(p))
}

pub open spec fn android_home_under(base: Seq<char>, p: PinsV) -> Seq<char> {
    path_join(root_under(base, p), "android-home"@)
}

pub open spec fn gradle_user_home_under(base: Seq<char>, p: PinsV) -> Seq<char> {
    path_join(root_under(base, p), "gradle-user-home"@)
}

pub open spec fn ndk_home_under(base: Seq<char>, p: PinsV) -> Seq<char> {
    path_join(path_join(android_home_under(base, p), "ndk"@), p.ndk)
}

/// Different pin tuples land in sibling directories: under one user cache
/// directory, two tuples share a cache root exactly when they share a
/// release tag.
pub proof fn lemma_roots_keyed_on_tag(base: Seq<char>, a: PinsV, b: PinsV)
    ensures
        root_under(base, a) == root_under(base, b) <==> tag_spec(a) == tag_spec(b),
{
    let d = path_join(base, "cargo-agdk"@);
    let ta = tag_spec(a);
    let tb = tag_spec(b);
    reveal_strlit("cargo-agdk");
    reveal_strlit("android-toolchain-agp");
    assert(d.len() > 0 && d.last() == 'k');
    assert(ta[0] == 'a' && tb[0] == 'a');
    assert(root_under(base, a) == d + seq!['/'] + ta);
    assert(root_under(base, b) == d + seq!['/'] + tb);
    if root_under(base, a) == root_under(base, b) {
        assert(ta =~= root_under(base, a).skip(d.len() + 1int));
        assert(tb =~= root_under(base, b).skip(d.len() + 1int));
    }
}

/// The outcome of a cache-path lookup: a path that `path_of` gives for
/// some user cache directory, or the missing-cache-directory error.
pub open spec fn cache_path_result(r: Result<String, Error>, path_of: spec_fn(Seq<char>) -> Seq<char>) -> bool {
    match r {
        Ok(p) => exists|base: Seq<char>| p@ == #[trigger] path_of(base),
        Err(e) => e@ == no_cache_dir(),
    }
}

/// The bundle cache of `pins` under the user cache directory `base`.
pub fn root_in(base: &str, pins: &Pins) -> (p: String)
    ensures
        p@ == root_under(base@, pins@),
{
    let app = join_path(base, "cargo-agdk");
    let t = tag(pins);
    join_path(app.as_str(), t.as_str())
}

pub fn android_home_in(base: &str, pins: &Pins) -> (p: String)
    ensures
        p@ == android_home_under(base@, pins@),
{
    let r = root_in(base, pins);
    join_path(r.as_str(), "android-home")
}

pub fn gradle_user_home_in(base: &str, pins: &Pins) -> (p: String)
    ensures
        p@ == gradle_user_home_under(base@, pins@),
{
    let r = root_in(base, pins);
    join_path(r.as_str(), "gradle-user-home")
}

pub fn ndk_home_in(base: &str, pins: &Pins) -> (p: String)
    ensures
        p@ == ndk_home_under(base@, pins@),
{
    let h = android_home_in(base, pins);
    let n = join_path(h.as_str(), "ndk");
    join_path(n.as_str(), pins.ndk.as_str())
}

/// A cache path of a user cache directory `dir`: the path that `path_of`
/// gives under it, or the missing-cache-directory error when there is
/// none.
pub open spec fn path_from(dir: Option<String>, path_of: spec_fn(Seq<char>) -> Seq<char>) -> Result<
    Seq<char>,
    ErrorV,
> {
    match dir {
        Some(b) => Ok(path_of(b@)),
        None => Err(no_cache_dir()),
    }
}

fn no_cache_dir_error() -> (e: Error)
    ensures
        e@ == no_cache_dir(),
{
    Error::Other("no user cache directory (HOME unset?)".to_owned())
}

/// The bundle cache of `pins` under the user cache directory `dir`
/// (`<dir>/cargo-agdk/<tag>`), or the missing-cache-directory error when
/// the user has none.
pub fn root_from(dir: Option<String>, pins: &Pins) -> (r: Result<String, Error>)
    ensures
        string_result(r) == path_from(dir, |b: Seq<char>| root_under(b, pins@)),
{
    match dir {
        Some(b) => Ok(root_in(b.as_str(), pins)),
        None => Err(no_cache_dir_error()),
    }
}

/// `<dir>/cargo-agdk/<tag>/android-home`, or the missing-cache-directory
/// error.
pub fn android_home_from(dir: Option<String>, pins: &Pins) -> (r: Result<String, Error>)
    ensures
        string_result(r) == path_from(dir, |b: Seq<char>| android_home_under(b, pins@)),
{
    match dir {
        Some(b) => Ok(android_home_in(b.as_str(), pins)),
        None => Err(no_cache_dir_error()),
    }
}

/// `<dir>/cargo-agdk/<tag>/gradle-user-home`, or the missing-cache-directory
/// error.
pub fn gradle_user_home_from(dir: Option<String>, pins: &Pins) -> (r: Result<String, Error>)
    ensures
        string_result(r) == path_from(dir, |b: Seq<char>| gradle_user_home_under(b, pins@)),
{
    match dir {
        Some(b) => Ok(gradle_user_home_in(b.as_str(), pins)),
        None => Err(no_cache_dir_error()),
    }
}

/// `<dir>/cargo-agdk/<tag>/android-home/ndk/<ndk version>`, or the
/// missing-cache-directory error.
pub fn ndk_home_from(dir: Option<String>, pins: &Pins) -> (r: Result<String, Error>)
    ensures
        string_result(r) == path_from(dir, |b: Seq<char>| ndk_home_under(b, pins@)),
{
    match dir {
        Some(b) => Ok(ndk_home_in(b.as_str(), pins)),
        None => Err(no_cache_dir_error()),
    }
}

/// The bundle cache of `pins`: `<user cache dir>/cargo-agdk/<tag>`.
pub fn root(pins: &Pins) -> (r: Result<String, Error>)
    ensures
        cache_path_result(r, |b: Seq<char>| root_under(b, pins@)),
{
    root_from(user_cache_dir(), pins)
}

/// `<root>/android-home`.
pub fn android_home(pins: &Pins) -> (r: Result<String, Error>)
    ensures
        cache_path_result(r, |b: Seq<char>| android_home_under(b, pins@)),
{
    match root(pins) {
        Ok(r) => {
            let p = join_path(r.as_str(), "android-home");
            proof {
                let b = choose|b: Seq<char>| r@ == #[trigger] root_under(b, pins@);
                assert((|b: Seq<char>| android_home_under(b, pins@))(b) == p@);
            }
            Ok(p)
        },
        Err(e) => Err(e),
    }
}

/// `<root>/gradle-user-home`.
pub fn gradle_user_home(pins: &Pins) -> (r: Result<String, Error>)
    ensures
        cache_path_result(r, |b: Seq<char>| gradle_user_home_under(b, pins@)),
{
    match root(pins) {
        Ok(r) => {
            let p = join_path(r.as_str(), "gradle-user-home");
            proof {
                let b = choose|b: Seq<char>| r@ == #[trigger] root_under(b, pins@);
                assert((|b: Seq<char>| gradle_user_home_under(b, pins@))(b) == p@);
            }
            Ok(p)
        },
        Err(e) => Err(e),
    }
}

/// `<root>/android-home/ndk/<ndk version>`.
pub fn ndk_home(pins: &Pins) -> (r: Result<String, Error>)
    ensures
        cache_path_result(r, |b: Seq<char>| ndk_home_under(b, pins@)),
{
    match android_home(pins) {
        Ok(h) => {
            let n = join_path(h.as_str(), "ndk");
            let p = join_path(n.as_str(), pins.ndk.as_str());
            proof {
                let b = choose|b: Seq<char>| h@ == #[trigger] android_home_under(b, pins@);
                assert((|b: Seq<char>| ndk_home_under(b, pins@))(b) == p@);
            }
            Ok(p)
        },
        Err(e) => Err(e),
    }
}

} // verus!
