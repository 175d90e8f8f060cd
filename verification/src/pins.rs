//! The pinned AGP / NDK / Gradle versions of a consumer's Android project,
//! read from the files where AGP conventions put them:
//!
//! - `<android-project>/gradle/libs.versions.toml`: AGP version under the
//!   `[versions]` table, key `agp`.
//! - `<android-project>/ndk.version`: the whole file, trimmed.
//! - `<android-project>/gradle/wrapper/gradle-wrapper.properties`: the
//!   `distributionUrl=...gradle-X-bin.zip` line.
use vstd::prelude::*;

use crate::document::{lookup, lookup_view, toml_entry, TomlEntry, TomlEntryV};
use crate::error::{Error, ErrorV};
use crate::text::{
    chars_of, find, find_in, join_path, lemma_find_some, lemma_lines_last, lemma_lines_step,
    lines, path_join, starts_with, starts_with_at, string_of, strip_cr, trim, trim_range,
};

verus! {

broadcast use vstd::string::group_string_axioms;

#[derive(Debug, Clone, PartialEq, Eq)]
pub struct Pins {
    pub agp: String,
    pub ndk: String,
    pub gradle: String,
}

/// The content of a [`Pins`].
pub struct PinsV {
    pub agp: Seq<char>,
    pub ndk: Seq<char>,
    pub gradle: Seq<char>,
}

impl View for Pins {
    type V = PinsV;

    open spec fn view(&self) -> PinsV {
        PinsV { agp: self.agp@, ndk: self.ndk@, gradle: self.gradle@ }
    }
}

/// The major segment of an NDK version: everything before the first
/// `'.'`, or the whole version when it has none.
pub open spec fn major_of(ndk: Seq<char>) -> Seq<char> {
    match find(ndk, seq!['.']) {
        Some(i) => ndk.take(i),
        None => ndk,
    }
}

/// The major segment of the NDK version `ndk`.
pub fn major_version(ndk: &str) -> (m: &str)
    ensures
        m@ == major_of(ndk@),
{
    let v = chars_of(ndk);
    let dot = vec!['.'];
    assert(dot@ =~= seq!['.']);
    assert(v@.subrange(0, v.len() as int) =~= v@);
    match find_in(&v, 0, v.len(), &dot) {
        Some(i) => {
            proof {
                lemma_find_some(v@, dot@);
            }
            ndk.substring_char(0, i)
        },
        None => ndk,
    }
}

impl Pins {
    /// Major version segment of `ndk` (the one the toolchain-bundle tag
    /// uses). Falls back to the full string if there's no `.`.
    pub fn ndk_major(&self) -> (m: &str)
        ensures
            m@ == major_of(self.ndk@),
    {
        major_version(self.ndk.as_str())
    }
}

/// The Gradle version named by one line of `gradle-wrapper.properties`:
/// after trimming, the line must start with `distributionUrl=`; the
/// version is what stands between the first `gradle-` after that and the
/// first `-bin` after it.
pub open spec fn gradle_version_of_line(line: Seq<char>) -> Option<Seq<char>> {
    let t = trim(line);
    let key = "distributionUrl="@;
    if starts_with(t, key) {
        let rest = t.skip(key.len() as int);
        match find(rest, "gradle-"@) {
            Some(idx) => {
                let after = rest.skip(idx + "gradle-"@.len());
                match find(after, "-bin"@) {
                    Some(end) => Some(after.take(end)),
                    None => None,
                }
            },
            None => None,
        }
    } else {
        None
    }
}

/// The version named by the first line that names one.
pub open spec fn first_gradle_version(ls: Seq<Seq<char>>) -> Option<Seq<char>>
    decreases ls.len(),
{
    if ls.len() == 0 {
        None
    } else {
        match gradle_version_of_line(ls[0]) {
            Some(v) => Some(v),
            None => first_gradle_version(ls.drop_first()),
        }
    }
}

/// The Gradle version that a `gradle-wrapper.properties` text pins.
pub open spec fn gradle_version_in(text: Seq<char>) -> Option<Seq<char>> {
    first_gradle_version(lines(text))
}

/// The view of an optional string.
pub open spec fn opt_string(o: Option<String>) -> Option<Seq<char>> {
    match o {
        Some(s) => Some(s@),
        None => None,
    }
}

proof fn lemma_first_cons(l: Seq<char>, rest: Seq<Seq<char>>)
    ensures
        first_gradle_version(seq![l] + rest) == match gradle_version_of_line(l) {
            Some(v) => Some(v),
            None => first_gradle_version(rest),
        },
{
    assert((seq![l] + rest)[0] == l);
    assert((seq![l] + rest).drop_first() =~= rest);
}

/// The version named by the line `v[lo..hi]`.
fn version_in_line(v: &Vec<char>, lo: usize, hi: usize) -> (r: Option<String>)
    requires
        lo <= hi <= v.len(),
    ensures
        opt_string(r) == gradle_version_of_line(v@.subrange(lo as int, hi as int)),
{
    let ghost line = v@.subrange(lo as int, hi as int);
    let (a, b) = trim_range(v, lo, hi);
    let key = chars_of("distributionUrl=");
    let dash = chars_of("gradle-");
    let bin = chars_of("-bin");
    if !starts_with_at(v, a, b, &key) {
        return None;
    }
    let r0 = a + key.len();
    let ghost t = v@.subrange(a as int, b as int);
    let ghost rest = t.skip(key@.len() as int);
    assert(rest =~= v@.subrange(r0 as int, b as int));
    match find_in(v, r0, b, &dash) {
        None => None,
        Some(idx) => {
            proof {
                lemma_find_some(rest, dash@);
            }
            let s0 = idx + dash.len();
            let ghost after = rest.skip(idx - r0 + dash@.len());
            assert(after =~= v@.subrange(s0 as int, b as int));
            match find_in(v, s0, b, &bin) {
                None => None,
                Some(e) => {
                    proof {
                        lemma_find_some(after, bin@);
                    }
                    assert(after.take(e - s0) =~= v@.subrange(s0 as int, e as int));
                    Some(string_of(v, s0, e))
                },
            }
        },
    }
}

/// Finds the Gradle version in a `gradle-wrapper.properties` text: the
/// first line of the form `distributionUrl=...gradle-X-bin...` names `X`.
pub fn parse_gradle_distribution_url(text: &str) -> (r: Option<String>)
    ensures
        opt_string(r) == gradle_version_in(text@),
{
    let v = chars_of(text);
    let n = v.len();
    let mut start: usize = 0;
    let mut i: usize = 0;
    assert(v@.skip(0) =~= v@);
    while i < n
        invariant
            n == v.len(),
            v@ == text@,
            start <= i <= n,
            forall|j: int| start <= j < i ==> v@[j] != '\n',
            gradle_version_in(text@) == first_gradle_version(lines(v@.skip(start as int))),
        decreases n - i,
    {
        if v[i] == '\n' {
            let end = if i > start && v[i - 1] == '\r' {
                i - 1
            } else {
                i
            };
            proof {
                lemma_lines_step(v@, start as int, i as int);
                lemma_first_cons(
                    crate::text::strip_cr(v@.subrange(start as int, i as int)),
                    lines(v@.skip(i + 1)),
                );
                if i > start && v@[i - 1] == '\r' {
                    assert(v@.subrange(start as int, i as int).drop_last()
                        =~= v@.subrange(start as int, end as int));
                }
            }
            let r = version_in_line(&v, start, end);
            if r.is_some() {
                return r;
            }
            start = i + 1;
        }
        i = i + 1;
    }
    proof {
        lemma_lines_last(v@, start as int);
    }
    if start < n {
        proof {
            lemma_first_cons(v@.skip(start as int), Seq::empty());
            assert(seq![v@.skip(start as int)] + Seq::<Seq<char>>::empty()
                =~= seq![v@.skip(start as int)]);
            assert(v@.skip(start as int) =~= v@.subrange(start as int, n as int));
        }
        version_in_line(&v, start, n)
    } else {
        None
    }
}


/// Where the AGP version is pinned, under the Android project root.
pub open spec fn agp_path(project: Seq<char>) -> Seq<char> {
    path_join(project, "gradle/libs.versions.toml"@)
}

/// Where the NDK version is pinned, under the Android project root.
pub open spec fn ndk_path(project: Seq<char>) -> Seq<char> {
    path_join(project, "ndk.version"@)
}

/// Where the Gradle version is pinned, under the Android project root.
pub open spec fn gradle_path(project: Seq<char>) -> Seq<char> {
    path_join(project, "gradle/wrapper/gradle-wrapper.properties"@)
}

pub fn agp_file(android_project: &str) -> (p: String)
    ensures
        p@ == agp_path(android_project@),
{
    join_path(android_project, "gradle/libs.versions.toml")
}

pub fn ndk_file(android_project: &str) -> (p: String)
    ensures
        p@ == ndk_path(android_project@),
{
    join_path(android_project, "ndk.version")
}

pub fn gradle_file(android_project: &str) -> (p: String)
    ensures
        p@ == gradle_path(android_project@),
{
    join_path(android_project, "gradle/wrapper/gradle-wrapper.properties")
}

/// The reason given when the AGP catalog has no `[versions] agp` string.
pub open spec fn no_agp_key() -> Seq<char> {
    "no `agp = \"…\"` key under [versions]"@
}

/// The reason given when no line names a Gradle distribution.
pub open spec fn no_gradle_line() -> Seq<char> {
    "no `distributionUrl=…gradle-X-bin.zip` line found"@
}

/// The AGP version, given what the TOML lookup of `[versions] agp` in
/// the catalog at `file` produced.
pub open spec fn agp_from_lookup(
    file: Seq<char>,
    lookup: Result<TomlEntryV, Seq<char>>,
) -> Result<Seq<char>, ErrorV> {
    match lookup {
        Err(reason) => Err(ErrorV::Parse { file, reason }),
        Ok(TomlEntryV::Str(v)) => Ok(v),
        Ok(_) => Err(ErrorV::Parse { file, reason: no_agp_key() }),
    }
}

/// The Gradle version pinned by the properties text of `file`.
pub open spec fn gradle_from_text(file: Seq<char>, text: Seq<char>) -> Result<Seq<char>, ErrorV> {
    match gradle_version_in(text) {
        Some(v) => Ok(v),
        None => Err(ErrorV::Parse { file, reason: no_gradle_line() }),
    }
}

/// Turns what the TOML lookup of `[versions] agp` found in the catalog at
/// `file` into the AGP version or a parse error.
pub fn agp_version_from(file: &str, entry: Result<TomlEntry, String>) -> (r: Result<String, Error>)
    ensures
        crate::error::string_result(r) == agp_from_lookup(file@, lookup_view(entry)),
{
    match entry {
        Err(reason) => Err(Error::Parse { file: file.to_owned(), reason }),
        Ok(TomlEntry::Str(v)) => Ok(v),
        Ok(_) => Err(
            Error::Parse { file: file.to_owned(), reason: "no `agp = \"…\"` key under [versions]".to_owned() },
        ),
    }
}

/// The AGP version pinned by the version catalog `text` read from `file`.
pub fn agp_from_catalog(file: &str, text: &str) -> (r: Result<String, Error>)
    ensures
        crate::error::string_result(r) == agp_from_lookup(
            file@,
            toml_entry(text@, "versions"@, Some("agp"@)),
        ),
{
    let entry = lookup(text, "versions", Some("agp"));
    agp_version_from(file, entry)
}

/// The NDK version pinned by the text of `ndk.version`: the whole text,
/// trimmed.
pub fn ndk_from_text(text: &str) -> (v: String)
    ensures
        v@ == trim(text@),
{
    let c = chars_of(text);
    let (a, b) = trim_range(&c, 0, c.len());
    assert(c@.subrange(0, c.len() as int) =~= c@);
    string_of(&c, a, b)
}

/// The Gradle version pinned by the `gradle-wrapper.properties` text read
/// from `file`.
pub fn gradle_from_properties(file: &str, text: &str) -> (r: Result<String, Error>)
    ensures
        crate::error::string_result(r) == gradle_from_text(file@, text@),
{
    match parse_gradle_distribution_url(text) {
        Some(v) => Ok(v),
        None => Err(
            Error::Parse {
                file: file.to_owned(),
                reason: "no `distributionUrl=…gradle-X-bin.zip` line found".to_owned(),
            },
        ),
    }
}

/// What reading the three pin files produced: the text, or the message of
/// the I/O failure.
pub open spec fn read_view(r: Result<String, String>) -> Result<Seq<char>, Seq<char>> {
    match r {
        Ok(t) => Ok(t@),
        Err(m) => Err(m@),
    }
}

/// The pins of the Android project at `project`, given what reading its
/// three pin files produced. The files are taken in the order AGP, NDK,
/// Gradle, and the first failure is the one reported.
pub open spec fn pins_from(
    project: Seq<char>,
    agp_read: Result<Seq<char>, Seq<char>>,
    ndk_read: Result<Seq<char>, Seq<char>>,
    gradle_read: Result<Seq<char>, Seq<char>>,
) -> Result<PinsV, ErrorV> {
    match agp_read {
        Err(m) => Err(ErrorV::Io(m)),
        Ok(agp_text) => match agp_from_lookup(
            agp_path(project),
            toml_entry(agp_text, "versions"@, Some("agp"@)),
        ) {
            Err(e) => Err(e),
            Ok(agp) => match ndk_read {
                Err(m) => Err(ErrorV::Io(m)),
                Ok(ndk_text) => match gradle_read {
                    Err(m) => Err(ErrorV::Io(m)),
                    Ok(gradle_text) => match gradle_from_text(gradle_path(project), gradle_text) {
                        Err(e) => Err(e),
                        Ok(gradle) => Ok(PinsV { agp, ndk: trim(ndk_text), gradle }),
                    },
                },
            },
        },
    }
}

/// The Gradle pin is searched for in every line of the properties file: a
/// line in front that names no Gradle distribution leaves the pin that the
/// rest of the file names unchanged.
pub proof fn lemma_gradle_pin_skips_other_lines(line: Seq<char>, rest: Seq<char>)
    requires
        forall|j: int| 0 <= j < line.len() ==> line[j] != '\n',
        gradle_version_of_line(strip_cr(line)) is None,
    ensures
        gradle_version_in(line + seq!['\n'] + rest) == gradle_version_in(rest),
{
    let t = line + seq!['\n'] + rest;
    let nl = line.len() as int;
    assert(t[nl] == '\n');
    assert forall|j: int| 0 <= j < nl implies t[j] != '\n' by {
        assert(t[j] == line[j]);
    }
    lemma_lines_step(t, 0, nl);
    assert(t.skip(0) =~= t);
    assert(t.subrange(0, nl) =~= line);
    assert(t.skip(nl + 1) =~= rest);
    lemma_first_cons(strip_cr(line), lines(rest));
}

/// The Gradle pin that reading a project yields is the version that the
/// first `distributionUrl` line of the whole properties text names, the one
/// [`parse_gradle_distribution_url`] finds; and the outcome depends on that
/// text only through that version: two properties texts that name the same
/// version give the same outcome.
pub proof fn lemma_read_takes_gradle_version(
    project: Seq<char>,
    agp: Result<Seq<char>, Seq<char>>,
    ndk: Result<Seq<char>, Seq<char>>,
    g: Seq<char>,
    h: Seq<char>,
)
    ensures
        pins_from(project, agp, ndk, Ok(g)) matches Ok(p) ==> gradle_version_in(g) == Some(p.gradle),
        gradle_version_in(g) == gradle_version_in(h) ==> pins_from(project, agp, ndk, Ok(g))
            == pins_from(project, agp, ndk, Ok(h)),
        gradle_version_in(g) is None ==> pins_from(project, agp, ndk, Ok(g)) is Err,
{
}

/// The view of a pins result.
pub open spec fn pins_result(r: Result<Pins, Error>) -> Result<PinsV, ErrorV> {
    match r {
        Ok(p) => Ok(p@),
        Err(e) => Err(e@),
    }
}

/// Reads the pins of the Android project at `android_project` from the
/// contents of its three pin files (see [`agp_file`], [`ndk_file`],
/// [`gradle_file`]), each given as the text read or the message of the
/// I/O error that reading it raised.
pub fn read(
    android_project: &str,
    agp_text: Result<String, String>,
    ndk_text: Result<String, String>,
    gradle_text: Result<String, String>,
) -> (r: Result<Pins, Error>)
    ensures
        pins_result(r) == pins_from(
            android_project@,
            read_view(agp_text),
            read_view(ndk_text),
            read_view(gradle_text),
        ),
{
    let agp = match agp_text {
        Err(m) => return Err(Error::Io(m)),
        Ok(t) => {
            let file = agp_file(android_project);
            match agp_from_catalog(file.as_str(), t.as_str()) {
                Err(e) => return Err(e),
                Ok(v) => v,
            }
        },
    };
    let ndk = match ndk_text {
        Err(m) => return Err(Error::Io(m)),
        Ok(t) => ndk_from_text(t.as_str()),
    };
    let gradle = match gradle_text {
        Err(m) => return Err(Error::Io(m)),
        Ok(t) => {
            let file = gradle_file(android_project);
            match gradle_from_properties(file.as_str(), t.as_str()) {
                Err(e) => return Err(e),
                Ok(v) => v,
            }
        },
    };
    Ok(Pins { agp, ndk, gradle })
}

} // verus!
