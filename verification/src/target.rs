//! One target = one thing a workspace can verify: a cargo package, a
//! Gradle product flavor, and the cdylib the package builds.
use vstd::prelude::*;

use crate::config::Config;
use crate::error::{Error, ErrorV};
use crate::text::{ascii_upper, chars_of, push_char, push_range, same_text, to_ascii_upper};

verus! {

broadcast use vstd::string::group_string_axioms;

#[derive(Debug, Clone, PartialEq, Eq)]
pub struct Target {
    /// Lookup key.
    pub name: String,
    /// Cargo package name passed to `cargo build -p <package>`.
    pub package: String,
    /// Gradle product flavor (camelCase).
    pub flavor: String,
    /// cdylib name.
    pub cdylib: String,
}

/// `s` with its first character made ASCII upper-case.
pub open spec fn ascii_capitalized(s: Seq<char>) -> Seq<char> {
    if s.len() == 0 {
        seq![]
    } else {
        seq![ascii_upper(s[0])] + s.drop_first()
    }
}

impl Target {
    /// The flavor with its first character upper-cased (ASCII only), as
    /// in the task name `assemble<Flavor>Debug`.
    pub fn flavor_capitalized(&self) -> (f: String)
        ensures
            f@ == ascii_capitalized(self.flavor@),
    {
        let v = chars_of(self.flavor.as_str());
        if v.len() == 0 {
            return String::new();
        }
        let mut f = String::new();
        push_char(&mut f, to_ascii_upper(v[0]));
        push_range(&mut f, &v, 1, v.len());
        assert(v@.subrange(1, v.len() as int) =~= v@.drop_first());
        f
    }
}

/// The first of `targets` named `name`, if any.
pub open spec fn first_named(targets: Seq<Target>, name: Seq<char>, i: int) -> bool {
    &&& 0 <= i < targets.len()
    &&& targets[i].name@ == name
    &&& forall|j: int| 0 <= j < i ==> targets[j].name@ != name
}

/// The target of `config` named `name`: the first one that has that name.
pub fn lookup<'a>(config: &'a Config, name: &str) -> (r: Result<&'a Target, Error>)
    ensures
        match r {
            Ok(t) => exists|i: int| first_named(config.targets@, name@, i) && *t == config.targets@[i],
            Err(e) => e@ == ErrorV::UnknownTarget(name@) && forall|j: int|
                0 <= j < config.targets@.len() ==> config.targets@[j].name@ != name@,
        },
{
    let mut i: usize = 0;
    while i < config.targets.len()
        invariant
            i <= config.targets@.len(),
            forall|j: int| 0 <= j < i ==> config.targets@[j].name@ != name@,
        decreases config.targets.len() - i,
    {
        if same_text(config.targets[i].name.as_str(), name) {
            assert(first_named(config.targets@, name@, i as int));
            return Ok(&config.targets[i]);
        }
        i = i + 1;
    }
    Err(Error::UnknownTarget(name.to_owned()))
}

} // verus!
