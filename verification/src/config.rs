//! The per-consumer workspace configuration
//! (`agdk.toml`): where the lockfile and the pin files live and which
//! targets can be verified. All configured paths resolve against the
//! workspace root, the directory holding the configuration.
use vstd::prelude::*;

use crate::target::Target;
use crate::text::{join_path, path_join};

verus! {

broadcast use vstd::string::group_string_axioms;

#[derive(Debug)]
pub struct Config {
    pub release_host: String,
    pub lockfile: String,
    pub android_project: String,
    pub agp_file: String,
    pub ndk_file: String,
    pub gradle_file: String,
    pub targets: Vec<Target>,
    pub workspace_root: String,
}

pub fn default_lockfile() -> (p: String)
    ensures
        p@ == "android/toolchain.lock"@,
{
    "android/toolchain.lock".to_owned()
}

pub fn default_android_project() -> (p: String)
    ensures
        p@ == "android"@,
{
    "android".to_owned()
}

pub fn default_agp_file() -> (p: String)
    ensures
        p@ == "android/gradle/libs.versions.toml"@,
{
    "android/gradle/libs.versions.toml".to_owned()
}

pub fn default_ndk_file() -> (p: String)
    ensures
        p@ == "android/ndk.version"@,
{
    "android/ndk.version".to_owned()
}

pub fn default_gradle_file() -> (p: String)
    ensures
        p@ == "android/gradle/wrapper/gradle-wrapper.properties"@,
{
    "android/gradle/wrapper/gradle-wrapper.properties".to_owned()
}

impl Config {
    /// `relative`, resolved against the workspace root.
    pub fn abs(&self, relative: &str) -> (p: String)
        ensures
            p@ == path_join(self.workspace_root@, relative@),
    {
        join_path(self.workspace_root.as_str(), relative)
    }
}

} // verus!
