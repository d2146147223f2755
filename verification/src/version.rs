//! The version text shown to the user, and a greeting.

use vstd::prelude::*;
use vstd::string::StringExecFns;

verus! {

/// The version text for a build of kind `build_type`.
///
/// A release shows the version alone; a beta or nightly build adds the
/// build date, a debug build the commit; an internal build shows the date
/// alone. Any other kind is shown as a nightly build is.
pub open spec fn build_version(
    build_type: Seq<char>,
    base_version: Seq<char>,
    build_date: Seq<char>,
    git_commit: Seq<char>,
) -> Seq<char> {
    if build_type == "release"@ {
        "v"@ + base_version
    } else if build_type == "beta"@ {
        "v"@ + base_version + "-beta+"@ + build_date
    } else if build_type == "debug"@ {
        "v"@ + base_version + "+git"@ + git_commit
    } else if build_type == "internal"@ {
        build_date + "-dev"@
    } else {
        "v"@ + base_version + "+"@ + build_date
    }
}

/// The version text for a build of kind `build_type`.
pub fn get_build_version(
    build_type: &str,
    base_version: &str,
    build_date: &str,
    git_commit: &str,
) -> (text: String)
    ensures
        text@ == build_version(build_type@, base_version@, build_date@, git_commit@),
{
    let kind = String::from_str(build_type);
    if kind == String::from_str("release") {
        String::from_str("v").concat(base_version)
    } else if kind == String::from_str("beta") {
        String::from_str("v").concat(base_version).concat("-beta+").concat(build_date)
    } else if kind == String::from_str("debug") {
        String::from_str("v").concat(base_version).concat("+git").concat(git_commit)
    } else if kind == String::from_str("internal") {
        String::from_str(build_date).concat("-dev")
    } else {
        String::from_str("v").concat(base_version).concat("+").concat(build_date)
    }
}

/// The greeting for `name`.
pub fn greet(name: &str) -> (text: String)
    ensures
        text@ == "Hello, "@ + name@ + "! You've been greeted from Rust!"@,
{
    String::from_str("Hello, ").concat(name).concat("! You've been greeted from Rust!")
}

} // verus!
