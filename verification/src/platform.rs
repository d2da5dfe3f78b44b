//! Platform identifiers for the packaged sidecar binary.
//!
//! A packaged sidecar is built once per supported pair of operating system
//! and processor architecture, and carries the pair's target triple in its
//! file name.

use vstd::prelude::*;
use vstd::string::*;

verus! {

/// The target triple of a platform, given the names by which the compiler
/// knows its operating system and its processor architecture. Five pairs are
/// supported; every other pair is `unknown`.
pub open spec fn target_triple(os: Seq<char>, arch: Seq<char>) -> Seq<char> {
    if os == "linux"@ && arch == "x86_64"@ {
        "x86_64-unknown-linux-gnu"@
    } else if os == "linux"@ && arch == "aarch64"@ {
        "aarch64-unknown-linux-gnu"@
    } else if os == "macos"@ && arch == "x86_64"@ {
        "x86_64-apple-darwin"@
    } else if os == "macos"@ && arch == "aarch64"@ {
        "aarch64-apple-darwin"@
    } else if os == "windows"@ && arch == "x86_64"@ {
        "x86_64-pc-windows-msvc"@
    } else {
        "unknown"@
    }
}

/// Whether two strings hold the same text.
pub(crate) fn same_text(a: &str, b: &str) -> (same: bool)
    ensures
        same == (a@ == b@),
{
    let left: String = a.to_owned();
    let right: String = b.to_owned();
    left == right
}

/// Names the target triple of the host.
///
/// `os` and `arch` are the host's operating system and architecture as the
/// compiler names them, such as `linux` and `x86_64`. A pair for which no
/// sidecar is packaged yields `unknown`, a name that no packaged binary
/// carries.
pub fn current_target_triple(os: &str, arch: &str) -> (triple: &'static str)
    ensures
        triple@ == target_triple(os@, arch@),
{
    let linux: bool = same_text(os, "linux");
    let macos: bool = same_text(os, "macos");
    let windows: bool = same_text(os, "windows");
    let x86_64: bool = same_text(arch, "x86_64");
    let aarch64: bool = same_text(arch, "aarch64");
    if linux && x86_64 {
        "x86_64-unknown-linux-gnu"
    } else if linux && aarch64 {
        "aarch64-unknown-linux-gnu"
    } else if macos && x86_64 {
        "x86_64-apple-darwin"
    } else if macos && aarch64 {
        "aarch64-apple-darwin"
    } else if windows && x86_64 {
        "x86_64-pc-windows-msvc"
    } else {
        "unknown"
    }
}

} // verus!
