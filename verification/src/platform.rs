//! Platform matcher: turns raw architecture / OS identifiers into the alias
//! substrings used to recognize compatible asset filenames.

use vstd::prelude::*;
use vstd::string::StringExecFns;

verus! {

/// The C standard library flavor a Linux binary was built against.
#[derive(Clone, Copy, Debug, PartialEq, Eq, Structural)]
pub enum Libc {
    Gnu,
    Musl,
}

impl Default for Libc {
    fn default() -> (r: Self)
        ensures
            r == Libc::Gnu,
    {
        Libc::Gnu
    }
}

/// Alias substrings an asset filename is matched against: at least one
/// architecture alias and one OS alias must occur in the (lower-cased) name.
pub struct PlatformFilter {
    pub arch_aliases: Vec<String>,
    pub os_aliases: Vec<String>,
}

/// The character views of a list of strings.
pub open spec fn views_of(v: Seq<String>) -> Seq<Seq<char>> {
    v.map_values(|s: String| s@)
}

/// The alias set of an architecture identifier. Unrecognized values pass
/// through as a single literal alias.
pub open spec fn arch_aliases_spec(arch: Seq<char>) -> Seq<Seq<char>> {
    if arch == "x86_64"@ {
        seq!["x86_64"@, "amd64"@, "x64"@]
    } else if arch == "aarch64"@ {
        seq!["aarch64"@, "arm64"@]
    } else if arch == "armv6l"@ || arch == "armv7l"@ {
        seq![arch, "armhf"@]
    } else {
        seq![arch]
    }
}

/// The alias set of an operating-system identifier. Unrecognized values pass
/// through as a single literal alias.
pub open spec fn os_aliases_spec(os: Seq<char>) -> Seq<Seq<char>> {
    if os == "Linux"@ {
        seq!["linux"@]
    } else if os == "macos"@ {
        seq!["darwin"@, "apple"@, "macos"@]
    } else if os == "Windows"@ {
        seq!["windows"@, "win"@]
    } else {
        seq![os]
    }
}

/// Build the platform filter for a raw architecture / OS pair. There are no
/// error conditions: unknown platforms degrade to a single-alias filter.
pub fn resolve(arch: &str, os: &str) -> (r: PlatformFilter)
    ensures
        views_of(r.arch_aliases@) == arch_aliases_spec(arch@),
        views_of(r.os_aliases@) == os_aliases_spec(os@),
{
    let arch_aliases = resolve_arch(arch);
    let os_aliases = resolve_os(os);
    PlatformFilter { arch_aliases, os_aliases }
}

fn resolve_arch(arch: &str) -> (r: Vec<String>)
    ensures
        views_of(r@) == arch_aliases_spec(arch@),
{
    let mut r: Vec<String> = Vec::new();
    if crate::text::str_eq(arch, "x86_64") {
        r.push(String::from_str("x86_64"));
        r.push(String::from_str("amd64"));
        r.push(String::from_str("x64"));
    } else if crate::text::str_eq(arch, "aarch64") {
        r.push(String::from_str("aarch64"));
        r.push(String::from_str("arm64"));
    } else if crate::text::str_eq(arch, "armv6l") || crate::text::str_eq(arch, "armv7l") {
        r.push(String::from_str(arch));
        r.push(String::from_str("armhf"));
    } else {
        r.push(String::from_str(arch));
    }
    proof {
        assert(views_of(r@) =~= arch_aliases_spec(arch@));
    }
    r
}

fn resolve_os(os: &str) -> (r: Vec<String>)
    ensures
        views_of(r@) == os_aliases_spec(os@),
{
    let mut r: Vec<String> = Vec::new();
    if crate::text::str_eq(os, "Linux") {
        r.push(String::from_str("linux"));
    } else if crate::text::str_eq(os, "macos") {
        r.push(String::from_str("darwin"));
        r.push(String::from_str("apple"));
        r.push(String::from_str("macos"));
    } else if crate::text::str_eq(os, "Windows") {
        r.push(String::from_str("windows"));
        r.push(String::from_str("win"));
    } else {
        r.push(String::from_str(os));
    }
    proof {
        assert(views_of(r@) =~= os_aliases_spec(os@));
    }
    r
}

} // verus!
