//! Facts about the operating system the launcher runs on.
use vstd::prelude::*;

verus! {

/// The operating systems the launcher supports.
#[derive(Clone, Copy, Debug, PartialEq, Eq, Structural)]
pub enum Os {
    Windows,
    MacOs,
    Linux,
}

/// A Windows-style version quadruple, ordered field by field.
#[derive(Clone, Copy, Debug, PartialEq, Eq, Structural)]
pub struct OsVersion {
    pub major: u32,
    pub minor: u32,
    pub pack: u32,
    pub build: u32,
}

/// Lexicographic order on `(major, minor, pack, build)`.
pub open spec fn version_at_least(v: OsVersion, w: OsVersion) -> bool {
    ||| v.major > w.major
    ||| v.major == w.major && v.minor > w.minor
    ||| v.major == w.major && v.minor == w.minor && v.pack > w.pack
    ||| v.major == w.major && v.minor == w.minor && v.pack == w.pack && v.build >= w.build
}

/// The oldest Windows release that runs the Z garbage collector
/// (Windows 10, version 1803).
pub open spec fn zgc_minimum_windows() -> OsVersion {
    OsVersion { major: 10, minor: 0, pack: 0, build: 17134 }
}

/// The low-latency collector is supported everywhere but on Windows releases
/// older than [`zgc_minimum_windows`].
pub open spec fn zgc_supported(os: Os, version: OsVersion) -> bool {
    os != Os::Windows || version_at_least(version, zgc_minimum_windows())
}

impl OsVersion {
    pub fn new(major: u32, minor: u32, pack: u32, build: u32) -> (r: OsVersion)
        ensures
            r == (OsVersion { major, minor, pack, build }),
    {
        OsVersion { major, minor, pack, build }
    }

    /// Whether `self` is the same release as `other` or a later one.
    pub fn at_least(&self, other: &OsVersion) -> (r: bool)
        ensures
            r == version_at_least(*self, *other),
    {
        if self.major != other.major {
            self.major > other.major
        } else if self.minor != other.minor {
            self.minor > other.minor
        } else if self.pack != other.pack {
            self.pack > other.pack
        } else {
            self.build >= other.build
        }
    }
}

/// The character that separates class path entries, and the entries of the
/// library search path.
pub open spec fn delimiter(os: Os) -> char {
    if os == Os::Windows {
        ';'
    } else {
        ':'
    }
}

/// The folder under `runtime` that holds the virtual machine's library folder.
pub open spec fn runtime_library_folder(os: Os) -> Seq<char> {
    if os == Os::Windows {
        "bin"@
    } else {
        "lib"@
    }
}

/// The variable the dynamic loader searches for shared libraries.
pub open spec fn search_path_variable(os: Os) -> Seq<char> {
    match os {
        Os::Windows => "PATH"@,
        Os::MacOs => "DYLD_LIBRARY_PATH"@,
        Os::Linux => "LD_LIBRARY_PATH"@,
    }
}

/// Only macOS requires a live event loop on the process's first thread.
pub open spec fn first_thread_constrained(os: Os) -> bool {
    os == Os::MacOs
}

pub fn class_path_delimiter(os: Os) -> (r: &'static str)
    ensures
        r@ == seq![delimiter(os)],
{
    proof {
        reveal_strlit(";");
        reveal_strlit(":");
    }
    match os {
        Os::Windows => ";",
        _ => ":",
    }
}

pub fn library_folder(os: Os) -> (r: &'static str)
    ensures
        r@ == runtime_library_folder(os),
{
    match os {
        Os::Windows => "bin",
        _ => "lib",
    }
}

pub fn library_search_variable(os: Os) -> (r: &'static str)
    ensures
        r@ == search_path_variable(os),
{
    match os {
        Os::Windows => "PATH",
        Os::MacOs => "DYLD_LIBRARY_PATH",
        Os::Linux => "LD_LIBRARY_PATH",
    }
}

pub fn has_first_thread_constraint(os: Os) -> (r: bool)
    ensures
        r == first_thread_constrained(os),
{
    match os {
        Os::MacOs => true,
        _ => false,
    }
}

/// Whether the Z garbage collector can be enabled on `os` at `version`.
/// The version is consulted on Windows only.
pub fn is_zgc_supported(os: Os, version: &OsVersion) -> (r: bool)
    ensures
        r == zgc_supported(os, *version),
{
    match os {
        Os::Windows => version.at_least(&OsVersion::new(10, 0, 0, 17134)),
        _ => true,
    }
}

/// On Windows 10 the collector is supported from build 17134 on, that build
/// included.
pub proof fn lemma_windows_build_threshold(build: u32)
    ensures
        zgc_supported(Os::Windows, OsVersion { major: 10, minor: 0, pack: 0, build }) <==> build
            >= 17134,
{
}

} // verus!
