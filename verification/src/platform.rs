//! Selection of the bundled `aapt` binary that matches the running platform.

use crate::text::same;
use vstd::prelude::*;

verus! {

/// The builds of `aapt` that ship in the tool tree.
#[derive(Clone, Copy, Debug, PartialEq, Eq, Structural)]
pub enum AaptBinary {
    /// Linux on a 64-bit x86 processor.
    Linux64,
    /// Linux on any other processor.
    Linux,
    /// macOS on any processor.
    MacOs,
    /// Windows on a 64-bit x86 processor.
    Windows64,
    /// Windows on any other processor.
    Windows,
}

impl AaptBinary {
    /// Where a build lies below the root of the tool tree.
    pub open spec fn location(self) -> Seq<char> {
        match self {
            AaptBinary::Linux64 => "prebuilt/linux/aapt_64"@,
            AaptBinary::Linux => "prebuilt/linux/aapt"@,
            AaptBinary::MacOs => "prebuilt/macosx/aapt_64"@,
            AaptBinary::Windows64 => "prebuilt/windows/aapt_64.exe"@,
            AaptBinary::Windows => "prebuilt/windows/aapt.exe"@,
        }
    }

    /// Where a build lies below the root of the tool tree.
    pub fn relative_path(self) -> (r: &'static str)
        ensures
            r@ == self.location(),
    {
        match self {
            AaptBinary::Linux64 => "prebuilt/linux/aapt_64",
            AaptBinary::Linux => "prebuilt/linux/aapt",
            AaptBinary::MacOs => "prebuilt/macosx/aapt_64",
            AaptBinary::Windows64 => "prebuilt/windows/aapt_64.exe",
            AaptBinary::Windows => "prebuilt/windows/aapt.exe",
        }
    }
}

/// The platform a run takes place on.
#[derive(Clone, Debug, PartialEq, Eq)]
pub struct Platform {
    /// The operating system, as `std::env::consts::OS` names it.
    pub os: String,
    /// The processor architecture, as `std::env::consts::ARCH` names it.
    pub arch: String,
}

impl Platform {
    /// Whether the operating system is Windows.
    pub fn is_windows(&self) -> (r: bool)
        ensures
            r == (self.os@ == "windows"@),
    {
        same(self.os.as_str(), "windows")
    }
}

/// The build chosen for an operating system and a processor architecture,
/// both named as `std::env::consts` names them.  A platform without a build
/// of its own is served the 64-bit Linux one.
pub open spec fn resolved(os: Seq<char>, arch: Seq<char>) -> AaptBinary {
    if os == "linux"@ {
        if arch == "x86_64"@ {
            AaptBinary::Linux64
        } else {
            AaptBinary::Linux
        }
    } else if os == "macos"@ {
        AaptBinary::MacOs
    } else if os == "windows"@ {
        if arch == "x86_64"@ {
            AaptBinary::Windows64
        } else {
            AaptBinary::Windows
        }
    } else {
        AaptBinary::Linux64
    }
}

/// Whether `path` is one of the five places a build of `aapt` can lie.
pub open spec fn is_aapt_location(path: Seq<char>) -> bool {
    exists|b: AaptBinary| path == #[trigger] b.location()
}

/// Chooses the build of `aapt` for an operating system and an architecture.
/// Every pair of names is answered.
pub fn resolve(os: &str, arch: &str) -> (r: AaptBinary)
    ensures
        r == resolved(os@, arch@),
{
    if same(os, "linux") {
        if same(arch, "x86_64") {
            AaptBinary::Linux64
        } else {
            AaptBinary::Linux
        }
    } else if same(os, "macos") {
        AaptBinary::MacOs
    } else if same(os, "windows") {
        if same(arch, "x86_64") {
            AaptBinary::Windows64
        } else {
            AaptBinary::Windows
        }
    } else {
        AaptBinary::Linux64
    }
}

/// The place below the tool tree of the `aapt` build for a platform: always
/// exactly one of the five known places.
pub fn aapt_relative_path(os: &str, arch: &str) -> (r: &'static str)
    ensures
        r@ == resolved(os@, arch@).location(),
        is_aapt_location(r@),
{
    resolve(os, arch).relative_path()
}

} // verus!
