//! Platform model: operating system, Linux distribution and CPU architecture,
//! with the canonical naming token each combination contributes to release
//! artifact file names.
//!
//! Two token revisions exist for the release artifacts; this crate uses the
//! `ubuntu20.04` / `manylinux2014` scheme throughout.

use vstd::prelude::*;

use crate::strutil;
use crate::strutil::{is_substring, lower_of};

verus! {

#[derive(Debug, Clone, Copy, PartialEq, Eq)]
pub enum OS {
    Linux(LinuxDistro),
    Darwin,
    Windows,
}

#[derive(Debug, Clone, Copy, PartialEq, Eq)]
pub enum LinuxDistro {
    Ubuntu,
    Generic,
}

#[derive(Debug, Clone, Copy, PartialEq, Eq)]
pub enum Architecture {
    X86_64,
    Aarch64,
}

/// Errors of platform resolution; each carries the raw token that was rejected.
#[derive(Debug, Clone, PartialEq, Eq)]
pub enum PlatformError {
    UnsupportedOS(String),
    UnsupportedArch(String),
    DetectionError(String),
}

#[derive(Debug, Clone, Copy, PartialEq, Eq)]
pub struct Platform {
    pub os: OS,
    pub arch: Architecture,
}

/// The canonical artifact-naming token of a platform: distribution token,
/// an underscore, then the architecture token.
pub open spec fn platform_token(p: Platform) -> Seq<char> {
    match (p.os, p.arch) {
        (OS::Linux(LinuxDistro::Ubuntu), Architecture::X86_64) => "ubuntu20.04_x86_64"@,
        (OS::Linux(LinuxDistro::Ubuntu), Architecture::Aarch64) => "ubuntu20.04_arm64"@,
        (OS::Linux(LinuxDistro::Generic), Architecture::X86_64) => "manylinux2014_x86_64"@,
        (OS::Linux(LinuxDistro::Generic), Architecture::Aarch64) => "manylinux2014_arm64"@,
        (OS::Darwin, Architecture::X86_64) => "darwin_x86_64"@,
        (OS::Darwin, Architecture::Aarch64) => "darwin_arm64"@,
        (OS::Windows, Architecture::X86_64) => "windows_x86_64"@,
        (OS::Windows, Architecture::Aarch64) => "windows_arm64"@,
    }
}

/// The human-readable name of an operating system, as embedded in extracted
/// directory names and messages.
pub open spec fn os_display(os: OS) -> Seq<char> {
    match os {
        OS::Linux(LinuxDistro::Ubuntu) => "Ubuntu"@,
        OS::Linux(LinuxDistro::Generic) => "Linux"@,
        OS::Darwin => "Darwin"@,
        OS::Windows => "Windows"@,
    }
}

/// The human-readable name of an architecture.
pub open spec fn arch_display(a: Architecture) -> Seq<char> {
    match a {
        Architecture::X86_64 => "x86_64"@,
        Architecture::Aarch64 => "arm64"@,
    }
}

/// The architecture that a lower-cased override token names, if any.
pub open spec fn arch_from_token(l: Seq<char>) -> Option<Architecture> {
    if l == "x86_64"@ || l == "amd64"@ {
        Some(Architecture::X86_64)
    } else if l == "aarch64"@ || l == "arm64"@ {
        Some(Architecture::Aarch64)
    } else {
        None
    }
}

/// The operating system that a lower-cased override token names, if any.
pub open spec fn os_from_token(l: Seq<char>) -> Option<OS> {
    if l == "linux"@ {
        Some(OS::Linux(LinuxDistro::Generic))
    } else if l == "ubuntu"@ {
        Some(OS::Linux(LinuxDistro::Ubuntu))
    } else if l == "darwin"@ {
        Some(OS::Darwin)
    } else if l == "windows"@ {
        Some(OS::Windows)
    } else {
        None
    }
}

/// The architecture that a host-reported identifier names, if any.
pub open spec fn arch_detected(s: Seq<char>) -> Option<Architecture> {
    if s == "x86_64"@ {
        Some(Architecture::X86_64)
    } else if s == "aarch64"@ || s == "arm64"@ {
        Some(Architecture::Aarch64)
    } else {
        None
    }
}

/// The operating system that a host-reported family names, if any. On Linux,
/// the release-information text decides the distribution: it is Ubuntu
/// exactly when the text is present and carries the Ubuntu marker.
pub open spec fn os_detected(s: Seq<char>, release: Option<Seq<char>>) -> Option<OS> {
    if s == "linux"@ {
        match release {
            Some(r) => if is_substring("Ubuntu"@, r) {
                Some(OS::Linux(LinuxDistro::Ubuntu))
            } else {
                Some(OS::Linux(LinuxDistro::Generic))
            },
            None => Some(OS::Linux(LinuxDistro::Generic)),
        }
    } else if s == "macos"@ {
        Some(OS::Darwin)
    } else if s == "windows"@ {
        Some(OS::Windows)
    } else {
        None
    }
}

impl Architecture {
    /// The human-readable name of this architecture.
    pub fn name(&self) -> (r: &'static str)
        ensures
            r@ == arch_display(*self),
    {
        match self {
            Architecture::X86_64 => "x86_64",
            Architecture::Aarch64 => "arm64",
        }
    }

    /// Resolves the host-reported architecture identifier.
    pub fn detect(arch: &str) -> (r: Result<Architecture, PlatformError>)
        ensures
            match r {
                Ok(a) => arch_detected(arch@) == Some(a),
                Err(PlatformError::UnsupportedArch(raw)) => raw@ == arch@ && arch_detected(
                    arch@,
                ) is None,
                Err(_) => false,
            },
    {
        if strutil::str_eq(arch, "x86_64") {
            Ok(Architecture::X86_64)
        } else if strutil::str_eq(arch, "aarch64") || strutil::str_eq(arch, "arm64") {
            Ok(Architecture::Aarch64)
        } else {
            Err(PlatformError::UnsupportedArch(arch.to_owned()))
        }
    }

    /// Resolves a user-supplied architecture override, case-insensitively.
    pub fn from_str(arch: &str) -> (r: Result<Architecture, PlatformError>)
        ensures
            match r {
                Ok(a) => arch_from_token(lower_of(arch@)) == Some(a),
                Err(PlatformError::UnsupportedArch(raw)) => raw@ == arch@ && arch_from_token(
                    lower_of(arch@),
                ) is None,
                Err(_) => false,
            },
    {
        let l = strutil::to_lower(arch);
        if strutil::str_eq(l.as_str(), "x86_64") || strutil::str_eq(l.as_str(), "amd64") {
            Ok(Architecture::X86_64)
        } else if strutil::str_eq(l.as_str(), "aarch64") || strutil::str_eq(l.as_str(), "arm64") {
            Ok(Architecture::Aarch64)
        } else {
            Err(PlatformError::UnsupportedArch(arch.to_owned()))
        }
    }
}

impl OS {
    /// The human-readable name of this operating system.
    pub fn name(&self) -> (r: &'static str)
        ensures
            r@ == os_display(*self),
    {
        match self {
            OS::Linux(LinuxDistro::Ubuntu) => "Ubuntu",
            OS::Linux(LinuxDistro::Generic) => "Linux",
            OS::Darwin => "Darwin",
            OS::Windows => "Windows",
        }
    }

    /// Resolves the host-reported operating-system family. For Linux, the
    /// text of the host's release-information file, where it could be read,
    /// decides the distribution.
    pub fn detect(os: &str, os_release: Option<&str>) -> (r: Result<OS, PlatformError>)
        ensures
            match r {
                Ok(o) => os_detected(os@, view_of_release(os_release)) == Some(o),
                Err(PlatformError::UnsupportedOS(raw)) => raw@ == os@ && os_detected(
                    os@,
                    view_of_release(os_release),
                ) is None,
                Err(_) => false,
            },
    {
        if strutil::str_eq(os, "linux") {
            match os_release {
                Some(rel) => {
                    if strutil::contains_str(rel, "Ubuntu") {
                        Ok(OS::Linux(LinuxDistro::Ubuntu))
                    } else {
                        Ok(OS::Linux(LinuxDistro::Generic))
                    }
                },
                None => Ok(OS::Linux(LinuxDistro::Generic)),
            }
        } else if strutil::str_eq(os, "macos") {
            Ok(OS::Darwin)
        } else if strutil::str_eq(os, "windows") {
            Ok(OS::Windows)
        } else {
            Err(PlatformError::UnsupportedOS(os.to_owned()))
        }
    }

    /// Resolves a user-supplied operating-system override, case-insensitively.
    pub fn from_str(os: &str) -> (r: Result<OS, PlatformError>)
        ensures
            match r {
                Ok(o) => os_from_token(lower_of(os@)) == Some(o),
                Err(PlatformError::UnsupportedOS(raw)) => raw@ == os@ && os_from_token(
                    lower_of(os@),
                ) is None,
                Err(_) => false,
            },
    {
        let l = strutil::to_lower(os);
        if strutil::str_eq(l.as_str(), "linux") {
            Ok(OS::Linux(LinuxDistro::Generic))
        } else if strutil::str_eq(l.as_str(), "ubuntu") {
            Ok(OS::Linux(LinuxDistro::Ubuntu))
        } else if strutil::str_eq(l.as_str(), "darwin") {
            Ok(OS::Darwin)
        } else if strutil::str_eq(l.as_str(), "windows") {
            Ok(OS::Windows)
        } else {
            Err(PlatformError::UnsupportedOS(os.to_owned()))
        }
    }
}

/// The view of an optional release-information text.
pub open spec fn view_of_release(r: Option<&str>) -> Option<Seq<char>> {
    match r {
        Some(s) => Some(s@),
        None => None,
    }
}

impl Platform {
    pub fn new(os: OS, arch: Architecture) -> (p: Platform)
        ensures
            p.os == os,
            p.arch == arch,
    {
        Platform { os, arch }
    }

    /// Resolves the platform from the host-reported identifiers: the
    /// operating-system family, the CPU architecture, and, where readable,
    /// the text of the Linux release-information file.
    pub fn detect(os: &str, arch: &str, os_release: Option<&str>) -> (r: Result<
        Platform,
        PlatformError,
    >)
        ensures
            match r {
                Ok(p) => os_detected(os@, view_of_release(os_release)) == Some(p.os)
                    && arch_detected(arch@) == Some(p.arch),
                Err(PlatformError::UnsupportedOS(raw)) => raw@ == os@ && os_detected(
                    os@,
                    view_of_release(os_release),
                ) is None,
                Err(PlatformError::UnsupportedArch(raw)) => raw@ == arch@ && os_detected(
                    os@,
                    view_of_release(os_release),
                ) is Some && arch_detected(arch@) is None,
                Err(_) => false,
            },
    {
        let os_v = OS::detect(os, os_release)?;
        let arch_v = Architecture::detect(arch)?;
        Ok(Platform { os: os_v, arch: arch_v })
    }

    /// The artifact-naming token of this platform, as embedded in every URL.
    pub fn token(&self) -> (r: String)
        ensures
            r@ == platform_token(*self),
    {
        let t: &str = match (&self.os, &self.arch) {
            (OS::Linux(LinuxDistro::Ubuntu), Architecture::X86_64) => "ubuntu20.04_x86_64",
            (OS::Linux(LinuxDistro::Ubuntu), Architecture::Aarch64) => "ubuntu20.04_arm64",
            (OS::Linux(LinuxDistro::Generic), Architecture::X86_64) => "manylinux2014_x86_64",
            (OS::Linux(LinuxDistro::Generic), Architecture::Aarch64) => "manylinux2014_arm64",
            (OS::Darwin, Architecture::X86_64) => "darwin_x86_64",
            (OS::Darwin, Architecture::Aarch64) => "darwin_arm64",
            (OS::Windows, Architecture::X86_64) => "windows_x86_64",
            (OS::Windows, Architecture::Aarch64) => "windows_arm64",
        };
        t.to_owned()
    }

    /// The file name of the release package for this platform: the naming
    /// token followed by the archive suffix.
    pub fn get_release_package_name(&self, version: &str) -> (r: String)
        ensures
            r@ == platform_token(*self) + ".tar.gz"@,
    {
        let mut r = self.token();
        r.append(".tar.gz");
        r
    }
}

/// Distinct platforms never share a naming token: the token determines the
/// operating system, distribution and architecture.
pub proof fn lemma_platform_token_injective(p1: Platform, p2: Platform)
    ensures
        platform_token(p1) == platform_token(p2) ==> p1 == p2,
{
    reveal_strlit("ubuntu20.04_x86_64");
    reveal_strlit("ubuntu20.04_arm64");
    reveal_strlit("manylinux2014_x86_64");
    reveal_strlit("manylinux2014_arm64");
    reveal_strlit("darwin_x86_64");
    reveal_strlit("darwin_arm64");
    reveal_strlit("windows_x86_64");
    reveal_strlit("windows_arm64");
    // All eight tokens have pairwise distinct lengths, except the one pair
    // that already differs in its first character.
    assert("ubuntu20.04_x86_64"@.len() == 18);
    assert("ubuntu20.04_arm64"@.len() == 17);
    assert("manylinux2014_x86_64"@.len() == 20);
    assert("manylinux2014_arm64"@.len() == 19);
    assert("darwin_x86_64"@.len() == 13);
    assert("darwin_arm64"@.len() == 12);
    assert("windows_x86_64"@.len() == 14);
    assert("windows_arm64"@.len() == 13);
    assert("darwin_x86_64"@[0] != "windows_arm64"@[0]);
}

} // verus!
