//! The build profile and the target platform of a build.
use vstd::prelude::*;
use crate::text::str_equal;

verus! {

/// The cargo build profile.
#[derive(Clone, Copy, Debug, PartialEq, Eq, Structural)]
pub enum Profile {
    Debug,
    Release,
}

/// `CARGO_CFG_TARGET_FAMILY`.
#[derive(Clone, Copy, Debug, PartialEq, Eq, Structural)]
pub enum TargetFamily {
    Other,
    Unix,
    Windows,
}

/// `CARGO_CFG_TARGET_OS`.
#[derive(Clone, Copy, Debug, PartialEq, Eq, Structural)]
pub enum TargetOs {
    Other,
    Windows,
    Macos,
    Ios,
    Linux,
    Android,
    Freebsd,
    Dragonfly,
    Openbsd,
    Netbsd,
}

/// `CARGO_CFG_TARGET_VENDOR`.
#[derive(Clone, Copy, Debug, PartialEq, Eq, Structural)]
pub enum TargetVendor {
    Other,
    Apple,
}

/// `CARGO_CFG_TARGET_ARCH`.
#[derive(Clone, Copy, Debug, PartialEq, Eq, Structural)]
pub enum TargetArch {
    Other,
    X86,
    X86_64,
    Arm,
    Aarch64,
}

/// The value of an environment variable, when it is set.
pub open spec fn env_is(value: Option<&str>, s: Seq<char>) -> bool {
    value matches Some(v) && v@ == s
}

fn value_is(value: Option<&str>, s: &str) -> (r: bool)
    ensures
        r == env_is(value, s@),
{
    match value {
        Some(v) => str_equal(v, s),
        None => false,
    }
}

impl Profile {
    /// The profile named by `PROFILE`: `debug` is the debug profile, and
    /// anything else (or nothing) the release profile.
    pub fn from_env_value(value: Option<&str>) -> (r: Self)
        ensures
            r == (if env_is(value, "debug"@) {
                Profile::Debug
            } else {
                Profile::Release
            }),
    {
        if value_is(value, "debug") {
            Profile::Debug
        } else {
            Profile::Release
        }
    }
}

impl TargetFamily {
    /// The family named by `CARGO_CFG_TARGET_FAMILY`.
    pub fn from_env_value(value: Option<&str>) -> (r: Self)
        ensures
            r == (if env_is(value, "unix"@) {
                TargetFamily::Unix
            } else if env_is(value, "windows"@) {
                TargetFamily::Windows
            } else {
                TargetFamily::Other
            }),
    {
        if value_is(value, "unix") {
            TargetFamily::Unix
        } else if value_is(value, "windows") {
            TargetFamily::Windows
        } else {
            TargetFamily::Other
        }
    }
}

pub open spec fn target_os_of(value: Option<&str>) -> TargetOs {
    if env_is(value, "windows"@) {
        TargetOs::Windows
    } else if env_is(value, "macos"@) {
        TargetOs::Macos
    } else if env_is(value, "ios"@) {
        TargetOs::Ios
    } else if env_is(value, "linux"@) {
        TargetOs::Linux
    } else if env_is(value, "android"@) {
        TargetOs::Android
    } else if env_is(value, "freebsd"@) {
        TargetOs::Freebsd
    } else if env_is(value, "dragonfly"@) {
        TargetOs::Dragonfly
    } else if env_is(value, "openbsd"@) {
        TargetOs::Openbsd
    } else if env_is(value, "netbsd"@) {
        TargetOs::Netbsd
    } else {
        TargetOs::Other
    }
}

impl TargetOs {
    /// The operating system named by `CARGO_CFG_TARGET_OS`.
    pub fn from_env_value(value: Option<&str>) -> (r: Self)
        ensures
            r == target_os_of(value),
    {
        if value_is(value, "windows") {
            TargetOs::Windows
        } else if value_is(value, "macos") {
            TargetOs::Macos
        } else if value_is(value, "ios") {
            TargetOs::Ios
        } else if value_is(value, "linux") {
            TargetOs::Linux
        } else if value_is(value, "android") {
            TargetOs::Android
        } else if value_is(value, "freebsd") {
            TargetOs::Freebsd
        } else if value_is(value, "dragonfly") {
            TargetOs::Dragonfly
        } else if value_is(value, "openbsd") {
            TargetOs::Openbsd
        } else if value_is(value, "netbsd") {
            TargetOs::Netbsd
        } else {
            TargetOs::Other
        }
    }

    /// FreeBSD, OpenBSD and NetBSD (not DragonFly).
    pub fn is_bsd(self) -> (r: bool)
        ensures
            r <==> (self == TargetOs::Freebsd || self == TargetOs::Openbsd || self == TargetOs::Netbsd),
    {
        match self {
            TargetOs::Freebsd | TargetOs::Openbsd | TargetOs::Netbsd => true,
            _ => false,
        }
    }
}

impl TargetVendor {
    /// The vendor named by `CARGO_CFG_TARGET_VENDOR`.
    pub fn from_env_value(value: Option<&str>) -> (r: Self)
        ensures
            r == (if env_is(value, "apple"@) {
                TargetVendor::Apple
            } else {
                TargetVendor::Other
            }),
    {
        if value_is(value, "apple") {
            TargetVendor::Apple
        } else {
            TargetVendor::Other
        }
    }
}

impl TargetArch {
    /// The architecture named by `CARGO_CFG_TARGET_ARCH`.
    pub fn from_env_value(value: Option<&str>) -> (r: Self)
        ensures
            r == (if env_is(value, "x86"@) {
                TargetArch::X86
            } else if env_is(value, "x86_64"@) {
                TargetArch::X86_64
            } else if env_is(value, "arm"@) {
                TargetArch::Arm
            } else if env_is(value, "aarch64"@) {
                TargetArch::Aarch64
            } else {
                TargetArch::Other
            }),
    {
        if value_is(value, "x86") {
            TargetArch::X86
        } else if value_is(value, "x86_64") {
            TargetArch::X86_64
        } else if value_is(value, "arm") {
            TargetArch::Arm
        } else if value_is(value, "aarch64") {
            TargetArch::Aarch64
        } else {
            TargetArch::Other
        }
    }
}

/// The operating system as CMake names systems.
#[derive(Clone, Copy, Debug, PartialEq, Eq, Structural)]
pub struct CMakeSystemName {
    pub target_os: TargetOs,
}

impl CMakeSystemName {
    pub fn is_linux(&self) -> (r: bool)
        ensures
            r <==> self.target_os == TargetOs::Linux,
    {
        match self.target_os {
            TargetOs::Linux => true,
            _ => false,
        }
    }

    pub fn is_bsd(&self) -> (r: bool)
        ensures
            r <==> (self.target_os == TargetOs::Freebsd || self.target_os == TargetOs::Openbsd
                || self.target_os == TargetOs::Netbsd),
    {
        self.target_os.is_bsd()
    }

    pub fn is_android(&self) -> (r: bool)
        ensures
            r <==> self.target_os == TargetOs::Android,
    {
        match self.target_os {
            TargetOs::Android => true,
            _ => false,
        }
    }
}

/// What a build knows of its compiler and target.
#[derive(Clone, Copy, Debug, PartialEq, Eq, Structural)]
pub struct TargetInfo {
    pub is_msvc: bool,
    pub profile: Profile,
    pub target_arch: TargetArch,
    pub target_family: TargetFamily,
    pub target_vendor: TargetVendor,
    pub target_os: TargetOs,
}

impl TargetInfo {
    /// The compiler is MSVC-like.
    pub fn is_msvc(&self) -> (r: bool)
        ensures
            r == self.is_msvc,
    {
        self.is_msvc
    }

    pub fn is_win32(&self) -> (r: bool)
        ensures
            r <==> self.target_family == TargetFamily::Windows,
    {
        match self.target_family {
            TargetFamily::Windows => true,
            _ => false,
        }
    }

    pub fn is_apple(&self) -> (r: bool)
        ensures
            r <==> self.target_vendor == TargetVendor::Apple,
    {
        match self.target_vendor {
            TargetVendor::Apple => true,
            _ => false,
        }
    }

    /// Threads can be pinned to processors: a POSIX system other than
    /// Android and Apple platforms.
    pub fn supports_thread_affinity(&self) -> (r: bool)
        ensures
            r <==> (self.target_family == TargetFamily::Unix && self.target_os != TargetOs::Android
                && self.target_vendor != TargetVendor::Apple),
    {
        let unix = match self.target_family {
            TargetFamily::Unix => true,
            _ => false,
        };
        let android = match self.target_os {
            TargetOs::Android => true,
            _ => false,
        };
        unix && !android && !self.is_apple()
    }

    pub fn cmake_system_name(&self) -> (r: CMakeSystemName)
        ensures
            r.target_os == self.target_os,
    {
        CMakeSystemName { target_os: self.target_os }
    }

    pub fn is_aws_arch_intel(&self) -> (r: bool)
        ensures
            r <==> (self.target_arch == TargetArch::X86 || self.target_arch == TargetArch::X86_64),
    {
        match self.target_arch {
            TargetArch::X86 | TargetArch::X86_64 => true,
            _ => false,
        }
    }

    pub fn is_aws_arch_arm64(&self) -> (r: bool)
        ensures
            r <==> self.target_arch == TargetArch::Aarch64,
    {
        match self.target_arch {
            TargetArch::Aarch64 => true,
            _ => false,
        }
    }

    pub fn is_aws_arch_arm32(&self) -> (r: bool)
        ensures
            r <==> self.target_arch == TargetArch::Arm,
    {
        match self.target_arch {
            TargetArch::Arm => true,
            _ => false,
        }
    }
}

} // verus!
