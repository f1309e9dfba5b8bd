//! The table of known targets, the host description and the expansion of
//! target patterns.

use vstd::prelude::*;
use vstd::string::*;
use crate::text::{
    cat3, compare, contains_char, lemma_lex_lt_transitive, lex_lt, text_eq, trim, trimmed, TextOrder,
};

verus! {

/// The glibc version of the toolchains whose folder names no version.
pub const DEFAULT_GLIBC_VERSION: &'static str = "2.28";

/// The iPhone SDK version used where none is asked for.
pub const DEFAULT_IPHONE_SDK_VERSION: &'static str = "26.2";

/// The macOS SDK version used where none is asked for.
pub const DEFAULT_MACOS_SDK_VERSION: &'static str = "26.2";

/// The FreeBSD version used where none is asked for.
pub const DEFAULT_FREEBSD_VERSION: &'static str = "13";

/// The release of the toolchain archives.
pub const DEFAULT_CROSS_DEPS_VERSION: &'static str = "v0.7.4";

/// The Android NDK version used where none is asked for.
pub const DEFAULT_NDK_VERSION: &'static str = "r27d";

/// The release of the emulators.
pub const DEFAULT_QEMU_VERSION: &'static str = "v10.2.0";

/// Operating system of a target.
#[derive(Debug, Clone, Copy, PartialEq, Eq, Structural, Hash)]
pub enum Os {
    Linux,
    Windows,
    FreeBsd,
    Darwin,
    Ios,
    IosSim,
    Android,
}

impl Os {
    /// The name as it occurs in triples, folders and messages.
    pub open spec fn name(self) -> Seq<char> {
        match self {
            Os::Linux => "linux"@,
            Os::Windows => "windows"@,
            Os::FreeBsd => "freebsd"@,
            Os::Darwin => "darwin"@,
            Os::Ios => "ios"@,
            Os::IosSim => "ios-sim"@,
            Os::Android => "android"@,
        }
    }

    /// The name as it occurs in triples, folders and messages.
    pub fn as_str(&self) -> (r: &'static str)
        ensures
            r@ == self.name(),
    {
        match self {
            Os::Linux => "linux",
            Os::Windows => "windows",
            Os::FreeBsd => "freebsd",
            Os::Darwin => "darwin",
            Os::Ios => "ios",
            Os::IosSim => "ios-sim",
            Os::Android => "android",
        }
    }
}

/// Processor architecture of a target.
#[derive(Debug, Clone, Copy, PartialEq, Eq, Structural, Hash)]
pub enum Arch {
    Aarch64,
    Aarch64Be,
    Arm64e,
    Armv5,
    Armv6,
    Armv7,
    Csky,
    I586,
    I686,
    Loongarch64,
    M68k,
    Mips,
    Mipsel,
    Mips64,
    Mips64el,
    Powerpc64,
    Powerpc64le,
    Riscv64,
    S390x,
    X86_64,
    X86_64h,
}

impl Arch {
    /// The name as it occurs in triples, folders and messages.
    pub open spec fn name(self) -> Seq<char> {
        match self {
            Arch::Aarch64 => "aarch64"@,
            Arch::Aarch64Be => "aarch64_be"@,
            Arch::Arm64e => "arm64e"@,
            Arch::Armv5 => "armv5"@,
            Arch::Armv6 => "armv6"@,
            Arch::Armv7 => "armv7"@,
            Arch::Csky => "csky"@,
            Arch::I586 => "i586"@,
            Arch::I686 => "i686"@,
            Arch::Loongarch64 => "loongarch64"@,
            Arch::M68k => "m68k"@,
            Arch::Mips => "mips"@,
            Arch::Mipsel => "mipsel"@,
            Arch::Mips64 => "mips64"@,
            Arch::Mips64el => "mips64el"@,
            Arch::Powerpc64 => "powerpc64"@,
            Arch::Powerpc64le => "powerpc64le"@,
            Arch::Riscv64 => "riscv64"@,
            Arch::S390x => "s390x"@,
            Arch::X86_64 => "x86_64"@,
            Arch::X86_64h => "x86_64h"@,
        }
    }

    /// The name as it occurs in triples, folders and messages.
    pub fn as_str(&self) -> (r: &'static str)
        ensures
            r@ == self.name(),
    {
        match self {
            Arch::Aarch64 => "aarch64",
            Arch::Aarch64Be => "aarch64_be",
            Arch::Arm64e => "arm64e",
            Arch::Armv5 => "armv5",
            Arch::Armv6 => "armv6",
            Arch::Armv7 => "armv7",
            Arch::Csky => "csky",
            Arch::I586 => "i586",
            Arch::I686 => "i686",
            Arch::Loongarch64 => "loongarch64",
            Arch::M68k => "m68k",
            Arch::Mips => "mips",
            Arch::Mipsel => "mipsel",
            Arch::Mips64 => "mips64",
            Arch::Mips64el => "mips64el",
            Arch::Powerpc64 => "powerpc64",
            Arch::Powerpc64le => "powerpc64le",
            Arch::Riscv64 => "riscv64",
            Arch::S390x => "s390x",
            Arch::X86_64 => "x86_64",
            Arch::X86_64h => "x86_64h",
        }
    }

    /// Name of the user-mode emulator binary for this architecture, where
    /// one exists.
    pub open spec fn emulator(self) -> Option<Seq<char>> {
        match self {
            Arch::Aarch64 => Some("qemu-aarch64"@),
            Arch::Armv5 | Arch::Armv6 | Arch::Armv7 => Some("qemu-arm"@),
            Arch::I586 | Arch::I686 => Some("qemu-i386"@),
            Arch::Loongarch64 => Some("qemu-loongarch64"@),
            Arch::Mips => Some("qemu-mips"@),
            Arch::Mipsel => Some("qemu-mipsel"@),
            Arch::Mips64 => Some("qemu-mips64"@),
            Arch::Mips64el => Some("qemu-mips64el"@),
            Arch::Powerpc64 => Some("qemu-ppc64"@),
            Arch::Powerpc64le => Some("qemu-ppc64le"@),
            Arch::Riscv64 => Some("qemu-riscv64"@),
            Arch::S390x => Some("qemu-s390x"@),
            Arch::X86_64 => Some("qemu-x86_64"@),
            _ => None,
        }
    }

    /// Name of the user-mode emulator's binary for this architecture, where one exists.
    pub fn qemu_binary_name(&self) -> (r: Option<&'static str>)
        ensures
            r.is_some() == self.emulator().is_some(),
            r.is_some() ==> r.unwrap()@ == self.emulator().unwrap(),
    {
        match self {
            Arch::Aarch64 => Some("qemu-aarch64"),
            Arch::Armv5 | Arch::Armv6 | Arch::Armv7 => Some("qemu-arm"),
            Arch::I586 | Arch::I686 => Some("qemu-i386"),
            Arch::Loongarch64 => Some("qemu-loongarch64"),
            Arch::Mips => Some("qemu-mips"),
            Arch::Mipsel => Some("qemu-mipsel"),
            Arch::Mips64 => Some("qemu-mips64"),
            Arch::Mips64el => Some("qemu-mips64el"),
            Arch::Powerpc64 => Some("qemu-ppc64"),
            Arch::Powerpc64le => Some("qemu-ppc64le"),
            Arch::Riscv64 => Some("qemu-riscv64"),
            Arch::S390x => Some("qemu-s390x"),
            Arch::X86_64 => Some("qemu-x86_64"),
            _ => None,
        }
    }
}

/// C library of a target.
#[derive(Debug, Clone, Copy, PartialEq, Eq, Structural, Hash)]
pub enum Libc {
    Musl,
    Gnu,
    Msvc,
}

impl Libc {
    /// The name as it occurs in triples, folders and messages.
    pub open spec fn name(self) -> Seq<char> {
        match self {
            Libc::Musl => "musl"@,
            Libc::Gnu => "gnu"@,
            Libc::Msvc => "msvc"@,
        }
    }

    /// The name as it occurs in triples, folders and messages.
    pub fn as_str(&self) -> (r: &'static str)
        ensures
            r@ == self.name(),
    {
        match self {
            Libc::Musl => "musl",
            Libc::Gnu => "gnu",
            Libc::Msvc => "msvc",
        }
    }
}

/// ABI variant of a target.
#[derive(Debug, Clone, Copy, PartialEq, Eq, Structural, Hash)]
pub enum Abi {
    Eabi,
    Eabihf,
    X32,
    GnuAbiv2,
    GnuAbiv2Hf,
}

impl Abi {
    /// The name as it occurs in triples, folders and messages.
    pub open spec fn name(self) -> Seq<char> {
        match self {
            Abi::Eabi => "eabi"@,
            Abi::Eabihf => "eabihf"@,
            Abi::X32 => "x32"@,
            Abi::GnuAbiv2 => "abiv2"@,
            Abi::GnuAbiv2Hf => "abiv2hf"@,
        }
    }

    /// The name as it occurs in triples, folders and messages.
    pub fn as_str(&self) -> (r: &'static str)
        ensures
            r@ == self.name(),
    {
        match self {
            Abi::Eabi => "eabi",
            Abi::Eabihf => "eabihf",
            Abi::X32 => "x32",
            Abi::GnuAbiv2 => "abiv2",
            Abi::GnuAbiv2Hf => "abiv2hf",
        }
    }

    /// Whether the ABI exists only as a suffix of the GNU C library name.
    pub fn is_gnu_abi_variant(&self) -> (r: bool)
        ensures
            r == (*self == Abi::X32 || *self == Abi::GnuAbiv2 || *self == Abi::GnuAbiv2Hf),
    {
        match self {
            Abi::X32 | Abi::GnuAbiv2 | Abi::GnuAbiv2Hf => true,
            _ => false,
        }
    }
}


/// One known target: its triple and what the triple stands for.
#[derive(Debug, Clone, Copy)]
pub struct TargetConfig {
    pub target: &'static str,
    pub os: Os,
    pub arch: Arch,
    pub libc: Option<Libc>,
    pub abi: Option<Abi>,
}

impl TargetConfig {
    /// A value with nothing set.
    pub fn new(target: &'static str, os: Os, arch: Arch) -> (r: Self)
        ensures
            r == (TargetConfig { target, os, arch, libc: None, abi: None }),
    {
        TargetConfig { target, os, arch, libc: None, abi: None }
    }

    /// The same target with its C library set.
    pub fn with_libc(self, libc: Libc) -> (r: Self)
        ensures
            r == (TargetConfig { libc: Some(libc), ..self }),
    {
        TargetConfig { target: self.target, os: self.os, arch: self.arch, libc: Some(libc), abi: self.abi }
    }

    /// The same target with its ABI set.
    pub fn with_abi(self, abi: Abi) -> (r: Self)
        ensures
            r == (TargetConfig { abi: Some(abi), ..self }),
    {
        TargetConfig { target: self.target, os: self.os, arch: self.arch, libc: self.libc, abi: Some(abi) }
    }
}

/// The known targets, in the order of the table.
#[verifier::opaque]
pub open spec fn registry() -> Seq<TargetConfig> {
    Seq::<TargetConfig>::empty()
        .push(TargetConfig { target: "aarch64-unknown-linux-musl", os: Os::Linux, arch: Arch::Aarch64, libc: Some(Libc::Musl), abi: None })
        .push(TargetConfig { target: "arm-unknown-linux-musleabi", os: Os::Linux, arch: Arch::Armv6, libc: Some(Libc::Musl), abi: Some(Abi::Eabi) })
        .push(TargetConfig { target: "arm-unknown-linux-musleabihf", os: Os::Linux, arch: Arch::Armv6, libc: Some(Libc::Musl), abi: Some(Abi::Eabihf) })
        .push(TargetConfig { target: "armv5te-unknown-linux-musleabi", os: Os::Linux, arch: Arch::Armv5, libc: Some(Libc::Musl), abi: Some(Abi::Eabi) })
        .push(TargetConfig { target: "armv7-unknown-linux-musleabi", os: Os::Linux, arch: Arch::Armv7, libc: Some(Libc::Musl), abi: Some(Abi::Eabi) })
        .push(TargetConfig { target: "armv7-unknown-linux-musleabihf", os: Os::Linux, arch: Arch::Armv7, libc: Some(Libc::Musl), abi: Some(Abi::Eabihf) })
        .push(TargetConfig { target: "i586-unknown-linux-musl", os: Os::Linux, arch: Arch::I586, libc: Some(Libc::Musl), abi: None })
        .push(TargetConfig { target: "i686-unknown-linux-musl", os: Os::Linux, arch: Arch::I686, libc: Some(Libc::Musl), abi: None })
        .push(TargetConfig { target: "loongarch64-unknown-linux-musl", os: Os::Linux, arch: Arch::Loongarch64, libc: Some(Libc::Musl), abi: None })
        .push(TargetConfig { target: "mips-unknown-linux-musl", os: Os::Linux, arch: Arch::Mips, libc: Some(Libc::Musl), abi: None })
        .push(TargetConfig { target: "mipsel-unknown-linux-musl", os: Os::Linux, arch: Arch::Mipsel, libc: Some(Libc::Musl), abi: None })
        .push(TargetConfig { target: "mips64-unknown-linux-muslabi64", os: Os::Linux, arch: Arch::Mips64, libc: Some(Libc::Musl), abi: None })
        .push(TargetConfig { target: "mips64-openwrt-linux-musl", os: Os::Linux, arch: Arch::Mips64, libc: Some(Libc::Musl), abi: None })
        .push(TargetConfig { target: "mips64el-unknown-linux-muslabi64", os: Os::Linux, arch: Arch::Mips64el, libc: Some(Libc::Musl), abi: None })
        .push(TargetConfig { target: "powerpc64-unknown-linux-musl", os: Os::Linux, arch: Arch::Powerpc64, libc: Some(Libc::Musl), abi: None })
        .push(TargetConfig { target: "powerpc64le-unknown-linux-musl", os: Os::Linux, arch: Arch::Powerpc64le, libc: Some(Libc::Musl), abi: None })
        .push(TargetConfig { target: "riscv64gc-unknown-linux-musl", os: Os::Linux, arch: Arch::Riscv64, libc: Some(Libc::Musl), abi: None })
        .push(TargetConfig { target: "s390x-unknown-linux-musl", os: Os::Linux, arch: Arch::S390x, libc: Some(Libc::Musl), abi: None })
        .push(TargetConfig { target: "x86_64-unknown-linux-musl", os: Os::Linux, arch: Arch::X86_64, libc: Some(Libc::Musl), abi: None })
        .push(TargetConfig { target: "aarch64-unknown-linux-gnu", os: Os::Linux, arch: Arch::Aarch64, libc: Some(Libc::Gnu), abi: None })
        .push(TargetConfig { target: "arm-unknown-linux-gnueabi", os: Os::Linux, arch: Arch::Armv6, libc: Some(Libc::Gnu), abi: Some(Abi::Eabi) })
        .push(TargetConfig { target: "arm-unknown-linux-gnueabihf", os: Os::Linux, arch: Arch::Armv6, libc: Some(Libc::Gnu), abi: Some(Abi::Eabihf) })
        .push(TargetConfig { target: "armv5te-unknown-linux-gnueabi", os: Os::Linux, arch: Arch::Armv5, libc: Some(Libc::Gnu), abi: Some(Abi::Eabi) })
        .push(TargetConfig { target: "armv7-unknown-linux-gnueabi", os: Os::Linux, arch: Arch::Armv7, libc: Some(Libc::Gnu), abi: Some(Abi::Eabi) })
        .push(TargetConfig { target: "armv7-unknown-linux-gnueabihf", os: Os::Linux, arch: Arch::Armv7, libc: Some(Libc::Gnu), abi: Some(Abi::Eabihf) })
        .push(TargetConfig { target: "i586-unknown-linux-gnu", os: Os::Linux, arch: Arch::I586, libc: Some(Libc::Gnu), abi: None })
        .push(TargetConfig { target: "i686-unknown-linux-gnu", os: Os::Linux, arch: Arch::I686, libc: Some(Libc::Gnu), abi: None })
        .push(TargetConfig { target: "loongarch64-unknown-linux-gnu", os: Os::Linux, arch: Arch::Loongarch64, libc: Some(Libc::Gnu), abi: None })
        .push(TargetConfig { target: "mips-unknown-linux-gnu", os: Os::Linux, arch: Arch::Mips, libc: Some(Libc::Gnu), abi: None })
        .push(TargetConfig { target: "mipsel-unknown-linux-gnu", os: Os::Linux, arch: Arch::Mipsel, libc: Some(Libc::Gnu), abi: None })
        .push(TargetConfig { target: "mips64-unknown-linux-gnuabi64", os: Os::Linux, arch: Arch::Mips64, libc: Some(Libc::Gnu), abi: None })
        .push(TargetConfig { target: "mips64el-unknown-linux-gnuabi64", os: Os::Linux, arch: Arch::Mips64el, libc: Some(Libc::Gnu), abi: None })
        .push(TargetConfig { target: "powerpc64-unknown-linux-gnu", os: Os::Linux, arch: Arch::Powerpc64, libc: Some(Libc::Gnu), abi: None })
        .push(TargetConfig { target: "powerpc64le-unknown-linux-gnu", os: Os::Linux, arch: Arch::Powerpc64le, libc: Some(Libc::Gnu), abi: None })
        .push(TargetConfig { target: "riscv64gc-unknown-linux-gnu", os: Os::Linux, arch: Arch::Riscv64, libc: Some(Libc::Gnu), abi: None })
        .push(TargetConfig { target: "s390x-unknown-linux-gnu", os: Os::Linux, arch: Arch::S390x, libc: Some(Libc::Gnu), abi: None })
        .push(TargetConfig { target: "x86_64-unknown-linux-gnu", os: Os::Linux, arch: Arch::X86_64, libc: Some(Libc::Gnu), abi: None })
        .push(TargetConfig { target: "i686-pc-windows-gnu", os: Os::Windows, arch: Arch::I686, libc: Some(Libc::Gnu), abi: None })
        .push(TargetConfig { target: "x86_64-pc-windows-gnu", os: Os::Windows, arch: Arch::X86_64, libc: Some(Libc::Gnu), abi: None })
        .push(TargetConfig { target: "x86_64-unknown-freebsd", os: Os::FreeBsd, arch: Arch::X86_64, libc: None, abi: None })
        .push(TargetConfig { target: "aarch64-unknown-freebsd", os: Os::FreeBsd, arch: Arch::Aarch64, libc: None, abi: None })
        .push(TargetConfig { target: "powerpc64-unknown-freebsd", os: Os::FreeBsd, arch: Arch::Powerpc64, libc: None, abi: None })
        .push(TargetConfig { target: "powerpc64le-unknown-freebsd", os: Os::FreeBsd, arch: Arch::Powerpc64le, libc: None, abi: None })
        .push(TargetConfig { target: "riscv64gc-unknown-freebsd", os: Os::FreeBsd, arch: Arch::Riscv64, libc: None, abi: None })
        .push(TargetConfig { target: "x86_64-apple-darwin", os: Os::Darwin, arch: Arch::X86_64, libc: None, abi: None })
        .push(TargetConfig { target: "x86_64h-apple-darwin", os: Os::Darwin, arch: Arch::X86_64h, libc: None, abi: None })
        .push(TargetConfig { target: "aarch64-apple-darwin", os: Os::Darwin, arch: Arch::Aarch64, libc: None, abi: None })
        .push(TargetConfig { target: "arm64e-apple-darwin", os: Os::Darwin, arch: Arch::Arm64e, libc: None, abi: None })
        .push(TargetConfig { target: "x86_64-apple-ios", os: Os::Ios, arch: Arch::X86_64, libc: None, abi: None })
        .push(TargetConfig { target: "aarch64-apple-ios", os: Os::Ios, arch: Arch::Aarch64, libc: None, abi: None })
        .push(TargetConfig { target: "aarch64-apple-ios-sim", os: Os::IosSim, arch: Arch::Aarch64, libc: None, abi: None })
        .push(TargetConfig { target: "aarch64-linux-android", os: Os::Android, arch: Arch::Aarch64, libc: None, abi: None })
        .push(TargetConfig { target: "arm-linux-androideabi", os: Os::Android, arch: Arch::Armv7, libc: None, abi: None })
        .push(TargetConfig { target: "armv7-linux-androideabi", os: Os::Android, arch: Arch::Armv7, libc: None, abi: None })
        .push(TargetConfig { target: "i686-linux-android", os: Os::Android, arch: Arch::I686, libc: None, abi: None })
        .push(TargetConfig { target: "riscv64-linux-android", os: Os::Android, arch: Arch::Riscv64, libc: None, abi: None })
        .push(TargetConfig { target: "x86_64-linux-android", os: Os::Android, arch: Arch::X86_64, libc: None, abi: None })
}

/// What tells the triples of the table apart: the length and three of the
/// characters.
pub open spec fn mark(t: Seq<char>) -> (nat, char, char, char) {
    (t.len(), t[0], t[1], t[11])
}

/// No triple occurs twice in the table.
pub proof fn lemma_registry_distinct()
    ensures
        forall|i: int, j: int|
            0 <= i < j < registry().len() ==> (#[trigger] registry()[i]).target@ != (
            #[trigger] registry()[j]).target@,
{
    reveal(registry);
    reveal_strlit("aarch64-unknown-linux-musl");
    reveal_strlit("arm-unknown-linux-musleabi");
    reveal_strlit("arm-unknown-linux-musleabihf");
    reveal_strlit("armv5te-unknown-linux-musleabi");
    reveal_strlit("armv7-unknown-linux-musleabi");
    reveal_strlit("armv7-unknown-linux-musleabihf");
    reveal_strlit("i586-unknown-linux-musl");
    reveal_strlit("i686-unknown-linux-musl");
    reveal_strlit("loongarch64-unknown-linux-musl");
    reveal_strlit("mips-unknown-linux-musl");
    reveal_strlit("mipsel-unknown-linux-musl");
    reveal_strlit("mips64-unknown-linux-muslabi64");
    reveal_strlit("mips64-openwrt-linux-musl");
    reveal_strlit("mips64el-unknown-linux-muslabi64");
    reveal_strlit("powerpc64-unknown-linux-musl");
    reveal_strlit("powerpc64le-unknown-linux-musl");
    reveal_strlit("riscv64gc-unknown-linux-musl");
    reveal_strlit("s390x-unknown-linux-musl");
    reveal_strlit("x86_64-unknown-linux-musl");
    reveal_strlit("aarch64-unknown-linux-gnu");
    reveal_strlit("arm-unknown-linux-gnueabi");
    reveal_strlit("arm-unknown-linux-gnueabihf");
    reveal_strlit("armv5te-unknown-linux-gnueabi");
    reveal_strlit("armv7-unknown-linux-gnueabi");
    reveal_strlit("armv7-unknown-linux-gnueabihf");
    reveal_strlit("i586-unknown-linux-gnu");
    reveal_strlit("i686-unknown-linux-gnu");
    reveal_strlit("loongarch64-unknown-linux-gnu");
    reveal_strlit("mips-unknown-linux-gnu");
    reveal_strlit("mipsel-unknown-linux-gnu");
    reveal_strlit("mips64-unknown-linux-gnuabi64");
    reveal_strlit("mips64el-unknown-linux-gnuabi64");
    reveal_strlit("powerpc64-unknown-linux-gnu");
    reveal_strlit("powerpc64le-unknown-linux-gnu");
    reveal_strlit("riscv64gc-unknown-linux-gnu");
    reveal_strlit("s390x-unknown-linux-gnu");
    reveal_strlit("x86_64-unknown-linux-gnu");
    reveal_strlit("i686-pc-windows-gnu");
    reveal_strlit("x86_64-pc-windows-gnu");
    reveal_strlit("x86_64-unknown-freebsd");
    reveal_strlit("aarch64-unknown-freebsd");
    reveal_strlit("powerpc64-unknown-freebsd");
    reveal_strlit("powerpc64le-unknown-freebsd");
    reveal_strlit("riscv64gc-unknown-freebsd");
    reveal_strlit("x86_64-apple-darwin");
    reveal_strlit("x86_64h-apple-darwin");
    reveal_strlit("aarch64-apple-darwin");
    reveal_strlit("arm64e-apple-darwin");
    reveal_strlit("x86_64-apple-ios");
    reveal_strlit("aarch64-apple-ios");
    reveal_strlit("aarch64-apple-ios-sim");
    reveal_strlit("aarch64-linux-android");
    reveal_strlit("arm-linux-androideabi");
    reveal_strlit("armv7-linux-androideabi");
    reveal_strlit("i686-linux-android");
    reveal_strlit("riscv64-linux-android");
    reveal_strlit("x86_64-linux-android");
    assert forall|i: int, j: int| 0 <= i < j < registry().len() implies mark(
        (#[trigger] registry()[i]).target@,
    ) != mark((#[trigger] registry()[j]).target@) by {}
}

/// No triple of the table holds a backslash.
pub proof fn lemma_registry_plain()
    ensures
        forall|i: int| 0 <= i < registry().len() ==> !(#[trigger] registry()[i]).target@.contains('\\'),
{
    reveal(registry);
    reveal_strlit("aarch64-unknown-linux-musl");
    reveal_strlit("arm-unknown-linux-musleabi");
    reveal_strlit("arm-unknown-linux-musleabihf");
    reveal_strlit("armv5te-unknown-linux-musleabi");
    reveal_strlit("armv7-unknown-linux-musleabi");
    reveal_strlit("armv7-unknown-linux-musleabihf");
    reveal_strlit("i586-unknown-linux-musl");
    reveal_strlit("i686-unknown-linux-musl");
    reveal_strlit("loongarch64-unknown-linux-musl");
    reveal_strlit("mips-unknown-linux-musl");
    reveal_strlit("mipsel-unknown-linux-musl");
    reveal_strlit("mips64-unknown-linux-muslabi64");
    reveal_strlit("mips64-openwrt-linux-musl");
    reveal_strlit("mips64el-unknown-linux-muslabi64");
    reveal_strlit("powerpc64-unknown-linux-musl");
    reveal_strlit("powerpc64le-unknown-linux-musl");
    reveal_strlit("riscv64gc-unknown-linux-musl");
    reveal_strlit("s390x-unknown-linux-musl");
    reveal_strlit("x86_64-unknown-linux-musl");
    reveal_strlit("aarch64-unknown-linux-gnu");
    reveal_strlit("arm-unknown-linux-gnueabi");
    reveal_strlit("arm-unknown-linux-gnueabihf");
    reveal_strlit("armv5te-unknown-linux-gnueabi");
    reveal_strlit("armv7-unknown-linux-gnueabi");
    reveal_strlit("armv7-unknown-linux-gnueabihf");
    reveal_strlit("i586-unknown-linux-gnu");
    reveal_strlit("i686-unknown-linux-gnu");
    reveal_strlit("loongarch64-unknown-linux-gnu");
    reveal_strlit("mips-unknown-linux-gnu");
    reveal_strlit("mipsel-unknown-linux-gnu");
    reveal_strlit("mips64-unknown-linux-gnuabi64");
    reveal_strlit("mips64el-unknown-linux-gnuabi64");
    reveal_strlit("powerpc64-unknown-linux-gnu");
    reveal_strlit("powerpc64le-unknown-linux-gnu");
    reveal_strlit("riscv64gc-unknown-linux-gnu");
    reveal_strlit("s390x-unknown-linux-gnu");
    reveal_strlit("x86_64-unknown-linux-gnu");
    reveal_strlit("i686-pc-windows-gnu");
    reveal_strlit("x86_64-pc-windows-gnu");
    reveal_strlit("x86_64-unknown-freebsd");
    reveal_strlit("aarch64-unknown-freebsd");
    reveal_strlit("powerpc64-unknown-freebsd");
    reveal_strlit("powerpc64le-unknown-freebsd");
    reveal_strlit("riscv64gc-unknown-freebsd");
    reveal_strlit("x86_64-apple-darwin");
    reveal_strlit("x86_64h-apple-darwin");
    reveal_strlit("aarch64-apple-darwin");
    reveal_strlit("arm64e-apple-darwin");
    reveal_strlit("x86_64-apple-ios");
    reveal_strlit("aarch64-apple-ios");
    reveal_strlit("aarch64-apple-ios-sim");
    reveal_strlit("aarch64-linux-android");
    reveal_strlit("arm-linux-androideabi");
    reveal_strlit("armv7-linux-androideabi");
    reveal_strlit("i686-linux-android");
    reveal_strlit("riscv64-linux-android");
    reveal_strlit("x86_64-linux-android");
    assert forall|i: int, k: int|
        0 <= i < registry().len() && 0 <= k < registry()[i].target@.len() implies #[trigger] registry()[i].target@[k]
        != '\\' by {}
}

/// Whether `triple` is the triple of a known target.
pub open spec fn is_registered(triple: Seq<char>) -> bool {
    exists|i: int| 0 <= i < registry().len() && (#[trigger] registry()[i]).target@ == triple
}

/// Builds the table of known targets.
pub fn target_table() -> (table: Vec<TargetConfig>)
    ensures
        table@ == registry(),
{
    let mut table: Vec<TargetConfig> = Vec::new();
    table.push(TargetConfig::new("aarch64-unknown-linux-musl", Os::Linux, Arch::Aarch64).with_libc(Libc::Musl));
    table.push(TargetConfig::new("arm-unknown-linux-musleabi", Os::Linux, Arch::Armv6).with_libc(Libc::Musl).with_abi(Abi::Eabi));
    table.push(TargetConfig::new("arm-unknown-linux-musleabihf", Os::Linux, Arch::Armv6).with_libc(Libc::Musl).with_abi(Abi::Eabihf));
    table.push(TargetConfig::new("armv5te-unknown-linux-musleabi", Os::Linux, Arch::Armv5).with_libc(Libc::Musl).with_abi(Abi::Eabi));
    table.push(TargetConfig::new("armv7-unknown-linux-musleabi", Os::Linux, Arch::Armv7).with_libc(Libc::Musl).with_abi(Abi::Eabi));
    table.push(TargetConfig::new("armv7-unknown-linux-musleabihf", Os::Linux, Arch::Armv7).with_libc(Libc::Musl).with_abi(Abi::Eabihf));
    table.push(TargetConfig::new("i586-unknown-linux-musl", Os::Linux, Arch::I586).with_libc(Libc::Musl));
    table.push(TargetConfig::new("i686-unknown-linux-musl", Os::Linux, Arch::I686).with_libc(Libc::Musl));
    table.push(TargetConfig::new("loongarch64-unknown-linux-musl", Os::Linux, Arch::Loongarch64).with_libc(Libc::Musl));
    table.push(TargetConfig::new("mips-unknown-linux-musl", Os::Linux, Arch::Mips).with_libc(Libc::Musl));
    table.push(TargetConfig::new("mipsel-unknown-linux-musl", Os::Linux, Arch::Mipsel).with_libc(Libc::Musl));
    table.push(TargetConfig::new("mips64-unknown-linux-muslabi64", Os::Linux, Arch::Mips64).with_libc(Libc::Musl));
    table.push(TargetConfig::new("mips64-openwrt-linux-musl", Os::Linux, Arch::Mips64).with_libc(Libc::Musl));
    table.push(TargetConfig::new("mips64el-unknown-linux-muslabi64", Os::Linux, Arch::Mips64el).with_libc(Libc::Musl));
    table.push(TargetConfig::new("powerpc64-unknown-linux-musl", Os::Linux, Arch::Powerpc64).with_libc(Libc::Musl));
    table.push(TargetConfig::new("powerpc64le-unknown-linux-musl", Os::Linux, Arch::Powerpc64le).with_libc(Libc::Musl));
    table.push(TargetConfig::new("riscv64gc-unknown-linux-musl", Os::Linux, Arch::Riscv64).with_libc(Libc::Musl));
    table.push(TargetConfig::new("s390x-unknown-linux-musl", Os::Linux, Arch::S390x).with_libc(Libc::Musl));
    table.push(TargetConfig::new("x86_64-unknown-linux-musl", Os::Linux, Arch::X86_64).with_libc(Libc::Musl));
    table.push(TargetConfig::new("aarch64-unknown-linux-gnu", Os::Linux, Arch::Aarch64).with_libc(Libc::Gnu));
    table.push(TargetConfig::new("arm-unknown-linux-gnueabi", Os::Linux, Arch::Armv6).with_libc(Libc::Gnu).with_abi(Abi::Eabi));
    table.push(TargetConfig::new("arm-unknown-linux-gnueabihf", Os::Linux, Arch::Armv6).with_libc(Libc::Gnu).with_abi(Abi::Eabihf));
    table.push(TargetConfig::new("armv5te-unknown-linux-gnueabi", Os::Linux, Arch::Armv5).with_libc(Libc::Gnu).with_abi(Abi::Eabi));
    table.push(TargetConfig::new("armv7-unknown-linux-gnueabi", Os::Linux, Arch::Armv7).with_libc(Libc::Gnu).with_abi(Abi::Eabi));
    table.push(TargetConfig::new("armv7-unknown-linux-gnueabihf", Os::Linux, Arch::Armv7).with_libc(Libc::Gnu).with_abi(Abi::Eabihf));
    table.push(TargetConfig::new("i586-unknown-linux-gnu", Os::Linux, Arch::I586).with_libc(Libc::Gnu));
    table.push(TargetConfig::new("i686-unknown-linux-gnu", Os::Linux, Arch::I686).with_libc(Libc::Gnu));
    table.push(TargetConfig::new("loongarch64-unknown-linux-gnu", Os::Linux, Arch::Loongarch64).with_libc(Libc::Gnu));
    table.push(TargetConfig::new("mips-unknown-linux-gnu", Os::Linux, Arch::Mips).with_libc(Libc::Gnu));
    table.push(TargetConfig::new("mipsel-unknown-linux-gnu", Os::Linux, Arch::Mipsel).with_libc(Libc::Gnu));
    table.push(TargetConfig::new("mips64-unknown-linux-gnuabi64", Os::Linux, Arch::Mips64).with_libc(Libc::Gnu));
    table.push(TargetConfig::new("mips64el-unknown-linux-gnuabi64", Os::Linux, Arch::Mips64el).with_libc(Libc::Gnu));
    table.push(TargetConfig::new("powerpc64-unknown-linux-gnu", Os::Linux, Arch::Powerpc64).with_libc(Libc::Gnu));
    table.push(TargetConfig::new("powerpc64le-unknown-linux-gnu", Os::Linux, Arch::Powerpc64le).with_libc(Libc::Gnu));
    table.push(TargetConfig::new("riscv64gc-unknown-linux-gnu", Os::Linux, Arch::Riscv64).with_libc(Libc::Gnu));
    table.push(TargetConfig::new("s390x-unknown-linux-gnu", Os::Linux, Arch::S390x).with_libc(Libc::Gnu));
    table.push(TargetConfig::new("x86_64-unknown-linux-gnu", Os::Linux, Arch::X86_64).with_libc(Libc::Gnu));
    table.push(TargetConfig::new("i686-pc-windows-gnu", Os::Windows, Arch::I686).with_libc(Libc::Gnu));
    table.push(TargetConfig::new("x86_64-pc-windows-gnu", Os::Windows, Arch::X86_64).with_libc(Libc::Gnu));
    table.push(TargetConfig::new("x86_64-unknown-freebsd", Os::FreeBsd, Arch::X86_64));
    table.push(TargetConfig::new("aarch64-unknown-freebsd", Os::FreeBsd, Arch::Aarch64));
    table.push(TargetConfig::new("powerpc64-unknown-freebsd", Os::FreeBsd, Arch::Powerpc64));
    table.push(TargetConfig::new("powerpc64le-unknown-freebsd", Os::FreeBsd, Arch::Powerpc64le));
    table.push(TargetConfig::new("riscv64gc-unknown-freebsd", Os::FreeBsd, Arch::Riscv64));
    table.push(TargetConfig::new("x86_64-apple-darwin", Os::Darwin, Arch::X86_64));
    table.push(TargetConfig::new("x86_64h-apple-darwin", Os::Darwin, Arch::X86_64h));
    table.push(TargetConfig::new("aarch64-apple-darwin", Os::Darwin, Arch::Aarch64));
    table.push(TargetConfig::new("arm64e-apple-darwin", Os::Darwin, Arch::Arm64e));
    table.push(TargetConfig::new("x86_64-apple-ios", Os::Ios, Arch::X86_64));
    table.push(TargetConfig::new("aarch64-apple-ios", Os::Ios, Arch::Aarch64));
    table.push(TargetConfig::new("aarch64-apple-ios-sim", Os::IosSim, Arch::Aarch64));
    table.push(TargetConfig::new("aarch64-linux-android", Os::Android, Arch::Aarch64));
    table.push(TargetConfig::new("arm-linux-androideabi", Os::Android, Arch::Armv7));
    table.push(TargetConfig::new("armv7-linux-androideabi", Os::Android, Arch::Armv7));
    table.push(TargetConfig::new("i686-linux-android", Os::Android, Arch::I686));
    table.push(TargetConfig::new("riscv64-linux-android", Os::Android, Arch::Riscv64));
    table.push(TargetConfig::new("x86_64-linux-android", Os::Android, Arch::X86_64));
    proof {
        reveal(registry);
    }
    table
}


/// Looks a target up by its triple: the first entry of the table with that
/// triple, if there is one.
pub fn get_target_config(target: &str) -> (r: Option<TargetConfig>)
    ensures
        r.is_some() == is_registered(target@),
        r.is_some() ==> exists|i: int|
            {
                &&& 0 <= i < registry().len()
                &&& #[trigger] registry()[i] == r.unwrap()
                &&& r.unwrap().target@ == target@
                &&& forall|j: int| 0 <= j < i ==> (#[trigger] registry()[j]).target@ != target@
            },
{
    let table = target_table();
    let mut i: usize = 0;
    while i < table.len()
        invariant
            table@ == registry(),
            i <= table.len(),
            forall|j: int| 0 <= j < i ==> (#[trigger] registry()[j]).target@ != target@,
        decreases table.len() - i,
    {
        if text_eq(table[i].target, target) {
            return Some(table[i]);
        }
        i += 1;
    }
    None
}

/// The triples of all known targets, in the order of the table.
pub fn all_targets() -> (r: Vec<&'static str>)
    ensures
        r@.len() == registry().len(),
        forall|i: int| 0 <= i < r@.len() ==> #[trigger] r@[i] == registry()[i].target,
{
    let table = target_table();
    let mut out: Vec<&'static str> = Vec::new();
    let mut i: usize = 0;
    while i < table.len()
        invariant
            table@ == registry(),
            i <= table.len(),
            out@.len() == i,
            forall|j: int| 0 <= j < i ==> #[trigger] out@[j] == registry()[j].target,
        decreases table.len() - i,
    {
        out.push(table[i].target);
        i += 1;
    }
    out
}

/// What `regex::Regex::new` and `Regex::is_match` give for a pattern and a
/// text: `None` where the pattern is no regular expression, else whether it
/// matches somewhere in the text.
pub uninterp spec fn regex_search(pattern: Seq<char>, text: Seq<char>) -> Option<bool>;

/// What `globset::Glob::new`, `GlobSetBuilder::build` and `GlobSet::is_match`
/// give for a pattern and a name free of backslashes: `None` where the
/// pattern is no glob or too large to build, else whether it matches the
/// whole name.
pub uninterp spec fn glob_search(pattern: Seq<char>, name: Seq<char>) -> Option<bool>;

/// Compiles `pattern` with `regex::Regex::new` and searches `text` with
/// `Regex::is_match`. Trusted: the outcome depends on the two texts alone.
#[verifier::external_body]
pub(crate) fn regex_match(pattern: &str, text: &str) -> (r: Option<bool>)
    ensures
        r == regex_search(pattern@, text@),
{
    match regex::Regex::new(pattern) {
        Ok(re) => Some(re.is_match(text)),
        Err(_) => None,
    }
}

/// Parses `pattern` with `globset::Glob::new`, builds a set of that one glob
/// with `GlobSetBuilder::build`, and matches `name` with `GlobSet::is_match`.
/// Trusted: where neither text holds a backslash the outcome depends on the
/// two texts alone; a backslash is read differently from one platform to the
/// next, so nothing is claimed then.
#[verifier::external_body]
pub(crate) fn glob_match(pattern: &str, name: &str) -> (r: Option<bool>)
    ensures
        !pattern@.contains('\\') && !name@.contains('\\') ==> r == glob_search(pattern@, name@),
{
    match globset::Glob::new(pattern) {
        Ok(glob) => match globset::GlobSetBuilder::new().add(glob).build() {
            Ok(set) => Some(set.is_match(name)),
            Err(_) => None,
        },
        Err(_) => None,
    }
}

/// Whether `name`, free of backslashes, matches the glob `pattern` as a whole.
/// A pattern that is no glob matches nothing.
pub fn glob_matches(pattern: &str, name: &str) -> (r: bool)
    ensures
        !pattern@.contains('\\') && !name@.contains('\\') ==> r == glob_accepts(
            glob_search(pattern@, name@),
        ),
{
    glob_accepts_outcome(glob_match(pattern, name))
}

/// A search outcome counts as a match only where the pattern was valid and
/// matched.
pub open spec fn glob_accepts(outcome: Option<bool>) -> bool {
    outcome == Some(true)
}

/// Whether a search outcome counts as a match.
pub fn glob_accepts_outcome(outcome: Option<bool>) -> (r: bool)
    ensures
        r == glob_accepts(outcome),
{
    match outcome {
        Some(m) => m,
        None => false,
    }
}

/// How a trimmed pattern selects targets.
#[derive(Debug, Clone, Copy, PartialEq, Eq, Structural)]
pub enum PatternKind {
    All,
    Regex,
    Glob,
    Exact,
}

/// Whether the pattern holds one of the glob characters `*`, `?`, `[`, `{`.
pub open spec fn has_glob_chars(p: Seq<char>) -> bool {
    p.contains('*') || p.contains('?') || p.contains('[') || p.contains('{')
}

/// How a trimmed pattern selects: `all`, a regular expression behind `~`, a glob, or a name.
pub open spec fn pattern_kind(p: Seq<char>) -> PatternKind {
    if p == "all"@ {
        PatternKind::All
    } else if p.len() > 0 && p[0] == '~' {
        PatternKind::Regex
    } else if has_glob_chars(p) {
        PatternKind::Glob
    } else {
        PatternKind::Exact
    }
}

/// Classifies a trimmed pattern.
pub fn classify_pattern(p: &str) -> (r: PatternKind)
    ensures
        r == pattern_kind(p@),
{
    if text_eq(p, "all") {
        PatternKind::All
    } else if p.unicode_len() > 0 && p.get_char(0) == '~' {
        PatternKind::Regex
    } else if contains_char(p, '*') || contains_char(p, '?') || contains_char(p, '[')
        || contains_char(p, '{') {
        PatternKind::Glob
    } else {
        PatternKind::Exact
    }
}

/// Whether the trimmed pattern `p` selects the triple `t`.
pub open spec fn selects(p: Seq<char>, t: Seq<char>) -> bool {
    match pattern_kind(p) {
        PatternKind::All => true,
        PatternKind::Regex => regex_search(p.subrange(1, p.len() as int), t) == Some(true),
        PatternKind::Glob => glob_search(p, t) == Some(true),
        PatternKind::Exact => t == p,
    }
}

/// Whether one of `v` has the text `t`.
pub open spec fn lists(v: Seq<&'static str>, t: Seq<char>) -> bool {
    exists|j: int| 0 <= j < v.len() && (#[trigger] v[j])@ == t
}

/// Each element comes strictly before its successor, so nothing occurs twice.
pub open spec fn strictly_ascending(v: Seq<&'static str>) -> bool {
    forall|j: int| 0 <= j < v.len() - 1 ==> lex_lt((#[trigger] v[j])@, v[j + 1]@)
}

/// Puts `x` at its place in the ascending list `v`, unless it is there already.
pub fn insert_ascending(v: &mut Vec<&'static str>, x: &'static str)
    requires
        strictly_ascending(old(v)@),
    ensures
        strictly_ascending(final(v)@),
        forall|t: Seq<char>| lists(final(v)@, t) <==> (lists(old(v)@, t) || t == x@),
{
    let ghost before = v@;
    let mut i: usize = 0;
    while i < v.len()
        invariant
            v@ == before,
            before == old(v)@,
            strictly_ascending(before),
            i <= v.len(),
            forall|j: int| 0 <= j < i ==> lex_lt((#[trigger] v@[j])@, x@),
            forall|j: int| 0 <= j < i ==> (#[trigger] v@[j])@ != x@,
        decreases v.len() - i,
    {
        match compare(v[i], x) {
            TextOrder::Before => {
                proof {
                    crate::text::lemma_lex_lt_asymmetric(v@[i as int]@, x@);
                }
            },
            TextOrder::Same => {
                proof {
                    assert forall|t: Seq<char>| lists(v@, t) <==> (lists(before, t) || t == x@) by {
                        assert(v@[i as int]@ == x@);
                    }
                }
                return ;
            },
            TextOrder::After => {
                v.insert(i, x);
                proof {
                    let after = v@;
                    assert(after == before.insert(i as int, x));
                    assert forall|j: int| 0 <= j < after.len() - 1 implies lex_lt(
                        (#[trigger] after[j])@,
                        after[j + 1]@,
                    ) by {
                        if j < i - 1 {
                            assert(after[j] == before[j] && after[j + 1] == before[j + 1]);
                        } else if j == i - 1 {
                            assert(after[j] == before[j]);
                        } else if j == i {
                            assert(after[j + 1] == before[i as int]);
                        } else {
                            assert(after[j] == before[j - 1] && after[j + 1] == before[j]);
                        }
                    }
                    assert forall|t: Seq<char>| lists(after, t) <==> (lists(before, t) || t == x@) by {
                        if lists(before, t) {
                            let k = choose|k: int| 0 <= k < before.len() && (#[trigger] before[k])@ == t;
                            if k < i {
                                assert(after[k] == before[k]);
                            } else {
                                assert(after[k + 1] == before[k]);
                            }
                        }
                        if t == x@ {
                            assert(after[i as int] == x);
                        }
                        if lists(after, t) {
                            let k = choose|k: int| 0 <= k < after.len() && (#[trigger] after[k])@ == t;
                            if k < i {
                                assert(after[k] == before[k]);
                            } else if k > i {
                                assert(after[k] == before[k - 1]);
                            }
                        }
                    }
                }
                return ;
            },
        }
        i += 1;
    }
    v.push(x);
    proof {
        let after = v@;
        assert forall|j: int| 0 <= j < after.len() - 1 implies lex_lt(
            (#[trigger] after[j])@,
            after[j + 1]@,
        ) by {
            if j < before.len() - 1 {
                assert(after[j] == before[j] && after[j + 1] == before[j + 1]);
            } else {
                assert(after[j] == before[j]);
            }
        }
        assert forall|t: Seq<char>| lists(after, t) <==> (lists(before, t) || t == x@) by {
            if lists(before, t) {
                let k = choose|k: int| 0 <= k < before.len() && (#[trigger] before[k])@ == t;
                assert(after[k] == before[k]);
            }
            if t == x@ {
                assert(after[before.len() as int] == x);
            }
            if lists(after, t) {
                let k = choose|k: int| 0 <= k < after.len() && (#[trigger] after[k])@ == t;
                if k < before.len() {
                    assert(after[k] == before[k]);
                }
            }
        }
    }
}

/// In an ascending list every element comes before every later one: the
/// list is sorted, and nothing occurs in it twice.
pub proof fn lemma_ascending_is_sorted(v: Seq<&'static str>, i: int, j: int)
    requires
        strictly_ascending(v),
        0 <= i < j < v.len(),
    ensures
        lex_lt(v[i]@, v[j]@),
        v[i]@ != v[j]@,
    decreases j - i,
{
    if j > i + 1 {
        lemma_ascending_is_sorted(v, i, j - 1);
        assert(lex_lt(v[j - 1]@, v[j]@));
        lemma_lex_lt_transitive(v[i]@, v[j - 1]@, v[j]@);
    }
    crate::text::lemma_lex_lt_asymmetric(v[i]@, v[j]@);
}

/// Whether an entry of the table is taken, given what the outside matcher
/// said of it (used for regex and glob patterns only).
pub open spec fn takes(kind: PatternKind, p: Seq<char>, t: Seq<char>, outcome: Option<bool>) -> bool {
    match kind {
        PatternKind::All => true,
        PatternKind::Regex | PatternKind::Glob => outcome == Some(true),
        PatternKind::Exact => t == p,
    }
}

/// Decides for one entry of the table whether the pattern takes it.
pub fn takes_entry(kind: PatternKind, p: &str, t: &str, outcome: Option<bool>) -> (r: bool)
    ensures
        r == takes(kind, p@, t@, outcome),
{
    match kind {
        PatternKind::All => true,
        PatternKind::Regex | PatternKind::Glob => glob_accepts_outcome(outcome),
        PatternKind::Exact => text_eq(t, p),
    }
}

/// Whether the verdict of a glob on `t` is the same on every platform: neither
/// text holds a backslash.
pub open spec fn portable(p: Seq<char>, t: Seq<char>) -> bool {
    !p.contains('\\') && !t.contains('\\')
}

/// Whether the verdict of the pattern on the triples of the table is the
/// same on every platform: it is no glob, or holds no backslash.
pub open spec fn decided(p: Seq<char>) -> bool {
    pattern_kind(p) != PatternKind::Glob || !p.contains('\\')
}

/// The triples of `r` as texts.
pub open spec fn triples(r: Seq<&'static str>) -> Seq<Seq<char>> {
    Seq::new(r.len(), |i: int| r[i]@)
}

/// Whether `r` is the expansion of the trimmed pattern `p`: the known
/// triples that `p` selects, in ascending order and each once. `all` gives
/// every known target; a name gives that target, where it is known.
pub open spec fn is_expansion(p: Seq<char>, r: Seq<&'static str>) -> bool {
    &&& strictly_ascending(r)
    &&& forall|t: Seq<char>| lists(r, t) ==> is_registered(t)
    &&& decided(p) ==> forall|t: Seq<char>| lists(r, t) <==> (is_registered(t) && selects(p, t))
    &&& p == "all"@ ==> r.len() == registry().len()
    &&& pattern_kind(p) == PatternKind::Exact ==> if is_registered(p) {
        r.len() == 1 && r[0]@ == p
    } else {
        r.len() == 0
    }
}

/// Expands a target pattern into the known triples it selects, in ascending
/// order and without repetition.
///
/// The pattern is trimmed first. `all` selects every known target; a pattern
/// that starts with `~` is a regular expression (the rest of it), searched in
/// each triple; one that holds `*`, `?`, `[` or `{` is a glob, matched against
/// the whole triple; any other selects the triple equal to it. A regular
/// expression or glob that does not parse selects nothing.
pub fn expand_targets(pattern: &str) -> (r: Vec<&'static str>)
    ensures
        is_expansion(trimmed(pattern@), r@),
{
    expand_trimmed(trim(pattern))
}

/// Expands a pattern that is trimmed already.
pub fn expand_trimmed(p: &str) -> (r: Vec<&'static str>)
    ensures
        is_expansion(p@, r@),
{
    let kind = classify_pattern(p);
    let table = target_table();
    let mut out: Vec<&'static str> = Vec::new();
    let mut i: usize = 0;
    while i < table.len()
        invariant
            table@ == registry(),
            i <= table.len(),
            kind == pattern_kind(p@),
            strictly_ascending(out@),
            forall|t: Seq<char>| lists(out@, t) ==> is_registered(t),
            forall|t: Seq<char>|
                kind != PatternKind::Glob || portable(p@, t) ==> (lists(out@, t) <==> (exists|j: int|
                    0 <= j < i && (#[trigger] registry()[j]).target@ == t && selects(p@, t))),
        decreases table.len() - i,
    {
        let t: &'static str = table[i].target;
        let outcome = match kind {
            PatternKind::Regex => regex_match(p.substring_char(1, p.unicode_len()), t),
            PatternKind::Glob => glob_match(p, t),
            _ => None,
        };
        let ghost prev = out@;
        let take = takes_entry(kind, p, t, outcome);
        if take {
            insert_ascending(&mut out, t);
        }
        proof {
            assert(registry()[i as int].target == t);
            assert forall|u: Seq<char>| lists(out@, u) implies is_registered(u) by {
                if !lists(prev, u) {
                    assert(u == t@);
                }
            }
            assert forall|u: Seq<char>|
                kind != PatternKind::Glob || portable(p@, u) implies (lists(out@, u) <==> (exists|j: int|
                    0 <= j < i + 1 && (#[trigger] registry()[j]).target@ == u && selects(p@, u))) by {
                if u == t@ {
                    assert(take == selects(p@, t@));
                }
                if lists(out@, u) {
                    if lists(prev, u) {
                        let j = choose|j: int|
                            0 <= j < i && (#[trigger] registry()[j]).target@ == u && selects(p@, u);
                        assert(0 <= j < i + 1);
                    } else {
                        assert(u == t@ && take);
                    }
                }
                if exists|j: int|
                    0 <= j < i + 1 && (#[trigger] registry()[j]).target@ == u && selects(p@, u) {
                    let j = choose|j: int|
                        0 <= j < i + 1 && (#[trigger] registry()[j]).target@ == u && selects(p@, u);
                    if j < i {
                        assert(lists(prev, u));
                    } else {
                        assert(u == t@);
                    }
                }
            }
        }
        i += 1;
    }
    proof {
        if kind == PatternKind::Exact {
            assert forall|j: int| 0 <= j < out@.len() implies (#[trigger] out@[j])@ == p@ by {
                assert(lists(out@, out@[j]@));
            }
            if out@.len() >= 2 {
                crate::text::lemma_lex_lt_asymmetric(out@[0]@, out@[1]@);
            }
            if is_registered(p@) {
                assert(lists(out@, p@));
            } else if out@.len() > 0 {
                assert(lists(out@, out@[0]@));
            }
        }
        lemma_registry_plain();
        assert forall|t: Seq<char>| decided(p@) implies (lists(out@, t) <==> (is_registered(t) && selects(
            p@,
            t,
        ))) by {
            if is_registered(t) {
                let j = choose|j: int| 0 <= j < registry().len() && (#[trigger] registry()[j]).target@ == t;
                assert(portable(p@, t) || kind != PatternKind::Glob);
            }
        }
        if p@ == "all"@ {
            lemma_registry_distinct();
            let a = triples(out@);
            let b = Seq::new(registry().len(), |i: int| registry()[i].target@);
            assert(a.no_duplicates()) by {
                assert forall|i: int, j: int| 0 <= i < a.len() && 0 <= j < a.len() && i != j implies a[i]
                    != a[j] by {
                    if i < j {
                        lemma_ascending_is_sorted(out@, i, j);
                    } else {
                        lemma_ascending_is_sorted(out@, j, i);
                    }
                }
            }
            assert(b.no_duplicates()) by {
                assert forall|i: int, j: int| 0 <= i < b.len() && 0 <= j < b.len() && i != j implies b[i]
                    != b[j] by {
                    if i < j {
                        assert(registry()[i].target@ != registry()[j].target@);
                    } else {
                        assert(registry()[j].target@ != registry()[i].target@);
                    }
                }
            }
            assert(a.to_set() =~= b.to_set()) by {
                assert forall|t: Seq<char>| a.to_set().contains(t) <==> b.to_set().contains(t) by {
                    if a.contains(t) {
                        let i = choose|i: int| 0 <= i < a.len() && a[i] == t;
                        assert(out@[i]@ == t);
                        assert(lists(out@, t));
                        let j = choose|j: int|
                            0 <= j < registry().len() && (#[trigger] registry()[j]).target@ == t;
                        assert(b[j] == t);
                    }
                    if b.contains(t) {
                        let j = choose|j: int| 0 <= j < b.len() && b[j] == t;
                        assert(registry()[j].target@ == t);
                        assert(is_registered(t));
                        assert(lists(out@, t));
                        let i = choose|i: int| 0 <= i < out@.len() && (#[trigger] out@[i])@ == t;
                        assert(a[i] == t);
                    }
                }
            }
            a.unique_seq_to_set();
            b.unique_seq_to_set();
        }
    }
    out
}

/// The platform the tool runs on.
#[derive(Debug, Clone)]
pub struct HostPlatform {
    pub os: &'static str,
    pub arch: &'static str,
    pub triple: String,
}

/// Whether a host of architecture `host_arch` runs binaries of `target`
/// without an emulator.
pub open spec fn runs_natively(host_arch: Seq<char>, target: Arch) -> bool {
    if host_arch == "x86_64"@ {
        target == Arch::X86_64 || target == Arch::I686 || target == Arch::I586
    } else if host_arch == "aarch64"@ {
        target == Arch::Aarch64 || target == Arch::Armv5 || target == Arch::Armv6 || target
            == Arch::Armv7
    } else if host_arch == "i686"@ || host_arch == "i586"@ {
        target == Arch::I686 || target == Arch::I586
    } else {
        host_arch == target.name()
    }
}

impl HostPlatform {
    /// The platform part of a download name: the system, a hyphen, the
    /// architecture.
    pub fn download_platform(&self) -> (r: String)
        ensures
            r@ == self.os@ + "-"@ + self.arch@,
    {
        cat3(self.os, "-", self.arch)
    }

    /// Whether the host runs binaries of the architecture without an emulator.
    pub fn can_run_natively(&self, target_arch: Arch) -> (r: bool)
        ensures
            r == runs_natively(self.arch@, target_arch),
    {
        if text_eq(self.arch, "x86_64") {
            matches!(target_arch, Arch::X86_64 | Arch::I686 | Arch::I586)
        } else if text_eq(self.arch, "aarch64") {
            matches!(target_arch, Arch::Aarch64 | Arch::Armv5 | Arch::Armv6 | Arch::Armv7)
        } else if text_eq(self.arch, "i686") || text_eq(self.arch, "i586") {
            matches!(target_arch, Arch::I686 | Arch::I586)
        } else {
            text_eq(self.arch, target_arch.as_str())
        }
    }

    /// Whether the host runs Windows.
    pub fn is_windows(&self) -> (r: bool)
        ensures
            r == (self.os@ == "windows"@),
    {
        text_eq(self.os, "windows")
    }

    /// Whether the host runs Darwin.
    pub fn is_darwin(&self) -> (r: bool)
        ensures
            r == (self.os@ == "darwin"@),
    {
        text_eq(self.os, "darwin")
    }

    /// Whether the host runs Linux.
    pub fn is_linux(&self) -> (r: bool)
        ensures
            r == (self.os@ == "linux"@),
    {
        text_eq(self.os, "linux")
    }

    /// The separator between the directories of a search path.
    pub fn path_separator(&self) -> (r: &'static str)
        ensures
            r@ == if self.os@ == "windows"@ { ";"@ } else { ":"@ },
    {
        if self.is_windows() {
            ";"
        } else {
            ":"
        }
    }
}

/// Whether `version` is one of `versions`.
pub fn version_listed(versions: &Vec<&'static str>, version: &str) -> (r: bool)
    ensures
        r == lists(versions@, version@),
{
    let mut i: usize = 0;
    while i < versions.len()
        invariant
            i <= versions.len(),
            forall|j: int| 0 <= j < i ==> (#[trigger] versions@[j])@ != version@,
        decreases versions.len() - i,
    {
        if text_eq(versions[i], version) {
            return true;
        }
        i += 1;
    }
    false
}

/// The texts of `v` joined with a comma and a space.
pub open spec fn comma_list(v: Seq<&'static str>) -> Seq<char>
    decreases v.len(),
{
    if v.len() == 0 {
        Seq::empty()
    } else if v.len() == 1 {
        v[0]@
    } else {
        comma_list(v.drop_last()) + ", "@ + v.last()@
    }
}

/// Joins a list of versions with a comma and a space.
pub fn comma_separated(v: &Vec<&'static str>) -> (r: String)
    ensures
        r@ == comma_list(v@),
{
    let mut out = String::new();
    let mut i: usize = 0;
    while i < v.len()
        invariant
            i <= v.len(),
            out@ == comma_list(v@.subrange(0, i as int)),
        decreases v.len() - i,
    {
        proof {
            assert(v@.subrange(0, i + 1).drop_last() =~= v@.subrange(0, i as int));
        }
        if i > 0 {
            out.append(", ");
        }
        out.append(v[i]);
        proof {
            if i == 0 {
                assert(out@ =~= v@[0]@);
            }
        }
        i += 1;
    }
    proof {
        assert(v@.subrange(0, v.len() as int) =~= v@);
    }
    out
}

/// The glibc versions that a toolchain exists for.
pub open spec fn glibc_versions() -> Seq<&'static str> {
    Seq::<&'static str>::empty()
        .push("2.28")
        .push("2.31")
        .push("2.32")
        .push("2.33")
        .push("2.34")
        .push("2.35")
        .push("2.36")
        .push("2.37")
        .push("2.38")
        .push("2.39")
        .push("2.40")
        .push("2.41")
        .push("2.42")
}

/// Lists the glibc versions that a toolchain exists for.
pub fn supported_glibc_versions() -> (v: Vec<&'static str>)
    ensures
        v@ == glibc_versions(),
{
    let mut v: Vec<&'static str> = Vec::new();
    v.push("2.28");
    v.push("2.31");
    v.push("2.32");
    v.push("2.33");
    v.push("2.34");
    v.push("2.35");
    v.push("2.36");
    v.push("2.37");
    v.push("2.38");
    v.push("2.39");
    v.push("2.40");
    v.push("2.41");
    v.push("2.42");
    v
}

/// The glibc versions, joined with a comma and a space.
pub fn supported_glibc_versions_str() -> (r: String)
    ensures
        r@ == comma_list(glibc_versions()),
{
    comma_separated(&supported_glibc_versions())
}

/// The iPhone SDK versions that a toolchain exists for.
pub open spec fn iphone_sdk_versions() -> Seq<&'static str> {
    Seq::<&'static str>::empty()
        .push("17.0")
        .push("17.2")
        .push("17.4")
        .push("17.5")
        .push("18.0")
        .push("18.1")
        .push("18.2")
        .push("18.4")
        .push("18.5")
        .push("26.0")
        .push("26.1")
        .push("26.2")
}

/// Lists the iPhone SDK versions that a toolchain exists for.
pub fn supported_iphone_sdk_versions() -> (v: Vec<&'static str>)
    ensures
        v@ == iphone_sdk_versions(),
{
    let mut v: Vec<&'static str> = Vec::new();
    v.push("17.0");
    v.push("17.2");
    v.push("17.4");
    v.push("17.5");
    v.push("18.0");
    v.push("18.1");
    v.push("18.2");
    v.push("18.4");
    v.push("18.5");
    v.push("26.0");
    v.push("26.1");
    v.push("26.2");
    v
}

/// The iPhone SDK versions, joined with a comma and a space.
pub fn supported_iphone_sdk_versions_str() -> (r: String)
    ensures
        r@ == comma_list(iphone_sdk_versions()),
{
    comma_separated(&supported_iphone_sdk_versions())
}

/// The macOS SDK versions that a toolchain exists for.
pub open spec fn macos_sdk_versions() -> Seq<&'static str> {
    Seq::<&'static str>::empty()
        .push("14.0")
        .push("14.2")
        .push("14.4")
        .push("14.5")
        .push("15.0")
        .push("15.1")
        .push("15.2")
        .push("15.4")
        .push("15.5")
        .push("26.0")
        .push("26.1")
        .push("26.2")
}

/// Lists the macOS SDK versions that a toolchain exists for.
pub fn supported_macos_sdk_versions() -> (v: Vec<&'static str>)
    ensures
        v@ == macos_sdk_versions(),
{
    let mut v: Vec<&'static str> = Vec::new();
    v.push("14.0");
    v.push("14.2");
    v.push("14.4");
    v.push("14.5");
    v.push("15.0");
    v.push("15.1");
    v.push("15.2");
    v.push("15.4");
    v.push("15.5");
    v.push("26.0");
    v.push("26.1");
    v.push("26.2");
    v
}

/// The macOS SDK versions, joined with a comma and a space.
pub fn supported_macos_sdk_versions_str() -> (r: String)
    ensures
        r@ == comma_list(macos_sdk_versions()),
{
    comma_separated(&supported_macos_sdk_versions())
}

/// The FreeBSD versions that a toolchain exists for.
pub open spec fn freebsd_versions() -> Seq<&'static str> {
    Seq::<&'static str>::empty()
        .push("13")
        .push("14")
        .push("15")
}

/// Lists the FreeBSD versions that a toolchain exists for.
pub fn supported_freebsd_versions() -> (v: Vec<&'static str>)
    ensures
        v@ == freebsd_versions(),
{
    let mut v: Vec<&'static str> = Vec::new();
    v.push("13");
    v.push("14");
    v.push("15");
    v
}

/// The FreeBSD versions, joined with a comma and a space.
pub fn supported_freebsd_versions_str() -> (r: String)
    ensures
        r@ == comma_list(freebsd_versions()),
{
    comma_separated(&supported_freebsd_versions())
}

} // verus!
