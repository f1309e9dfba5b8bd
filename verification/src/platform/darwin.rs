//! Darwin targets: the native toolchain on a Darwin host, osxcross on a
//! Linux host.

use vstd::prelude::*;
use vstd::string::*;
use crate::cli::Args;
use crate::config::{Arch, HostPlatform};
use crate::env::{CrossEnv, CrossEnvView, empty_env};
use crate::error::CrossError;
use crate::platform::{
    as_opt_str, cmake_outcome, setup_cmake, setup_darwin_linker_library_path,
};
use crate::runner::{rosetta_applies, setup_rosetta_runner};
use crate::text::{opt_text, cat2, cat3, cat5, dashed, ends_with, opt_str, replaced, text_eq};

verus! {

/// Release of the osxcross toolchains.
pub const OSXCROSS_VERSION: &'static str = "v0.2.6";

/// Release of Ubuntu that a download is taken for where the host names none.
pub const DEFAULT_UBUNTU_VERSION: &'static str = "20.04";

/// Where a Darwin target can be built.
#[derive(Debug, Clone, Copy, PartialEq, Eq, Structural)]
pub enum DarwinRoute {
    Native,
    Osxcross,
}

/// Chooses the route by the host: native on Darwin, osxcross on Linux, none
/// elsewhere.
pub fn route(host: &HostPlatform) -> (r: Result<DarwinRoute, CrossError>)
    ensures
        host.os@ == "darwin"@ ==> r == Ok::<DarwinRoute, CrossError>(DarwinRoute::Native),
        host.os@ != "darwin"@ && host.os@ == "linux"@ ==> r == Ok::<DarwinRoute, CrossError>(
            DarwinRoute::Osxcross,
        ),
        host.os@ != "darwin"@ && host.os@ != "linux"@ ==> r.is_err() && (r.unwrap_err() matches CrossError::CrossCompilationNotSupported {
            target_os,
            host_os,
        } && target_os@ == "darwin"@ && host_os@ == host.os@),
{
    if host.is_darwin() {
        Ok(DarwinRoute::Native)
    } else if host.is_linux() {
        Ok(DarwinRoute::Osxcross)
    } else {
        Err(
            CrossError::CrossCompilationNotSupported {
                target_os: String::from_str("darwin"),
                host_os: String::from_str(host.os),
            },
        )
    }
}

/// An SDK path that the user gave has to exist.
pub fn check_sdk_path(path: &str, exists: bool) -> (r: Result<(), CrossError>)
    ensures
        r.is_ok() == exists,
        r.is_err() ==> (r.unwrap_err() matches CrossError::SdkPathNotExist { path: p } && p@ == path@),
{
    if exists {
        Ok(())
    } else {
        Err(CrossError::SdkPathNotExist { path: String::from_str(path) })
    }
}

/// `e` with the SDK, where there is one, as SDK root and as the linker's
/// sysroot.
pub open spec fn with_sdk(e: CrossEnvView, sdk: Option<Seq<char>>) -> CrossEnvView {
    match sdk {
        Some(s) => CrossEnvView {
            sdkroot: Some(s),
            rustflags: e.rustflags.push("-C link-arg=--sysroot="@ + s),
            ..e
        },
        None => e,
    }
}

/// Makes the SDK, where there is one, the SDK root and the linker's sysroot.
pub fn apply_sdk(env: &mut CrossEnv, sdk: Option<&str>)
    ensures
        final(env)@ == with_sdk(old(env)@, opt_str(sdk)),
{
    if let Some(s) = sdk {
        env.set_sdkroot(s);
        env.add_rustflag(cat2("-C link-arg=--sysroot=", s).as_str());
    }
}

/// The facts of the native toolchain before a generator is settled.
pub open spec fn native_env(
    arch: Arch,
    rust_target: Seq<char>,
    executes: bool,
    host_os: Seq<char>,
    host_arch: Seq<char>,
    sdk: Option<Seq<char>>,
) -> CrossEnvView {
    let e = empty_env();
    let e = if executes && rosetta_applies(arch, rust_target, host_os, host_arch) {
        CrossEnvView { runner: Some("arch -x86_64"@), ..e }
    } else {
        e
    };
    with_sdk(e, sdk)
}

/// Describes the native toolchain of a Darwin host. `sdk` is the SDK that
/// was found, if any.
pub fn configure_native(arch: Arch, rust_target: &str, args: &Args, host: &HostPlatform, sdk: Option<&str>) -> (env:
    CrossEnv)
    ensures
        cmake_outcome(
            native_env(arch, rust_target@, args.command.executes(), host.os@, host.arch@, opt_str(sdk)),
            env@,
            opt_text(args.build.cmake_generator),
            host.os@ == "windows"@,
        ),
{
    let mut env = CrossEnv::new();
    if args.command.needs_runner() {
        setup_rosetta_runner(&mut env, arch, rust_target, host);
    }
    apply_sdk(&mut env, sdk);
    setup_cmake(&mut env, as_opt_str(&args.build.cmake_generator), host.is_windows());
    env
}

/// The name under which osxcross builds exist for a host architecture.
pub open spec fn osxcross_host(host_arch: Seq<char>) -> Option<Seq<char>> {
    if host_arch == "x86_64"@ || host_arch == "amd64"@ {
        Some("amd64"@)
    } else if host_arch == "aarch64"@ || host_arch == "arm64"@ {
        Some("aarch64"@)
    } else {
        None
    }
}

/// The name under which osxcross builds exist for the host, or the error for
/// a host without one.
pub fn osxcross_host_name(host: &HostPlatform) -> (r: Result<&'static str, CrossError>)
    ensures
        r.is_ok() == osxcross_host(host.arch@).is_some(),
        r.is_ok() ==> r.unwrap()@ == osxcross_host(host.arch@).unwrap(),
        r.is_err() ==> (r.unwrap_err() matches CrossError::CrossCompilationNotSupported {
            target_os,
            host_os,
        } && target_os@ == "darwin"@ && host_os@ == host.os@ + "/"@ + host.arch@),
{
    if text_eq(host.arch, "x86_64") || text_eq(host.arch, "amd64") {
        Ok("amd64")
    } else if text_eq(host.arch, "aarch64") || text_eq(host.arch, "arm64") {
        Ok("aarch64")
    } else {
        Err(
            CrossError::CrossCompilationNotSupported {
                target_os: String::from_str("darwin"),
                host_os: cat3(host.os, "/", host.arch),
            },
        )
    }
}

/// Folder of the osxcross toolchain under the cache root: the SDK version
/// with hyphens for dots, the host's name, and the release.
pub fn osxcross_folder(macos_sdk_version: &str, host_name: &str) -> (r: String)
    ensures
        r@ == "osxcross-"@ + replaced(macos_sdk_version@, '.', '-') + "-"@ + host_name@ + "-"@
            + OSXCROSS_VERSION@,
{
    let suffix = dashed(macos_sdk_version);
    let head = cat5("osxcross-", suffix.as_str(), "-", host_name, "-");
    cat2(head.as_str(), OSXCROSS_VERSION)
}

/// Where the osxcross toolchain is fetched from. `ubuntu_version` is the
/// host's release, where it names one.
pub fn osxcross_url(macos_sdk_version: &str, host_name: &str, ubuntu_version: Option<&str>) -> (r: String)
    ensures
        r@ == "https://github.com/zijiren233/osxcross/releases/download/"@ + OSXCROSS_VERSION@
            + "/osxcross-"@ + replaced(macos_sdk_version@, '.', '-') + "-linux-"@ + (if host_name@
            == "amd64"@ {
            "x86_64"@
        } else {
            host_name@
        }) + "-gnu-ubuntu-"@ + (match ubuntu_version {
            Some(v) => v@,
            None => DEFAULT_UBUNTU_VERSION@,
        }) + ".tar.gz"@,
{
    let url_arch = if text_eq(host_name, "amd64") {
        "x86_64"
    } else {
        host_name
    };
    let ubuntu = match ubuntu_version {
        Some(v) => v,
        None => DEFAULT_UBUNTU_VERSION,
    };
    let suffix = dashed(macos_sdk_version);
    let a = cat5(
        "https://github.com/zijiren233/osxcross/releases/download/",
        OSXCROSS_VERSION,
        "/osxcross-",
        suffix.as_str(),
        "-linux-",
    );
    cat5(a.as_str(), url_arch, "-gnu-ubuntu-", ubuntu, ".tar.gz")
}

/// The glob that the compiler of an architecture matches, whatever the
/// version of Darwin in its name.
pub fn clang_pattern(arch: Arch) -> (r: String)
    ensures
        r@ == arch.name() + "-apple-darwin*-clang"@,
{
    cat2(arch.as_str(), "-apple-darwin*-clang")
}

/// The prefix that the tools of a toolchain share, from the name of its
/// compiler: the name without its ending `-clang`.
pub fn tool_prefix(clang_name: &str) -> (r: Option<String>)
    ensures
        r.is_some() == "-clang"@.is_suffix_of(clang_name@),
        r.is_some() ==> r.unwrap()@ + "-clang"@ == clang_name@,
{
    if ends_with(clang_name, "-clang") {
        let n = clang_name.unicode_len();
        let m = "-clang".unicode_len();
        let head = clang_name.substring_char(0, n - m);
        proof {
            assert(head@ + "-clang"@ =~= clang_name@);
        }
        Some(String::from_str(head))
    } else {
        None
    }
}

/// Name of the cross linker of a toolchain.
pub fn linker_name(prefix: &str) -> (r: String)
    ensures
        r@ == prefix@ + "-ld"@,
{
    cat2(prefix, "-ld")
}

/// What was found of an Apple cross toolchain on disk, as text.
#[derive(Debug, Clone)]
pub struct AppleLayout {
    /// The toolchain's `bin` directory.
    pub bin_dir: String,
    /// The `bin` directory of the toolchain's own clang.
    pub clang_bin_dir: String,
    /// The toolchain's `lib` directory, where it exists.
    pub lib_dir: Option<String>,
    /// The cross linker: `bin` joined with the tool prefix and `-ld`.
    pub linker_path: String,
    /// The SDK found in the toolchain, if any.
    pub sdk: Option<String>,
}

/// The facts of an osxcross toolchain before a generator is settled.
pub open spec fn osxcross_env(prefix: Seq<char>, l: AppleLayout, verbose: bool) -> CrossEnvView {
    let vars = Map::<Seq<char>, Seq<char>>::empty().insert("OSXCROSS_MP_INC"@, "1"@).insert(
        "MACOSX_DEPLOYMENT_TARGET"@,
        "10.12"@,
    );
    let vars = if verbose {
        vars.insert("OCDEBUG"@, "1"@)
    } else {
        vars
    };
    let e = CrossEnvView {
        cc: Some(prefix + "-clang"@),
        cxx: Some(prefix + "-clang++"@),
        ar: Some(prefix + "-ar"@),
        linker: Some(prefix + "-clang"@),
        path: seq![l.bin_dir@, l.clang_bin_dir@],
        library_path: match l.lib_dir {
            Some(d) => seq![d@],
            None => Seq::empty(),
        },
        ldflags: seq!["-fuse-ld="@ + l.linker_path@],
        rustflags: seq!["-C link-arg=-fuse-ld="@ + l.linker_path@],
        extra_env: vars.insert("COMPILER_PATH"@, l.bin_dir@),
        ..empty_env()
    };
    with_sdk(e, opt_text(l.sdk))
}

/// Describes an osxcross toolchain that is in place.
pub fn configure_osxcross(prefix: &str, layout: &AppleLayout, args: &Args, host: &HostPlatform) -> (env:
    CrossEnv)
    ensures
        cmake_outcome(
            osxcross_env(prefix@, *layout, args.build.verbose_level > 0),
            env@,
            opt_text(args.build.cmake_generator),
            host.os@ == "windows"@,
        ),
{
    let mut env = CrossEnv::new();
    setup_darwin_linker_library_path(&mut env, as_opt_str(&layout.lib_dir));
    env.set_env("OSXCROSS_MP_INC", "1");
    env.set_env("MACOSX_DEPLOYMENT_TARGET", "10.12");
    if args.build.verbose_level > 0 {
        env.set_env("OCDEBUG", "1");
    }
    let clang = cat2(prefix, "-clang");
    env.set_cc(clang.as_str());
    env.set_cxx(cat2(prefix, "-clang++").as_str());
    env.set_ar(cat2(prefix, "-ar").as_str());
    env.set_linker(clang.as_str());
    env.add_path(layout.bin_dir.as_str());
    env.add_path(layout.clang_bin_dir.as_str());
    env.set_env("COMPILER_PATH", layout.bin_dir.as_str());
    env.add_ldflag(cat2("-fuse-ld=", layout.linker_path.as_str()).as_str());
    env.add_rustflag(cat2("-C link-arg=-fuse-ld=", layout.linker_path.as_str()).as_str());
    apply_sdk(&mut env, as_opt_str(&layout.sdk));
    proof {
        let g = osxcross_env(prefix@, *layout, args.build.verbose_level > 0);
        assert(env@.path =~= g.path);
        assert(env@.library_path =~= g.library_path);
        assert(env@.ldflags =~= g.ldflags);
        assert(env@.rustflags =~= g.rustflags);
        assert(env@.extra_env =~= g.extra_env);
        assert(env@ == g);
    }
    setup_cmake(&mut env, as_opt_str(&args.build.cmake_generator), host.is_windows());
    env
}

} // verus!
