//! iOS targets: the native toolchain on a Darwin host, the ioscross
//! toolchain on a Linux host.

use vstd::prelude::*;
use vstd::string::*;
use crate::config::{Arch, HostPlatform, Os, TargetConfig};
use crate::env::{CrossEnv, CrossEnvView, empty_env};
use crate::error::CrossError;
use crate::platform::darwin::{AppleLayout, DEFAULT_UBUNTU_VERSION};
use crate::platform::{as_opt_str, setup_darwin_linker_library_path, AppleSdkType};
use crate::text::{opt_text, cat2, cat3, cat4, cat5, dashed, opt_str, replaced};

verus! {

/// Release of the ioscross toolchain.
pub const CCTOOLS_VERSION: &'static str = "v0.1.9";

/// Where an iOS target can be built.
#[derive(Debug, Clone, Copy, PartialEq, Eq, Structural)]
pub enum IosRoute {
    Native,
    Ioscross,
}

/// Whether the target is the simulator: a simulator target, or any target
/// for x86_64.
pub fn is_simulator(target: &TargetConfig) -> (r: bool)
    ensures
        r == (target.os == Os::IosSim || target.arch == Arch::X86_64),
{
    matches!(target.os, Os::IosSim) || matches!(target.arch, Arch::X86_64)
}

/// Chooses the route by the host: native on Darwin, ioscross on
/// Linux, none elsewhere.
pub fn route(host: &HostPlatform) -> (r: Result<IosRoute, CrossError>)
    ensures
        host.os@ == "darwin"@ ==> r == Ok::<IosRoute, CrossError>(IosRoute::Native),
        host.os@ != "darwin"@ && host.os@ == "linux"@ ==> r == Ok::<IosRoute, CrossError>(
            IosRoute::Ioscross,
        ),
        host.os@ != "darwin"@ && host.os@ != "linux"@ ==> r.is_err() && (r.unwrap_err() matches CrossError::CrossCompilationNotSupported {
            target_os,
            host_os,
        } && target_os@ == "ios"@ && host_os@ == host.os@),
{
    if host.is_darwin() {
        Ok(IosRoute::Native)
    } else if host.is_linux() {
        Ok(IosRoute::Ioscross)
    } else {
        Err(
            CrossError::CrossCompilationNotSupported {
                target_os: String::from_str("ios"),
                host_os: String::from_str(host.os),
            },
        )
    }
}

/// The kind of SDK that a target builds against.
pub fn sdk_type(simulator: bool) -> (r: AppleSdkType)
    ensures
        r == if simulator {
            AppleSdkType::IPhoneSimulator
        } else {
            AppleSdkType::IPhoneOS
        },
{
    if simulator {
        AppleSdkType::IPhoneSimulator
    } else {
        AppleSdkType::IPhoneOS
    }
}

/// The variable that carries the oldest system a build supports.
pub open spec fn deployment_var(simulator: bool) -> Seq<char> {
    if simulator {
        "IPHONE_SIMULATOR_DEPLOYMENT_TARGET"@
    } else {
        "IPHONEOS_DEPLOYMENT_TARGET"@
    }
}

/// The facts of the native toolchain: the SDK, where one was found, as SDK
/// root and linker sysroot, and the oldest system supported.
pub open spec fn native_env(simulator: bool, sdk: Option<Seq<char>>) -> CrossEnvView {
    let e = crate::platform::darwin::with_sdk(empty_env(), sdk);
    CrossEnvView { extra_env: e.extra_env.insert(deployment_var(simulator), "12.0"@), ..e }
}

/// Describes the native toolchain of a Darwin host. `sdk` is the SDK that
/// was found, if any.
pub fn configure_native(simulator: bool, sdk: Option<&str>) -> (env: CrossEnv)
    ensures
        env@ == native_env(simulator, opt_str(sdk)),
{
    let mut env = CrossEnv::new();
    crate::platform::darwin::apply_sdk(&mut env, sdk);
    let name = if simulator {
        "IPHONE_SIMULATOR_DEPLOYMENT_TARGET"
    } else {
        "IPHONEOS_DEPLOYMENT_TARGET"
    };
    env.set_env(name, "12.0");
    env
}

/// The name of an architecture in the names of the toolchain's tools.
pub open spec fn arch_prefix(arch: Arch) -> Option<Seq<char>> {
    match arch {
        Arch::Aarch64 => Some("arm64"@),
        Arch::X86_64 => Some("x86_64"@),
        _ => None,
    }
}

/// The name of an architecture in the names of the toolchain's tools, or the
/// error for an architecture without a toolchain.
pub fn ios_arch_prefix(arch: Arch) -> (r: Result<&'static str, CrossError>)
    ensures
        r.is_ok() == arch_prefix(arch).is_some(),
        r.is_ok() ==> r.unwrap()@ == arch_prefix(arch).unwrap(),
        r.is_err() ==> (r.unwrap_err() matches CrossError::UnsupportedArchitecture { arch: a, os }
            && a@ == arch.name() && os@ == "ios"@),
{
    match arch {
        Arch::Aarch64 => Ok("arm64"),
        Arch::X86_64 => Ok("x86_64"),
        _ => Err(
            CrossError::UnsupportedArchitecture {
                arch: String::from_str(arch.as_str()),
                os: String::from_str("ios"),
            },
        ),
    }
}

/// The folder of the toolchain under the cache root.
pub open spec fn ioscross_folder_name(prefix: Seq<char>, simulator: bool, sdk_version: Seq<char>) -> Seq<char> {
    "ios-"@ + prefix + "-cross"@ + (if simulator {
        "-simulator"@
    } else {
        Seq::empty()
    }) + "-"@ + CCTOOLS_VERSION@ + "-"@ + replaced(sdk_version, '.', '-')
}

/// The folder of the toolchain under the cache root.
pub fn ioscross_folder(prefix: &str, simulator: bool, iphone_sdk_version: &str) -> (r: String)
    ensures
        r@ == ioscross_folder_name(prefix@, simulator, iphone_sdk_version@),
{
    proof {
        reveal_strlit("");
        assert(""@ =~= Seq::<char>::empty());
    }
    let sim = if simulator {
        "-simulator"
    } else {
        ""
    };
    let head = cat5("ios-", prefix, "-cross", sim, "-");
    cat3(head.as_str(), CCTOOLS_VERSION, cat2("-", dashed(iphone_sdk_version).as_str()).as_str())
}

/// The compiler whose presence shows that the toolchain is in place.
pub fn ioscross_compiler(prefix: &str) -> (r: String)
    ensures
        r@ == prefix@ + "-apple-darwin11-clang"@,
{
    cat2(prefix, "-apple-darwin11-clang")
}

/// Name of the cross linker of the toolchain.
pub fn ioscross_linker(prefix: &str) -> (r: String)
    ensures
        r@ == prefix@ + "-apple-darwin11-ld"@,
{
    cat2(prefix, "-apple-darwin11-ld")
}

/// Where the toolchain is fetched from.
pub open spec fn ioscross_url_text(
    prefix: Seq<char>,
    simulator: bool,
    sdk_version: Seq<char>,
    host_os: Seq<char>,
    host_arch: Seq<char>,
    ubuntu: Option<Seq<char>>,
) -> Seq<char> {
    "https://github.com/zijiren233/cctools-port/releases/download/"@ + CCTOOLS_VERSION@ + "/ioscross-"@
        + (if simulator {
        "iPhoneSimulator"@
    } else {
        "iPhoneOS"@
    }) + replaced(sdk_version, '.', '-') + "-"@ + prefix + "-"@ + (host_os + "-"@ + host_arch)
        + "-gnu-ubuntu-"@ + (match ubuntu {
        Some(v) => v,
        None => DEFAULT_UBUNTU_VERSION@,
    }) + ".tar.gz"@
}

/// Where the toolchain is fetched from.
pub fn ioscross_url(
    prefix: &str,
    simulator: bool,
    iphone_sdk_version: &str,
    host: &HostPlatform,
    ubuntu_version: Option<&str>,
) -> (r: String)
    ensures
        r@ == ioscross_url_text(
            prefix@,
            simulator,
            iphone_sdk_version@,
            host.os@,
            host.arch@,
            opt_str(ubuntu_version),
        ),
{
    let sdk = if simulator {
        "iPhoneSimulator"
    } else {
        "iPhoneOS"
    };
    let ubuntu = match ubuntu_version {
        Some(v) => v,
        None => DEFAULT_UBUNTU_VERSION,
    };
    let a = cat5(
        "https://github.com/zijiren233/cctools-port/releases/download/",
        CCTOOLS_VERSION,
        "/ioscross-",
        sdk,
        dashed(iphone_sdk_version).as_str(),
    );
    let b = cat5(a.as_str(), "-", prefix, "-", host.download_platform().as_str());
    cat4(b.as_str(), "-gnu-ubuntu-", ubuntu, ".tar.gz")
}

/// The facts of the toolchain once it is in place.
pub open spec fn ioscross_env(prefix: Seq<char>, l: AppleLayout, simulator: bool) -> CrossEnvView {
    CrossEnvView {
        cc: Some(prefix + "-apple-darwin11-clang"@),
        cxx: Some(prefix + "-apple-darwin11-clang++"@),
        ar: Some(prefix + "-apple-darwin11-ar"@),
        linker: Some(prefix + "-apple-darwin11-clang"@),
        path: seq![l.bin_dir@, l.clang_bin_dir@],
        library_path: match l.lib_dir {
            Some(d) => seq![d@],
            None => Seq::empty(),
        },
        ldflags: seq!["-fuse-ld="@ + l.linker_path@],
        rustflags: seq!["-C link-arg=-fuse-ld="@ + l.linker_path@],
        sdkroot: opt_text(l.sdk),
        extra_env: Map::<Seq<char>, Seq<char>>::empty().insert(deployment_var(simulator), "12.0"@),
        ..empty_env()
    }
}

/// Describes the toolchain once it is in place.
pub fn configure_ioscross(prefix: &str, layout: &AppleLayout, simulator: bool) -> (env: CrossEnv)
    ensures
        env@ == ioscross_env(prefix@, *layout, simulator),
{
    let mut env = CrossEnv::new();
    setup_darwin_linker_library_path(&mut env, as_opt_str(&layout.lib_dir));
    let clang = cat2(prefix, "-apple-darwin11-clang");
    env.set_cc(clang.as_str());
    env.set_cxx(cat2(prefix, "-apple-darwin11-clang++").as_str());
    env.set_ar(cat2(prefix, "-apple-darwin11-ar").as_str());
    env.set_linker(clang.as_str());
    env.add_path(layout.bin_dir.as_str());
    env.add_path(layout.clang_bin_dir.as_str());
    env.add_ldflag(cat2("-fuse-ld=", layout.linker_path.as_str()).as_str());
    env.add_rustflag(cat2("-C link-arg=-fuse-ld=", layout.linker_path.as_str()).as_str());
    if let Some(sdk) = as_opt_str(&layout.sdk) {
        env.set_sdkroot(sdk);
    }
    let name = if simulator {
        "IPHONE_SIMULATOR_DEPLOYMENT_TARGET"
    } else {
        "IPHONEOS_DEPLOYMENT_TARGET"
    };
    env.set_env(name, "12.0");
    proof {
        let g = ioscross_env(prefix@, *layout, simulator);
        assert(env@.path =~= g.path);
        assert(env@.library_path =~= g.library_path);
        assert(env@.ldflags =~= g.ldflags);
        assert(env@.rustflags =~= g.rustflags);
        assert(env@.extra_env =~= g.extra_env);
    }
    env
}

} // verus!
