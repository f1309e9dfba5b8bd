//! Windows targets: MinGW-w64 for GNU targets, the native toolchain for MSVC.

use vstd::prelude::*;
use vstd::string::*;
use crate::cli::Args;
use crate::config::{Arch, HostPlatform, Libc, TargetConfig};
use crate::env::{CrossEnv, CrossEnvView};
use crate::error::CrossError;
use crate::platform::{
    as_opt_str, configure_gcc, cross_make_plan, gcc_env, cmake_outcome, is_cross_make_plan,
    setup_cmake, setup_cross_compile_prefix, GccLayout, ToolchainPlan,
};
use crate::runner::{setup_wine_runner, wine_set};
use crate::text::{cat2, opt_text};

verus! {

/// How a Windows target is provisioned.
#[derive(Debug, Clone)]
pub enum WindowsPlan {
    /// The host's own MSVC toolchain: nothing to set up.
    Native,
    /// A MinGW-w64 toolchain.
    MinGw(ToolchainPlan),
}

/// The four cases of a Windows target.
pub enum PlanKind {
    /// An MSVC target on a Windows host: the host's own toolchain.
    Native,
    /// An MSVC target on another host: not possible.
    NoCross,
    /// A target for 32 or 64 bit x86 that is not MSVC: MinGW-w64.
    MinGw,
    /// Any other target: MinGW-w64 does not exist for it.
    NoToolchain,
}

/// Which case a Windows target falls under.
pub open spec fn plan_kind(target: TargetConfig, host_os: Seq<char>) -> PlanKind {
    if target.libc == Some(Libc::Msvc) {
        if host_os == "windows"@ {
            PlanKind::Native
        } else {
            PlanKind::NoCross
        }
    } else if target.arch == Arch::I686 || target.arch == Arch::X86_64 {
        PlanKind::MinGw
    } else {
        PlanKind::NoToolchain
    }
}

/// Plans the toolchain of a Windows target.
pub fn plan(target: &TargetConfig, args: &Args, host: &HostPlatform) -> (r: Result<
    WindowsPlan,
    CrossError,
>)
    ensures
        plan_kind(*target, host.os@) is Native ==> r.is_ok() && r.unwrap() is Native,
        plan_kind(*target, host.os@) is NoCross ==> r.is_err() && (r.unwrap_err() matches CrossError::CrossCompilationNotSupported {
            target_os,
            host_os,
        } && target_os@ == "windows-msvc"@ && host_os@ == host.os@),
        plan_kind(*target, host.os@) is MinGw ==> r.is_ok() && (r.unwrap() matches WindowsPlan::MinGw(p)
            && is_cross_make_plan(
            p,
            target.arch.name() + "-w64-mingw32"@,
            target.arch.name() + "-w64-mingw32"@ + "-cross"@,
            args.cross_deps_version@,
            host.os@,
            host.arch@,
        )),
        plan_kind(*target, host.os@) is NoToolchain ==> r.is_err() && (r.unwrap_err() matches CrossError::UnsupportedArchitecture {
            arch,
            os,
        } && arch@ == target.arch.name() && os@ == "windows-gnu"@),
{
    if matches!(target.libc, Some(Libc::Msvc)) {
        if host.is_windows() {
            return Ok(WindowsPlan::Native);
        }
        return Err(
            CrossError::CrossCompilationNotSupported {
                target_os: String::from_str("windows-msvc"),
                host_os: String::from_str(host.os),
            },
        );
    }
    if !matches!(target.arch, Arch::I686 | Arch::X86_64) {
        return Err(
            CrossError::UnsupportedArchitecture {
                arch: String::from_str(target.arch.as_str()),
                os: String::from_str("windows-gnu"),
            },
        );
    }
    let bin_prefix = cat2(target.arch.as_str(), "-w64-mingw32");
    let name = cat2(bin_prefix.as_str(), "-cross");
    Ok(
        WindowsPlan::MinGw(
            cross_make_plan(bin_prefix.as_str(), name.as_str(), args.cross_deps_version.as_str(), host),
        ),
    )
}

/// The facts of a MinGW-w64 toolchain before a generator or a runner is
/// chosen: those of its GCC and the tool prefix for build systems.
pub open spec fn mingw_env(p: ToolchainPlan, l: GccLayout, rust_target: Seq<char>, windows: bool) -> CrossEnvView {
    let g = gcc_env(p, l, rust_target, windows);
    CrossEnvView { extra_env: g.extra_env.insert("CROSS_COMPILE"@, p.bin_prefix@ + "-"@), ..g }
}

/// Describes a MinGW-w64 toolchain once it is in place. On a Windows host a
/// generator is chosen as well, by what is installed; on any other host, for
/// a command that executes what it built, Wine becomes the runner where it
/// is installed.
pub fn configure(
    plan: &ToolchainPlan,
    layout: &GccLayout,
    target: &TargetConfig,
    args: &Args,
    host: &HostPlatform,
) -> (env: CrossEnv)
    ensures
        host.os@ == "windows"@ ==> cmake_outcome(
            mingw_env(*plan, *layout, target.target@, true),
            env@,
            opt_text(args.build.cmake_generator),
            true,
        ),
        host.os@ != "windows"@ && !args.command.executes() ==> env@ == mingw_env(
            *plan,
            *layout,
            target.target@,
            false,
        ),
        host.os@ != "windows"@ && args.command.executes() ==> env@ == mingw_env(
            *plan,
            *layout,
            target.target@,
            false,
        ) || wine_set(mingw_env(*plan, *layout, target.target@, false), env@),
{
    let windows = host.is_windows();
    let mut env = configure_gcc(plan, layout, target.target, windows);
    setup_cross_compile_prefix(&mut env, plan.bin_prefix.as_str());
    if windows {
        setup_cmake(&mut env, as_opt_str(&args.build.cmake_generator), true);
    }
    if !windows && args.command.needs_runner() {
        let _ = setup_wine_runner(&mut env);
    }
    env
}

} // verus!
