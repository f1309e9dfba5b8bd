//! FreeBSD targets: GCC toolchains by FreeBSD version.

use vstd::prelude::*;
use vstd::string::*;
use crate::cli::Args;
use crate::config::{Arch, HostPlatform, TargetConfig};
use crate::env::{CrossEnv, CrossEnvView};
use crate::error::CrossError;
use crate::platform::{
    configure_gcc, cross_make_plan, gcc_env, is_cross_make_plan, setup_cmake,
    setup_cross_compile_prefix, cmake_outcome, GccLayout, ToolchainPlan,
};
use crate::text::{cat2, opt_text};

verus! {

/// The architectures that a FreeBSD toolchain exists for.
pub open spec fn supported(arch: Arch) -> bool {
    arch == Arch::X86_64 || arch == Arch::Aarch64 || arch == Arch::Powerpc64 || arch
        == Arch::Powerpc64le || arch == Arch::Riscv64
}

/// Plans the toolchain of a FreeBSD target; an architecture without one is
/// an error.
pub fn plan(target: &TargetConfig, args: &Args, host: &HostPlatform) -> (r: Result<
    ToolchainPlan,
    CrossError,
>)
    ensures
        r.is_ok() == supported(target.arch),
        r.is_ok() ==> is_cross_make_plan(
            r.unwrap(),
            target.arch.name() + "-unknown-freebsd"@ + args.build.freebsd_version@,
            target.arch.name() + "-unknown-freebsd"@ + args.build.freebsd_version@ + "-cross"@,
            args.cross_deps_version@,
            host.os@,
            host.arch@,
        ),
        r.is_err() ==> (r.unwrap_err() matches CrossError::UnsupportedArchitecture { arch, os }
            && arch@ == target.arch.name() && os@ == "freebsd"@),
{
    if !matches!(
        target.arch,
        Arch::X86_64 | Arch::Aarch64 | Arch::Powerpc64 | Arch::Powerpc64le | Arch::Riscv64
    ) {
        return Err(
            CrossError::UnsupportedArchitecture {
                arch: String::from_str(target.arch.as_str()),
                os: String::from_str("freebsd"),
            },
        );
    }
    let bin_prefix = crate::text::cat3(
        target.arch.as_str(),
        "-unknown-freebsd",
        args.build.freebsd_version.as_str(),
    );
    let name = cat2(bin_prefix.as_str(), "-cross");
    Ok(cross_make_plan(bin_prefix.as_str(), name.as_str(), args.cross_deps_version.as_str(), host))
}

/// The facts of a FreeBSD toolchain before a generator is chosen: those of
/// its GCC and the tool prefix for build systems.
pub open spec fn freebsd_env(p: ToolchainPlan, l: GccLayout, rust_target: Seq<char>, windows: bool) -> CrossEnvView {
    let g = gcc_env(p, l, rust_target, windows);
    CrossEnvView { extra_env: g.extra_env.insert("CROSS_COMPILE"@, p.bin_prefix@ + "-"@), ..g }
}

/// Describes the toolchain of a FreeBSD target once it is in place. On a
/// Windows host a generator is chosen as well, by what is installed.
pub fn configure(
    plan: &ToolchainPlan,
    layout: &GccLayout,
    target: &TargetConfig,
    args: &Args,
    host: &HostPlatform,
) -> (env: CrossEnv)
    ensures
        host.os@ != "windows"@ ==> env@ == freebsd_env(*plan, *layout, target.target@, false),
        host.os@ == "windows"@ ==> cmake_outcome(
            freebsd_env(*plan, *layout, target.target@, true),
            env@,
            opt_text(args.build.cmake_generator),
            true,
        ),
{
    let windows = host.is_windows();
    let mut env = configure_gcc(plan, layout, target.target, windows);
    setup_cross_compile_prefix(&mut env, plan.bin_prefix.as_str());
    if windows {
        let generator = crate::platform::as_opt_str(&args.build.cmake_generator);
        setup_cmake(&mut env, generator, true);
    }
    env
}

} // verus!
