//! Linux targets: GCC toolchains for musl and glibc.

use vstd::prelude::*;
use vstd::string::*;
use crate::cli::{Args, Command};
use crate::config::{runs_natively, Arch, HostPlatform, TargetConfig, DEFAULT_GLIBC_VERSION};
use crate::env::CrossEnv;
use crate::platform::{
    configure_gcc, cross_make_plan, gcc_env, get_linux_bin_prefix, get_linux_folder_name,
    is_cross_make_plan, linux_bin_prefix, linux_folder_name, GccLayout, ToolchainPlan,
};

verus! {

/// How a built binary is run on the host.
#[derive(Debug, Clone, Copy, PartialEq, Eq, Structural)]
pub enum RunnerKind {
    /// Nothing is set up.
    NoRunner,
    /// The emulator runs on the host itself.
    Qemu,
    /// The emulator runs in a container.
    DockerQemu,
}

/// Plans the toolchain of a Linux target.
pub fn plan(target: &TargetConfig, args: &Args, host: &HostPlatform) -> (p: ToolchainPlan)
    requires
        target.libc.is_some(),
    ensures
        is_cross_make_plan(
            p,
            linux_bin_prefix(target.arch, target.libc.unwrap(), target.abi),
            linux_folder_name(
                target.arch,
                target.libc.unwrap(),
                target.abi,
                args.build.glibc_version@,
                DEFAULT_GLIBC_VERSION@,
            ),
            args.cross_deps_version@,
            host.os@,
            host.arch@,
        ),
{
    let libc = target.libc.unwrap();
    let bin_prefix = get_linux_bin_prefix(target.arch, libc, target.abi);
    let name = get_linux_folder_name(
        target.arch,
        libc,
        target.abi,
        args.build.glibc_version.as_str(),
        DEFAULT_GLIBC_VERSION,
    );
    cross_make_plan(bin_prefix.as_str(), name.as_str(), args.cross_deps_version.as_str(), host)
}

/// Describes the toolchain of a Linux target once it is in place.
pub fn configure(plan: &ToolchainPlan, layout: &GccLayout, target: &TargetConfig, host: &HostPlatform) -> (env:
    CrossEnv)
    ensures
        env@ == gcc_env(*plan, *layout, target.target@, host.os@ == "windows"@),
{
    configure_gcc(plan, layout, target.target, host.is_windows())
}

/// Which runner a Linux target gets. None unless the command executes what
/// it built and the host cannot run the target's architecture itself; then
/// the emulator itself on a Linux host, and the emulator in a container on
/// any other host.
pub fn runner_kind(command: Command, host: &HostPlatform, arch: Arch) -> (r: RunnerKind)
    ensures
        r == if !command.executes() || runs_natively(host.arch@, arch) {
            RunnerKind::NoRunner
        } else if host.os@ == "linux"@ {
            RunnerKind::Qemu
        } else {
            RunnerKind::DockerQemu
        },
{
    if !command.needs_runner() || host.can_run_natively(arch) {
        RunnerKind::NoRunner
    } else if host.is_linux() {
        RunnerKind::Qemu
    } else {
        RunnerKind::DockerQemu
    }
}

} // verus!
