//! Runners: the programs through which a binary built for another platform
//! is executed on the host.

use vstd::prelude::*;
use vstd::string::*;
use crate::config::{Arch, HostPlatform};
use crate::env::{CrossEnv, CrossEnvView};
use crate::platform::program_on_path;
use crate::text::{cat2, cat3, cat4, cat5, contains_text, has_infix, opt_str, text_eq};

verus! {

/// Whether `after` is `before` with Wine as the runner.
pub open spec fn wine_set(before: CrossEnvView, after: CrossEnvView) -> bool {
    after == (CrossEnvView { runner: Some("wine"@), ..before })
}

/// Makes Wine the runner where `found` says it is installed.
pub fn apply_wine_runner(env: &mut CrossEnv, found: bool)
    ensures
        found ==> wine_set(old(env)@, final(env)@),
        !found ==> final(env)@ == old(env)@,
{
    if found {
        env.set_runner("wine");
    }
}

/// Makes Wine the runner where it is installed on the host, and says whether it is.
pub fn setup_wine_runner(env: &mut CrossEnv) -> (configured: bool)
    ensures
        configured ==> wine_set(old(env)@, final(env)@),
        !configured ==> final(env)@ == old(env)@,
{
    let found = program_on_path("wine");
    apply_wine_runner(env, found);
    found
}

/// Whether binaries of the target run through Rosetta on the host: an
/// x86_64 Darwin target on an arm64 Darwin host.
pub open spec fn rosetta_applies(arch: Arch, rust_target: Seq<char>, host_os: Seq<char>, host_arch: Seq<char>) -> bool {
    &&& host_os == "darwin"@
    &&& arch == Arch::X86_64
    &&& has_infix(rust_target, "-apple-darwin"@)
    &&& host_arch == "aarch64"@
}

/// Makes the Rosetta prefix the runner where it applies.
pub fn setup_rosetta_runner(env: &mut CrossEnv, arch: Arch, rust_target: &str, host: &HostPlatform)
    ensures
        final(env)@ == if rosetta_applies(arch, rust_target@, host.os@, host.arch@) {
            CrossEnvView { runner: Some("arch -x86_64"@), ..old(env)@ }
        } else {
            old(env)@
        },
{
    if !host.is_darwin() {
        return ;
    }
    if !matches!(arch, Arch::X86_64) {
        return ;
    }
    if !contains_text(rust_target, "-apple-darwin") {
        return ;
    }
    if !text_eq(host.arch, "aarch64") {
        return ;
    }
    env.set_runner("arch -x86_64");
}

/// Where the emulators are released.
pub const QEMU_RELEASES: &'static str =
    "https://github.com/zijiren233/qemu-user-static/releases/download/";

/// What it takes to fetch an emulator and to tell whether it is there.
#[derive(Debug, Clone)]
pub struct QemuPlan {
    /// Name of the emulator's binary.
    pub binary: &'static str,
    /// Folder of the emulators under the cache root.
    pub folder: String,
    /// Where the emulators are fetched from.
    pub download_url: String,
}

/// Plans the emulator that runs on the host itself; an architecture without
/// an emulator gets none.
pub fn qemu_plan(arch: Arch, qemu_version: &str, host: &HostPlatform) -> (r: Option<QemuPlan>)
    ensures
        r.is_some() == arch.emulator().is_some(),
        r.is_some() ==> {
            &&& r.unwrap().binary@ == arch.emulator().unwrap()
            &&& r.unwrap().folder@ == "qemu-user-static-"@ + qemu_version@
            &&& r.unwrap().download_url@ == QEMU_RELEASES@ + qemu_version@ + "/qemu-user-static-"@
                + (host.os@ + "-"@ + host.arch@) + "-musl.tgz"@
        },
{
    match arch.qemu_binary_name() {
        Some(binary) => Some(
            QemuPlan {
                binary,
                folder: cat2("qemu-user-static-", qemu_version),
                download_url: cat5(
                    QEMU_RELEASES,
                    qemu_version,
                    "/qemu-user-static-",
                    host.download_platform().as_str(),
                    "-musl.tgz",
                ),
            },
        ),
        None => None,
    }
}

/// Plans the emulator that runs in a Linux container on the host.
pub fn docker_qemu_plan(arch: Arch, qemu_version: &str, host: &HostPlatform) -> (r: Option<QemuPlan>)
    ensures
        r.is_some() == arch.emulator().is_some(),
        r.is_some() ==> {
            &&& r.unwrap().binary@ == arch.emulator().unwrap()
            &&& r.unwrap().folder@ == "qemu-user-static-"@ + qemu_version@ + "-linux-"@ + host.arch@
            &&& r.unwrap().download_url@ == QEMU_RELEASES@ + qemu_version@
                + "/qemu-user-static-linux-"@ + host.arch@ + "-musl.tgz"@
        },
{
    match arch.qemu_binary_name() {
        Some(binary) => Some(
            QemuPlan {
                binary,
                folder: cat4("qemu-user-static-", qemu_version, "-linux-", host.arch),
                download_url: cat5(
                    QEMU_RELEASES,
                    qemu_version,
                    "/qemu-user-static-linux-",
                    host.arch,
                    "-musl.tgz",
                ),
            },
        ),
        None => None,
    }
}

/// The emulator as runner: its directory on the search path, and its name,
/// pointed at the sysroot where that holds libraries.
pub open spec fn with_qemu(e: CrossEnvView, binary: Seq<char>, qemu_dir: Seq<char>, sysroot: Option<Seq<char>>) -> CrossEnvView {
    CrossEnvView {
        path: e.path.push(qemu_dir),
        runner: Some(
            match sysroot {
                Some(s) => binary + " -L "@ + s,
                None => binary,
            },
        ),
        ..e
    }
}

/// Makes the emulator the runner where it is present. `sysroot` is the
/// toolchain's sysroot, given where it holds a `lib` directory.
pub fn apply_qemu_runner(env: &mut CrossEnv, binary: &str, qemu_dir: &str, present: bool, sysroot: Option<&str>)
    ensures
        final(env)@ == if present {
            with_qemu(old(env)@, binary@, qemu_dir@, opt_str(sysroot))
        } else {
            old(env)@
        },
{
    if present {
        env.add_path(qemu_dir);
        match sysroot {
            Some(s) => env.set_runner(cat3(binary, " -L ", s).as_str()),
            None => env.set_runner(binary),
        }
    }
}

/// The container image to run in: a minimal one for musl, a fuller one for
/// any other C library.
pub fn docker_image(libc: &str) -> (r: &'static str)
    ensures
        r@ == if libc@ == "musl"@ {
            "alpine:latest"@
        } else {
            "ubuntu:latest"@
        },
{
    if text_eq(libc, "musl") {
        "alpine:latest"
    } else {
        "ubuntu:latest"
    }
}

/// Name of the script that runs a binary in a container.
pub fn docker_script_name(arch: Arch, libc: &str) -> (r: String)
    ensures
        r@ == "docker-qemu-runner-"@ + arch.name() + "-"@ + libc@ + ".sh"@,
{
    cat5("docker-qemu-runner-", arch.as_str(), "-", libc, ".sh")
}

/// The script up to the path of the emulator.
pub const SCRIPT_HEAD: &'static str = "#!/bin/bash\nset -e\n\n# Docker QEMU Runner Script\nQEMU_PATH=\"";

/// The script between the path of the emulator and its name.
pub const SCRIPT_BINARY: &'static str = "\"\nQEMU_BINARY=\"";

/// The script between the name of the emulator and the sysroot.
pub const SCRIPT_SYSROOT: &'static str = "\"\nSYSROOT=\"";

/// The script between the sysroot and the image.
pub const SCRIPT_IMAGE: &'static str = "\"\nDOCKER_IMAGE=\"";

/// The script from the image on: the checks, the container and the run.
pub const SCRIPT_BODY: &'static str =
    "\"\n\nif [[ $# -lt 1 ]]; then\n    echo \"Usage: $0 <binary> [args...]\" >&2\n    exit 1\nfi\n\nBINARY=\"$1\"\nshift\n\nif [[ ! -f \"$BINARY\" ]]; then\n    echo \"Error: Binary not found: $BINARY\" >&2\n    exit 1\nfi\n\nBINARY_NAME=$(basename \"$BINARY\")\n\n# Create container\nCONTAINER_ID=$(docker create --rm -i \"$DOCKER_IMAGE\" /bin/sh -c \"sleep infinity\")\n\ncleanup() {\n    docker rm -f \"$CONTAINER_ID\" >/dev/null 2>&1 || true\n}\ntrap cleanup EXIT\n\n# Start the container\ndocker start \"$CONTAINER_ID\" >/dev/null\n\n# Copy QEMU binary to container\ndocker cp \"$QEMU_PATH\" \"$CONTAINER_ID:/usr/bin/$QEMU_BINARY\" >/dev/null\ndocker exec \"$CONTAINER_ID\" chmod +x \"/usr/bin/$QEMU_BINARY\"\n\n# Copy sysroot lib to container\nif [[ -d \"$SYSROOT/lib\" ]]; then\n    docker cp \"$SYSROOT\" \"$CONTAINER_ID:/sysroot\" >/dev/null\nfi\n\n# Copy the binary to execute\ndocker cp \"$BINARY\" \"$CONTAINER_ID:/tmp/$BINARY_NAME\" >/dev/null\ndocker exec \"$CONTAINER_ID\" chmod +x \"/tmp/$BINARY_NAME\"\n\n# Run the binary with QEMU\ndocker exec \"$CONTAINER_ID\" /usr/bin/$QEMU_BINARY -L /sysroot /tmp/$BINARY_NAME \"$@\"\n";

/// The script that creates a container, copies the emulator, the sysroot
/// and the binary into it, and runs the binary there.
pub fn docker_script(qemu_path: &str, qemu_binary: &str, sysroot: &str, image: &str) -> (r: String)
    ensures
        r@ == SCRIPT_HEAD@ + qemu_path@ + SCRIPT_BINARY@ + qemu_binary@ + SCRIPT_SYSROOT@ + sysroot@
            + SCRIPT_IMAGE@ + image@ + SCRIPT_BODY@,
{
    let a = cat5(SCRIPT_HEAD, qemu_path, SCRIPT_BINARY, qemu_binary, SCRIPT_SYSROOT);
    cat5(a.as_str(), sysroot, SCRIPT_IMAGE, image, SCRIPT_BODY)
}

/// How far the set-up of the container runner gets.
#[derive(Debug, Clone, Copy, PartialEq, Eq, Structural)]
pub enum DockerStep {
    /// No container runtime: warn, and build without a runner.
    SkipNoDocker,
    /// No emulator for the architecture: build without a runner.
    SkipNoEmulator,
    /// Fetch the emulator, write the script, and make it the runner.
    Proceed,
}

/// Decides how far the set-up of the container runner gets.
pub fn docker_step(docker_found: bool, arch: Arch) -> (r: DockerStep)
    ensures
        r == if !docker_found {
            DockerStep::SkipNoDocker
        } else if arch.emulator().is_none() {
            DockerStep::SkipNoEmulator
        } else {
            DockerStep::Proceed
        },
{
    if !docker_found {
        DockerStep::SkipNoDocker
    } else if arch.qemu_binary_name().is_none() {
        DockerStep::SkipNoEmulator
    } else {
        DockerStep::Proceed
    }
}

/// Makes the script the runner.
pub fn apply_docker_runner(env: &mut CrossEnv, script_path: &str)
    ensures
        final(env)@ == (CrossEnvView { runner: Some(script_path@), ..old(env)@ }),
{
    env.set_runner(script_path);
}

} // verus!
