//! What the provisioning of every platform shares: toolchain names, download
//! plans and the pieces of environment common to several platforms.

use vstd::prelude::*;
use vstd::string::*;
use crate::config::{Abi, Arch, HostPlatform, Libc};
use crate::download::ArchiveFormat;
use crate::env::{set_gcc_lib_paths, setup_sysroot_env, clang_args, lib_flags, empty_env, CrossEnv, CrossEnvView};
use crate::text::{
    cat2, cat3, cat4, cat5, ends_with, joined, opt_str, opt_text, replaced, starts_with, text_eq,
};

pub mod linux;
pub mod windows;
pub mod freebsd;
pub mod darwin;
pub mod ios;
pub mod android;

verus! {

/// `path_slash::PathExt::to_slash_lossy` on a path given as text: the path
/// with `/` between its components. Trusted, and nothing is claimed of the
/// result: how a path splits into components differs from one platform to
/// the next.
#[verifier::external_body]
pub fn to_cmake_path(path: &str) -> (r: String) {
    path_slash::PathExt::to_slash_lossy(std::path::Path::new(path)).into_owned()
}

/// `which::which`: whether a program of that name is found on the search
/// path of the process. Trusted, and nothing is claimed of the result: it
/// depends on the machine.
#[verifier::external_body]
pub(crate) fn program_on_path(name: &str) -> (r: bool) {
    which::which(name).is_ok()
}

/// The name of an ABI where there is one, else nothing.
pub open spec fn abi_suffix(abi: Option<Abi>) -> Seq<char> {
    match abi {
        Some(a) => a.name(),
        None => Seq::empty(),
    }
}

/// The prefix of the tools of a Linux toolchain. It names no version.
pub open spec fn linux_bin_prefix(arch: Arch, libc: Libc, abi: Option<Abi>) -> Seq<char> {
    arch.name() + "-linux-"@ + libc.name() + abi_suffix(abi)
}

/// The folder of a Linux toolchain: the tool prefix, the glibc version where
/// the toolchain is a GNU one of another version than the default, and
/// `-cross`.
pub open spec fn linux_folder_name(
    arch: Arch,
    libc: Libc,
    abi: Option<Abi>,
    glibc_version: Seq<char>,
    default_glibc_version: Seq<char>,
) -> Seq<char> {
    if libc == Libc::Gnu && glibc_version != default_glibc_version {
        linux_bin_prefix(arch, libc, abi) + "-"@ + glibc_version + "-cross"@
    } else {
        linux_bin_prefix(arch, libc, abi) + "-cross"@
    }
}

/// The prefix of the tools of a Linux toolchain.
pub fn get_linux_bin_prefix(arch: Arch, libc: Libc, abi: Option<Abi>) -> (r: String)
    ensures
        r@ == linux_bin_prefix(arch, libc, abi),
{
    let abi_str = match abi {
        Some(a) => a.as_str(),
        None => "",
    };
    proof {
        reveal_strlit("");
        assert(""@ =~= Seq::<char>::empty());
    }
    cat4(arch.as_str(), "-linux-", libc.as_str(), abi_str)
}

/// The folder of a Linux toolchain.
pub fn get_linux_folder_name(
    arch: Arch,
    libc: Libc,
    abi: Option<Abi>,
    glibc_version: &str,
    default_glibc_version: &str,
) -> (r: String)
    ensures
        r@ == linux_folder_name(arch, libc, abi, glibc_version@, default_glibc_version@),
{
    let prefix = get_linux_bin_prefix(arch, libc, abi);
    if matches!(libc, Libc::Gnu) && !text_eq(glibc_version, default_glibc_version) {
        cat4(prefix.as_str(), "-", glibc_version, "-cross")
    } else {
        cat2(prefix.as_str(), "-cross")
    }
}

/// What it takes to fetch a toolchain and to tell whether it is there.
#[derive(Debug, Clone)]
pub struct ToolchainPlan {
    /// Prefix of the names of the tools.
    pub bin_prefix: String,
    /// Folder of the toolchain under the cache root.
    pub folder: String,
    /// File under the folder's `bin` whose presence shows the toolchain.
    pub compiler: String,
    /// Where the archive is fetched from.
    pub download_url: String,
    /// Format of the archive.
    pub format: ArchiveFormat,
}

/// The ending of a program's file name on the host.
pub open spec fn exe_suffix(windows: bool) -> Seq<char> {
    if windows {
        ".exe"@
    } else {
        Seq::empty()
    }
}

/// Where a toolchain of the common release series is fetched from: the
/// release of the version and host platform, the toolchain's name, and the
/// archive ending of the host.
pub open spec fn cross_make_url(
    version: Seq<char>,
    host_os: Seq<char>,
    host_arch: Seq<char>,
    name: Seq<char>,
) -> Seq<char> {
    "https://github.com/zijiren233/cross-make/releases/download/"@ + version + "-"@ + (host_os + "-"@
        + host_arch) + "/"@ + name + if host_os == "windows"@ {
        ".zip"@
    } else {
        ".tgz"@
    }
}

/// Whether `p` is the plan for the toolchain `name` with tools `bin_prefix`
/// of the common release series in `version`, on the given host.
pub open spec fn is_cross_make_plan(
    p: ToolchainPlan,
    bin_prefix: Seq<char>,
    name: Seq<char>,
    version: Seq<char>,
    host_os: Seq<char>,
    host_arch: Seq<char>,
) -> bool {
    &&& p.bin_prefix@ == bin_prefix
    &&& p.folder@ == name + "-"@ + version
    &&& p.compiler@ == bin_prefix + "-gcc"@ + exe_suffix(host_os == "windows"@)
    &&& p.download_url@ == cross_make_url(version, host_os, host_arch, name)
    &&& p.format == if host_os == "windows"@ {
        ArchiveFormat::Zip
    } else {
        ArchiveFormat::TarGz
    }
}

/// Plans the download of a toolchain of the common release series.
pub fn cross_make_plan(bin_prefix: &str, name: &str, version: &str, host: &HostPlatform) -> (p:
    ToolchainPlan)
    ensures
        is_cross_make_plan(p, bin_prefix@, name@, version@, host.os@, host.arch@),
{
    let windows = host.is_windows();
    let exe_ext = exe_ext(windows);
    let platform = host.download_platform();
    let extension = if windows {
        ".zip"
    } else {
        ".tgz"
    };
    let base = cat5(
        "https://github.com/zijiren233/cross-make/releases/download/",
        version,
        "-",
        platform.as_str(),
        "/",
    );
    ToolchainPlan {
        bin_prefix: String::from_str(bin_prefix),
        folder: cat3(name, "-", version),
        compiler: cat3(bin_prefix, "-gcc", exe_ext),
        download_url: cat3(base.as_str(), name, extension),
        format: if windows {
            ArchiveFormat::Zip
        } else {
            ArchiveFormat::TarGz
        },
    }
}

/// The ending of a program's file name on the host.
pub fn exe_ext(windows: bool) -> (r: &'static str)
    ensures
        r@ == exe_suffix(windows),
{
    proof {
        reveal_strlit("");
        assert(""@ =~= Seq::<char>::empty());
    }
    if windows {
        ".exe"
    } else {
        ""
    }
}

/// What was found of a GCC toolchain on disk, each directory as text and
/// present only where it exists.
#[derive(Debug, Clone)]
pub struct GccLayout {
    /// The toolchain's `bin` directory.
    pub bin_dir: String,
    /// Directory of the target's libraries.
    pub target_lib: Option<String>,
    /// First version directory of the compiler's own libraries.
    pub gcc_lib: Option<String>,
    /// The sysroot.
    pub sysroot: Option<String>,
    /// The compiler's own headers.
    pub gcc_include: Option<String>,
    /// The sysroot's headers under `usr`.
    pub usr_include: Option<String>,
    /// The sysroot's headers at its top.
    pub headers: Option<String>,
}

/// The facts that a GCC toolchain contributes: its tools by bare name, its
/// `bin` directory for the search path, its library directories for the
/// Rust compiler, and its sysroot for binding generators.
pub open spec fn gcc_env(p: ToolchainPlan, l: GccLayout, rust_target: Seq<char>, windows: bool) -> CrossEnvView {
    CrossEnvView {
        cc: Some(p.compiler@),
        cxx: Some(p.bin_prefix@ + "-g++"@ + exe_suffix(windows)),
        ar: Some(p.bin_prefix@ + "-ar"@ + exe_suffix(windows)),
        linker: Some(p.compiler@),
        path: seq![l.bin_dir@],
        rustflags: lib_flags(opt_text(l.target_lib), opt_text(l.gcc_lib)),
        extra_env: match l.sysroot {
            Some(root) => Map::<Seq<char>, Seq<char>>::empty().insert(
                "BINDGEN_EXTRA_CLANG_ARGS_"@ + replaced(rust_target, '-', '_'),
                joined(
                    clang_args(
                        root@,
                        opt_text(l.gcc_include),
                        opt_text(l.usr_include),
                        opt_text(l.headers),
                    ),
                    " "@,
                ),
            ),
            None => Map::empty(),
        },
        ..empty_env()
    }
}

/// An optional string as an optional slice.
pub fn as_opt_str(o: &Option<String>) -> (r: Option<&str>)
    ensures
        opt_str(r) == opt_text(*o),
{
    match o {
        Some(s) => Some(s.as_str()),
        None => None,
    }
}

/// Describes a GCC toolchain that is in place.
pub fn configure_gcc(plan: &ToolchainPlan, layout: &GccLayout, rust_target: &str, windows: bool) -> (env:
    CrossEnv)
    ensures
        env@ == gcc_env(*plan, *layout, rust_target@, windows),
{
    let ext = exe_ext(windows);
    let mut env = CrossEnv::new();
    env.set_cc(plan.compiler.as_str());
    env.set_cxx(cat3(plan.bin_prefix.as_str(), "-g++", ext).as_str());
    env.set_ar(cat3(plan.bin_prefix.as_str(), "-ar", ext).as_str());
    env.set_linker(plan.compiler.as_str());
    env.add_path(layout.bin_dir.as_str());
    set_gcc_lib_paths(&mut env, as_opt_str(&layout.target_lib), as_opt_str(&layout.gcc_lib));
    setup_sysroot_env(
        &mut env,
        as_opt_str(&layout.sysroot),
        as_opt_str(&layout.gcc_include),
        as_opt_str(&layout.usr_include),
        as_opt_str(&layout.headers),
        rust_target,
    );
    proof {
        let g = gcc_env(*plan, *layout, rust_target@, windows);
        assert(env@.path =~= g.path);
        assert(env@.rustflags =~= g.rustflags);
        assert(env@.extra_env =~= g.extra_env);
    }
    env
}

/// Sets the prefix that build systems put in front of tool names: the tool
/// prefix and a hyphen.
pub fn setup_cross_compile_prefix(env: &mut CrossEnv, bin_prefix: &str)
    ensures
        final(env)@ == (CrossEnvView {
            extra_env: old(env)@.extra_env.insert("CROSS_COMPILE"@, bin_prefix@ + "-"@),
            ..old(env)@
        }),
{
    env.set_env("CROSS_COMPILE", cat2(bin_prefix, "-").as_str());
}

/// Adds the toolchain's own library directory, where it exists, to the
/// run-time library search path, so that the cross linker finds its shared
/// libraries.
pub fn setup_darwin_linker_library_path(env: &mut CrossEnv, lib_dir: Option<&str>)
    ensures
        final(env)@ == match lib_dir {
            Some(d) => CrossEnvView {
                library_path: old(env)@.library_path.push(d@),
                ..old(env)@
            },
            None => old(env)@,
        },
{
    if let Some(d) = lib_dir {
        env.add_library_path(d);
    }
}

/// The generator to use on a Windows host, by what is installed: Ninja
/// first, then MinGW's make, else Unix makefiles.
pub fn choose_generator(ninja: bool, mingw_make: bool) -> (r: &'static str)
    ensures
        r@ == if ninja {
            "Ninja"@
        } else if mingw_make {
            "MinGW Makefiles"@
        } else {
            "Unix Makefiles"@
        },
{
    if ninja {
        "Ninja"
    } else if mingw_make {
        "MinGW Makefiles"
    } else {
        "Unix Makefiles"
    }
}

/// Whether `after` is `before` with the generator `g` set.
pub open spec fn generator_set(before: CrossEnvView, after: CrossEnvView, g: Seq<char>) -> bool {
    after == (CrossEnvView { extra_env: before.extra_env.insert("CMAKE_GENERATOR"@, g), ..before })
}

/// Whether `after` is `before` once the generator is settled: the one asked
/// for, on any host; else, on a Windows host only, one of the three that the
/// host may have.
pub open spec fn cmake_outcome(
    before: CrossEnvView,
    after: CrossEnvView,
    asked: Option<Seq<char>>,
    windows: bool,
) -> bool {
    match asked {
        Some(g) => generator_set(before, after, g),
        None => if windows {
            generator_set(before, after, "Ninja"@) || generator_set(before, after, "MinGW Makefiles"@)
                || generator_set(before, after, "Unix Makefiles"@)
        } else {
            after == before
        },
    }
}

/// Sets the CMake generator: the one asked for, on any host; else, on a
/// Windows host only, the best that is installed.
pub fn setup_cmake(env: &mut CrossEnv, cmake_generator: Option<&str>, is_windows: bool)
    ensures
        cmake_outcome(old(env)@, final(env)@, opt_str(cmake_generator), is_windows),
{
    if let Some(g) = cmake_generator {
        env.set_env("CMAKE_GENERATOR", g);
        return ;
    }
    if !is_windows {
        return ;
    }
    let ninja = program_on_path("ninja");
    let mingw_make = if ninja {
        false
    } else {
        program_on_path("mingw32-make")
    };
    env.set_env("CMAKE_GENERATOR", choose_generator(ninja, mingw_make));
}

/// The index of the first of `names` that the glob `pattern` matches as a
/// whole, where the names are free of backslashes and so is the pattern.
pub open spec fn first_match(names: Seq<Seq<char>>, pattern: Seq<char>, found: Option<usize>) -> bool {
    match found {
        Some(i) => {
            &&& i < names.len()
            &&& crate::config::glob_search(pattern, names[i as int]) == Some(true)
            &&& forall|j: int| 0 <= j < i ==> crate::config::glob_search(pattern, #[trigger] names[j]) != Some(true)
        },
        None => forall|j: int| 0 <= j < names.len() ==> crate::config::glob_search(pattern, #[trigger] names[j]) != Some(true),
    }
}

/// Finds among the names of a directory's entries the first that the glob
/// `pattern` matches. The pattern has to match the whole name.
pub fn find_file_by_pattern(names: &Vec<String>, pattern: &str) -> (r: Option<usize>)
    ensures
        r.is_some() ==> r.unwrap() < names@.len(),
        !pattern@.contains('\\') && (forall|j: int| 0 <= j < names@.len() ==> !(#[trigger] names@[j])@.contains('\\'))
            ==> first_match(crate::text::texts(names@), pattern@, r),
{
    let mut i: usize = 0;
    while i < names.len()
        invariant
            i <= names.len(),
            !pattern@.contains('\\') && (forall|j: int| 0 <= j < names@.len() ==> !(#[trigger] names@[j])@.contains('\\'))
                ==> forall|j: int| 0 <= j < i ==> crate::config::glob_search(pattern@, #[trigger] crate::text::texts(names@)[j]) != Some(true),
        decreases names.len() - i,
    {
        if crate::config::glob_matches(pattern, names[i].as_str()) {
            return Some(i);
        }
        i += 1;
    }
    None
}

/// Whether a name begins with `prefix` and ends with `suffix`.
pub open spec fn is_named(name: Seq<char>, prefix: Seq<char>, suffix: Seq<char>) -> bool {
    prefix.is_prefix_of(name) && suffix.is_suffix_of(name)
}

/// Whether `found` is the index of the first of `names`, from the index
/// `from` on, that begins with `prefix` and ends with `suffix`.
pub open spec fn first_named_is(
    names: Seq<String>,
    prefix: Seq<char>,
    suffix: Seq<char>,
    from: int,
    found: Option<usize>,
) -> bool {
    match found {
        Some(i) => {
            &&& from <= i < names.len()
            &&& is_named(names[i as int]@, prefix, suffix)
            &&& forall|j: int| from <= j < i ==> !is_named((#[trigger] names[j])@, prefix, suffix)
        },
        None => forall|j: int| from <= j < names.len() ==> !is_named((#[trigger] names[j])@, prefix, suffix),
    }
}

/// Finds among the names of a directory's entries, from the index `from`
/// on, the first that begins with `prefix` and ends with `suffix`.
pub fn first_named(names: &Vec<String>, prefix: &str, suffix: &str, from: usize) -> (r: Option<usize>)
    ensures
        first_named_is(names@, prefix@, suffix@, from as int, r),
{
    let mut i: usize = from;
    while i < names.len()
        invariant
            from <= i,
            forall|j: int| from <= j < i && j < names@.len() ==> !is_named((#[trigger] names@[j])@, prefix@, suffix@),
        decreases names.len() - i,
    {
        if starts_with(names[i].as_str(), prefix) && ends_with(names[i].as_str(), suffix) {
            return Some(i);
        }
        i += 1;
    }
    None
}

/// Kind of an Apple SDK.
#[derive(Debug, Clone, Copy, PartialEq, Eq, Structural)]
pub enum AppleSdkType {
    MacOS,
    IPhoneOS,
    IPhoneSimulator,
}

impl AppleSdkType {
    /// The name of the SDK's platform.
    pub open spec fn platform(self) -> Seq<char> {
        match self {
            AppleSdkType::MacOS => "MacOSX"@,
            AppleSdkType::IPhoneOS => "iPhoneOS"@,
            AppleSdkType::IPhoneSimulator => "iPhoneSimulator"@,
        }
    }

    /// The SDK's name without its version.
    pub open spec fn sdk_prefix(self) -> Seq<char> {
        match self {
            AppleSdkType::MacOS => "macosx"@,
            AppleSdkType::IPhoneOS => "iphoneos"@,
            AppleSdkType::IPhoneSimulator => "iphonesimulator"@,
        }
    }

    /// Where the SDK of the given version lies below the developer
    /// directory of an Xcode installation.
    pub fn sdk_subpath(&self, version: &str) -> (r: String)
        ensures
            r@ == "Platforms/"@ + self.platform() + ".platform/Developer/SDKs/"@ + self.platform()
                + version@ + ".sdk"@,
    {
        let platform = match self {
            AppleSdkType::MacOS => "MacOSX",
            AppleSdkType::IPhoneOS => "iPhoneOS",
            AppleSdkType::IPhoneSimulator => "iPhoneSimulator",
        };
        let head = cat4("Platforms/", platform, ".platform/Developer/SDKs/", platform);
        cat3(head.as_str(), version, ".sdk")
    }

    /// The SDK's name for the given version, and the name of its platform.
    pub fn names(&self, version: &str) -> (r: (String, &'static str))
        ensures
            r.0@ == self.sdk_prefix() + version@,
            r.1@ == self.platform(),
    {
        match self {
            AppleSdkType::MacOS => (cat2("macosx", version), "MacOSX"),
            AppleSdkType::IPhoneOS => (cat2("iphoneos", version), "iPhoneOS"),
            AppleSdkType::IPhoneSimulator => (cat2("iphonesimulator", version), "iPhoneSimulator"),
        }
    }
}

} // verus!
