//! Android targets: the NDK.

use vstd::prelude::*;
use vstd::string::*;
use crate::cli::Args;
use crate::config::{Arch, HostPlatform};
use crate::env::{CrossEnv, CrossEnvView, empty_env};
use crate::error::CrossError;
use crate::platform::{as_opt_str, cmake_outcome, setup_cmake};
use crate::text::{opt_text, cat2, cat3, cat4, cat5, text_eq, texts};

verus! {

/// Folder of the NDK under the cache root.
pub fn ndk_folder(host: &HostPlatform, ndk_version: &str) -> (r: String)
    ensures
        r@ == "android-ndk-"@ + host.os@ + "-"@ + ndk_version@,
{
    cat4("android-ndk-", host.os, "-", ndk_version)
}

/// Where the NDK is fetched from.
pub fn ndk_url(host: &HostPlatform, ndk_version: &str) -> (r: String)
    ensures
        r@ == "https://dl.google.com/android/repository/android-ndk-"@ + ndk_version@ + "-"@ + host.os@
            + ".zip"@,
{
    cat5("https://dl.google.com/android/repository/android-ndk-", ndk_version, "-", host.os, ".zip")
}

/// Folder that the NDK's archive wraps its content in.
pub fn ndk_nested_folder(ndk_version: &str) -> (r: String)
    ensures
        r@ == "android-ndk-"@ + ndk_version@,
{
    cat2("android-ndk-", ndk_version)
}

/// The names under which the NDK may hold its tools for the host, most
/// specific first.
pub open spec fn prebuilt_names(host_os: Seq<char>, host_arch: Seq<char>) -> Seq<Seq<char>> {
    if host_os == "darwin"@ {
        seq!["darwin-"@ + host_arch, "darwin-x86_64"@, "darwin"@]
    } else {
        seq![host_os + "-"@ + host_arch, host_os + "-x86_64"@]
    }
}

/// Lists the names under which the NDK may hold its tools for the host.
pub fn prebuilt_candidates(host: &HostPlatform) -> (r: Vec<String>)
    ensures
        texts(r@) == prebuilt_names(host.os@, host.arch@),
{
    let mut v: Vec<String> = Vec::new();
    if text_eq(host.os, "darwin") {
        v.push(cat2("darwin-", host.arch));
        v.push(String::from_str("darwin-x86_64"));
        v.push(String::from_str("darwin"));
    } else {
        v.push(cat3(host.os, "-", host.arch));
        v.push(cat2(host.os, "-x86_64"));
    }
    proof {
        assert(texts(v@) =~= prebuilt_names(host.os@, host.arch@));
    }
    v
}

/// Where the NDK's tools were found.
#[derive(Debug, Clone, Copy, PartialEq, Eq, Structural)]
pub enum Prebuilt {
    /// Under the candidate name of this index.
    Candidate(usize),
    /// Under the subdirectory of this index.
    Other(usize),
}

/// The index of the first `true` in `flags`, if there is one.
pub open spec fn first_set(flags: Seq<bool>, found: Option<usize>) -> bool {
    match found {
        Some(i) => i < flags.len() && flags[i as int] && forall|j: int| 0 <= j < i ==> !#[trigger] flags[j],
        None => forall|j: int| 0 <= j < flags.len() ==> !#[trigger] flags[j],
    }
}

/// Finds the first `true` in `flags`.
pub fn first_true(flags: &Vec<bool>) -> (r: Option<usize>)
    ensures
        first_set(flags@, r),
{
    let mut i: usize = 0;
    while i < flags.len()
        invariant
            i <= flags.len(),
            forall|j: int| 0 <= j < i ==> !#[trigger] flags@[j],
        decreases flags.len() - i,
    {
        if flags[i] {
            return Some(i);
        }
        i += 1;
    }
    None
}

/// Picks the directory of the NDK's tools. `expected` says of each
/// candidate name, in order, whether it holds a `bin` directory, and
/// `others` the same of every subdirectory there is. The first candidate
/// that does is taken; failing those, the first subdirectory that does.
pub fn find_prebuilt_bin_dir(expected: &Vec<bool>, others: &Vec<bool>, prebuilt_dir: &str) -> (r: Result<
    Prebuilt,
    CrossError,
>)
    ensures
        match r {
            Ok(Prebuilt::Candidate(i)) => first_set(expected@, Some(i)),
            Ok(Prebuilt::Other(i)) => first_set(expected@, None) && first_set(others@, Some(i)),
            Err(e) => first_set(expected@, None) && first_set(others@, None) && (e matches CrossError::CompilerNotFound {
                path,
            } && path@ == prebuilt_dir@),
        },
{
    match first_true(expected) {
        Some(i) => Ok(Prebuilt::Candidate(i)),
        None => match first_true(others) {
            Some(i) => Ok(Prebuilt::Other(i)),
            None => Err(CrossError::CompilerNotFound { path: String::from_str(prebuilt_dir) }),
        },
    }
}

/// The prefix of the NDK's compilers for an architecture, and the name of
/// its ABI.
pub open spec fn android_names(arch: Arch) -> Option<(Seq<char>, Seq<char>)> {
    match arch {
        Arch::Armv7 => Some(("armv7a-linux-androideabi24"@, "armeabi-v7a"@)),
        Arch::Aarch64 => Some(("aarch64-linux-android24"@, "arm64-v8a"@)),
        Arch::I686 => Some(("i686-linux-android24"@, "x86"@)),
        Arch::X86_64 => Some(("x86_64-linux-android24"@, "x86_64"@)),
        Arch::Riscv64 => Some(("riscv64-linux-android35"@, "riscv64"@)),
        _ => None,
    }
}

/// The NDK's names for an architecture, or the error for one without.
pub fn android_arch(arch: Arch) -> (r: Result<(&'static str, &'static str), CrossError>)
    ensures
        r.is_ok() == android_names(arch).is_some(),
        r.is_ok() ==> r.unwrap().0@ == android_names(arch).unwrap().0 && r.unwrap().1@
            == android_names(arch).unwrap().1,
        r.is_err() ==> (r.unwrap_err() matches CrossError::UnsupportedArchitecture { arch: a, os }
            && a@ == arch.name() && os@ == "android"@),
{
    match arch {
        Arch::Armv7 => Ok(("armv7a-linux-androideabi24", "armeabi-v7a")),
        Arch::Aarch64 => Ok(("aarch64-linux-android24", "arm64-v8a")),
        Arch::I686 => Ok(("i686-linux-android24", "x86")),
        Arch::X86_64 => Ok(("x86_64-linux-android24", "x86_64")),
        Arch::Riscv64 => Ok(("riscv64-linux-android35", "riscv64")),
        _ => Err(
            CrossError::UnsupportedArchitecture {
                arch: String::from_str(arch.as_str()),
                os: String::from_str("android"),
            },
        ),
    }
}

/// Name of the CMake file that wraps the NDK's own for an ABI.
pub fn wrapper_file_name(android_abi: &str) -> (r: String)
    ensures
        r@ == "android-"@ + android_abi@ + ".cmake"@,
{
    cat3("android-", android_abi, ".cmake")
}

/// Content of the CMake file that wraps the NDK's own. The two paths are in
/// the form CMake reads.
pub fn wrapper_content(android_abi: &str, ndk_dir: &str, ndk_toolchain_file: &str) -> (r: String)
    ensures
        r@ == "# Auto-generated Android toolchain wrapper\nset(ANDROID_ABI \""@ + android_abi@
            + "\")\nset(ANDROID_PLATFORM \"android-24\")\nset(ANDROID_NDK \""@ + ndk_dir@
            + "\")\ninclude(\""@ + ndk_toolchain_file@ + "\")\n"@,
{
    let a = cat5(
        "# Auto-generated Android toolchain wrapper\nset(ANDROID_ABI \"",
        android_abi,
        "\")\nset(ANDROID_PLATFORM \"android-24\")\nset(ANDROID_NDK \"",
        ndk_dir,
        "\")\ninclude(\"",
    );
    cat3(a.as_str(), ndk_toolchain_file, "\")\n")
}

/// What was found of the NDK on disk, as text.
#[derive(Debug, Clone)]
pub struct NdkLayout {
    /// Directory of the NDK's tools.
    pub bin_dir: String,
    /// The wrapping CMake file, in the form CMake reads.
    pub toolchain_file: String,
    /// The first of the NDK's library directories that holds libclang.
    pub libclang_dir: Option<String>,
}

/// The facts of the NDK before a generator is settled.
pub open spec fn ndk_env(clang_prefix: Seq<char>, l: NdkLayout, windows: bool) -> CrossEnvView {
    let ext = if windows {
        ".cmd"@
    } else {
        Seq::empty()
    };
    let vars = Map::<Seq<char>, Seq<char>>::empty().insert("CMAKE_TOOLCHAIN_FILE"@, l.toolchain_file@);
    CrossEnvView {
        cc: Some(clang_prefix + "-clang"@ + ext),
        cxx: Some(clang_prefix + "-clang++"@ + ext),
        ar: Some(
            "llvm-ar"@ + if windows {
                ".exe"@
            } else {
                Seq::empty()
            },
        ),
        linker: Some(clang_prefix + "-clang"@ + ext),
        path: seq![l.bin_dir@],
        extra_env: match l.libclang_dir {
            Some(d) => vars.insert("LIBCLANG_PATH"@, d@),
            None => vars,
        },
        ..empty_env()
    }
}

/// Whether `env` describes the NDK: its facts, with the generator settled
/// before the libclang directory is recorded.
pub open spec fn is_ndk_env(
    env: CrossEnvView,
    clang_prefix: Seq<char>,
    l: NdkLayout,
    asked: Option<Seq<char>>,
    windows: bool,
) -> bool {
    exists|mid: CrossEnvView|
        {
            &&& #[trigger] cmake_outcome(
                ndk_env(clang_prefix, (NdkLayout { libclang_dir: None, ..l }), windows),
                mid,
                asked,
                windows,
            )
            &&& env == match l.libclang_dir {
                Some(d) => CrossEnvView {
                    extra_env: mid.extra_env.insert("LIBCLANG_PATH"@, d@),
                    ..mid
                },
                None => mid,
            }
        }
}

/// Describes the NDK once it is in place.
pub fn configure(clang_prefix: &str, layout: &NdkLayout, args: &Args, host: &HostPlatform) -> (env:
    CrossEnv)
    ensures
        is_ndk_env(
            env@,
            clang_prefix@,
            *layout,
            opt_text(args.build.cmake_generator),
            host.os@ == "windows"@,
        ),
{
    proof {
        reveal_strlit("");
        assert(""@ =~= Seq::<char>::empty());
    }
    let windows = host.is_windows();
    let clang_ext = if windows {
        ".cmd"
    } else {
        ""
    };
    let ar_ext = if windows {
        ".exe"
    } else {
        ""
    };
    let mut env = CrossEnv::new();
    let clang = cat3(clang_prefix, "-clang", clang_ext);
    env.set_cc(clang.as_str());
    env.set_cxx(cat3(clang_prefix, "-clang++", clang_ext).as_str());
    env.set_ar(cat2("llvm-ar", ar_ext).as_str());
    env.set_linker(clang.as_str());
    env.add_path(layout.bin_dir.as_str());
    env.set_env("CMAKE_TOOLCHAIN_FILE", layout.toolchain_file.as_str());
    proof {
        let g = ndk_env(clang_prefix@, (NdkLayout { libclang_dir: None, ..*layout }), windows);
        assert(env@.path =~= g.path);
        assert(env@.extra_env =~= g.extra_env);
        assert(env@ == g);
    }
    setup_cmake(&mut env, as_opt_str(&args.build.cmake_generator), windows);
    let ghost mid = env@;
    if let Some(d) = as_opt_str(&layout.libclang_dir) {
        env.set_env("LIBCLANG_PATH", d);
    }
    proof {
        assert(cmake_outcome(
            ndk_env(clang_prefix@, (NdkLayout { libclang_dir: None, ..*layout }), windows),
            mid,
            opt_text(args.build.cmake_generator),
            windows,
        ));
    }
    env
}

/// Name of libclang on the host.
pub fn libclang_name(host: &HostPlatform) -> (r: &'static str)
    ensures
        r@ == if host.os@ == "windows"@ {
            "libclang.dll"@
        } else {
            "libclang.so"@
        },
{
    if host.is_windows() {
        "libclang.dll"
    } else {
        "libclang.so"
    }
}

} // verus!
