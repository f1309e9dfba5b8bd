//! The validated configuration that drives a run: the command, the targets
//! and the options of the build.

use vstd::prelude::*;
use vstd::string::*;
use crate::config::{
    expand_trimmed, freebsd_versions, glibc_versions, iphone_sdk_versions, is_registered,
    lists, macos_sdk_versions, comma_list, supported_freebsd_versions,
    supported_freebsd_versions_str, supported_glibc_versions, supported_glibc_versions_str,
    supported_iphone_sdk_versions, supported_iphone_sdk_versions_str,
    supported_macos_sdk_versions, supported_macos_sdk_versions_str, version_listed,
    DEFAULT_CROSS_DEPS_VERSION, DEFAULT_FREEBSD_VERSION, DEFAULT_GLIBC_VERSION,
    DEFAULT_IPHONE_SDK_VERSION, DEFAULT_MACOS_SDK_VERSION, DEFAULT_NDK_VERSION,
    DEFAULT_QEMU_VERSION,
};
use crate::error::CrossError;
use crate::text::{cat2, lowercase, pieces, split_list, text_eq, texts, to_lowercase, trim, trimmed};

verus! {

/// The build tool's command to run.
#[derive(Debug, Clone, Copy, PartialEq, Eq, Structural)]
pub enum Command {
    Build,
    Check,
    Run,
    Test,
    Bench,
}

impl Command {
    /// The name as it occurs in triples, folders and messages.
    pub open spec fn name(self) -> Seq<char> {
        match self {
            Command::Build => "build"@,
            Command::Check => "check"@,
            Command::Run => "run"@,
            Command::Test => "test"@,
            Command::Bench => "bench"@,
        }
    }

    /// The name as it occurs in triples, folders and messages.
    pub fn as_str(&self) -> (r: &'static str)
        ensures
            r@ == self.name(),
    {
        match self {
            Command::Build => "build",
            Command::Check => "check",
            Command::Run => "run",
            Command::Test => "test",
            Command::Bench => "bench",
        }
    }

    /// Whether the command executes what it built.
    pub open spec fn executes(self) -> bool {
        self == Command::Run || self == Command::Test || self == Command::Bench
    }

    /// Whether the command executes what it built.
    pub fn needs_runner(&self) -> (r: bool)
        ensures
            r == self.executes(),
    {
        matches!(self, Command::Run | Command::Test | Command::Bench)
    }
}

/// How the list of targets is printed.
#[derive(Debug, Clone, Copy, PartialEq, Eq, Structural)]
pub enum OutputFormat {
    Text,
    Json,
    Plain,
}

/// Options of the list of targets.
#[derive(Debug, Clone, Copy)]
pub struct TargetsArgs {
    pub format: OutputFormat,
}

/// The options of a build, as given by the user.
#[derive(Debug, Clone)]
pub struct BuildArgs {
    /// Build for the target triple(s).
    pub targets: Vec<String>,
    /// Space or comma separated list of features to activate.
    pub features: Option<String>,
    /// Do not activate the `default` feature of the selected packages.
    pub no_default_features: bool,
    /// Activate all available features of all selected packages.
    pub all_features: bool,
    /// Build artifacts in release mode, with optimizations.
    pub release: bool,
    /// Build artifacts with the specified profile.
    pub profile: String,
    /// Package to build (see `cargo help pkgid`).
    pub package: Option<String>,
    /// Build all members in the workspace.
    pub workspace: bool,
    /// Exclude packages from the build (must be used with --workspace).
    pub exclude: Option<String>,
    /// Build only the specified binary.
    pub bin_target: Option<String>,
    /// Build all binary targets.
    pub build_bins: bool,
    /// Build only this package's library.
    pub build_lib: bool,
    /// Build only the specified example.
    pub example_target: Option<String>,
    /// Build all example targets.
    pub build_examples: bool,
    /// Build only the specified test target.
    pub test_target: Option<String>,
    /// Build all test targets (includes unit tests from lib/bins).
    pub build_tests: bool,
    /// Build only the specified bench target.
    pub bench_target: Option<String>,
    /// Build all bench targets.
    pub build_benches: bool,
    /// Build all targets (equivalent to --lib --bins --tests --benches --examples).
    pub build_all_targets: bool,
    /// Path to Cargo.toml.
    pub manifest_path: Option<String>,
    /// Glibc version for Linux GNU targets.
    pub glibc_version: String,
    /// iPhone SDK version for iOS targets.
    pub iphone_sdk_version: String,
    /// Override iPhoneOS SDK path (skips version lookup).
    pub iphone_sdk_path: Option<String>,
    /// Override iPhoneSimulator SDK path.
    pub iphone_simulator_sdk_path: Option<String>,
    /// macOS SDK version for Darwin targets.
    pub macos_sdk_version: String,
    /// Override macOS SDK path (skips version lookup).
    pub macos_sdk_path: Option<String>,
    /// FreeBSD version for FreeBSD targets.
    pub freebsd_version: String,
    /// Android NDK version.
    pub ndk_version: String,
    /// QEMU version for user-mode emulation.
    pub qemu_version: String,
    /// Directory for cross-compiler toolchains.
    pub cross_compiler_dir: Option<String>,
    /// Directory for all generated artifacts.
    pub cargo_target_dir: Option<String>,
    /// Copy final artifacts to this directory (unstable).
    pub artifact_dir: Option<String>,
    /// Override C compiler path.
    pub cc: Option<String>,
    /// Override C++ compiler path.
    pub cxx: Option<String>,
    /// Override archiver (ar) path.
    pub ar: Option<String>,
    /// Override linker path.
    pub linker: Option<String>,
    /// Additional flags for C compilation.
    pub cflags: Option<String>,
    /// Additional flags for C++ compilation.
    pub cxxflags: Option<String>,
    /// Additional flags for linking.
    pub ldflags: Option<String>,
    /// C++ standard library to use.
    pub cxxstdlib: Option<String>,
    /// Additional RUSTFLAGS (can be repeated).
    pub rustflags: Vec<String>,
    /// Rustc wrapper program (e.g., sccache, cachepot).
    pub rustc_wrapper: Option<String>,
    /// Use the default system linker instead of cross-compiler.
    pub use_default_linker: bool,
    /// Enable sccache for compilation caching.
    pub enable_sccache: bool,
    /// Directory for sccache local disk cache.
    pub sccache_dir: Option<String>,
    /// Maximum cache size (e.g., '10G', '500M').
    pub sccache_cache_size: Option<String>,
    /// Idle timeout in seconds for sccache server.
    pub sccache_idle_timeout: Option<String>,
    /// Log level for sccache (error, warn, info, debug, trace).
    pub sccache_log: Option<String>,
    /// Run sccache without the daemon (single process mode).
    pub sccache_no_daemon: bool,
    /// Enable sccache direct mode (bypass preprocessor).
    pub sccache_direct: bool,
    /// Disable CC crate default compiler flags.
    pub cc_no_defaults: bool,
    /// Use shell-escaped flags for CC crate.
    pub cc_shell_escaped_flags: bool,
    /// Enable CC crate debug output.
    pub cc_enable_debug: bool,
    /// Link the C runtime statically.
    pub crt_static: Option<bool>,
    /// Abort immediately on panic (smaller binary, implies --build-std).
    pub panic_immediate_abort: bool,
    /// Debug formatting mode (full, shallow, none) - requires nightly.
    pub fmt_debug: Option<String>,
    /// Location detail mode - requires nightly.
    pub location_detail: Option<String>,
    /// Build the standard library from source.
    pub build_std: Option<String>,
    /// Features to enable when building std.
    pub build_std_features: Option<String>,
    /// Trim paths in compiler output for reproducible builds.
    pub cargo_trim_paths: Option<String>,
    /// Disable metadata embedding (requires nightly).
    pub no_embed_metadata: bool,
    /// Set RUSTC_BOOTSTRAP for using nightly features on stable.
    pub rustc_bootstrap: Option<String>,
    /// Use verbose output (-v, -vv for very verbose).
    pub verbose_level: u8,
    /// Do not print cargo log messages.
    pub quiet: bool,
    /// Diagnostic message format.
    pub message_format: Option<String>,
    /// Control when colored output is used.
    pub color: Option<String>,
    /// Output the build plan in JSON (requires nightly).
    pub build_plan: bool,
    /// Timing output formats (html, json).
    pub timings: Option<String>,
    /// Ignore `rust-version` specification in packages.
    pub ignore_rust_version: bool,
    /// Assert that Cargo.lock will remain unchanged.
    pub locked: bool,
    /// Run without accessing the network.
    pub offline: bool,
    /// Require Cargo.lock and cache are up to date (implies --locked --offline).
    pub frozen: bool,
    /// Path to Cargo.lock (unstable).
    pub lockfile_path: Option<String>,
    /// Number of parallel jobs to run.
    pub jobs: Option<String>,
    /// Build as many crates as possible, rather than aborting on first error.
    pub keep_going: bool,
    /// Output a future incompatibility report after the build.
    pub future_incompat_report: bool,
    /// Additional arguments to pass to cargo.
    pub cargo_args: Option<String>,
    /// Unstable (nightly-only) flags to Cargo.
    pub cargo_z_flags: Vec<String>,
    /// Override a Cargo configuration value.
    pub cargo_config: Vec<String>,
    /// Change to directory before doing anything.
    pub cargo_cwd: Option<String>,
    /// Rust toolchain to use (alternative to +toolchain syntax).
    pub toolchain_option: Option<String>,
    /// GitHub mirror URL for downloading toolchains.
    pub github_proxy: Option<String>,
    /// Clean the target directory before building.
    pub clean_cache: bool,
    /// Arguments passed through to cargo (after --).
    pub passthrough_args: Vec<String>,
    /// CMake generator to use.
    pub cmake_generator: Option<String>,
    /// Skip the toolchain setup.
    pub no_toolchain_setup: bool,
}

impl BuildArgs {
    /// The options of a build that names nothing: the release profile, the
    /// default version of every toolchain, and everything else unset.
    pub fn default_for_host() -> (r: Self)
        ensures
            r.targets@.len() == 0,
            r.features.is_none(),
            !r.no_default_features,
            !r.all_features,
            !r.release,
            r.profile@ == "release"@,
            r.package.is_none(),
            !r.workspace,
            r.exclude.is_none(),
            r.bin_target.is_none(),
            !r.build_bins,
            !r.build_lib,
            r.example_target.is_none(),
            !r.build_examples,
            r.test_target.is_none(),
            !r.build_tests,
            r.bench_target.is_none(),
            !r.build_benches,
            !r.build_all_targets,
            r.manifest_path.is_none(),
            r.glibc_version@ == DEFAULT_GLIBC_VERSION@,
            r.iphone_sdk_version@ == DEFAULT_IPHONE_SDK_VERSION@,
            r.iphone_sdk_path.is_none(),
            r.iphone_simulator_sdk_path.is_none(),
            r.macos_sdk_version@ == DEFAULT_MACOS_SDK_VERSION@,
            r.macos_sdk_path.is_none(),
            r.freebsd_version@ == DEFAULT_FREEBSD_VERSION@,
            r.ndk_version@ == DEFAULT_NDK_VERSION@,
            r.qemu_version@ == DEFAULT_QEMU_VERSION@,
            r.cross_compiler_dir.is_none(),
            r.cargo_target_dir.is_none(),
            r.artifact_dir.is_none(),
            r.cc.is_none(),
            r.cxx.is_none(),
            r.ar.is_none(),
            r.linker.is_none(),
            r.cflags.is_none(),
            r.cxxflags.is_none(),
            r.ldflags.is_none(),
            r.cxxstdlib.is_none(),
            r.rustflags@.len() == 0,
            r.rustc_wrapper.is_none(),
            !r.use_default_linker,
            !r.enable_sccache,
            r.sccache_dir.is_none(),
            r.sccache_cache_size.is_none(),
            r.sccache_idle_timeout.is_none(),
            r.sccache_log.is_none(),
            !r.sccache_no_daemon,
            !r.sccache_direct,
            !r.cc_no_defaults,
            !r.cc_shell_escaped_flags,
            !r.cc_enable_debug,
            r.crt_static.is_none(),
            !r.panic_immediate_abort,
            r.fmt_debug.is_none(),
            r.location_detail.is_none(),
            r.build_std.is_none(),
            r.build_std_features.is_none(),
            r.cargo_trim_paths.is_none(),
            !r.no_embed_metadata,
            r.rustc_bootstrap.is_none(),
            r.verbose_level == 0,
            !r.quiet,
            r.message_format.is_none(),
            r.color.is_none(),
            !r.build_plan,
            r.timings.is_none(),
            !r.ignore_rust_version,
            !r.locked,
            !r.offline,
            !r.frozen,
            r.lockfile_path.is_none(),
            r.jobs.is_none(),
            !r.keep_going,
            !r.future_incompat_report,
            r.cargo_args.is_none(),
            r.cargo_z_flags@.len() == 0,
            r.cargo_config@.len() == 0,
            r.cargo_cwd.is_none(),
            r.toolchain_option.is_none(),
            r.github_proxy.is_none(),
            !r.clean_cache,
            r.passthrough_args@.len() == 0,
            r.cmake_generator.is_none(),
            !r.no_toolchain_setup,
    {
        BuildArgs {
            targets: Vec::new(),
            features: None,
            no_default_features: false,
            all_features: false,
            release: false,
            profile: String::from_str("release"),
            package: None,
            workspace: false,
            exclude: None,
            bin_target: None,
            build_bins: false,
            build_lib: false,
            example_target: None,
            build_examples: false,
            test_target: None,
            build_tests: false,
            bench_target: None,
            build_benches: false,
            build_all_targets: false,
            manifest_path: None,
            glibc_version: String::from_str(DEFAULT_GLIBC_VERSION),
            iphone_sdk_version: String::from_str(DEFAULT_IPHONE_SDK_VERSION),
            iphone_sdk_path: None,
            iphone_simulator_sdk_path: None,
            macos_sdk_version: String::from_str(DEFAULT_MACOS_SDK_VERSION),
            macos_sdk_path: None,
            freebsd_version: String::from_str(DEFAULT_FREEBSD_VERSION),
            ndk_version: String::from_str(DEFAULT_NDK_VERSION),
            qemu_version: String::from_str(DEFAULT_QEMU_VERSION),
            cross_compiler_dir: None,
            cargo_target_dir: None,
            artifact_dir: None,
            cc: None,
            cxx: None,
            ar: None,
            linker: None,
            cflags: None,
            cxxflags: None,
            ldflags: None,
            cxxstdlib: None,
            rustflags: Vec::new(),
            rustc_wrapper: None,
            use_default_linker: false,
            enable_sccache: false,
            sccache_dir: None,
            sccache_cache_size: None,
            sccache_idle_timeout: None,
            sccache_log: None,
            sccache_no_daemon: false,
            sccache_direct: false,
            cc_no_defaults: false,
            cc_shell_escaped_flags: false,
            cc_enable_debug: false,
            crt_static: None,
            panic_immediate_abort: false,
            fmt_debug: None,
            location_detail: None,
            build_std: None,
            build_std_features: None,
            cargo_trim_paths: None,
            no_embed_metadata: false,
            rustc_bootstrap: None,
            verbose_level: 0,
            quiet: false,
            message_format: None,
            color: None,
            build_plan: false,
            timings: None,
            ignore_rust_version: false,
            locked: false,
            offline: false,
            frozen: false,
            lockfile_path: None,
            jobs: None,
            keep_going: false,
            future_incompat_report: false,
            cargo_args: None,
            cargo_z_flags: Vec::new(),
            cargo_config: Vec::new(),
            cargo_cwd: None,
            toolchain_option: None,
            github_proxy: None,
            clean_cache: false,
            passthrough_args: Vec::new(),
            cmake_generator: None,
            no_toolchain_setup: false,
        }
    }
}

/// The validated configuration of a run.
#[derive(Debug, Clone)]
pub struct Args {
    /// Toolchain of the build tool to use.
    pub toolchain: Option<String>,
    /// Command to run.
    pub command: Command,
    /// The targets, after expansion of patterns.
    pub targets: Vec<String>,
    /// Build for the host without naming a target.
    pub no_cargo_target: bool,
    /// Version of the toolchain downloads.
    pub cross_deps_version: String,
    /// Directory that holds the downloaded toolchains.
    pub cross_compiler_dir: String,
    /// The options of the build.
    pub build: BuildArgs,
}

/// The truth value that a lowercase word stands for.
pub open spec fn truth_of(lower: Seq<char>) -> Option<bool> {
    if lower == "true"@ || lower == "1"@ || lower == "yes"@ {
        Some(true)
    } else if lower == "false"@ || lower == "0"@ || lower == "no"@ {
        Some(false)
    } else {
        None
    }
}

/// The truth value that a word in lower case stands for.
pub fn truth_of_lowercase(lower: &str) -> (r: Option<bool>)
    ensures
        r == truth_of(lower@),
{
    if text_eq(lower, "true") || text_eq(lower, "1") || text_eq(lower, "yes") {
        Some(true)
    } else if text_eq(lower, "false") || text_eq(lower, "0") || text_eq(lower, "no") {
        Some(false)
    } else {
        None
    }
}

/// Reads a truth value, whatever its case; any other word is an error that
/// quotes it.
pub fn parse_optional_bool(s: &str) -> (r: Result<bool, String>)
    ensures
        match truth_of(lowercase(s@)) {
            Some(b) => r == Ok::<bool, String>(b),
            None => r.is_err() && r.unwrap_err()@ == "invalid bool value: "@ + s@,
        },
{
    let lower = to_lowercase(s);
    match truth_of_lowercase(lower.as_str()) {
        Some(b) => Ok(b),
        None => Err(cat2("invalid bool value: ", s)),
    }
}

/// Reads the crates of the standard library to build from source: a word
/// for "no" is refused, a word for "yes" stands for the usual crates, and any
/// other is the list itself.
pub fn parse_build_std(s: &str) -> (r: Result<String, String>)
    ensures
        s@ == "false"@ || s@ == "0"@ ==> r.is_err() && r.unwrap_err()@ == "build-std disabled"@,
        !(s@ == "false"@ || s@ == "0"@) ==> r.is_ok() && r.unwrap()@ == if s@ == "true"@ || s@
            == "1"@ {
            "true"@
        } else {
            s@
        },
{
    if text_eq(s, "false") || text_eq(s, "0") {
        Err(String::from_str("build-std disabled"))
    } else if text_eq(s, "true") || text_eq(s, "1") {
        Ok(String::from_str("true"))
    } else {
        Ok(String::from_str(s))
    }
}

/// Which of the versions asked for has no toolchain, in the order in which
/// they are looked at: glibc; on any host but Darwin, the iPhone SDK and the
/// macOS SDK; FreeBSD.
#[derive(Debug, Clone, Copy, PartialEq, Eq, Structural)]
pub enum VersionFault {
    Glibc,
    IphoneSdk,
    MacosSdk,
    Freebsd,
}

/// The first version asked for that has no toolchain, if any.
pub open spec fn version_fault(b: BuildArgs, host_is_darwin: bool) -> Option<VersionFault> {
    if !lists(glibc_versions(), b.glibc_version@) {
        Some(VersionFault::Glibc)
    } else if !host_is_darwin && !lists(iphone_sdk_versions(), b.iphone_sdk_version@) {
        Some(VersionFault::IphoneSdk)
    } else if !host_is_darwin && !lists(macos_sdk_versions(), b.macos_sdk_version@) {
        Some(VersionFault::MacosSdk)
    } else if !lists(freebsd_versions(), b.freebsd_version@) {
        Some(VersionFault::Freebsd)
    } else {
        None
    }
}

/// Whether `e` reports the fault `f` of the versions in `b`: it names the
/// version asked for and lists those there are.
pub open spec fn reports(e: CrossError, f: VersionFault, b: BuildArgs) -> bool {
    match f {
        VersionFault::Glibc => e matches CrossError::UnsupportedGlibcVersion { version, supported }
            && version@ == b.glibc_version@ && supported@ == comma_list(glibc_versions()),
        VersionFault::IphoneSdk => e matches CrossError::UnsupportedIphoneSdkVersion {
            version,
            supported,
        } && version@ == b.iphone_sdk_version@ && supported@ == comma_list(iphone_sdk_versions()),
        VersionFault::MacosSdk => e matches CrossError::UnsupportedMacosSdkVersion {
            version,
            supported,
        } && version@ == b.macos_sdk_version@ && supported@ == comma_list(macos_sdk_versions()),
        VersionFault::Freebsd => e matches CrossError::UnsupportedFreebsdVersion { version, supported }
            && version@ == b.freebsd_version@ && supported@ == comma_list(freebsd_versions()),
    }
}

/// Checks that a toolchain exists for every version asked for.
pub fn validate_versions(args: &Args, host_is_darwin: bool) -> (r: Result<(), CrossError>)
    ensures
        r.is_ok() == version_fault(args.build, host_is_darwin).is_none(),
        r.is_err() ==> reports(
            r.unwrap_err(),
            version_fault(args.build, host_is_darwin).unwrap(),
            args.build,
        ),
{
    if !version_listed(&supported_glibc_versions(), args.build.glibc_version.as_str()) {
        return Err(
            CrossError::UnsupportedGlibcVersion {
                version: args.build.glibc_version.clone(),
                supported: supported_glibc_versions_str(),
            },
        );
    }
    if !host_is_darwin && !version_listed(
        &supported_iphone_sdk_versions(),
        args.build.iphone_sdk_version.as_str(),
    ) {
        return Err(
            CrossError::UnsupportedIphoneSdkVersion {
                version: args.build.iphone_sdk_version.clone(),
                supported: supported_iphone_sdk_versions_str(),
            },
        );
    }
    if !host_is_darwin && !version_listed(
        &supported_macos_sdk_versions(),
        args.build.macos_sdk_version.as_str(),
    ) {
        return Err(
            CrossError::UnsupportedMacosSdkVersion {
                version: args.build.macos_sdk_version.clone(),
                supported: supported_macos_sdk_versions_str(),
            },
        );
    }
    if !version_listed(&supported_freebsd_versions(), args.build.freebsd_version.as_str()) {
        return Err(
            CrossError::UnsupportedFreebsdVersion {
                version: args.build.freebsd_version.clone(),
                supported: supported_freebsd_versions_str(),
            },
        );
    }
    Ok(())
}

/// Nothing occurs twice in `v`.
pub open spec fn distinct(v: Seq<Seq<char>>) -> bool {
    forall|i: int, j: int| 0 <= i < j < v.len() ==> #[trigger] v[i] != #[trigger] v[j]
}

/// `acc` with `t` at its end, unless `t` is in it already.
pub open spec fn with_new(acc: Seq<Seq<char>>, t: Seq<char>) -> Seq<Seq<char>> {
    if acc.contains(t) {
        acc
    } else {
        acc.push(t)
    }
}

/// `acc` with each of `group` added in order, unless it is there already.
pub open spec fn merged(acc: Seq<Seq<char>>, group: Seq<Seq<char>>) -> Seq<Seq<char>>
    decreases group.len(),
{
    if group.len() == 0 {
        acc
    } else {
        with_new(merged(acc, group.drop_last()), group.last())
    }
}

/// The items of one entry of a list of targets: its pieces, trimmed, without
/// the empty ones.
pub open spec fn entry_items(ps: Seq<Seq<char>>) -> Seq<Seq<char>>
    decreases ps.len(),
{
    if ps.len() == 0 {
        Seq::empty()
    } else if trimmed(ps.last()).len() > 0 {
        entry_items(ps.drop_last()).push(trimmed(ps.last()))
    } else {
        entry_items(ps.drop_last())
    }
}

/// The items of a list of targets, in order.
pub open spec fn list_items(targets: Seq<String>) -> Seq<Seq<char>>
    decreases targets.len(),
{
    if targets.len() == 0 {
        Seq::empty()
    } else {
        list_items(targets.drop_last()) + entry_items(pieces(targets.last()@))
    }
}

/// Each of `g` comes strictly before its successor.
pub open spec fn ascending(g: Seq<Seq<char>>) -> bool {
    forall|j: int| 0 <= j < g.len() - 1 ==> crate::text::lex_lt(#[trigger] g[j], g[j + 1])
}

/// Whether the item `p` selects the known target `t`.
pub open spec fn picks(p: Seq<char>, t: Seq<char>) -> bool {
    is_registered(t) && crate::config::selects(p, t)
}

/// Whether `g` is what the item `p` stands for: the known targets that it
/// selects, in ascending order; or, where it selects none, the item itself.
pub open spec fn stands_for(p: Seq<char>, g: Seq<Seq<char>>) -> bool {
    &&& g.len() > 0
    &&& g == seq![p] || (ascending(g) && forall|j: int| 0 <= j < g.len() ==> is_registered(#[trigger] g[j]))
    &&& crate::config::decided(p) ==> forall|t: Seq<char>|
        if g == seq![p] {
            t != p ==> !picks(p, t)
        } else {
            g.contains(t) <==> picks(p, t)
        }
}

/// Whether `r` is what the items come to: what each stands for, merged in
/// order.
pub open spec fn expands_to(items: Seq<Seq<char>>, r: Seq<Seq<char>>) -> bool
    decreases items.len(),
{
    if items.len() == 0 {
        r == Seq::<Seq<char>>::empty()
    } else {
        exists|prev: Seq<Seq<char>>, g: Seq<Seq<char>>|
            #![trigger merged(prev, g)]
            expands_to(items.drop_last(), prev) && stands_for(items.last(), g) && r == merged(prev, g)
    }
}

fn contains_text_of(v: &Vec<String>, t: &str) -> (r: bool)
    ensures
        r == texts(v@).contains(t@),
{
    let mut i: usize = 0;
    while i < v.len()
        invariant
            i <= v.len(),
            forall|j: int| 0 <= j < i ==> texts(v@)[j] != t@,
        decreases v.len() - i,
    {
        if text_eq(v[i].as_str(), t) {
            proof {
                assert(texts(v@)[i as int] == t@);
            }
            return true;
        }
        i += 1;
    }
    false
}

/// Adds `t` at the end unless it is there already.
pub fn push_new(v: &mut Vec<String>, t: &str)
    requires
        distinct(texts(old(v)@)),
    ensures
        distinct(texts(final(v)@)),
        texts(final(v)@) == with_new(texts(old(v)@), t@),
{
    if !contains_text_of(v, t) {
        v.push(String::from_str(t));
        proof {
            assert(texts(v@) =~= texts(old(v)@).push(t@));
        }
    }
}

/// Adds to `result` what the item `part`, trimmed already, stands for.
pub fn expand_item(result: &mut Vec<String>, part: &str)
    requires
        distinct(texts(old(result)@)),
    ensures
        distinct(texts(final(result)@)),
        exists|g: Seq<Seq<char>>|
            stands_for(part@, g) && texts(final(result)@) == #[trigger] merged(texts(old(result)@), g),
{
    let expanded = expand_trimmed(part);
    if expanded.len() == 0 {
        push_new(result, part);
        proof {
            let g = seq![part@];
            assert(g.drop_last() =~= Seq::<Seq<char>>::empty());
            assert(merged(texts(old(result)@), g.drop_last()) == texts(old(result)@));
            assert(merged(texts(old(result)@), g) == with_new(texts(old(result)@), part@));
            if crate::config::decided(part@) {
                assert forall|t: Seq<char>| !picks(part@, t) by {
                    if picks(part@, t) {
                        assert(crate::config::lists(expanded@, t));
                    }
                }
            }
            assert(stands_for(part@, g));
        }
    } else {
        let ghost g = Seq::new(expanded@.len(), |j: int| expanded@[j]@);
        let mut j: usize = 0;
        while j < expanded.len()
            invariant
                j <= expanded.len(),
                g == Seq::new(expanded@.len(), |j: int| expanded@[j]@),
                distinct(texts(result@)),
                texts(result@) == merged(texts(old(result)@), g.subrange(0, j as int)),
            decreases expanded.len() - j,
        {
            proof {
                assert(g.subrange(0, j + 1).drop_last() =~= g.subrange(0, j as int));
            }
            push_new(result, expanded[j]);
            j += 1;
        }
        proof {
            assert(g.subrange(0, expanded@.len() as int) =~= g);
            assert forall|k: int| 0 <= k < g.len() implies is_registered(#[trigger] g[k]) by {
                assert(crate::config::lists(expanded@, expanded@[k]@));
            }
            assert forall|t: Seq<char>| g.contains(t) <==> crate::config::lists(expanded@, t) by {
                if g.contains(t) {
                    let k = choose|k: int| 0 <= k < g.len() && g[k] == t;
                    assert(expanded@[k]@ == t);
                }
                if crate::config::lists(expanded@, t) {
                    let k = choose|k: int| 0 <= k < expanded@.len() && (#[trigger] expanded@[k])@ == t;
                    assert(g[k] == t);
                }
            }
            assert(ascending(g)) by {
                assert forall|k: int| 0 <= k < g.len() - 1 implies crate::text::lex_lt(
                    #[trigger] g[k],
                    g[k + 1],
                ) by {
                    assert(crate::text::lex_lt(expanded@[k]@, expanded@[k + 1]@));
                }
            }
            assert(stands_for(part@, g));
        }
    }
}

/// Expands a list of target patterns. Each entry may itself be a list, with
/// commas or line breaks between its items; an item is trimmed, and an empty
/// one is passed over. An item that selects known targets stands for them, in
/// ascending order; any other item stands for itself, so that a target
/// unknown to the table can still be named. Nothing is taken twice, and what
/// was first seen stays first.
pub fn expand_target_list(targets: &Vec<String>) -> (r: Vec<String>)
    ensures
        distinct(texts(r@)),
        expands_to(list_items(targets@), texts(r@)),
{
    let mut result: Vec<String> = Vec::new();
    let mut i: usize = 0;
    proof {
        assert(targets@.subrange(0, 0) =~= Seq::<String>::empty());
        assert(texts(result@) =~= Seq::<Seq<char>>::empty());
    }
    while i < targets.len()
        invariant
            i <= targets.len(),
            distinct(texts(result@)),
            expands_to(list_items(targets@.subrange(0, i as int)), texts(result@)),
        decreases targets.len() - i,
    {
        let parts = split_list(targets[i].as_str());
        let ghost done = list_items(targets@.subrange(0, i as int));
        let mut k: usize = 0;
        proof {
            assert(texts(parts@).subrange(0, 0) =~= Seq::<Seq<char>>::empty());
            assert(done + entry_items(texts(parts@).subrange(0, 0)) =~= done);
        }
        while k < parts.len()
            invariant
                i < targets.len(),
                k <= parts.len(),
                texts(parts@) == pieces(targets@[i as int]@),
                distinct(texts(result@)),
                expands_to(done + entry_items(texts(parts@).subrange(0, k as int)), texts(result@)),
            decreases parts.len() - k,
        {
            let part = trim(parts[k].as_str());
            let ghost before = entry_items(texts(parts@).subrange(0, k as int));
            let ghost prev = texts(result@);
            proof {
                assert(texts(parts@).subrange(0, k + 1).drop_last() =~= texts(parts@).subrange(
                    0,
                    k as int,
                ));
                assert(texts(parts@).subrange(0, k + 1).last() == parts@[k as int]@);
            }
            if part.unicode_len() > 0 {
                expand_item(&mut result, part);
                proof {
                    let items = done + before.push(part@);
                    assert(items.drop_last() =~= done + before);
                    assert(items.last() == part@);
                    let g = choose|g: Seq<Seq<char>>|
                        stands_for(part@, g) && texts(result@) == #[trigger] merged(prev, g);
                    assert(expands_to(items.drop_last(), prev) && stands_for(items.last(), g)
                        && texts(result@) == merged(prev, g));
                    assert(expands_to(items, texts(result@)));
                }
            }
            k += 1;
        }
        proof {
            assert(texts(parts@).subrange(0, parts@.len() as int) =~= texts(parts@));
            assert(targets@.subrange(0, i + 1).drop_last() =~= targets@.subrange(0, i as int));
            assert(targets@.subrange(0, i + 1).last() == targets@[i as int]);
        }
        i += 1;
    }
    proof {
        assert(targets@.subrange(0, targets@.len() as int) =~= targets@);
    }
    result
}

impl Args {
    /// The configuration that the options of a build come to: the targets
    /// expanded, the toolchains' release at its default, and the cache under
    /// `default_cache_dir` unless the options name another.
    pub fn from_build_args(b: BuildArgs, command: Command, toolchain: Option<String>, default_cache_dir: &str) -> (r:
        Self)
        ensures
            r.toolchain == toolchain,
            r.command == command,
            !r.no_cargo_target,
            r.cross_deps_version@ == DEFAULT_CROSS_DEPS_VERSION@,
            r.cross_compiler_dir@ == match b.cross_compiler_dir {
                Some(d) => d@,
                None => default_cache_dir@,
            },
            r.build == b,
            distinct(texts(r.targets@)),
            expands_to(list_items(b.targets@), texts(r.targets@)),
    {
        let cross_compiler_dir = match &b.cross_compiler_dir {
            Some(d) => d.clone(),
            None => String::from_str(default_cache_dir),
        };
        let targets = expand_target_list(&b.targets);
        Args {
            toolchain,
            command,
            targets,
            no_cargo_target: false,
            cross_deps_version: String::from_str(DEFAULT_CROSS_DEPS_VERSION),
            cross_compiler_dir,
            build: b,
        }
    }
}

/// Whether `r` is `b` with the release switch applied to the profile.
pub open spec fn released(b: BuildArgs, r: BuildArgs) -> bool {
    &&& r == (BuildArgs { profile: r.profile, ..b })
    &&& r.profile@ == if b.release {
        "release"@
    } else {
        b.profile@
    }
}

/// Whether `a` holds the options `b` of a run: the release switch applied,
/// and the host's own linker chosen where the run is for the host.
pub open spec fn same_options(a: BuildArgs, b: BuildArgs, for_host: bool) -> bool {
    if for_host {
        exists|m: BuildArgs| #[trigger] released(b, m) && a == (BuildArgs { use_default_linker: true, ..m })
    } else {
        released(b, a)
    }
}

/// Whether `a` is the configuration that the options `build_args` come to:
/// the release switch sets the profile; a toolchain given in front of the
/// command wins over the option; the targets are the expansion of those
/// named, or, where none is, the host, with its own linker and without
/// naming a target to the build tool.
pub open spec fn finalized(
    build_args: BuildArgs,
    command: Command,
    toolchain: Option<String>,
    host_triple: Seq<char>,
    default_cache_dir: Seq<char>,
    a: Args,
) -> bool {
    &&& a.command == command
    &&& a.toolchain == if toolchain.is_some() {
        toolchain
    } else {
        build_args.toolchain_option
    }
    &&& same_options(a.build, build_args, a.no_cargo_target)
    &&& a.cross_deps_version@ == DEFAULT_CROSS_DEPS_VERSION@
    &&& a.cross_compiler_dir@ == match build_args.cross_compiler_dir {
        Some(d) => d@,
        None => default_cache_dir,
    }
    &&& distinct(texts(a.targets@))
    &&& a.no_cargo_target ==> expands_to(list_items(build_args.targets@), Seq::empty())
        && texts(a.targets@) == seq![host_triple]
    &&& !a.no_cargo_target ==> a.targets@.len() > 0 && expands_to(
        list_items(build_args.targets@),
        texts(a.targets@),
    )
}

/// Turns the options of a build into the configuration of a run, or the
/// error for a version without a toolchain. The release switch sets the
/// profile; a toolchain given in front of the command wins over the option;
/// where no target is named, the build is for the host, with its own linker
/// and without naming a target to the build tool.
pub fn finalize_args(
    build_args: BuildArgs,
    command: Command,
    toolchain: Option<String>,
    host_triple: &str,
    host_is_darwin: bool,
    default_cache_dir: &str,
) -> (r: Result<Args, CrossError>)
    ensures
        r.is_ok() == version_fault(build_args, host_is_darwin).is_none(),
        r.is_err() ==> reports(
            r.unwrap_err(),
            version_fault(build_args, host_is_darwin).unwrap(),
            build_args,
        ),
        r.is_ok() ==> finalized(
            build_args,
            command,
            toolchain,
            host_triple@,
            default_cache_dir@,
            r.unwrap(),
        ),
{
    let b = apply_release(build_args);
    let final_toolchain = match toolchain {
        Some(t) => Some(t),
        None => match &b.toolchain_option {
            Some(t) => Some(t.clone()),
            None => None,
        },
    };
    let args = Args::from_build_args(b, command, final_toolchain, default_cache_dir);
    match validate_versions(&args, host_is_darwin) {
        Err(e) => {
            return Err(e);
        },
        Ok(_) => {},
    }
    if args.targets.len() == 0 {
        let ghost m = args.build;
        proof {
            assert(texts(args.targets@) =~= Seq::<Seq<char>>::empty());
        }
        let r = default_to_host(args, host_triple);
        proof {
            assert(released(build_args, m));
            assert(texts(r.targets@) =~= seq![host_triple@]);
        }
        Ok(r)
    } else {
        Ok(args)
    }
}

/// Sets the release profile where the release switch is on.
pub fn apply_release(b: BuildArgs) -> (r: BuildArgs)
    ensures
        released(b, r),
        version_fault(r, true) == version_fault(b, true),
        version_fault(r, false) == version_fault(b, false),
        forall|e: CrossError, f: VersionFault| reports(e, f, r) == reports(e, f, b),
{
    if b.release {
        BuildArgs { profile: String::from_str("release"), ..b }
    } else {
        b
    }
}

/// Makes the host the one target of a run that names none.
pub fn default_to_host(args: Args, host_triple: &str) -> (r: Args)
    requires
        args.targets@.len() == 0,
    ensures
        r.targets@.len() == 1,
        r.targets@[0]@ == host_triple@,
        r.no_cargo_target,
        r.build == (BuildArgs { use_default_linker: true, ..args.build }),
        r.toolchain == args.toolchain,
        r.command == args.command,
        r.cross_deps_version == args.cross_deps_version,
        r.cross_compiler_dir == args.cross_compiler_dir,
{
    let mut targets = args.targets;
    targets.push(String::from_str(host_triple));
    Args {
        toolchain: args.toolchain,
        command: args.command,
        targets,
        no_cargo_target: true,
        cross_deps_version: args.cross_deps_version,
        cross_compiler_dir: args.cross_compiler_dir,
        build: BuildArgs { use_default_linker: true, ..args.build },
    }
}

/// A parsed command line.
#[derive(Debug, Clone)]
pub struct Cli {
    pub command: CliCommand,
}

/// The commands of the tool.
#[derive(Debug, Clone)]
pub enum CliCommand {
    Build(BuildArgs),
    Check(BuildArgs),
    Run(BuildArgs),
    Test(BuildArgs),
    Bench(BuildArgs),
    Targets(TargetsArgs),
    Version,
}

/// What a command line asks for.
#[derive(Debug, Clone)]
pub enum ParseResult {
    /// Run a command of the build tool.
    Build(Box<Args>),
    /// Show the known targets.
    ShowTargets(OutputFormat),
    /// Show the version.
    ShowVersion,
}

/// The build tool's command and the options that a command of the tool
/// carries, where it is one that builds.
pub open spec fn build_of(c: CliCommand) -> Option<(Command, BuildArgs)> {
    match c {
        CliCommand::Build(b) => Some((Command::Build, b)),
        CliCommand::Check(b) => Some((Command::Check, b)),
        CliCommand::Run(b) => Some((Command::Run, b)),
        CliCommand::Test(b) => Some((Command::Test, b)),
        CliCommand::Bench(b) => Some((Command::Bench, b)),
        _ => None,
    }
}

/// Turns a parsed command line into what it asks for.
pub fn process_cli(
    cli: Cli,
    toolchain: Option<String>,
    host_triple: &str,
    host_is_darwin: bool,
    default_cache_dir: &str,
) -> (r: Result<ParseResult, CrossError>)
    ensures
        match build_of(cli.command) {
            Some((command, b)) => {
                &&& r.is_ok() == version_fault(b, host_is_darwin).is_none()
                &&& r.is_err() ==> reports(r.unwrap_err(), version_fault(b, host_is_darwin).unwrap(), b)
                &&& r.is_ok() ==> (r.unwrap() matches ParseResult::Build(a) && finalized(
                    b,
                    command,
                    toolchain,
                    host_triple@,
                    default_cache_dir@,
                    *a,
                ))
            },
            None => match cli.command {
                CliCommand::Targets(t) => r.is_ok() && (r.unwrap() matches ParseResult::ShowTargets(f)
                    && f == t.format),
                _ => r.is_ok() && r.unwrap() is ShowVersion,
            },
        },
{
    let (command, b) = match cli.command {
        CliCommand::Build(b) => (Command::Build, b),
        CliCommand::Check(b) => (Command::Check, b),
        CliCommand::Run(b) => (Command::Run, b),
        CliCommand::Test(b) => (Command::Test, b),
        CliCommand::Bench(b) => (Command::Bench, b),
        CliCommand::Targets(t) => {
            return Ok(ParseResult::ShowTargets(t.format));
        },
        CliCommand::Version => {
            return Ok(ParseResult::ShowVersion);
        },
    };
    match finalize_args(b, command, toolchain, host_triple, host_is_darwin, default_cache_dir) {
        Ok(args) => Ok(ParseResult::Build(Box::new(args))),
        Err(e) => Err(e),
    }
}

} // verus!
