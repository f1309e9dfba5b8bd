use cargo_cross::cargo::{
    build_cargo_command, apply_tool_overrides, preconfigured, add_compiler_flags_env, add_host_config_env, add_sccache_env, add_wrapper_env, ambient_var,
    build_cargo_env, build_rustflags, Ambient,
};
use cargo_cross::cli::{Args, BuildArgs, Command};
use cargo_cross::config::HostPlatform;
use cargo_cross::env::{get_build_std_config, set_gcc_lib_paths, setup_sysroot_env, CrossEnv};
use cargo_cross::envmap::EnvMap;

fn host(os: &'static str) -> HostPlatform {
    HostPlatform { os, arch: "x86_64", triple: "x86_64-unknown-linux-gnu".to_string() }
}

fn args() -> Args {
    Args::from_build_args(BuildArgs::default_for_host(), Command::Build, None, "/cache")
}

fn no_ambient() -> Ambient {
    Ambient { path: String::new(), library_path: String::new(), rustflags: String::new(), vars: vec![] }
}

fn value(m: &EnvMap, k: &str) -> Option<String> {
    m.get(k).cloned()
}

#[test]
fn compiler_is_emitted_under_both_names() {
    let mut env = CrossEnv::new();
    env.set_cc("aarch64-linux-gnu-gcc");
    let vars = env.build_env("aarch64-unknown-linux-gnu", &host("linux"), "/usr/bin", "");
    assert_eq!(value(&vars, "CC"), Some("aarch64-linux-gnu-gcc".to_string()));
    assert_eq!(value(&vars, "CC_aarch64_unknown_linux_gnu"), Some("aarch64-linux-gnu-gcc".to_string()));
    assert_eq!(value(&vars, "CXX"), None);
    assert_eq!(value(&vars, "PATH"), None);
}

#[test]
fn full_environment_is_composed() {
    let mut env = CrossEnv::new();
    env.set_cc("cc1");
    env.set_cxx("cxx1");
    env.set_ar("ar1");
    env.set_linker("ld1");
    env.set_runner("qemu-aarch64 -L /sys");
    env.add_path("/a/bin");
    env.add_path("/b/bin");
    env.set_sdkroot("/sdk");
    env.add_library_path("/l1");
    env.add_library_path("/l2");
    env.add_cflag("-O2");
    env.add_cflag("-g");
    env.add_cxxflag("-std=c++17");
    env.add_ldflag("-fuse-ld=x");
    env.set_build_std("core");
    env.set_env("EXTRA", "1");
    let vars = env.build_env("aarch64-unknown-linux-gnu", &host("linux"), "/usr/bin", "/old");
    assert_eq!(value(&vars, "AR_aarch64_unknown_linux_gnu"), Some("ar1".to_string()));
    assert_eq!(value(&vars, "AR"), Some("ar1".to_string()));
    assert_eq!(value(&vars, "CXX_aarch64_unknown_linux_gnu"), Some("cxx1".to_string()));
    assert_eq!(value(&vars, "CARGO_TARGET_AARCH64_UNKNOWN_LINUX_GNU_LINKER"), Some("ld1".to_string()));
    assert_eq!(
        value(&vars, "CARGO_TARGET_AARCH64_UNKNOWN_LINUX_GNU_RUNNER"),
        Some("qemu-aarch64 -L /sys".to_string())
    );
    assert_eq!(value(&vars, "PATH"), Some("/a/bin:/b/bin:/usr/bin".to_string()));
    assert_eq!(value(&vars, "SDKROOT"), Some("/sdk".to_string()));
    assert_eq!(value(&vars, "LD_LIBRARY_PATH"), Some("/l1:/l2:/old".to_string()));
    assert_eq!(value(&vars, "DYLD_LIBRARY_PATH"), None);
    assert_eq!(value(&vars, "CFLAGS"), Some("-O2 -g".to_string()));
    assert_eq!(value(&vars, "CFLAGS_aarch64_unknown_linux_gnu"), Some("-O2 -g".to_string()));
    assert_eq!(value(&vars, "CXXFLAGS"), Some("-std=c++17".to_string()));
    assert_eq!(value(&vars, "LDFLAGS_aarch64_unknown_linux_gnu"), Some("-fuse-ld=x".to_string()));
    assert_eq!(value(&vars, "EXTRA"), Some("1".to_string()));
    assert_eq!(env.build_std, Some("core".to_string()));
}

#[test]
fn library_path_by_host() {
    let mut env = CrossEnv::new();
    env.add_library_path("/l1");
    let vars = env.build_env("x86_64-apple-darwin", &host("darwin"), "", "");
    assert_eq!(value(&vars, "DYLD_LIBRARY_PATH"), Some("/l1".to_string()));
    assert_eq!(value(&vars, "LD_LIBRARY_PATH"), None);
    env.add_path("C:\\bin");
    let vars = env.build_env("x86_64-pc-windows-gnu", &host("windows"), "C:\\Windows", "");
    assert_eq!(value(&vars, "PATH"), Some("C:\\bin;C:\\Windows".to_string()));
}

#[test]
fn extra_variables_win() {
    let mut env = CrossEnv::new();
    env.set_cc("gcc");
    env.set_env("CC", "other");
    let vars = env.build_env("t", &host("linux"), "", "");
    assert_eq!(value(&vars, "CC"), Some("other".to_string()));
    assert_eq!(value(&vars, "CC_t"), Some("gcc".to_string()));
}

#[test]
fn rustflags_string_joins() {
    let mut env = CrossEnv::new();
    assert_eq!(env.rustflags_string(), None);
    env.add_rustflag("-L a");
    env.add_rustflag("-L b");
    assert_eq!(env.rustflags_string(), Some("-L a -L b".to_string()));
    assert_eq!(get_build_std_config(), "std,core,alloc,proc_macro,test,panic_abort,panic_unwind");
}

#[test]
fn gcc_paths_and_sysroot() {
    let mut env = CrossEnv::new();
    set_gcc_lib_paths(&mut env, Some("/t/lib"), Some("/t/lib/gcc/x/13"));
    assert_eq!(env.rustflags, vec!["-L /t/lib", "-L /t/lib/gcc/x/13"]);
    let mut env = CrossEnv::new();
    set_gcc_lib_paths(&mut env, None, Some("/g"));
    assert_eq!(env.rustflags, vec!["-L /g"]);
    setup_sysroot_env(&mut env, Some("/root"), Some("/gi"), Some("/root/usr/i"), Some("/root/i"), "a-b-c");
    assert_eq!(
        value(&env.extra_env, "BINDGEN_EXTRA_CLANG_ARGS_a_b_c"),
        Some("--sysroot=/root -I/gi -I/root/usr/i".to_string())
    );
    let mut env = CrossEnv::new();
    setup_sysroot_env(&mut env, Some("/root"), None, None, Some("/root/i"), "a-b");
    assert_eq!(
        value(&env.extra_env, "BINDGEN_EXTRA_CLANG_ARGS_a_b"),
        Some("--sysroot=/root -I/root/i".to_string())
    );
    let mut env = CrossEnv::new();
    setup_sysroot_env(&mut env, None, Some("/gi"), None, None, "a-b");
    assert!(!env.extra_env.contains_key("BINDGEN_EXTRA_CLANG_ARGS_a_b"));
}

#[test]
fn env_map_last_assignment_wins() {
    let mut m = EnvMap::new();
    assert_eq!(m.get("A"), None);
    m.insert("A".to_string(), "1".to_string());
    m.insert("B".to_string(), "2".to_string());
    m.insert("A".to_string(), "3".to_string());
    assert_eq!(value(&m, "A"), Some("3".to_string()));
    assert_eq!(value(&m, "B"), Some("2".to_string()));
    let mut n = EnvMap::new();
    n.insert("B".to_string(), "9".to_string());
    m.extend(&n);
    assert_eq!(value(&m, "B"), Some("9".to_string()));
    assert!(m.contains_key("A") && !m.contains_key("C"));
}

#[test]
fn rustflags_are_appended_in_order() {
    let mut a = args();
    a.build.crt_static = Some(true);
    a.build.panic_immediate_abort = true;
    a.build.fmt_debug = Some("none".to_string());
    a.build.location_detail = Some("file".to_string());
    a.build.rustflags = vec!["-C opt-level=3".to_string(), "-g".to_string()];
    let mut env = CrossEnv::new();
    env.add_rustflag("-L x");
    assert_eq!(
        build_rustflags(&a, &env, "-D warnings"),
        "-D warnings -L x -C target-feature=+crt-static -Zunstable-options -Cpanic=immediate-abort -Zfmt-debug=none -Zlocation-detail=file -C opt-level=3 -g"
    );
    let mut b = args();
    b.build.crt_static = Some(false);
    assert_eq!(build_rustflags(&b, &CrossEnv::new(), ""), "-C target-feature=-crt-static");
    assert_eq!(build_rustflags(&args(), &CrossEnv::new(), ""), "");
}

#[test]
fn user_flags_follow_toolchain_flags() {
    let mut env = CrossEnv::new();
    env.add_cflag("-O2");
    let mut a = args();
    a.build.cflags = Some("-DUSER".to_string());
    a.build.ldflags = Some("-s".to_string());
    a.build.cxxstdlib = Some("c++".to_string());
    let vars = build_cargo_env("aarch64-unknown-linux-gnu", &a, &env, &host("linux"), &no_ambient());
    assert_eq!(value(&vars, "CFLAGS"), Some("-O2 -DUSER".to_string()));
    assert_eq!(value(&vars, "CFLAGS_aarch64_unknown_linux_gnu"), Some("-O2 -DUSER".to_string()));
    assert_eq!(value(&vars, "LDFLAGS"), Some("-s".to_string()));
    assert_eq!(value(&vars, "CXXSTDLIB_aarch64_unknown_linux_gnu"), Some("c++".to_string()));
    assert_eq!(value(&vars, "RUSTFLAGS"), None);
    assert_eq!(value(&vars, "CARGO_UNSTABLE_HOST_CONFIG"), None);
    let mut m = EnvMap::new();
    add_compiler_flags_env(&mut m, &a, "t");
    assert_eq!(value(&m, "CFLAGS_t"), Some("-DUSER".to_string()));
}

#[test]
fn host_build_gets_host_config() {
    let a = args();
    let vars = build_cargo_env("x86_64-unknown-linux-gnu", &a, &CrossEnv::new(), &host("linux"), &no_ambient());
    assert_eq!(value(&vars, "CARGO_UNSTABLE_HOST_CONFIG"), Some("true".to_string()));
    assert_eq!(value(&vars, "CARGO_TARGET_APPLIES_TO_HOST"), Some("false".to_string()));
    let mut b = args();
    b.no_cargo_target = true;
    let vars = build_cargo_env("x86_64-unknown-linux-gnu", &b, &CrossEnv::new(), &host("linux"), &no_ambient());
    assert_eq!(value(&vars, "CARGO_UNSTABLE_HOST_CONFIG"), None);
    let mut m = EnvMap::new();
    add_host_config_env(&mut m);
    assert_eq!(value(&m, "CARGO_UNSTABLE_TARGET_APPLIES_TO_HOST"), Some("true".to_string()));
}

#[test]
fn ambient_variables_pass_through() {
    let amb = Ambient {
        path: String::new(),
        library_path: String::new(),
        rustflags: "-D warnings".to_string(),
        vars: vec![
            ("SCCACHE_BUCKET".to_string(), "b".to_string()),
            ("SCCACHE_EMPTY".to_string(), String::new()),
            ("SCCACHE_DIR".to_string(), "/env".to_string()),
            ("HOME".to_string(), "/home".to_string()),
            ("CC_FORCE_DISABLE".to_string(), "1".to_string()),
            ("CC_KNOWN_WRAPPER_CUSTOM".to_string(), String::new()),
        ],
    };
    let mut a = args();
    a.build.sccache_dir = Some("/arg".to_string());
    a.build.sccache_no_daemon = true;
    a.build.cc_no_defaults = true;
    a.build.verbose_level = 1;
    a.build.cargo_trim_paths = Some("all".to_string());
    a.build.rustc_bootstrap = Some("1".to_string());
    let vars = build_cargo_env("aarch64-unknown-linux-gnu", &a, &CrossEnv::new(), &host("linux"), &amb);
    assert_eq!(value(&vars, "SCCACHE_BUCKET"), Some("b".to_string()));
    assert_eq!(value(&vars, "SCCACHE_EMPTY"), None);
    assert_eq!(value(&vars, "SCCACHE_DIR"), Some("/arg".to_string()));
    assert_eq!(value(&vars, "SCCACHE_NO_DAEMON"), Some("1".to_string()));
    assert_eq!(value(&vars, "HOME"), None);
    assert_eq!(value(&vars, "CC_FORCE_DISABLE"), Some("1".to_string()));
    assert_eq!(value(&vars, "CC_KNOWN_WRAPPER_CUSTOM"), None);
    assert_eq!(value(&vars, "CRATE_CC_NO_DEFAULTS"), Some("1".to_string()));
    assert_eq!(value(&vars, "CC_ENABLE_DEBUG_OUTPUT"), Some("1".to_string()));
    assert_eq!(value(&vars, "RUSTFLAGS"), Some("-D warnings".to_string()));
    assert_eq!(value(&vars, "CARGO_TRIM_PATHS"), Some("all".to_string()));
    assert_eq!(value(&vars, "RUSTC_BOOTSTRAP"), Some("1".to_string()));
    assert_eq!(ambient_var(&amb.vars, "HOME"), Some("/home"));
    assert_eq!(ambient_var(&amb.vars, "SCCACHE_EMPTY"), None);
    assert_eq!(ambient_var(&amb.vars, "NOPE"), None);
    let mut m = EnvMap::new();
    add_sccache_env(&mut m, &args(), &amb.vars);
    assert_eq!(value(&m, "SCCACHE_DIR"), Some("/env".to_string()));
}

#[test]
fn wrapper_prefers_the_cache() {
    let mut a = args();
    a.build.rustc_wrapper = Some("/bin/w".to_string());
    let mut m = EnvMap::new();
    add_wrapper_env(&mut m, &a);
    assert_eq!(value(&m, "RUSTC_WRAPPER"), Some("/bin/w".to_string()));
    a.build.enable_sccache = true;
    let mut m = EnvMap::new();
    add_wrapper_env(&mut m, &a);
    assert_eq!(value(&m, "RUSTC_WRAPPER"), Some("sccache".to_string()));
    let mut m = EnvMap::new();
    add_wrapper_env(&mut m, &args());
    assert_eq!(value(&m, "RUSTC_WRAPPER"), None);
}

#[test]
fn user_tools_replace_the_toolchains() {
    let mut env = CrossEnv::new();
    env.set_cc("tc-gcc");
    env.set_ar("tc-ar");
    env.set_linker("tc-gcc");
    let mut a = args();
    a.build.cc = Some("/usr/bin/clang".to_string());
    apply_tool_overrides(&mut env, &a);
    assert_eq!(env.cc, Some("/usr/bin/clang".to_string()));
    assert_eq!(env.ar, Some("tc-ar".to_string()));
    assert_eq!(env.linker, Some("tc-gcc".to_string()));
    a.build.use_default_linker = true;
    apply_tool_overrides(&mut env, &a);
    assert_eq!(env.linker, None);
    a.build.linker = Some("lld".to_string());
    apply_tool_overrides(&mut env, &a);
    assert_eq!(env.linker, Some("lld".to_string()));
}

#[test]
fn compiler_in_the_process_environment_is_noticed() {
    let vars = vec![("CC_aarch64_unknown_linux_gnu".to_string(), "gcc".to_string())];
    assert!(preconfigured(&vars, "aarch64-unknown-linux-gnu"));
    assert!(!preconfigured(&vars, "x86_64-unknown-linux-gnu"));
    assert!(preconfigured(&vec![("CC".to_string(), "cc".to_string())], "any"));
    assert!(!preconfigured(&vec![("CC".to_string(), String::new())], "any"));
    assert!(!preconfigured(&vec![], "any"));
}

#[test]
fn command_line_of_a_plain_build() {
    let a = args();
    assert_eq!(
        build_cargo_command("aarch64-unknown-linux-gnu", &a, &CrossEnv::new()),
        vec!["build", "--target", "aarch64-unknown-linux-gnu", "--release"]
    );
    let mut b = args();
    b.no_cargo_target = true;
    b.build.profile = "debug".to_string();
    assert_eq!(build_cargo_command("t", &b, &CrossEnv::new()), vec!["build"]);
}

#[test]
fn command_line_in_order() {
    let mut a = args();
    a.toolchain = Some("nightly".to_string());
    a.build.cargo_cwd = Some("/w".to_string());
    a.build.cargo_z_flags = vec!["a".to_string(), "b".to_string()];
    a.build.cargo_config = vec!["k=v".to_string()];
    a.build.profile = "dev".to_string();
    a.build.features = Some("f1,f2".to_string());
    a.build.all_features = true;
    a.build.package = Some("p".to_string());
    a.build.build_lib = true;
    a.build.manifest_path = Some("/m/Cargo.toml".to_string());
    a.build.build_std_features = Some("panic_immediate_abort".to_string());
    a.build.verbose_level = 3;
    a.build.quiet = true;
    a.build.color = Some("always".to_string());
    a.build.timings = Some("html".to_string());
    a.build.locked = true;
    a.build.jobs = Some("4".to_string());
    a.build.no_embed_metadata = true;
    a.build.cargo_args = Some("--extra".to_string());
    a.build.passthrough_args = vec!["--nocapture".to_string(), "x".to_string()];
    let mut env = CrossEnv::new();
    env.set_build_std("true");
    assert_eq!(
        build_cargo_command("t", &a, &env),
        vec![
            "+nightly", "build", "-C", "/w", "-Z", "a", "-Z", "b", "--config", "k=v", "--target", "t",
            "--profile", "dev", "--features", "f1,f2", "--all-features", "--package", "p", "--lib",
            "--manifest-path", "/m/Cargo.toml",
            "-Zbuild-std=std,core,alloc,proc_macro,test,panic_abort,panic_unwind",
            "-Zbuild-std-features=panic_immediate_abort", "-vvv", "--quiet", "--color", "always",
            "--timings=html", "--locked", "--jobs", "4", "-Zno-embed-metadata", "--extra", "--",
            "--nocapture", "x",
        ]
    );
    let mut b = args();
    b.build.build_std = Some("core".to_string());
    b.build.timings = Some("true".to_string());
    assert_eq!(
        build_cargo_command("t", &b, &env),
        vec!["build", "--target", "t", "--release", "-Zbuild-std=core", "--timings"]
    );
}
