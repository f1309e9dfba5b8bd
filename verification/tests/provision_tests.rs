use cargo_cross::cli::{
    expand_target_list, finalize_args, parse_build_std, parse_optional_bool, process_cli,
    validate_versions, Args, BuildArgs, Cli, CliCommand, Command, OutputFormat, ParseResult,
    TargetsArgs,
};
use cargo_cross::config::{get_target_config, Arch, HostPlatform};
use cargo_cross::download::ArchiveFormat;
use cargo_cross::env::CrossEnv;
use cargo_cross::error::CrossError;
use cargo_cross::platform::android::{
    android_arch, find_prebuilt_bin_dir, libclang_name, ndk_folder, ndk_nested_folder, ndk_url,
    prebuilt_candidates, wrapper_content, wrapper_file_name, NdkLayout, Prebuilt,
};
use cargo_cross::platform::darwin::{
    check_sdk_path, clang_pattern, configure_osxcross, osxcross_folder, osxcross_host_name,
    osxcross_url, tool_prefix, AppleLayout, DarwinRoute,
};
use cargo_cross::platform::ios::{
    configure_ioscross, ioscross_compiler, ioscross_folder, ioscross_url, ios_arch_prefix,
    is_simulator, IosRoute,
};
use cargo_cross::platform::linux::RunnerKind;
use cargo_cross::platform::windows::WindowsPlan;
use cargo_cross::platform::{
    first_named, choose_generator, configure_gcc, find_file_by_pattern, setup_cmake,
    setup_cross_compile_prefix, setup_darwin_linker_library_path, AppleSdkType, GccLayout,
};
use cargo_cross::runner::{
    apply_qemu_runner, apply_wine_runner, setup_wine_runner, docker_image, docker_qemu_plan, docker_script,
    docker_script_name, docker_step, qemu_plan, setup_rosetta_runner, DockerStep,
};

fn host(os: &'static str, arch: &'static str) -> HostPlatform {
    HostPlatform { os, arch, triple: format!("{}-unknown-{}", arch, os) }
}

fn args() -> Args {
    Args::from_build_args(BuildArgs::default_for_host(), Command::Run, None, "/cache")
}

fn layout() -> GccLayout {
    GccLayout {
        bin_dir: "/c/bin".to_string(),
        target_lib: Some("/c/p/lib".to_string()),
        gcc_lib: None,
        sysroot: Some("/c/p".to_string()),
        gcc_include: None,
        usr_include: None,
        headers: Some("/c/p/i".to_string()),
    }
}

#[test]
fn defaults_of_a_build() {
    let b = BuildArgs::default_for_host();
    assert_eq!(b.profile, "release");
    assert_eq!(b.glibc_version, "2.28");
    assert_eq!(b.iphone_sdk_version, "26.2");
    assert_eq!(b.macos_sdk_version, "26.2");
    assert_eq!(b.freebsd_version, "13");
    assert_eq!(b.ndk_version, "r27d");
    assert_eq!(b.qemu_version, "v10.2.0");
    assert!(b.targets.is_empty() && b.cc.is_none() && !b.release && b.verbose_level == 0);
    let a = args();
    assert_eq!(a.cross_deps_version, "v0.7.4");
    assert_eq!(a.cross_compiler_dir, "/cache");
    assert_eq!(Command::Bench.as_str(), "bench");
    assert!(Command::Test.needs_runner() && !Command::Check.needs_runner());
}

#[test]
fn truth_values() {
    assert_eq!(parse_optional_bool("TRUE"), Ok(true));
    assert_eq!(parse_optional_bool("yes"), Ok(true));
    assert_eq!(parse_optional_bool("1"), Ok(true));
    assert_eq!(parse_optional_bool("No"), Ok(false));
    assert_eq!(parse_optional_bool("0"), Ok(false));
    assert_eq!(parse_optional_bool("Maybe"), Err("invalid bool value: Maybe".to_string()));
    assert_eq!(parse_build_std("false"), Err("build-std disabled".to_string()));
    assert_eq!(parse_build_std("0"), Err("build-std disabled".to_string()));
    assert_eq!(parse_build_std("1"), Ok("true".to_string()));
    assert_eq!(parse_build_std("true"), Ok("true".to_string()));
    assert_eq!(parse_build_std("core,alloc"), Ok("core,alloc".to_string()));
}

#[test]
fn versions_without_toolchain_are_refused() {
    let mut a = args();
    assert!(validate_versions(&a, false).is_ok());
    a.build.freebsd_version = "12".to_string();
    match validate_versions(&a, false) {
        Err(CrossError::UnsupportedFreebsdVersion { version, supported }) => {
            assert_eq!(version, "12");
            assert_eq!(supported, "13, 14, 15");
        }
        _ => panic!("expected an error"),
    }
    a.build.macos_sdk_version = "1.0".to_string();
    assert!(matches!(validate_versions(&a, false), Err(CrossError::UnsupportedMacosSdkVersion { .. })));
    assert!(matches!(validate_versions(&a, true), Err(CrossError::UnsupportedFreebsdVersion { .. })));
    a.build.iphone_sdk_version = "1.0".to_string();
    assert!(matches!(validate_versions(&a, false), Err(CrossError::UnsupportedIphoneSdkVersion { .. })));
    a.build.glibc_version = "2.0".to_string();
    match validate_versions(&a, true) {
        Err(CrossError::UnsupportedGlibcVersion { version, .. }) => assert_eq!(version, "2.0"),
        _ => panic!("expected an error"),
    }
}

#[test]
fn target_lists_are_unioned_in_first_seen_order() {
    let list = vec![
        "x86_64-unknown-linux-musl, *-freebsd".to_string(),
        "aarch64-unknown-freebsd\nmy-custom-target,,".to_string(),
        "my-custom-target".to_string(),
    ];
    assert_eq!(
        expand_target_list(&list),
        vec![
            "x86_64-unknown-linux-musl",
            "aarch64-unknown-freebsd",
            "powerpc64-unknown-freebsd",
            "powerpc64le-unknown-freebsd",
            "riscv64gc-unknown-freebsd",
            "x86_64-unknown-freebsd",
            "my-custom-target",
        ]
    );
    assert!(expand_target_list(&vec![]).is_empty());
}

#[test]
fn finalize_defaults_to_the_host() {
    let mut b = BuildArgs::default_for_host();
    b.release = true;
    b.profile = "dev".to_string();
    b.toolchain_option = Some("stable".to_string());
    let a = finalize_args(b, Command::Build, Some("nightly".to_string()), "x86_64-unknown-linux-gnu", false, "/tmp/c").unwrap();
    assert_eq!(a.targets, vec!["x86_64-unknown-linux-gnu"]);
    assert!(a.no_cargo_target && a.build.use_default_linker);
    assert_eq!(a.build.profile, "release");
    assert_eq!(a.toolchain, Some("nightly".to_string()));
    assert_eq!(a.cross_compiler_dir, "/tmp/c");
    let mut b = BuildArgs::default_for_host();
    b.targets = vec!["aarch64-apple-darwin".to_string()];
    b.profile = "dev".to_string();
    b.toolchain_option = Some("stable".to_string());
    b.cross_compiler_dir = Some("/mine".to_string());
    let a = finalize_args(b, Command::Test, None, "h", false, "/tmp/c").unwrap();
    assert_eq!(a.targets, vec!["aarch64-apple-darwin"]);
    assert!(!a.no_cargo_target && !a.build.use_default_linker);
    assert_eq!(a.build.profile, "dev");
    assert_eq!(a.toolchain, Some("stable".to_string()));
    assert_eq!(a.cross_compiler_dir, "/mine");
    assert_eq!(a.command, Command::Test);
    let mut b = BuildArgs::default_for_host();
    b.glibc_version = "9".to_string();
    assert!(matches!(finalize_args(b, Command::Build, None, "h", false, "/c"), Err(CrossError::UnsupportedGlibcVersion { .. })));
}

#[test]
fn command_lines_become_requests() {
    let cli = Cli { command: CliCommand::Targets(TargetsArgs { format: OutputFormat::Json }) };
    assert!(matches!(process_cli(cli, None, "h", false, "/c"), Ok(ParseResult::ShowTargets(OutputFormat::Json))));
    let cli = Cli { command: CliCommand::Version };
    assert!(matches!(process_cli(cli, None, "h", false, "/c"), Ok(ParseResult::ShowVersion)));
    let cli = Cli { command: CliCommand::Bench(BuildArgs::default_for_host()) };
    match process_cli(cli, None, "h", false, "/c") {
        Ok(ParseResult::Build(a)) => assert_eq!(a.command, Command::Bench),
        _ => panic!("expected a build"),
    }
}

#[test]
fn linux_plan_names_and_url() {
    let t = get_target_config("x86_64-unknown-linux-gnu").unwrap();
    let mut a = args();
    let p = cargo_cross::platform::linux::plan(&t, &a, &host("linux", "aarch64"));
    assert_eq!(p.bin_prefix, "x86_64-linux-gnu");
    assert_eq!(p.folder, "x86_64-linux-gnu-cross-v0.7.4");
    assert_eq!(p.compiler, "x86_64-linux-gnu-gcc");
    assert_eq!(
        p.download_url,
        "https://github.com/zijiren233/cross-make/releases/download/v0.7.4-linux-aarch64/x86_64-linux-gnu-cross.tgz"
    );
    assert_eq!(p.format, ArchiveFormat::TarGz);
    a.build.glibc_version = "2.31".to_string();
    let p = cargo_cross::platform::linux::plan(&t, &a, &host("windows", "x86_64"));
    assert_eq!(p.folder, "x86_64-linux-gnu-2.31-cross-v0.7.4");
    assert_eq!(p.compiler, "x86_64-linux-gnu-gcc.exe");
    assert_eq!(
        p.download_url,
        "https://github.com/zijiren233/cross-make/releases/download/v0.7.4-windows-x86_64/x86_64-linux-gnu-2.31-cross.zip"
    );
    assert_eq!(p.format, ArchiveFormat::Zip);
}

#[test]
fn gcc_toolchain_is_described() {
    let t = get_target_config("aarch64-unknown-linux-musl").unwrap();
    let p = cargo_cross::platform::linux::plan(&t, &args(), &host("linux", "x86_64"));
    let env = cargo_cross::platform::linux::configure(&p, &layout(), &t, &host("linux", "x86_64"));
    assert_eq!(env.cc, Some("aarch64-linux-musl-gcc".to_string()));
    assert_eq!(env.cxx, Some("aarch64-linux-musl-g++".to_string()));
    assert_eq!(env.ar, Some("aarch64-linux-musl-ar".to_string()));
    assert_eq!(env.linker, Some("aarch64-linux-musl-gcc".to_string()));
    assert_eq!(env.path, vec!["/c/bin"]);
    assert_eq!(env.rustflags, vec!["-L /c/p/lib"]);
    assert_eq!(
        env.extra_env.get("BINDGEN_EXTRA_CLANG_ARGS_aarch64_unknown_linux_musl"),
        Some(&"--sysroot=/c/p -I/c/p/i".to_string())
    );
    assert!(env.runner.is_none());
    let env = configure_gcc(&p, &layout(), "t", true);
    assert_eq!(env.ar, Some("aarch64-linux-musl-ar.exe".to_string()));
}

#[test]
fn freebsd_plan() {
    let t = get_target_config("riscv64gc-unknown-freebsd").unwrap();
    let mut a = args();
    a.build.freebsd_version = "14".to_string();
    let p = cargo_cross::platform::freebsd::plan(&t, &a, &host("linux", "x86_64")).unwrap();
    assert_eq!(p.bin_prefix, "riscv64-unknown-freebsd14");
    assert_eq!(p.folder, "riscv64-unknown-freebsd14-cross-v0.7.4");
    let env = cargo_cross::platform::freebsd::configure(&p, &layout(), &t, &a, &host("linux", "x86_64"));
    assert_eq!(env.extra_env.get("CROSS_COMPILE"), Some(&"riscv64-unknown-freebsd14-".to_string()));
    assert!(!env.extra_env.contains_key("CMAKE_GENERATOR"));
    let mut bad = t;
    bad.arch = Arch::Mips;
    match cargo_cross::platform::freebsd::plan(&bad, &a, &host("linux", "x86_64")) {
        Err(CrossError::UnsupportedArchitecture { arch, os }) => {
            assert_eq!(arch, "mips");
            assert_eq!(os, "freebsd");
        }
        _ => panic!("expected an error"),
    }
}

#[test]
fn windows_plan() {
    let t = get_target_config("i686-pc-windows-gnu").unwrap();
    match cargo_cross::platform::windows::plan(&t, &args(), &host("linux", "x86_64")) {
        Ok(WindowsPlan::MinGw(p)) => {
            assert_eq!(p.bin_prefix, "i686-w64-mingw32");
            assert_eq!(p.folder, "i686-w64-mingw32-cross-v0.7.4");
            let mut a = args();
            a.command = Command::Build;
            let env = cargo_cross::platform::windows::configure(&p, &layout(), &t, &a, &host("linux", "x86_64"));
            assert_eq!(env.cc, Some("i686-w64-mingw32-gcc".to_string()));
            assert_eq!(env.extra_env.get("CROSS_COMPILE"), Some(&"i686-w64-mingw32-".to_string()));
            assert!(env.runner.is_none());
        }
        _ => panic!("expected MinGW"),
    }
    let mut msvc = t;
    msvc.libc = Some(cargo_cross::config::Libc::Msvc);
    assert!(matches!(cargo_cross::platform::windows::plan(&msvc, &args(), &host("windows", "x86_64")), Ok(WindowsPlan::Native)));
    match cargo_cross::platform::windows::plan(&msvc, &args(), &host("linux", "x86_64")) {
        Err(CrossError::CrossCompilationNotSupported { target_os, host_os }) => {
            assert_eq!(target_os, "windows-msvc");
            assert_eq!(host_os, "linux");
        }
        _ => panic!("expected an error"),
    }
    let mut arm = t;
    arm.arch = Arch::Aarch64;
    assert!(matches!(
        cargo_cross::platform::windows::plan(&arm, &args(), &host("linux", "x86_64")),
        Err(CrossError::UnsupportedArchitecture { .. })
    ));
}

#[test]
fn cmake_generator() {
    assert_eq!(choose_generator(true, true), "Ninja");
    assert_eq!(choose_generator(false, true), "MinGW Makefiles");
    assert_eq!(choose_generator(false, false), "Unix Makefiles");
    let mut env = CrossEnv::new();
    setup_cmake(&mut env, None, false);
    assert!(!env.extra_env.contains_key("CMAKE_GENERATOR"));
    setup_cmake(&mut env, Some("Ninja Multi-Config"), false);
    assert_eq!(env.extra_env.get("CMAKE_GENERATOR"), Some(&"Ninja Multi-Config".to_string()));
    let mut env = CrossEnv::new();
    setup_cmake(&mut env, None, true);
    let g = env.extra_env.get("CMAKE_GENERATOR").unwrap();
    assert!(g == "Ninja" || g == "MinGW Makefiles" || g == "Unix Makefiles");
    let mut env = CrossEnv::new();
    setup_cross_compile_prefix(&mut env, "armv7-linux-gnueabihf");
    assert_eq!(env.extra_env.get("CROSS_COMPILE"), Some(&"armv7-linux-gnueabihf-".to_string()));
    setup_darwin_linker_library_path(&mut env, None);
    assert!(env.library_path.is_empty());
    setup_darwin_linker_library_path(&mut env, Some("/x/lib"));
    assert_eq!(env.library_path, vec!["/x/lib"]);
}

#[test]
fn apple_sdk_names() {
    assert_eq!(AppleSdkType::MacOS.names("14.0"), ("macosx14.0".to_string(), "MacOSX"));
    assert_eq!(AppleSdkType::IPhoneOS.names("17.0"), ("iphoneos17.0".to_string(), "iPhoneOS"));
    assert_eq!(
        AppleSdkType::IPhoneSimulator.names("17.0"),
        ("iphonesimulator17.0".to_string(), "iPhoneSimulator")
    );
}

#[test]
fn darwin_from_linux() {
    assert!(matches!(cargo_cross::platform::darwin::route(&host("darwin", "aarch64")), Ok(DarwinRoute::Native)));
    assert!(matches!(cargo_cross::platform::darwin::route(&host("linux", "aarch64")), Ok(DarwinRoute::Osxcross)));
    assert!(matches!(cargo_cross::platform::darwin::route(&host("windows", "x86_64")), Err(CrossError::CrossCompilationNotSupported { .. })));
    assert_eq!(osxcross_host_name(&host("linux", "x86_64")).unwrap(), "amd64");
    assert_eq!(osxcross_host_name(&host("linux", "arm64")).unwrap(), "aarch64");
    match osxcross_host_name(&host("linux", "riscv64")) {
        Err(CrossError::CrossCompilationNotSupported { target_os, host_os }) => {
            assert_eq!(target_os, "darwin");
            assert_eq!(host_os, "linux/riscv64");
        }
        _ => panic!("expected an error"),
    }
    assert_eq!(osxcross_folder("26.2", "amd64"), "osxcross-26-2-amd64-v0.2.6");
    assert_eq!(
        osxcross_url("26.2", "amd64", None),
        "https://github.com/zijiren233/osxcross/releases/download/v0.2.6/osxcross-26-2-linux-x86_64-gnu-ubuntu-20.04.tar.gz"
    );
    assert_eq!(
        osxcross_url("14.0", "aarch64", Some("24.04")),
        "https://github.com/zijiren233/osxcross/releases/download/v0.2.6/osxcross-14-0-linux-aarch64-gnu-ubuntu-24.04.tar.gz"
    );
    assert_eq!(clang_pattern(Arch::Aarch64), "aarch64-apple-darwin*-clang");
    assert_eq!(tool_prefix("aarch64-apple-darwin25.2-clang"), Some("aarch64-apple-darwin25.2".to_string()));
    assert_eq!(tool_prefix("aarch64-apple-darwin25.2-clang++"), None);
    assert_eq!(tool_prefix("-clang"), Some(String::new()));
    assert!(check_sdk_path("/sdk", true).is_ok());
    match check_sdk_path("/sdk", false) {
        Err(CrossError::SdkPathNotExist { path }) => assert_eq!(path, "/sdk"),
        _ => panic!("expected an error"),
    }
    let names: Vec<String> = ["x86_64-apple-darwin25.2-clang++-libc++", "x86_64-apple-darwin25.2-clang++", "x86_64-apple-darwin25.2-clang", "x86_64-apple-darwin25.2-ar"]
        .iter()
        .map(|s| s.to_string())
        .collect();
    assert_eq!(find_file_by_pattern(&names, "x86_64-apple-darwin*-clang"), Some(2));
    assert_eq!(find_file_by_pattern(&names, "aarch64-apple-darwin*-clang"), None);
    let l = AppleLayout {
        bin_dir: "/o/bin".to_string(),
        clang_bin_dir: "/o/clang/bin".to_string(),
        lib_dir: Some("/o/lib".to_string()),
        linker_path: "/o/bin/p-ld".to_string(),
        sdk: Some("/o/SDK/MacOSX26.2.sdk".to_string()),
    };
    let mut a = args();
    a.build.verbose_level = 2;
    let env = configure_osxcross("p", &l, &a, &host("linux", "x86_64"));
    assert_eq!(env.cc, Some("p-clang".to_string()));
    assert_eq!(env.cxx, Some("p-clang++".to_string()));
    assert_eq!(env.ar, Some("p-ar".to_string()));
    assert_eq!(env.linker, Some("p-clang".to_string()));
    assert_eq!(env.path, vec!["/o/bin", "/o/clang/bin"]);
    assert_eq!(env.library_path, vec!["/o/lib"]);
    assert_eq!(env.ldflags, vec!["-fuse-ld=/o/bin/p-ld"]);
    assert_eq!(env.rustflags, vec!["-C link-arg=-fuse-ld=/o/bin/p-ld", "-C link-arg=--sysroot=/o/SDK/MacOSX26.2.sdk"]);
    assert_eq!(env.sdkroot, Some("/o/SDK/MacOSX26.2.sdk".to_string()));
    assert_eq!(env.extra_env.get("OSXCROSS_MP_INC"), Some(&"1".to_string()));
    assert_eq!(env.extra_env.get("MACOSX_DEPLOYMENT_TARGET"), Some(&"10.12".to_string()));
    assert_eq!(env.extra_env.get("OCDEBUG"), Some(&"1".to_string()));
    assert_eq!(env.extra_env.get("COMPILER_PATH"), Some(&"/o/bin".to_string()));
}

#[test]
fn darwin_native_and_rosetta() {
    let env = cargo_cross::platform::darwin::configure_native(Arch::X86_64, "x86_64-apple-darwin", &args(), &host("darwin", "aarch64"), Some("/sdk"));
    assert_eq!(env.runner, Some("arch -x86_64".to_string()));
    assert_eq!(env.sdkroot, Some("/sdk".to_string()));
    assert_eq!(env.rustflags, vec!["-C link-arg=--sysroot=/sdk"]);
    let env = cargo_cross::platform::darwin::configure_native(Arch::Aarch64, "aarch64-apple-darwin", &args(), &host("darwin", "aarch64"), None);
    assert!(env.runner.is_none() && env.sdkroot.is_none());
    let mut env = CrossEnv::new();
    setup_rosetta_runner(&mut env, Arch::X86_64, "x86_64-apple-darwin", &host("darwin", "x86_64"));
    assert!(env.runner.is_none());
    setup_rosetta_runner(&mut env, Arch::X86_64, "x86_64-apple-ios", &host("darwin", "aarch64"));
    assert!(env.runner.is_none());
    setup_rosetta_runner(&mut env, Arch::X86_64, "x86_64-apple-darwin", &host("linux", "aarch64"));
    assert!(env.runner.is_none());
}

#[test]
fn ios_provisioning() {
    assert!(matches!(cargo_cross::platform::ios::route(&host("darwin", "aarch64")), Ok(IosRoute::Native)));
    assert!(matches!(cargo_cross::platform::ios::route(&host("linux", "aarch64")), Ok(IosRoute::Ioscross)));
    assert!(matches!(cargo_cross::platform::ios::route(&host("freebsd", "x86_64")), Err(CrossError::CrossCompilationNotSupported { .. })));
    assert!(is_simulator(&get_target_config("aarch64-apple-ios-sim").unwrap()));
    assert!(is_simulator(&get_target_config("x86_64-apple-ios").unwrap()));
    assert!(!is_simulator(&get_target_config("aarch64-apple-ios").unwrap()));
    assert_eq!(cargo_cross::platform::ios::sdk_type(true), AppleSdkType::IPhoneSimulator);
    assert_eq!(cargo_cross::platform::ios::sdk_type(false), AppleSdkType::IPhoneOS);
    assert_eq!(ios_arch_prefix(Arch::Aarch64).unwrap(), "arm64");
    assert_eq!(ios_arch_prefix(Arch::X86_64).unwrap(), "x86_64");
    assert!(matches!(ios_arch_prefix(Arch::Armv7), Err(CrossError::UnsupportedArchitecture { .. })));
    assert_eq!(ioscross_folder("arm64", false, "26.2"), "ios-arm64-cross-v0.1.9-26-2");
    assert_eq!(ioscross_folder("x86_64", true, "17.0"), "ios-x86_64-cross-simulator-v0.1.9-17-0");
    assert_eq!(ioscross_compiler("arm64"), "arm64-apple-darwin11-clang");
    assert_eq!(
        ioscross_url("arm64", false, "26.2", &host("linux", "x86_64"), None),
        "https://github.com/zijiren233/cctools-port/releases/download/v0.1.9/ioscross-iPhoneOS26-2-arm64-linux-x86_64-gnu-ubuntu-20.04.tar.gz"
    );
    assert_eq!(
        ioscross_url("x86_64", true, "17.0", &host("linux", "aarch64"), Some("22.04")),
        "https://github.com/zijiren233/cctools-port/releases/download/v0.1.9/ioscross-iPhoneSimulator17-0-x86_64-linux-aarch64-gnu-ubuntu-22.04.tar.gz"
    );
    let env = cargo_cross::platform::ios::configure_native(true, Some("/sdk"));
    assert_eq!(env.extra_env.get("IPHONE_SIMULATOR_DEPLOYMENT_TARGET"), Some(&"12.0".to_string()));
    assert_eq!(env.sdkroot, Some("/sdk".to_string()));
    let l = AppleLayout {
        bin_dir: "/i/bin".to_string(),
        clang_bin_dir: "/i/clang/bin".to_string(),
        lib_dir: None,
        linker_path: "/i/bin/arm64-apple-darwin11-ld".to_string(),
        sdk: Some("/i/SDK/x".to_string()),
    };
    let env = configure_ioscross("arm64", &l, false);
    assert_eq!(env.cc, Some("arm64-apple-darwin11-clang".to_string()));
    assert_eq!(env.cxx, Some("arm64-apple-darwin11-clang++".to_string()));
    assert_eq!(env.ar, Some("arm64-apple-darwin11-ar".to_string()));
    assert_eq!(env.sdkroot, Some("/i/SDK/x".to_string()));
    assert_eq!(env.rustflags, vec!["-C link-arg=-fuse-ld=/i/bin/arm64-apple-darwin11-ld"]);
    assert!(env.library_path.is_empty());
    assert_eq!(env.extra_env.get("IPHONEOS_DEPLOYMENT_TARGET"), Some(&"12.0".to_string()));
}

#[test]
fn android_provisioning() {
    assert_eq!(ndk_folder(&host("linux", "x86_64"), "r27d"), "android-ndk-linux-r27d");
    assert_eq!(ndk_url(&host("darwin", "aarch64"), "r27d"), "https://dl.google.com/android/repository/android-ndk-r27d-darwin.zip");
    assert_eq!(ndk_nested_folder("r27d"), "android-ndk-r27d");
    assert_eq!(prebuilt_candidates(&host("darwin", "aarch64")), vec!["darwin-aarch64", "darwin-x86_64", "darwin"]);
    assert_eq!(prebuilt_candidates(&host("linux", "aarch64")), vec!["linux-aarch64", "linux-x86_64"]);
    assert!(matches!(find_prebuilt_bin_dir(&vec![false, true, true], &vec![true], "/p"), Ok(Prebuilt::Candidate(1))));
    assert!(matches!(find_prebuilt_bin_dir(&vec![false, false], &vec![false, false, true], "/p"), Ok(Prebuilt::Other(2))));
    match find_prebuilt_bin_dir(&vec![false, false], &vec![], "/p") {
        Err(CrossError::CompilerNotFound { path }) => assert_eq!(path, "/p"),
        _ => panic!("expected an error"),
    }
    assert_eq!(android_arch(Arch::Armv7).unwrap(), ("armv7a-linux-androideabi24", "armeabi-v7a"));
    assert_eq!(android_arch(Arch::Riscv64).unwrap(), ("riscv64-linux-android35", "riscv64"));
    assert!(matches!(android_arch(Arch::Mips), Err(CrossError::UnsupportedArchitecture { .. })));
    assert_eq!(wrapper_file_name("x86"), "android-x86.cmake");
    assert_eq!(
        wrapper_content("arm64-v8a", "/ndk", "/ndk/build/cmake/android.toolchain.cmake"),
        "# Auto-generated Android toolchain wrapper\nset(ANDROID_ABI \"arm64-v8a\")\nset(ANDROID_PLATFORM \"android-24\")\nset(ANDROID_NDK \"/ndk\")\ninclude(\"/ndk/build/cmake/android.toolchain.cmake\")\n"
    );
    assert_eq!(libclang_name(&host("windows", "x86_64")), "libclang.dll");
    assert_eq!(libclang_name(&host("linux", "x86_64")), "libclang.so");
    let l = NdkLayout { bin_dir: "/n/bin".to_string(), toolchain_file: "/n/w.cmake".to_string(), libclang_dir: Some("/n/lib".to_string()) };
    let env = cargo_cross::platform::android::configure("aarch64-linux-android24", &l, &args(), &host("linux", "x86_64"));
    assert_eq!(env.cc, Some("aarch64-linux-android24-clang".to_string()));
    assert_eq!(env.cxx, Some("aarch64-linux-android24-clang++".to_string()));
    assert_eq!(env.ar, Some("llvm-ar".to_string()));
    assert_eq!(env.path, vec!["/n/bin"]);
    assert_eq!(env.extra_env.get("CMAKE_TOOLCHAIN_FILE"), Some(&"/n/w.cmake".to_string()));
    assert_eq!(env.extra_env.get("LIBCLANG_PATH"), Some(&"/n/lib".to_string()));
    let env = cargo_cross::platform::android::configure("p", &l, &args(), &host("windows", "x86_64"));
    assert_eq!(env.cc, Some("p-clang.cmd".to_string()));
    assert_eq!(env.ar, Some("llvm-ar.exe".to_string()));
}

#[test]
fn runners() {
    let p = qemu_plan(Arch::Aarch64, "v10.2.0", &host("linux", "x86_64")).unwrap();
    assert_eq!(p.binary, "qemu-aarch64");
    assert_eq!(p.folder, "qemu-user-static-v10.2.0");
    assert_eq!(
        p.download_url,
        "https://github.com/zijiren233/qemu-user-static/releases/download/v10.2.0/qemu-user-static-linux-x86_64-musl.tgz"
    );
    assert!(qemu_plan(Arch::X86_64h, "v1", &host("linux", "x86_64")).is_none());
    let p = docker_qemu_plan(Arch::Riscv64, "v10.2.0", &host("darwin", "aarch64")).unwrap();
    assert_eq!(p.folder, "qemu-user-static-v10.2.0-linux-aarch64");
    assert_eq!(
        p.download_url,
        "https://github.com/zijiren233/qemu-user-static/releases/download/v10.2.0/qemu-user-static-linux-aarch64-musl.tgz"
    );
    let mut env = CrossEnv::new();
    apply_qemu_runner(&mut env, "qemu-arm", "/q", false, Some("/s"));
    assert!(env.runner.is_none() && env.path.is_empty());
    apply_qemu_runner(&mut env, "qemu-arm", "/q", true, Some("/s"));
    assert_eq!(env.runner, Some("qemu-arm -L /s".to_string()));
    assert_eq!(env.path, vec!["/q"]);
    apply_qemu_runner(&mut env, "qemu-arm", "/q", true, None);
    assert_eq!(env.runner, Some("qemu-arm".to_string()));
    let mut env = CrossEnv::new();
    apply_wine_runner(&mut env, false);
    assert!(env.runner.is_none());
    apply_wine_runner(&mut env, true);
    assert_eq!(env.runner, Some("wine".to_string()));
    assert_eq!(docker_image("musl"), "alpine:latest");
    assert_eq!(docker_image("gnu"), "ubuntu:latest");
    assert_eq!(docker_script_name(Arch::Armv7, "musl"), "docker-qemu-runner-armv7-musl.sh");
    assert_eq!(docker_step(false, Arch::Aarch64), DockerStep::SkipNoDocker);
    assert_eq!(docker_step(true, Arch::Arm64e), DockerStep::SkipNoEmulator);
    assert_eq!(docker_step(true, Arch::Aarch64), DockerStep::Proceed);
    let script = docker_script("/q/qemu-arm", "qemu-arm", "/sys", "alpine:latest");
    assert!(script.starts_with("#!/bin/bash\nset -e\n\n# Docker QEMU Runner Script\nQEMU_PATH=\"/q/qemu-arm\"\nQEMU_BINARY=\"qemu-arm\"\nSYSROOT=\"/sys\"\nDOCKER_IMAGE=\"alpine:latest\"\n\nif [[ $# -lt 1 ]]; then\n"));
    assert!(script.ends_with("docker exec \"$CONTAINER_ID\" /usr/bin/$QEMU_BINARY -L /sysroot /tmp/$BINARY_NAME \"$@\"\n"));
    assert!(script.contains("cleanup() {\n    docker rm -f \"$CONTAINER_ID\" >/dev/null 2>&1 || true\n}\ntrap cleanup EXIT\n"));
}

#[test]
fn wine_runner_is_reported() {
    let mut env = CrossEnv::new();
    env.set_cc("gcc");
    let configured = setup_wine_runner(&mut env);
    assert_eq!(configured, env.runner == Some("wine".to_string()));
    assert_eq!(env.cc, Some("gcc".to_string()));
}

#[test]
fn linux_runner_only_for_a_foreign_architecture() {
    let kind = cargo_cross::platform::linux::runner_kind;
    assert_eq!(kind(Command::Build, &host("linux", "x86_64"), Arch::Aarch64), RunnerKind::NoRunner);
    assert_eq!(kind(Command::Check, &host("darwin", "aarch64"), Arch::X86_64), RunnerKind::NoRunner);
    assert_eq!(kind(Command::Run, &host("linux", "x86_64"), Arch::Aarch64), RunnerKind::Qemu);
    assert_eq!(kind(Command::Test, &host("linux", "aarch64"), Arch::Riscv64), RunnerKind::Qemu);
    assert_eq!(kind(Command::Run, &host("linux", "x86_64"), Arch::I686), RunnerKind::NoRunner);
    assert_eq!(kind(Command::Run, &host("linux", "x86_64"), Arch::X86_64), RunnerKind::NoRunner);
    assert_eq!(kind(Command::Bench, &host("linux", "aarch64"), Arch::Armv7), RunnerKind::NoRunner);
    assert_eq!(kind(Command::Test, &host("darwin", "aarch64"), Arch::X86_64), RunnerKind::DockerQemu);
    assert_eq!(kind(Command::Test, &host("darwin", "aarch64"), Arch::Aarch64), RunnerKind::NoRunner);
    assert_eq!(kind(Command::Bench, &host("windows", "x86_64"), Arch::Aarch64), RunnerKind::DockerQemu);
    assert_eq!(kind(Command::Run, &host("freebsd", "x86_64"), Arch::S390x), RunnerKind::DockerQemu);
}

#[test]
fn first_entry_by_name() {
    let names: Vec<String> =
        ["Safari.app", "Xcode.txt", "Xcode.app", "Xcode-beta.app", "MacOSX26.2.sdk"].iter().map(|s| s.to_string()).collect();
    assert_eq!(first_named(&names, "Xcode", ".app", 0), Some(2));
    assert_eq!(first_named(&names, "Xcode", ".app", 3), Some(3));
    assert_eq!(first_named(&names, "Xcode", ".app", 4), None);
    assert_eq!(first_named(&names, "Xcode", ".app", 99), None);
    assert_eq!(first_named(&names, "MacOSX", "", 0), Some(4));
    assert_eq!(first_named(&names, "iPhoneOS", "", 0), None);
    assert_eq!(first_named(&vec![], "", "", 0), None);
    assert_eq!(first_named(&names, "", "", 0), Some(0));
}

#[test]
fn apple_names_and_paths() {
    assert_eq!(
        AppleSdkType::MacOS.sdk_subpath("14.0"),
        "Platforms/MacOSX.platform/Developer/SDKs/MacOSX14.0.sdk"
    );
    assert_eq!(
        AppleSdkType::IPhoneSimulator.sdk_subpath("17.0"),
        "Platforms/iPhoneSimulator.platform/Developer/SDKs/iPhoneSimulator17.0.sdk"
    );
    assert_eq!(cargo_cross::platform::darwin::linker_name("aarch64-apple-darwin25.2"), "aarch64-apple-darwin25.2-ld");
    assert_eq!(cargo_cross::platform::ios::ioscross_linker("arm64"), "arm64-apple-darwin11-ld");
    assert_eq!(cargo_cross::env::library_path_var(true), "DYLD_LIBRARY_PATH");
    assert_eq!(cargo_cross::env::library_path_var(false), "LD_LIBRARY_PATH");
}
