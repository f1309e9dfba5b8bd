use cargo_cross::config::{glob_matches, Abi, Arch, Libc};
use cargo_cross::platform::{get_linux_bin_prefix, get_linux_folder_name, to_cmake_path};
// Tests for CMake path conversion (using path-slash crate)

#[test]
fn test_to_cmake_path_unix() {
    // Unix paths should pass through unchanged
    let path = "/home/user/project";
    assert_eq!(to_cmake_path(path), "/home/user/project");
}

#[test]
fn test_to_cmake_path_relative() {
    // Relative paths should work
    let path = "src/main.rs";
    assert_eq!(to_cmake_path(path), "src/main.rs");
}

#[test]
fn test_to_cmake_path_with_dots() {
    // Paths with . and .. should be preserved
    let path = "../project/./src";
    assert_eq!(to_cmake_path(path), "../project/./src");
}

// Note: Windows-specific path tests (C:\, UNC paths) would only work correctly
// when compiled and run on Windows. The path-slash crate handles these cases
// properly on Windows by converting backslashes to forward slashes.

#[test]
fn test_linux_bin_prefix_musl() {
    let prefix = get_linux_bin_prefix(Arch::Aarch64, Libc::Musl, None);
    assert_eq!(prefix, "aarch64-linux-musl");
}

#[test]
fn test_linux_bin_prefix_gnu() {
    let prefix = get_linux_bin_prefix(Arch::X86_64, Libc::Gnu, None);
    assert_eq!(prefix, "x86_64-linux-gnu");
}

#[test]
fn test_linux_bin_prefix_with_abi() {
    let prefix = get_linux_bin_prefix(Arch::Armv7, Libc::Musl, Some(Abi::Eabihf));
    assert_eq!(prefix, "armv7-linux-musleabihf");
}

#[test]
fn test_linux_folder_name_musl() {
    let name = get_linux_folder_name(Arch::Aarch64, Libc::Musl, None, "2.28", "2.28");
    assert_eq!(name, "aarch64-linux-musl-cross");
}

#[test]
fn test_linux_folder_name_gnu_default() {
    let name = get_linux_folder_name(Arch::X86_64, Libc::Gnu, None, "2.28", "2.28");
    assert_eq!(name, "x86_64-linux-gnu-cross");
}

#[test]
fn test_linux_folder_name_gnu_custom_version() {
    let name = get_linux_folder_name(Arch::X86_64, Libc::Gnu, None, "2.31", "2.28");
    assert_eq!(name, "x86_64-linux-gnu-2.31-cross");
}

#[test]
fn test_linux_folder_name_with_abi() {
    let name = get_linux_folder_name(Arch::Armv7, Libc::Gnu, Some(Abi::Eabihf), "2.28", "2.28");
    assert_eq!(name, "armv7-linux-gnueabihf-cross");
}

// Tests for glob pattern matching (verifying the fix for -libc++ suffix issue)

#[test]
fn test_glob_matches_clang_exact() {
    // Should match the exact clang binary
    assert!(glob_matches(
        "x86_64-apple-darwin*-clang",
        "x86_64-apple-darwin25.2-clang"
    ));
}

#[test]
fn test_glob_does_not_match_clang_plus_plus() {
    // Should NOT match clang++ when looking for clang
    // This was the bug: regex "x86_64-apple-darwin.*-clang" would match
    // "x86_64-apple-darwin25.2-clang++" because "clang" is a substring
    assert!(!glob_matches(
        "x86_64-apple-darwin*-clang",
        "x86_64-apple-darwin25.2-clang++"
    ));
}

#[test]
fn test_glob_does_not_match_clang_with_libc_suffix() {
    // Should NOT match clang++-libc++ when looking for clang
    // This was the exact bug reported: finding "clang++-libc++" instead of "clang"
    assert!(!glob_matches(
        "x86_64-apple-darwin*-clang",
        "x86_64-apple-darwin25.2-clang++-libc++"
    ));
}

#[test]
fn test_glob_matches_clang_plus_plus_exact() {
    // Should match clang++ when pattern is for clang++
    assert!(glob_matches(
        "x86_64-apple-darwin*-clang++",
        "x86_64-apple-darwin25.2-clang++"
    ));
}

#[test]
fn test_glob_does_not_match_clang_plus_plus_with_suffix() {
    // Should NOT match clang++-libc++ when looking for clang++
    assert!(!glob_matches(
        "x86_64-apple-darwin*-clang++",
        "x86_64-apple-darwin25.2-clang++-libc++"
    ));
}

#[test]
fn test_glob_matches_aarch64_darwin_clang() {
    assert!(glob_matches(
        "aarch64-apple-darwin*-clang",
        "aarch64-apple-darwin25.2-clang"
    ));
    assert!(!glob_matches(
        "aarch64-apple-darwin*-clang",
        "aarch64-apple-darwin25.2-clang++"
    ));
}

#[test]
fn test_glob_matches_different_darwin_versions() {
    let pattern = "x86_64-apple-darwin*-clang";
    assert!(glob_matches(pattern, "x86_64-apple-darwin24.0-clang"));
    assert!(glob_matches(pattern, "x86_64-apple-darwin25.2-clang"));
    assert!(glob_matches(pattern, "x86_64-apple-darwin26.0-clang"));
    // Should not match clang++ variants
    assert!(!glob_matches(pattern, "x86_64-apple-darwin24.0-clang++"));
    assert!(!glob_matches(pattern, "x86_64-apple-darwin25.2-clang++"));
}

#[test]
fn test_glob_matches_ios_compiler() {
    // iOS uses darwin11 prefix
    assert!(glob_matches(
        "arm64-apple-darwin*-clang",
        "arm64-apple-darwin11-clang"
    ));
    assert!(!glob_matches(
        "arm64-apple-darwin*-clang",
        "arm64-apple-darwin11-clang++"
    ));
}

#[test]
fn test_x32_folder_names() {

    // Test x32 gnu with glibc version
    let folder = get_linux_folder_name(
        Arch::X86_64,
        Libc::Gnu,
        Some(Abi::X32),
        "2.17",
        "",
    );
    assert_eq!(folder, "x86_64-linux-gnux32-2.17-cross");

    // Test x32 gnu with default (empty) version
    let folder = get_linux_folder_name(
        Arch::X86_64,
        Libc::Gnu,
        Some(Abi::X32),
        "",
        "",
    );
    assert_eq!(folder, "x86_64-linux-gnux32-cross");
}

#[test]
fn test_x32_bin_prefix() {

    // Test x32 gnu bin prefix
    let bin_prefix = get_linux_bin_prefix(Arch::X86_64, Libc::Gnu, Some(Abi::X32));
    assert_eq!(bin_prefix, "x86_64-linux-gnux32");
}

#[test]
fn test_aarch64_be_targets() {

    // Test aarch64_be musl
    let bin_prefix = get_linux_bin_prefix(Arch::Aarch64Be, Libc::Musl, None);
    assert_eq!(bin_prefix, "aarch64_be-linux-musl");

    let folder = get_linux_folder_name(Arch::Aarch64Be, Libc::Musl, None, "", "");
    assert_eq!(folder, "aarch64_be-linux-musl-cross");

    // Test aarch64_be gnu with version
    let bin_prefix = get_linux_bin_prefix(Arch::Aarch64Be, Libc::Gnu, None);
    assert_eq!(bin_prefix, "aarch64_be-linux-gnu");

    let folder = get_linux_folder_name(Arch::Aarch64Be, Libc::Gnu, None, "2.17", "");
    assert_eq!(folder, "aarch64_be-linux-gnu-2.17-cross");
}

#[test]
fn test_m68k_targets() {

    // Test m68k musl
    let bin_prefix = get_linux_bin_prefix(Arch::M68k, Libc::Musl, None);
    assert_eq!(bin_prefix, "m68k-linux-musl");

    let folder = get_linux_folder_name(Arch::M68k, Libc::Musl, None, "", "");
    assert_eq!(folder, "m68k-linux-musl-cross");

    // Test m68k gnu with version
    let bin_prefix = get_linux_bin_prefix(Arch::M68k, Libc::Gnu, None);
    assert_eq!(bin_prefix, "m68k-linux-gnu");

    let folder = get_linux_folder_name(Arch::M68k, Libc::Gnu, None, "2.17", "");
    assert_eq!(folder, "m68k-linux-gnu-2.17-cross");
}

#[test]
fn test_csky_targets() {

    // Test csky gnuabiv2
    let bin_prefix = get_linux_bin_prefix(Arch::Csky, Libc::Gnu, Some(Abi::GnuAbiv2));
    assert_eq!(bin_prefix, "csky-linux-gnuabiv2");

    let folder = get_linux_folder_name(Arch::Csky, Libc::Gnu, Some(Abi::GnuAbiv2), "", "");
    assert_eq!(folder, "csky-linux-gnuabiv2-cross");

    let folder = get_linux_folder_name(Arch::Csky, Libc::Gnu, Some(Abi::GnuAbiv2), "2.17", "");
    assert_eq!(folder, "csky-linux-gnuabiv2-2.17-cross");

    // Test csky gnuabiv2hf
    let bin_prefix = get_linux_bin_prefix(Arch::Csky, Libc::Gnu, Some(Abi::GnuAbiv2Hf));
    assert_eq!(bin_prefix, "csky-linux-gnuabiv2hf");

    let folder = get_linux_folder_name(Arch::Csky, Libc::Gnu, Some(Abi::GnuAbiv2Hf), "", "");
    assert_eq!(folder, "csky-linux-gnuabiv2hf-cross");

    let folder = get_linux_folder_name(Arch::Csky, Libc::Gnu, Some(Abi::GnuAbiv2Hf), "2.17", "");
    assert_eq!(folder, "csky-linux-gnuabiv2hf-2.17-cross");
}
