use cargo_cross::config::{
    all_targets, expand_targets, get_target_config, supported_glibc_versions, Abi, Arch, Libc, Os,
};
#[test]
fn test_target_lookup() {
    assert!(get_target_config("x86_64-unknown-linux-musl").is_some());
    assert!(get_target_config("invalid-target").is_none());
}

#[test]
fn test_expand_all() {
    let targets = expand_targets("all");
    assert!(targets.len() > 50);
}

#[test]
fn test_expand_pattern() {
    let targets = expand_targets("*-linux-musl");
    assert!(!targets.is_empty());
    for target in &targets {
        assert!(target.ends_with("-linux-musl") || target.contains("-linux-musl"));
    }
}

#[test]
fn test_expand_direct() {
    let targets = expand_targets("x86_64-unknown-linux-gnu");
    assert_eq!(targets.len(), 1);
    assert_eq!(targets[0], "x86_64-unknown-linux-gnu");
}

#[test]
fn test_glibc_versions() {
    assert!(supported_glibc_versions().contains(&"2.28"));
    assert!(supported_glibc_versions().contains(&"2.31"));
}

#[test]
fn test_os_as_str() {
    assert_eq!(Os::Linux.as_str(), "linux");
    assert_eq!(Os::Windows.as_str(), "windows");
    assert_eq!(Os::Darwin.as_str(), "darwin");
    assert_eq!(Os::FreeBsd.as_str(), "freebsd");
    assert_eq!(Os::Ios.as_str(), "ios");
    assert_eq!(Os::Android.as_str(), "android");
}

#[test]
fn test_arch_as_str() {
    assert_eq!(Arch::X86_64.as_str(), "x86_64");
    assert_eq!(Arch::Aarch64.as_str(), "aarch64");
    assert_eq!(Arch::Armv7.as_str(), "armv7");
    assert_eq!(Arch::Riscv64.as_str(), "riscv64");
}

#[test]
fn test_arch_qemu_binary_name() {
    assert_eq!(Arch::Aarch64.qemu_binary_name(), Some("qemu-aarch64"));
    assert_eq!(Arch::X86_64.qemu_binary_name(), Some("qemu-x86_64"));
    assert_eq!(Arch::Armv7.qemu_binary_name(), Some("qemu-arm"));
    assert_eq!(Arch::Riscv64.qemu_binary_name(), Some("qemu-riscv64"));
}

#[test]
fn test_libc_as_str() {
    assert_eq!(Libc::Musl.as_str(), "musl");
    assert_eq!(Libc::Gnu.as_str(), "gnu");
}

#[test]
fn test_abi_as_str() {
    assert_eq!(Abi::Eabi.as_str(), "eabi");
    assert_eq!(Abi::Eabihf.as_str(), "eabihf");
}

#[test]
fn test_expand_invalid_target() {
    let targets = expand_targets("totally-invalid-target-name");
    assert!(targets.is_empty());
}

#[test]
fn test_expand_freebsd_pattern() {
    let targets = expand_targets("*-freebsd");
    assert!(!targets.is_empty());
    for target in &targets {
        assert!(target.ends_with("-freebsd"));
    }
}

#[test]
fn test_expand_darwin_pattern() {
    let targets = expand_targets("*-apple-darwin");
    assert!(!targets.is_empty());
    for target in &targets {
        assert!(target.ends_with("-apple-darwin"));
    }
}

#[test]
fn test_expand_regex_pattern() {
    // Regex mode with ~ prefix
    let targets = expand_targets("~.*linux.*(musl|gnu)");
    assert!(!targets.is_empty());
    for target in &targets {
        assert!(target.contains("linux"));
        assert!(target.contains("musl") || target.contains("gnu"));
    }
}

#[test]
fn test_expand_regex_anchored() {
    // Anchored regex
    let targets = expand_targets("~^x86_64-.*-linux-musl$");
    assert!(!targets.is_empty());
    for target in &targets {
        assert!(target.starts_with("x86_64-"));
        assert!(target.ends_with("-linux-musl"));
    }
}

#[test]
fn test_expand_glob_question_mark() {
    // ? matches single character
    let targets = expand_targets("x86_64-unknown-linux-???");
    assert!(targets.contains(&"x86_64-unknown-linux-gnu"));
    // Test with architecture - ?686 matches i686
    let targets2 = expand_targets("?686-unknown-linux-gnu");
    assert!(targets2.contains(&"i686-unknown-linux-gnu"));
}

#[test]
fn test_expand_glob_brackets() {
    // [abc] character class
    let targets = expand_targets("[xi]86_64-unknown-linux-gnu");
    assert!(targets.contains(&"x86_64-unknown-linux-gnu"));
}

#[test]
fn test_expand_glob_braces() {
    // {a,b} alternatives
    let targets = expand_targets("{x86_64,aarch64}-unknown-linux-gnu");
    assert!(targets.contains(&"x86_64-unknown-linux-gnu"));
    assert!(targets.contains(&"aarch64-unknown-linux-gnu"));
    assert_eq!(targets.len(), 2);
}

#[test]
fn test_expand_glob_braces_with_wildcard() {
    // Combine braces with wildcards
    let targets = expand_targets("{x86_64,aarch64}-*-linux-musl");
    assert!(!targets.is_empty());
    for target in &targets {
        assert!(target.starts_with("x86_64-") || target.starts_with("aarch64-"));
        assert!(target.ends_with("-linux-musl"));
    }
}

#[test]
fn test_all_targets_count() {
    let count = all_targets().len();
    assert!(count > 50, "Expected more than 50 targets, got {count}");
}

#[test]
fn test_target_config_linux_musl() {
    let config = get_target_config("aarch64-unknown-linux-musl").unwrap();
    assert_eq!(config.os, Os::Linux);
    assert_eq!(config.arch, Arch::Aarch64);
    assert_eq!(config.libc, Some(Libc::Musl));
}

#[test]
fn test_target_config_windows() {
    let config = get_target_config("x86_64-pc-windows-gnu").unwrap();
    assert_eq!(config.os, Os::Windows);
    assert_eq!(config.arch, Arch::X86_64);
}

#[test]
fn test_target_config_darwin() {
    let config = get_target_config("aarch64-apple-darwin").unwrap();
    assert_eq!(config.os, Os::Darwin);
    assert_eq!(config.arch, Arch::Aarch64);
}

#[test]
fn test_target_config_android() {
    let config = get_target_config("aarch64-linux-android").unwrap();
    assert_eq!(config.os, Os::Android);
    assert_eq!(config.arch, Arch::Aarch64);
}
