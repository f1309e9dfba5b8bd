use cargo_cross::config::{
    expand_trimmed, all_targets, expand_targets, get_target_config, glob_matches, supported_freebsd_versions_str,
    supported_glibc_versions_str, supported_iphone_sdk_versions_str,
    supported_macos_sdk_versions_str, target_table, version_listed, supported_freebsd_versions,
    Arch, HostPlatform, Os,
};
use cargo_cross::text::{compare, contains_text, join, split_list, underscored, dashed, TextOrder};

#[test]
fn expand_all_holds_every_registered_triple() {
    let expanded = expand_targets("all");
    for t in all_targets() {
        assert!(expanded.contains(&t), "missing {}", t);
    }
    assert_eq!(expanded.len(), all_targets().len());
}

#[test]
fn expand_trims_the_pattern() {
    assert_eq!(expand_targets("  all \n"), expand_targets("all"));
    assert_eq!(expand_targets(" x86_64-unknown-linux-musl "), vec!["x86_64-unknown-linux-musl"]);
}

#[test]
fn expand_exact_name_is_a_singleton() {
    assert_eq!(expand_targets("x86_64-unknown-linux-musl"), vec!["x86_64-unknown-linux-musl"]);
}

#[test]
fn expand_glob_only_matching_suffix() {
    let expanded = expand_targets("*-linux-musl");
    assert!(!expanded.is_empty());
    for t in &expanded {
        assert!(t.ends_with("-linux-musl"));
    }
    let expected: Vec<&str> = {
        let mut v: Vec<&str> = all_targets().into_iter().filter(|t| t.ends_with("-linux-musl")).collect();
        v.sort_unstable();
        v
    };
    assert_eq!(expanded, expected);
}

#[test]
fn expand_regex_anchored_only() {
    let expanded = expand_targets("~^x86_64-.*-linux-musl$");
    assert_eq!(expanded, vec!["x86_64-unknown-linux-musl"]);
}

#[test]
fn expand_regex_searches_inside_the_triple() {
    let expanded = expand_targets("~freebsd");
    assert_eq!(expanded.len(), 5);
}

#[test]
fn expand_invalid_regex_or_glob_is_empty() {
    assert!(expand_targets("~(unclosed").is_empty());
    assert!(expand_targets("[unclosed").is_empty());
}

#[test]
fn expand_is_strictly_ascending() {
    for pattern in ["all", "*-linux-*", "~linux", "{x86_64,aarch64}-*"] {
        let expanded = expand_targets(pattern);
        for w in expanded.windows(2) {
            assert!(w[0] < w[1], "{} !< {}", w[0], w[1]);
        }
    }
}

#[test]
fn registry_triples_are_distinct_and_plain() {
    let table = target_table();
    assert_eq!(table.len(), 57);
    for (i, a) in table.iter().enumerate() {
        assert!(!a.target.contains('\\'));
        for b in table.iter().skip(i + 1) {
            assert!(a.target != b.target);
        }
    }
}

#[test]
fn lookup_gives_the_entry_of_the_table() {
    let c = get_target_config("armv7-unknown-linux-musleabihf").unwrap();
    assert_eq!(c.target, "armv7-unknown-linux-musleabihf");
    assert_eq!(c.os, Os::Linux);
    assert_eq!(c.arch, Arch::Armv7);
    assert!(get_target_config("").is_none());
}

#[test]
fn glob_matches_whole_name_only() {
    assert!(glob_matches("aarch64-apple-darwin*-clang", "aarch64-apple-darwin25.2-clang"));
    assert!(!glob_matches("aarch64-apple-darwin*-clang", "aarch64-apple-darwin25.2-clang++"));
    assert!(!glob_matches("aarch64-apple-darwin*-clang", "aarch64-apple-darwin25.2-clang++-libc++"));
    assert!(!glob_matches("[", "["));
    assert!(!glob_matches("abc", "xabc"));
}

#[test]
fn supported_versions_are_joined_with_comma_and_space() {
    assert_eq!(supported_freebsd_versions_str(), "13, 14, 15");
    assert_eq!(
        supported_glibc_versions_str(),
        "2.28, 2.31, 2.32, 2.33, 2.34, 2.35, 2.36, 2.37, 2.38, 2.39, 2.40, 2.41, 2.42"
    );
    assert!(supported_iphone_sdk_versions_str().starts_with("17.0, 17.2"));
    assert!(supported_macos_sdk_versions_str().ends_with("26.1, 26.2"));
    assert!(version_listed(&supported_freebsd_versions(), "14"));
    assert!(!version_listed(&supported_freebsd_versions(), "12"));
}

#[test]
fn host_platform_answers() {
    let host = HostPlatform { os: "windows", arch: "x86_64", triple: "x86_64-pc-windows-msvc".to_string() };
    assert_eq!(host.download_platform(), "windows-x86_64");
    assert!(host.is_windows() && !host.is_darwin() && !host.is_linux());
    assert_eq!(host.path_separator(), ";");
    assert!(host.can_run_natively(Arch::I686));
    assert!(!host.can_run_natively(Arch::Aarch64));
    let arm = HostPlatform { os: "linux", arch: "aarch64", triple: String::new() };
    assert_eq!(arm.path_separator(), ":");
    assert!(arm.can_run_natively(Arch::Armv7));
    assert!(!arm.can_run_natively(Arch::X86_64));
    let other = HostPlatform { os: "linux", arch: "riscv64", triple: String::new() };
    assert!(other.can_run_natively(Arch::Riscv64));
    assert!(!other.can_run_natively(Arch::S390x));
}

#[test]
fn qemu_names() {
    assert_eq!(Arch::Powerpc64le.qemu_binary_name(), Some("qemu-ppc64le"));
    assert_eq!(Arch::I586.qemu_binary_name(), Some("qemu-i386"));
    assert_eq!(Arch::X86_64h.qemu_binary_name(), None);
    assert_eq!(Arch::Arm64e.qemu_binary_name(), None);
}

#[test]
fn text_compare_orders_by_code_point() {
    assert_eq!(compare("a", "b"), TextOrder::Before);
    assert_eq!(compare("b", "a"), TextOrder::After);
    assert_eq!(compare("abc", "abc"), TextOrder::Same);
    assert_eq!(compare("ab", "abc"), TextOrder::Before);
    assert_eq!(compare("", ""), TextOrder::Same);
    assert_eq!(compare("a-b", "a/b"), TextOrder::Before);
}

#[test]
fn text_helpers() {
    assert_eq!(join(&vec!["a".to_string(), "b".to_string(), "c".to_string()], ", "), "a, b, c");
    assert_eq!(join(&vec![], ":"), "");
    assert_eq!(join(&vec!["only".to_string()], ":"), "only");
    assert_eq!(split_list("a,b\nc"), vec!["a", "b", "c"]);
    assert_eq!(split_list(""), vec![""]);
    assert_eq!(split_list("a,,b,"), vec!["a", "", "b", ""]);
    assert_eq!(underscored("x86_64-unknown-linux-gnu"), "x86_64_unknown_linux_gnu");
    assert_eq!(dashed("26.2"), "26-2");
    assert!(contains_text("x86_64-apple-darwin", "-apple-darwin"));
    assert!(!contains_text("x86_64-apple-ios", "-apple-darwin"));
    assert!(contains_text("abc", ""));
    assert!(!contains_text("ab", "abc"));
}

#[test]
fn expand_trimmed_takes_the_pattern_as_it_is() {
    assert_eq!(expand_trimmed("all").len(), target_table().len());
    assert_eq!(expand_trimmed("all"), expand_targets(" all "));
    assert!(expand_trimmed(" all ").is_empty());
    assert_eq!(expand_trimmed("aarch64-apple-darwin"), vec!["aarch64-apple-darwin"]);
    assert_eq!(expand_trimmed("*-apple-ios*"), vec!["aarch64-apple-ios", "aarch64-apple-ios-sim", "x86_64-apple-ios"]);
}
