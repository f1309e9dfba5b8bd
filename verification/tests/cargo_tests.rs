use cargo_cross::cargo::append_flag;
#[test]
fn test_append_flag_empty() {
    let mut flags = String::new();
    append_flag(&mut flags, "-C opt-level=3");
    assert_eq!(flags, "-C opt-level=3");
}

#[test]
fn test_append_flag_non_empty() {
    let mut flags = String::from("-C opt-level=3");
    append_flag(&mut flags, "-C target-feature=+crt-static");
    assert_eq!(flags, "-C opt-level=3 -C target-feature=+crt-static");
}

#[test]
fn test_append_flag_multiple() {
    let mut flags = String::new();
    append_flag(&mut flags, "-C opt-level=3");
    append_flag(&mut flags, "-C target-feature=+crt-static");
    append_flag(&mut flags, "-Z build-std");
    assert_eq!(
        flags,
        "-C opt-level=3 -C target-feature=+crt-static -Z build-std"
    );
}
