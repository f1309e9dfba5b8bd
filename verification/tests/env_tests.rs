use cargo_cross::config::HostPlatform;
use cargo_cross::env::CrossEnv;

fn linux_host() -> HostPlatform {
    HostPlatform { os: "linux", arch: "x86_64", triple: "x86_64-unknown-linux-gnu".to_string() }
}

#[test]
fn test_cross_env_build() {
    let mut env = CrossEnv::new();
    env.set_cc("aarch64-linux-gnu-gcc");
    env.set_cxx("aarch64-linux-gnu-g++");
    env.set_linker("aarch64-linux-gnu-gcc");

    let host = linux_host();
    let vars = env.build_env("aarch64-unknown-linux-gnu", &host, "", "");

    assert_eq!(
        vars.get("CC_aarch64_unknown_linux_gnu"),
        Some(&"aarch64-linux-gnu-gcc".to_string())
    );
    assert!(vars.contains_key("CARGO_TARGET_AARCH64_UNKNOWN_LINUX_GNU_LINKER"));
}
