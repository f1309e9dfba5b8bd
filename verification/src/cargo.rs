//! The environment that the build tool is started with: what the toolchain
//! contributes, the user's additions on top of it, and the variables passed
//! through from the process.

use vstd::prelude::*;
use vstd::string::*;
use crate::cli::Args;
use crate::config::HostPlatform;
use crate::env::{composed, get_build_std_config, upper_name, CrossEnv, CrossEnvView};
use crate::envmap::EnvMap;
use crate::platform::{as_opt_str};
use crate::text::{opt_text, cat2, texts, joined, opt_str, replaced, starts_with, text_eq, underscored};

verus! {

/// `flags` with `flag` added, a space between them unless `flags` is empty.
pub open spec fn appended(flags: Seq<char>, flag: Seq<char>) -> Seq<char> {
    if flags.len() == 0 {
        flag
    } else {
        flags + " "@ + flag
    }
}

/// Adds a flag to a space-separated list.
pub fn append_flag(flags: &mut String, flag: &str)
    ensures
        final(flags)@ == appended(old(flags)@, flag@),
{
    if flags.as_str().unicode_len() > 0 {
        flags.append(" ");
    } else {
        proof {
            assert(flags@ + flag@ =~= flag@);
        }
    }
    flags.append(flag);
}

/// `flags` with `flag` added where there is one.
pub open spec fn appended_opt(flags: Seq<char>, flag: Option<Seq<char>>) -> Seq<char> {
    match flag {
        Some(f) => appended(flags, f),
        None => flags,
    }
}

/// `flags` with each of `more` added in order.
pub open spec fn appended_all(flags: Seq<char>, more: Seq<String>) -> Seq<char>
    decreases more.len(),
{
    if more.len() == 0 {
        flags
    } else {
        appended(appended_all(flags, more.drop_last()), more.last()@)
    }
}

/// The flag that sets how the C runtime is linked.
pub open spec fn crt_static_flag(choice: Option<bool>) -> Option<Seq<char>> {
    match choice {
        Some(true) => Some("-C target-feature=+crt-static"@),
        Some(false) => Some("-C target-feature=-crt-static"@),
        None => None,
    }
}

/// The flags for the Rust compiler: those of the process, then those of the
/// toolchain, then the user's, in the order in which the options are listed.
pub open spec fn rustflags_of(args: Args, toolchain_flags: Seq<Seq<char>>, current: Seq<char>) -> Seq<char> {
    let f = current;
    let f = if toolchain_flags.len() > 0 {
        appended(f, joined(toolchain_flags, " "@))
    } else {
        f
    };
    let f = appended_opt(f, crt_static_flag(args.build.crt_static));
    let f = if args.build.panic_immediate_abort {
        appended(f, "-Zunstable-options -Cpanic=immediate-abort"@)
    } else {
        f
    };
    let f = match args.build.fmt_debug {
        Some(v) => appended(f, "-Zfmt-debug="@ + v@),
        None => f,
    };
    let f = match args.build.location_detail {
        Some(v) => appended(f, "-Zlocation-detail="@ + v@),
        None => f,
    };
    appended_all(f, args.build.rustflags@)
}

/// Assembles the flags for the Rust compiler. `current` is the value of
/// `RUSTFLAGS` in the process (empty where unset).
pub fn build_rustflags(args: &Args, cross_env: &CrossEnv, current: &str) -> (r: String)
    ensures
        r@ == rustflags_of(*args, cross_env@.rustflags, current@),
{
    let mut flags = String::from_str(current);
    if let Some(f) = cross_env.rustflags_string() {
        append_flag(&mut flags, f.as_str());
    }
    match args.build.crt_static {
        Some(true) => append_flag(&mut flags, "-C target-feature=+crt-static"),
        Some(false) => append_flag(&mut flags, "-C target-feature=-crt-static"),
        None => {},
    }
    if args.build.panic_immediate_abort {
        append_flag(&mut flags, "-Zunstable-options -Cpanic=immediate-abort");
    }
    if let Some(v) = &args.build.fmt_debug {
        append_flag(&mut flags, cat2("-Zfmt-debug=", v.as_str()).as_str());
    }
    if let Some(v) = &args.build.location_detail {
        append_flag(&mut flags, cat2("-Zlocation-detail=", v.as_str()).as_str());
    }
    let ghost base = flags@;
    let mut i: usize = 0;
    while i < args.build.rustflags.len()
        invariant
            i <= args.build.rustflags.len(),
            flags@ == appended_all(base, args.build.rustflags@.subrange(0, i as int)),
        decreases args.build.rustflags.len() - i,
    {
        proof {
            assert(args.build.rustflags@.subrange(0, i + 1).drop_last()
                =~= args.build.rustflags@.subrange(0, i as int));
        }
        append_flag(&mut flags, args.build.rustflags[i].as_str());
        i += 1;
    }
    proof {
        assert(args.build.rustflags@.subrange(0, args.build.rustflags.len() as int)
            =~= args.build.rustflags@);
    }
    flags
}

/// The variables that make the build tool treat the host as a target.
pub open spec fn with_host_config(m: Map<Seq<char>, Seq<char>>) -> Map<Seq<char>, Seq<char>> {
    m.insert("CARGO_UNSTABLE_HOST_CONFIG"@, "true"@).insert(
        "CARGO_UNSTABLE_TARGET_APPLIES_TO_HOST"@,
        "true"@,
    ).insert("CARGO_TARGET_APPLIES_TO_HOST"@, "false"@)
}

/// Adds the variables that make the build tool treat the host as a target.
pub fn add_host_config_env(env: &mut EnvMap)
    ensures
        final(env)@ == with_host_config(old(env)@),
{
    env.insert(String::from_str("CARGO_UNSTABLE_HOST_CONFIG"), String::from_str("true"));
    env.insert(String::from_str("CARGO_UNSTABLE_TARGET_APPLIES_TO_HOST"), String::from_str("true"));
    env.insert(String::from_str("CARGO_TARGET_APPLIES_TO_HOST"), String::from_str("false"));
}

/// `m` with `value`, where there is one, under `name`.
pub open spec fn with_var(m: Map<Seq<char>, Seq<char>>, name: Seq<char>, value: Option<Seq<char>>) -> Map<
    Seq<char>,
    Seq<char>,
> {
    match value {
        Some(v) => m.insert(name, v),
        None => m,
    }
}

/// `m` with `1` or another fixed value under `name` where the switch is on.
pub open spec fn with_switch(m: Map<Seq<char>, Seq<char>>, name: Seq<char>, on: bool, value: Seq<char>) -> Map<
    Seq<char>,
    Seq<char>,
> {
    if on {
        m.insert(name, value)
    } else {
        m
    }
}

fn put_var(env: &mut EnvMap, name: &str, value: Option<&str>)
    ensures
        final(env)@ == with_var(old(env)@, name@, opt_str(value)),
{
    if let Some(v) = value {
        env.insert(String::from_str(name), String::from_str(v));
    }
}

fn put_switch(env: &mut EnvMap, name: &str, on: bool, value: &str)
    ensures
        final(env)@ == with_switch(old(env)@, name@, on, value@),
{
    if on {
        env.insert(String::from_str(name), String::from_str(value));
    }
}

/// The compiler wrapper: the cache where it is enabled, else the user's.
pub open spec fn with_wrapper(m: Map<Seq<char>, Seq<char>>, args: Args) -> Map<Seq<char>, Seq<char>> {
    if args.build.enable_sccache {
        m.insert("RUSTC_WRAPPER"@, "sccache"@)
    } else {
        with_var(m, "RUSTC_WRAPPER"@, opt_text(args.build.rustc_wrapper))
    }
}

/// Adds the compiler wrapper.
pub fn add_wrapper_env(env: &mut EnvMap, args: &Args)
    ensures
        final(env)@ == with_wrapper(old(env)@, *args),
{
    if args.build.enable_sccache {
        env.insert(String::from_str("RUSTC_WRAPPER"), String::from_str("sccache"));
    } else {
        put_var(env, "RUSTC_WRAPPER", as_opt_str(&args.build.rustc_wrapper));
    }
}

/// The variables of the process whose name starts with `prefix` and whose
/// value is not empty, on top of `m`.
pub open spec fn passed_through(m: Map<Seq<char>, Seq<char>>, vars: Seq<(String, String)>, prefix: Seq<char>) -> Map<
    Seq<char>,
    Seq<char>,
>
    decreases vars.len(),
{
    if vars.len() == 0 {
        m
    } else {
        let rest = passed_through(m, vars.drop_last(), prefix);
        let (k, v) = vars.last();
        if prefix.is_prefix_of(k@) && v@.len() > 0 {
            rest.insert(k@, v@)
        } else {
            rest
        }
    }
}

/// The value of the first of `vars` named `name`, where it is not empty.
pub open spec fn ambient(vars: Seq<(String, String)>, name: Seq<char>) -> Option<Seq<char>>
    decreases vars.len(),
{
    if vars.len() == 0 {
        None
    } else if vars[0].0@ == name {
        if vars[0].1@.len() > 0 {
            Some(vars[0].1@)
        } else {
            None
        }
    } else {
        ambient(vars.drop_first(), name)
    }
}

/// Looks a variable of the process up; an empty value counts as unset.
pub fn ambient_var<'a>(vars: &'a Vec<(String, String)>, name: &str) -> (r: Option<&'a str>)
    ensures
        opt_str(r) == ambient(vars@, name@),
{
    let mut i: usize = 0;
    proof {
        assert(vars@.subrange(0, vars.len() as int) =~= vars@);
    }
    while i < vars.len()
        invariant
            i <= vars.len(),
            ambient(vars@, name@) == ambient(vars@.subrange(i as int, vars.len() as int), name@),
        decreases vars.len() - i,
    {
        proof {
            assert(vars@.subrange(i as int, vars.len() as int).drop_first() =~= vars@.subrange(
                i + 1,
                vars.len() as int,
            ));
        }
        if text_eq(vars[i].0.as_str(), name) {
            if vars[i].1.as_str().unicode_len() > 0 {
                return Some(vars[i].1.as_str());
            } else {
                return None;
            }
        }
        i += 1;
    }
    None
}

/// The cache's variables: those of the process first, then the user's
/// options, which win.
pub open spec fn with_sccache(m: Map<Seq<char>, Seq<char>>, args: Args, vars: Seq<(String, String)>) -> Map<
    Seq<char>,
    Seq<char>,
> {
    let m = passed_through(m, vars, "SCCACHE_"@);
    let m = with_var(m, "SCCACHE_DIR"@, opt_text(args.build.sccache_dir));
    let m = with_var(m, "SCCACHE_CACHE_SIZE"@, opt_text(args.build.sccache_cache_size));
    let m = with_var(m, "SCCACHE_IDLE_TIMEOUT"@, opt_text(args.build.sccache_idle_timeout));
    let m = with_var(m, "SCCACHE_LOG"@, opt_text(args.build.sccache_log));
    let m = with_switch(m, "SCCACHE_NO_DAEMON"@, args.build.sccache_no_daemon, "1"@);
    with_switch(m, "SCCACHE_DIRECT"@, args.build.sccache_direct, "true"@)
}

/// Adds the cache's variables; the user's options win over the process's.
pub fn add_sccache_env(env: &mut EnvMap, args: &Args, vars: &Vec<(String, String)>)
    ensures
        final(env)@ == with_sccache(old(env)@, *args, vars@),
{
    let ghost base = env@;
    let mut i: usize = 0;
    while i < vars.len()
        invariant
            i <= vars.len(),
            env@ == passed_through(base, vars@.subrange(0, i as int), "SCCACHE_"@),
        decreases vars.len() - i,
    {
        proof {
            assert(vars@.subrange(0, i + 1).drop_last() =~= vars@.subrange(0, i as int));
        }
        if starts_with(vars[i].0.as_str(), "SCCACHE_") && vars[i].1.as_str().unicode_len() > 0 {
            env.insert(vars[i].0.clone(), vars[i].1.clone());
        }
        i += 1;
    }
    proof {
        assert(vars@.subrange(0, vars.len() as int) =~= vars@);
    }
    put_var(env, "SCCACHE_DIR", as_opt_str(&args.build.sccache_dir));
    put_var(env, "SCCACHE_CACHE_SIZE", as_opt_str(&args.build.sccache_cache_size));
    put_var(env, "SCCACHE_IDLE_TIMEOUT", as_opt_str(&args.build.sccache_idle_timeout));
    put_var(env, "SCCACHE_LOG", as_opt_str(&args.build.sccache_log));
    put_switch(env, "SCCACHE_NO_DAEMON", args.build.sccache_no_daemon, "1");
    put_switch(env, "SCCACHE_DIRECT", args.build.sccache_direct, "true");
}

/// The variables of the C compiler driver: the user's switches, then two
/// variables of the process passed through.
pub open spec fn with_cc_crate(m: Map<Seq<char>, Seq<char>>, args: Args, vars: Seq<(String, String)>) -> Map<
    Seq<char>,
    Seq<char>,
> {
    let m = with_switch(m, "CRATE_CC_NO_DEFAULTS"@, args.build.cc_no_defaults, "1"@);
    let m = with_switch(m, "CC_SHELL_ESCAPED_FLAGS"@, args.build.cc_shell_escaped_flags, "1"@);
    let m = with_switch(
        m,
        "CC_ENABLE_DEBUG_OUTPUT"@,
        args.build.cc_enable_debug || args.build.verbose_level > 0,
        "1"@,
    );
    let m = with_var(m, "CC_FORCE_DISABLE"@, ambient(vars, "CC_FORCE_DISABLE"@));
    with_var(m, "CC_KNOWN_WRAPPER_CUSTOM"@, ambient(vars, "CC_KNOWN_WRAPPER_CUSTOM"@))
}

/// Adds the variables of the C compiler driver.
pub fn add_cc_crate_env(env: &mut EnvMap, args: &Args, vars: &Vec<(String, String)>)
    ensures
        final(env)@ == with_cc_crate(old(env)@, *args, vars@),
{
    put_switch(env, "CRATE_CC_NO_DEFAULTS", args.build.cc_no_defaults, "1");
    put_switch(env, "CC_SHELL_ESCAPED_FLAGS", args.build.cc_shell_escaped_flags, "1");
    put_switch(
        env,
        "CC_ENABLE_DEBUG_OUTPUT",
        args.build.cc_enable_debug || args.build.verbose_level > 0,
        "1",
    );
    put_var(env, "CC_FORCE_DISABLE", ambient_var(vars, "CC_FORCE_DISABLE"));
    put_var(env, "CC_KNOWN_WRAPPER_CUSTOM", ambient_var(vars, "CC_KNOWN_WRAPPER_CUSTOM"));
}

/// `m` with the user's flags added after those that are there under the
/// target-specific name; the result goes under both names.
pub open spec fn with_user_flags(
    m: Map<Seq<char>, Seq<char>>,
    flags: Option<Seq<char>>,
    specific: Seq<char>,
    generic: Seq<char>,
) -> Map<Seq<char>, Seq<char>> {
    match flags {
        Some(f) => {
            let all = if m.contains_key(specific) {
                appended(m[specific], f)
            } else {
                f
            };
            m.insert(specific, all).insert(generic, all)
        },
        None => m,
    }
}

fn put_user_flags(env: &mut EnvMap, flags: Option<&str>, prefix: &str, lower: &str, generic: &str)
    ensures
        final(env)@ == with_user_flags(old(env)@, opt_str(flags), prefix@ + lower@, generic@),
{
    if let Some(f) = flags {
        let name = cat2(prefix, lower);
        let all = match env.get(name.as_str()) {
            Some(existing) => {
                let mut all = existing.clone();
                append_flag(&mut all, f);
                all
            },
            None => String::from_str(f),
        };
        env.insert(name, all.clone());
        env.insert(String::from_str(generic), all);
    }
}

/// The user's compiler flags on top of the toolchain's, and the user's
/// choice of C++ library.
pub open spec fn with_compiler_flags(m: Map<Seq<char>, Seq<char>>, args: Args, lower: Seq<char>) -> Map<
    Seq<char>,
    Seq<char>,
> {
    let m = with_user_flags(m, opt_text(args.build.cflags), "CFLAGS_"@ + lower, "CFLAGS"@);
    let m = with_user_flags(m, opt_text(args.build.cxxflags), "CXXFLAGS_"@ + lower, "CXXFLAGS"@);
    let m = with_user_flags(m, opt_text(args.build.ldflags), "LDFLAGS_"@ + lower, "LDFLAGS"@);
    match args.build.cxxstdlib {
        Some(l) => m.insert("CXXSTDLIB_"@ + lower, l@).insert("CXXSTDLIB"@, l@),
        None => m,
    }
}

/// Adds the user's compiler flags after the toolchain's; they never replace
/// them.
pub fn add_compiler_flags_env(env: &mut EnvMap, args: &Args, target_lower: &str)
    ensures
        final(env)@ == with_compiler_flags(old(env)@, *args, target_lower@),
{
    put_user_flags(env, as_opt_str(&args.build.cflags), "CFLAGS_", target_lower, "CFLAGS");
    put_user_flags(env, as_opt_str(&args.build.cxxflags), "CXXFLAGS_", target_lower, "CXXFLAGS");
    put_user_flags(env, as_opt_str(&args.build.ldflags), "LDFLAGS_", target_lower, "LDFLAGS");
    if let Some(l) = &args.build.cxxstdlib {
        env.insert(cat2("CXXSTDLIB_", target_lower), l.clone());
        env.insert(String::from_str("CXXSTDLIB"), l.clone());
    }
}

/// The user's choice where there is one, else the toolchain's.
pub open spec fn preferred(user: Option<Seq<char>>, toolchain: Option<Seq<char>>) -> Option<Seq<char>> {
    if user.is_some() {
        user
    } else {
        toolchain
    }
}

/// The toolchain's facts with the user's tools in place of its own. A linker
/// of the user's replaces the toolchain's; the choice of the default linker
/// leaves no linker at all.
pub open spec fn overridden(e: CrossEnvView, args: Args) -> CrossEnvView {
    CrossEnvView {
        cc: preferred(opt_text(args.build.cc), e.cc),
        cxx: preferred(opt_text(args.build.cxx), e.cxx),
        ar: preferred(opt_text(args.build.ar), e.ar),
        linker: if args.build.linker.is_some() {
            opt_text(args.build.linker)
        } else if args.build.use_default_linker {
            None
        } else {
            e.linker
        },
        ..e
    }
}

/// Puts the tools that the user named in place of the toolchain's.
pub fn apply_tool_overrides(env: &mut CrossEnv, args: &Args)
    ensures
        final(env)@ == overridden(old(env)@, *args),
{
    if let Some(cc) = &args.build.cc {
        env.set_cc(cc.as_str());
    }
    if let Some(cxx) = &args.build.cxx {
        env.set_cxx(cxx.as_str());
    }
    if let Some(ar) = &args.build.ar {
        env.set_ar(ar.as_str());
    }
    if let Some(linker) = &args.build.linker {
        env.set_linker(linker.as_str());
    } else if args.build.use_default_linker {
        env.linker = None;
    }
}

/// Whether the process already names a compiler for the target, under the
/// target-specific name or the generic one. Provisioning is then left out.
pub fn preconfigured(vars: &Vec<(String, String)>, target: &str) -> (r: bool)
    ensures
        r == (ambient(vars@, "CC_"@ + replaced(target@, '-', '_')).is_some() || ambient(
            vars@,
            "CC"@,
        ).is_some()),
{
    let specific = cat2("CC_", underscored(target).as_str());
    ambient_var(vars, specific.as_str()).is_some() || ambient_var(vars, "CC").is_some()
}

/// What of the process environment reaches the build.
#[derive(Debug, Clone)]
pub struct Ambient {
    /// Value of the search path (empty where unset).
    pub path: String,
    /// Value of the host's run-time library search path (empty where unset).
    pub library_path: String,
    /// Value of `RUSTFLAGS` (empty where unset).
    pub rustflags: String,
    /// All variables of the process, each name once.
    pub vars: Vec<(String, String)>,
}

/// The environment of the build after the toolchain's part `m`.
pub open spec fn finished(
    m: Map<Seq<char>, Seq<char>>,
    target: Seq<char>,
    args: Args,
    toolchain_flags: Seq<Seq<char>>,
    host_triple: Seq<char>,
    amb: Ambient,
) -> Map<Seq<char>, Seq<char>> {
    let m = if !args.no_cargo_target && target == host_triple {
        with_host_config(m)
    } else {
        m
    };
    let flags = rustflags_of(args, toolchain_flags, amb.rustflags@);
    let m = if flags.len() > 0 {
        m.insert("RUSTFLAGS"@, flags)
    } else {
        m
    };
    let m = with_wrapper(m, args);
    let m = with_sccache(m, args, amb.vars@);
    let m = with_cc_crate(m, args, amb.vars@);
    let m = with_compiler_flags(m, args, replaced(target, '-', '_'));
    let m = with_var(m, "CARGO_TRIM_PATHS"@, opt_text(args.build.cargo_trim_paths));
    with_var(m, "RUSTC_BOOTSTRAP"@, opt_text(args.build.rustc_bootstrap))
}

/// Assembles the environment that the build tool is started with for
/// `target`.
pub fn build_cargo_env(target: &str, args: &Args, cross_env: &CrossEnv, host: &HostPlatform, amb: &Ambient) -> (env:
    EnvMap)
    ensures
        env@ == finished(
            composed(
                cross_env@,
                replaced(target@, '-', '_'),
                upper_name(target@),
                if host.os@ == "windows"@ { ";"@ } else { ":"@ },
                host.os@ == "darwin"@,
                amb.path@,
                amb.library_path@,
            ),
            target@,
            *args,
            cross_env@.rustflags,
            host.triple@,
            *amb,
        ),
{
    let target_lower = underscored(target);
    let mut env = cross_env.build_env(target, host, amb.path.as_str(), amb.library_path.as_str());
    if !args.no_cargo_target && text_eq(target, host.triple.as_str()) {
        add_host_config_env(&mut env);
    }
    let rustflags = build_rustflags(args, cross_env, amb.rustflags.as_str());
    if rustflags.as_str().unicode_len() > 0 {
        env.insert(String::from_str("RUSTFLAGS"), rustflags);
    }
    add_wrapper_env(&mut env, args);
    add_sccache_env(&mut env, args, &amb.vars);
    add_cc_crate_env(&mut env, args, &amb.vars);
    add_compiler_flags_env(&mut env, args, target_lower.as_str());
    put_var(&mut env, "CARGO_TRIM_PATHS", as_opt_str(&args.build.cargo_trim_paths));
    put_var(&mut env, "RUSTC_BOOTSTRAP", as_opt_str(&args.build.rustc_bootstrap));
    env
}

/// `v` with `name` where the switch is on.
pub open spec fn flagged(v: Seq<Seq<char>>, on: bool, name: Seq<char>) -> Seq<Seq<char>> {
    if on {
        v.push(name)
    } else {
        v
    }
}

/// `v` with `name` and the value, where there is one.
pub open spec fn optioned(v: Seq<Seq<char>>, value: Option<Seq<char>>, name: Seq<char>) -> Seq<Seq<char>> {
    match value {
        Some(x) => v.push(name).push(x),
        None => v,
    }
}

/// `v` with the value, where there is one, behind `prefix` in one argument.
pub open spec fn prefixed(v: Seq<Seq<char>>, value: Option<Seq<char>>, prefix: Seq<char>) -> Seq<Seq<char>> {
    match value {
        Some(x) => v.push(prefix + x),
        None => v,
    }
}

/// `v` with each of `values` behind `name`.
pub open spec fn repeated(v: Seq<Seq<char>>, values: Seq<String>, name: Seq<char>) -> Seq<Seq<char>>
    decreases values.len(),
{
    if values.len() == 0 {
        v
    } else {
        repeated(v, values.drop_last(), name).push(name).push(values.last()@)
    }
}

/// `v` with each of `values`.
pub open spec fn extended(v: Seq<Seq<char>>, values: Seq<String>) -> Seq<Seq<char>> {
    v + texts(values)
}

fn push_arg(argv: &mut Vec<String>, arg: String)
    ensures
        texts(final(argv)@) == texts(old(argv)@).push(arg@),
{
    argv.push(arg);
    proof {
        assert(texts(argv@) =~= texts(old(argv)@).push(arg@));
    }
}

fn push_flag(argv: &mut Vec<String>, on: bool, name: &str)
    ensures
        texts(final(argv)@) == flagged(texts(old(argv)@), on, name@),
{
    if on {
        push_arg(argv, String::from_str(name));
    }
}

fn push_option(argv: &mut Vec<String>, value: Option<&str>, name: &str)
    ensures
        texts(final(argv)@) == optioned(texts(old(argv)@), opt_str(value), name@),
{
    if let Some(x) = value {
        push_arg(argv, String::from_str(name));
        push_arg(argv, String::from_str(x));
    }
}

fn push_prefixed(argv: &mut Vec<String>, value: Option<&str>, prefix: &str)
    ensures
        texts(final(argv)@) == prefixed(texts(old(argv)@), opt_str(value), prefix@),
{
    if let Some(x) = value {
        push_arg(argv, cat2(prefix, x));
    }
}

fn push_repeated(argv: &mut Vec<String>, values: &Vec<String>, name: &str)
    ensures
        texts(final(argv)@) == repeated(texts(old(argv)@), values@, name@),
{
    let mut i: usize = 0;
    while i < values.len()
        invariant
            i <= values.len(),
            texts(argv@) == repeated(texts(old(argv)@), values@.subrange(0, i as int), name@),
        decreases values.len() - i,
    {
        proof {
            assert(values@.subrange(0, i + 1).drop_last() =~= values@.subrange(0, i as int));
        }
        push_arg(argv, String::from_str(name));
        push_arg(argv, values[i].clone());
        i += 1;
    }
    proof {
        assert(values@.subrange(0, values.len() as int) =~= values@);
    }
}

fn push_all(argv: &mut Vec<String>, values: &Vec<String>)
    ensures
        texts(final(argv)@) == extended(texts(old(argv)@), values@),
{
    let mut i: usize = 0;
    proof {
        assert(texts(argv@) + texts(values@.subrange(0, 0)) =~= texts(argv@));
    }
    while i < values.len()
        invariant
            i <= values.len(),
            texts(argv@) == texts(old(argv)@) + texts(values@.subrange(0, i as int)),
        decreases values.len() - i,
    {
        let ghost before = texts(argv@);
        push_arg(argv, values[i].clone());
        proof {
            assert(texts(values@.subrange(0, i + 1)) =~= texts(values@.subrange(0, i as int)).push(
                values@[i as int]@,
            ));
            assert(texts(argv@) =~= texts(old(argv)@) + texts(values@.subrange(0, i + 1)));
        }
        i += 1;
    }
    proof {
        assert(values@.subrange(0, values.len() as int) =~= values@);
    }
}

/// The profile: the release switch for the release profile, nothing for the
/// debug profile, and any other profile by name.
pub open spec fn profile_args(v: Seq<Seq<char>>, profile: Seq<char>) -> Seq<Seq<char>> {
    if profile == "release"@ {
        v.push("--release"@)
    } else if profile != "debug"@ {
        v.push("--profile"@).push(profile)
    } else {
        v
    }
}

/// Adds the profile.
pub fn add_profile_args(argv: &mut Vec<String>, args: &Args)
    ensures
        texts(final(argv)@) == profile_args(texts(old(argv)@), args.build.profile@),
{
    if text_eq(args.build.profile.as_str(), "release") {
        push_arg(argv, String::from_str("--release"));
    } else if !text_eq(args.build.profile.as_str(), "debug") {
        push_arg(argv, String::from_str("--profile"));
        push_arg(argv, args.build.profile.clone());
    }
}

/// The selection of features.
pub open spec fn feature_args(v: Seq<Seq<char>>, args: Args) -> Seq<Seq<char>> {
    let v = optioned(v, opt_text(args.build.features), "--features"@);
    let v = flagged(v, args.build.no_default_features, "--no-default-features"@);
    flagged(v, args.build.all_features, "--all-features"@)
}

/// Adds the selection of features.
pub fn add_feature_args(argv: &mut Vec<String>, args: &Args)
    ensures
        texts(final(argv)@) == feature_args(texts(old(argv)@), *args),
{
    push_option(argv, as_opt_str(&args.build.features), "--features");
    push_flag(argv, args.build.no_default_features, "--no-default-features");
    push_flag(argv, args.build.all_features, "--all-features");
}

/// The selection of packages and of what to build of them.
pub open spec fn package_args(v: Seq<Seq<char>>, args: Args) -> Seq<Seq<char>> {
    let v = optioned(v, opt_text(args.build.package), "--package"@);
    let v = flagged(v, args.build.workspace, "--workspace"@);
    let v = optioned(v, opt_text(args.build.exclude), "--exclude"@);
    let v = optioned(v, opt_text(args.build.bin_target), "--bin"@);
    let v = flagged(v, args.build.build_bins, "--bins"@);
    let v = flagged(v, args.build.build_lib, "--lib"@);
    let v = optioned(v, opt_text(args.build.example_target), "--example"@);
    let v = flagged(v, args.build.build_examples, "--examples"@);
    let v = optioned(v, opt_text(args.build.test_target), "--test"@);
    let v = flagged(v, args.build.build_tests, "--tests"@);
    let v = optioned(v, opt_text(args.build.bench_target), "--bench"@);
    let v = flagged(v, args.build.build_benches, "--benches"@);
    let v = flagged(v, args.build.build_all_targets, "--all-targets"@);
    optioned(v, opt_text(args.build.manifest_path), "--manifest-path"@)
}

/// Adds the selection of packages and of what to build of them.
pub fn add_package_args(argv: &mut Vec<String>, args: &Args)
    ensures
        texts(final(argv)@) == package_args(texts(old(argv)@), *args),
{
    push_option(argv, as_opt_str(&args.build.package), "--package");
    push_flag(argv, args.build.workspace, "--workspace");
    push_option(argv, as_opt_str(&args.build.exclude), "--exclude");
    push_option(argv, as_opt_str(&args.build.bin_target), "--bin");
    push_flag(argv, args.build.build_bins, "--bins");
    push_flag(argv, args.build.build_lib, "--lib");
    push_option(argv, as_opt_str(&args.build.example_target), "--example");
    push_flag(argv, args.build.build_examples, "--examples");
    push_option(argv, as_opt_str(&args.build.test_target), "--test");
    push_flag(argv, args.build.build_tests, "--tests");
    push_option(argv, as_opt_str(&args.build.bench_target), "--bench");
    push_flag(argv, args.build.build_benches, "--benches");
    push_flag(argv, args.build.build_all_targets, "--all-targets");
    push_option(argv, as_opt_str(&args.build.manifest_path), "--manifest-path");
}

/// How dependencies are resolved.
pub open spec fn dependency_args(v: Seq<Seq<char>>, args: Args) -> Seq<Seq<char>> {
    let v = flagged(v, args.build.ignore_rust_version, "--ignore-rust-version"@);
    let v = flagged(v, args.build.locked, "--locked"@);
    let v = flagged(v, args.build.offline, "--offline"@);
    let v = flagged(v, args.build.frozen, "--frozen"@);
    optioned(v, opt_text(args.build.lockfile_path), "--lockfile-path"@)
}

/// Adds how dependencies are resolved.
pub fn add_dependency_args(argv: &mut Vec<String>, args: &Args)
    ensures
        texts(final(argv)@) == dependency_args(texts(old(argv)@), *args),
{
    push_flag(argv, args.build.ignore_rust_version, "--ignore-rust-version");
    push_flag(argv, args.build.locked, "--locked");
    push_flag(argv, args.build.offline, "--offline");
    push_flag(argv, args.build.frozen, "--frozen");
    push_option(argv, as_opt_str(&args.build.lockfile_path), "--lockfile-path");
}

/// How the build is run and where its output goes.
pub open spec fn build_config_args(v: Seq<Seq<char>>, args: Args) -> Seq<Seq<char>> {
    let v = optioned(v, opt_text(args.build.jobs), "--jobs"@);
    let v = flagged(v, args.build.keep_going, "--keep-going"@);
    let v = flagged(v, args.build.future_incompat_report, "--future-incompat-report"@);
    let v = flagged(v, args.build.no_embed_metadata, "-Zno-embed-metadata"@);
    let v = optioned(v, opt_text(args.build.cargo_target_dir), "--target-dir"@);
    optioned(v, opt_text(args.build.artifact_dir), "--artifact-dir"@)
}

/// Adds how the build is run and where its output goes.
pub fn add_build_config_args(argv: &mut Vec<String>, args: &Args)
    ensures
        texts(final(argv)@) == build_config_args(texts(old(argv)@), *args),
{
    push_option(argv, as_opt_str(&args.build.jobs), "--jobs");
    push_flag(argv, args.build.keep_going, "--keep-going");
    push_flag(argv, args.build.future_incompat_report, "--future-incompat-report");
    push_flag(argv, args.build.no_embed_metadata, "-Zno-embed-metadata");
    push_option(argv, as_opt_str(&args.build.cargo_target_dir), "--target-dir");
    push_option(argv, as_opt_str(&args.build.artifact_dir), "--artifact-dir");
}

/// The crates of the standard library to build from source: the user's
/// choice, else the toolchain's; the word `true` stands for the usual crates.
pub open spec fn build_std_crates(user: Option<Seq<char>>, toolchain: Option<Seq<char>>) -> Option<Seq<char>> {
    match preferred(user, toolchain) {
        Some(s) => if s == "true"@ {
            Some("std,core,alloc,proc_macro,test,panic_abort,panic_unwind"@)
        } else {
            Some(s)
        },
        None => None,
    }
}

/// The building of the standard library from source.
pub open spec fn build_std_args(v: Seq<Seq<char>>, args: Args, toolchain: Option<Seq<char>>) -> Seq<Seq<char>> {
    let v = prefixed(v, build_std_crates(opt_text(args.build.build_std), toolchain), "-Zbuild-std="@);
    prefixed(v, opt_text(args.build.build_std_features), "-Zbuild-std-features="@)
}

/// Adds the building of the standard library from source.
pub fn add_build_std_args(argv: &mut Vec<String>, args: &Args, cross_env: &CrossEnv)
    ensures
        texts(final(argv)@) == build_std_args(texts(old(argv)@), *args, cross_env@.build_std),
{
    let chosen = match as_opt_str(&args.build.build_std) {
        Some(s) => Some(s),
        None => as_opt_str(&cross_env.build_std),
    };
    let crates = match chosen {
        Some(s) => if text_eq(s, "true") {
            Some(get_build_std_config())
        } else {
            Some(s)
        },
        None => None,
    };
    push_prefixed(argv, crates, "-Zbuild-std=");
    push_prefixed(argv, as_opt_str(&args.build.build_std_features), "-Zbuild-std-features=");
}

/// A hyphen and `n` times the letter `v`.
pub open spec fn verbose_flag(n: nat) -> Seq<char>
    decreases n,
{
    if n == 0 {
        "-"@
    } else {
        verbose_flag((n - 1) as nat) + "v"@
    }
}

/// How much the build tool says.
pub open spec fn verbosity_args(v: Seq<Seq<char>>, args: Args) -> Seq<Seq<char>> {
    let v = if args.build.verbose_level > 0 {
        v.push(verbose_flag(args.build.verbose_level as nat))
    } else {
        v
    };
    flagged(v, args.build.quiet, "--quiet"@)
}

/// Adds how much the build tool says.
pub fn add_verbosity_args(argv: &mut Vec<String>, args: &Args)
    ensures
        texts(final(argv)@) == verbosity_args(texts(old(argv)@), *args),
{
    if args.build.verbose_level > 0 {
        let mut flag = String::from_str("-");
        let mut i: u8 = 0;
        while i < args.build.verbose_level
            invariant
                i <= args.build.verbose_level,
                flag@ == verbose_flag(i as nat),
            decreases args.build.verbose_level - i,
        {
            flag.append("v");
            i += 1;
        }
        push_arg(argv, flag);
    }
    push_flag(argv, args.build.quiet, "--quiet");
}

/// The timing report: the bare switch for the word `true`, else the switch
/// with the formats.
pub open spec fn timings_arg(timings: Option<Seq<char>>) -> Option<Seq<char>> {
    match timings {
        Some(t) => if t == "true"@ {
            Some("--timings"@)
        } else {
            Some("--timings="@ + t)
        },
        None => None,
    }
}

/// What the build tool prints, and how.
pub open spec fn output_args(v: Seq<Seq<char>>, args: Args) -> Seq<Seq<char>> {
    let v = optioned(v, opt_text(args.build.message_format), "--message-format"@);
    let v = optioned(v, opt_text(args.build.color), "--color"@);
    let v = flagged(v, args.build.build_plan, "--build-plan"@);
    match timings_arg(opt_text(args.build.timings)) {
        Some(a) => v.push(a),
        None => v,
    }
}

/// Adds what the build tool prints, and how.
pub fn add_output_args(argv: &mut Vec<String>, args: &Args)
    ensures
        texts(final(argv)@) == output_args(texts(old(argv)@), *args),
{
    push_option(argv, as_opt_str(&args.build.message_format), "--message-format");
    push_option(argv, as_opt_str(&args.build.color), "--color");
    push_flag(argv, args.build.build_plan, "--build-plan");
    if let Some(t) = &args.build.timings {
        if text_eq(t.as_str(), "true") {
            push_arg(argv, String::from_str("--timings"));
        } else {
            push_arg(argv, cat2("--timings=", t.as_str()));
        }
    }
}

/// The command line of the build tool for `target`, after the program's
/// name: the toolchain, the command, where to work, the tool's own switches,
/// the target unless the build is for the host, then the options by group,
/// the further arguments, and behind `--` what is handed through.
pub open spec fn command_line(target: Seq<char>, args: Args, build_std: Option<Seq<char>>) -> Seq<Seq<char>> {
    let v = prefixed(Seq::empty(), opt_text(args.toolchain), "+"@);
    let v = v.push(args.command.name());
    let v = optioned(v, opt_text(args.build.cargo_cwd), "-C"@);
    let v = repeated(v, args.build.cargo_z_flags@, "-Z"@);
    let v = repeated(v, args.build.cargo_config@, "--config"@);
    let v = if !args.no_cargo_target {
        v.push("--target"@).push(target)
    } else {
        v
    };
    let v = profile_args(v, args.build.profile@);
    let v = feature_args(v, args);
    let v = package_args(v, args);
    let v = build_std_args(v, args, build_std);
    let v = verbosity_args(v, args);
    let v = output_args(v, args);
    let v = dependency_args(v, args);
    let v = build_config_args(v, args);
    let v = match args.build.cargo_args {
        Some(a) => v.push(a@),
        None => v,
    };
    if args.build.passthrough_args@.len() > 0 {
        extended(v.push("--"@), args.build.passthrough_args@)
    } else {
        v
    }
}

/// Builds the command line of the build tool for `target`, after the
/// program's name.
pub fn build_cargo_command(target: &str, args: &Args, cross_env: &CrossEnv) -> (argv: Vec<String>)
    ensures
        texts(argv@) == command_line(target@, *args, cross_env@.build_std),
{
    let mut argv: Vec<String> = Vec::new();
    proof {
        assert(texts(argv@) =~= Seq::<Seq<char>>::empty());
    }
    push_prefixed(&mut argv, as_opt_str(&args.toolchain), "+");
    push_arg(&mut argv, String::from_str(args.command.as_str()));
    push_option(&mut argv, as_opt_str(&args.build.cargo_cwd), "-C");
    push_repeated(&mut argv, &args.build.cargo_z_flags, "-Z");
    push_repeated(&mut argv, &args.build.cargo_config, "--config");
    if !args.no_cargo_target {
        push_arg(&mut argv, String::from_str("--target"));
        push_arg(&mut argv, String::from_str(target));
    }
    add_profile_args(&mut argv, args);
    add_feature_args(&mut argv, args);
    add_package_args(&mut argv, args);
    add_build_std_args(&mut argv, args, cross_env);
    add_verbosity_args(&mut argv, args);
    add_output_args(&mut argv, args);
    add_dependency_args(&mut argv, args);
    add_build_config_args(&mut argv, args);
    if let Some(a) = &args.build.cargo_args {
        push_arg(&mut argv, a.clone());
    }
    if args.build.passthrough_args.len() > 0 {
        push_arg(&mut argv, String::from_str("--"));
        push_all(&mut argv, &args.build.passthrough_args);
    }
    argv
}

} // verus!
