//! The facts a toolchain contributes to a build, and the environment that
//! results from them.

use vstd::prelude::*;
use vstd::string::*;
use crate::config::HostPlatform;
use crate::envmap::EnvMap;
use crate::text::{cat2, cat3, join, joined, opt_str, opt_text, replaced, texts, to_uppercase, underscored, uppercase};

verus! {

/// What provisioning a toolchain yields. Entries are only ever added.
#[derive(Debug, Clone)]
pub struct CrossEnv {
    /// Target C compiler.
    pub cc: Option<String>,
    /// Target C++ compiler.
    pub cxx: Option<String>,
    /// Target archiver.
    pub ar: Option<String>,
    /// Linker handed to the build tool.
    pub linker: Option<String>,
    /// Program that runs a built binary.
    pub runner: Option<String>,
    /// Directories to put in front of the search path.
    pub path: Vec<String>,
    /// Flags for the Rust compiler.
    pub rustflags: Vec<String>,
    /// SDK root for Apple platforms.
    pub sdkroot: Option<String>,
    /// Directories for the run-time library search path.
    pub library_path: Vec<String>,
    /// Flags for the C compiler.
    pub cflags: Vec<String>,
    /// Flags for the C++ compiler.
    pub cxxflags: Vec<String>,
    /// Flags for the linker.
    pub ldflags: Vec<String>,
    /// Crates of the standard library to build from source.
    pub build_std: Option<String>,
    /// Further variables, by name.
    pub extra_env: EnvMap,
}

/// The mathematical content of a [`CrossEnv`].
pub struct CrossEnvView {
    pub cc: Option<Seq<char>>,
    pub cxx: Option<Seq<char>>,
    pub ar: Option<Seq<char>>,
    pub linker: Option<Seq<char>>,
    pub runner: Option<Seq<char>>,
    pub path: Seq<Seq<char>>,
    pub rustflags: Seq<Seq<char>>,
    pub sdkroot: Option<Seq<char>>,
    pub library_path: Seq<Seq<char>>,
    pub cflags: Seq<Seq<char>>,
    pub cxxflags: Seq<Seq<char>>,
    pub ldflags: Seq<Seq<char>>,
    pub build_std: Option<Seq<char>>,
    pub extra_env: Map<Seq<char>, Seq<char>>,
}

/// The content of a fresh [`CrossEnv`].
pub open spec fn empty_env() -> CrossEnvView {
    CrossEnvView {
        cc: None,
        cxx: None,
        ar: None,
        linker: None,
        runner: None,
        path: Seq::empty(),
        rustflags: Seq::empty(),
        sdkroot: None,
        library_path: Seq::empty(),
        cflags: Seq::empty(),
        cxxflags: Seq::empty(),
        ldflags: Seq::empty(),
        build_std: None,
        extra_env: Map::empty(),
    }
}

impl View for CrossEnv {
    type V = CrossEnvView;

    open spec fn view(&self) -> CrossEnvView {
        CrossEnvView {
            cc: opt_text(self.cc),
            cxx: opt_text(self.cxx),
            ar: opt_text(self.ar),
            linker: opt_text(self.linker),
            runner: opt_text(self.runner),
            path: texts(self.path@),
            rustflags: texts(self.rustflags@),
            sdkroot: opt_text(self.sdkroot),
            library_path: texts(self.library_path@),
            cflags: texts(self.cflags@),
            cxxflags: texts(self.cxxflags@),
            ldflags: texts(self.ldflags@),
            build_std: opt_text(self.build_std),
            extra_env: self.extra_env@,
        }
    }
}

impl CrossEnv {
    /// A value with nothing set.
    pub fn new() -> (r: Self)
        ensures
            r@ == empty_env(),
    {
        let r = CrossEnv {
            cc: None,
            cxx: None,
            ar: None,
            linker: None,
            runner: None,
            path: Vec::new(),
            rustflags: Vec::new(),
            sdkroot: None,
            library_path: Vec::new(),
            cflags: Vec::new(),
            cxxflags: Vec::new(),
            ldflags: Vec::new(),
            build_std: None,
            extra_env: EnvMap::new(),
        };
        proof {
            assert(r@.path =~= Seq::empty());
            assert(r@.rustflags =~= Seq::empty());
            assert(r@.library_path =~= Seq::empty());
            assert(r@.cflags =~= Seq::empty());
            assert(r@.cxxflags =~= Seq::empty());
            assert(r@.ldflags =~= Seq::empty());
        }
        r
    }

    /// Sets the C compiler.
    pub fn set_cc(&mut self, cc: &str)
        ensures
            final(self)@ == (CrossEnvView { cc: Some(cc@), ..old(self)@ }),
    {
        self.cc = Some(String::from_str(cc));
    }

    /// Sets the C++ compiler.
    pub fn set_cxx(&mut self, cxx: &str)
        ensures
            final(self)@ == (CrossEnvView { cxx: Some(cxx@), ..old(self)@ }),
    {
        self.cxx = Some(String::from_str(cxx));
    }

    /// Sets the archiver.
    pub fn set_ar(&mut self, ar: &str)
        ensures
            final(self)@ == (CrossEnvView { ar: Some(ar@), ..old(self)@ }),
    {
        self.ar = Some(String::from_str(ar));
    }

    /// Sets the linker.
    pub fn set_linker(&mut self, linker: &str)
        ensures
            final(self)@ == (CrossEnvView { linker: Some(linker@), ..old(self)@ }),
    {
        self.linker = Some(String::from_str(linker));
    }

    /// Sets the runner.
    pub fn set_runner(&mut self, runner: &str)
        ensures
            final(self)@ == (CrossEnvView { runner: Some(runner@), ..old(self)@ }),
    {
        self.runner = Some(String::from_str(runner));
    }

    /// Adds a directory for the search path.
    pub fn add_path(&mut self, path: &str)
        ensures
            final(self)@ == (CrossEnvView { path: old(self)@.path.push(path@), ..old(self)@ }),
    {
        self.path.push(String::from_str(path));
        proof {
            assert(texts(self.path@) =~= texts(old(self).path@).push(path@));
        }
    }

    /// Adds a flag for the Rust compiler.
    pub fn add_rustflag(&mut self, flag: &str)
        ensures
            final(self)@ == (CrossEnvView { rustflags: old(self)@.rustflags.push(flag@), ..old(self)@ }),
    {
        self.rustflags.push(String::from_str(flag));
        proof {
            assert(texts(self.rustflags@) =~= texts(old(self).rustflags@).push(flag@));
        }
    }

    /// Sets the SDK root.
    pub fn set_sdkroot(&mut self, path: &str)
        ensures
            final(self)@ == (CrossEnvView { sdkroot: Some(path@), ..old(self)@ }),
    {
        self.sdkroot = Some(String::from_str(path));
    }

    /// Adds a directory for the run-time library search path.
    pub fn add_library_path(&mut self, path: &str)
        ensures
            final(self)@ == (CrossEnvView { library_path: old(self)@.library_path.push(path@), ..old(self)@ }),
    {
        self.library_path.push(String::from_str(path));
        proof {
            assert(texts(self.library_path@) =~= texts(old(self).library_path@).push(path@));
        }
    }

    /// Adds a flag for the C compiler.
    pub fn add_cflag(&mut self, flag: &str)
        ensures
            final(self)@ == (CrossEnvView { cflags: old(self)@.cflags.push(flag@), ..old(self)@ }),
    {
        self.cflags.push(String::from_str(flag));
        proof {
            assert(texts(self.cflags@) =~= texts(old(self).cflags@).push(flag@));
        }
    }

    /// Adds a flag for the C++ compiler.
    pub fn add_cxxflag(&mut self, flag: &str)
        ensures
            final(self)@ == (CrossEnvView { cxxflags: old(self)@.cxxflags.push(flag@), ..old(self)@ }),
    {
        self.cxxflags.push(String::from_str(flag));
        proof {
            assert(texts(self.cxxflags@) =~= texts(old(self).cxxflags@).push(flag@));
        }
    }

    /// Adds a flag for the linker.
    pub fn add_ldflag(&mut self, flag: &str)
        ensures
            final(self)@ == (CrossEnvView { ldflags: old(self)@.ldflags.push(flag@), ..old(self)@ }),
    {
        self.ldflags.push(String::from_str(flag));
        proof {
            assert(texts(self.ldflags@) =~= texts(old(self).ldflags@).push(flag@));
        }
    }

    /// Sets the crates of the standard library to build from source.
    pub fn set_build_std(&mut self, crates: &str)
        ensures
            final(self)@ == (CrossEnvView { build_std: Some(crates@), ..old(self)@ }),
    {
        self.build_std = Some(String::from_str(crates));
    }

    /// Sets a further variable.
    pub fn set_env(&mut self, key: &str, value: &str)
        ensures
            final(self)@ == (CrossEnvView {
                extra_env: old(self)@.extra_env.insert(key@, value@),
                ..old(self)@
            }),
    {
        self.extra_env.insert(String::from_str(key), String::from_str(value));
    }

    /// The Rust compiler flags joined with spaces, if there is any.
    pub fn rustflags_string(&self) -> (r: Option<String>)
        ensures
            r.is_some() == (self@.rustflags.len() > 0),
            r.is_some() ==> r.unwrap()@ == joined(self@.rustflags, " "@),
    {
        if self.rustflags.len() == 0 {
            None
        } else {
            Some(join(&self.rustflags, " "))
        }
    }
}

/// `m` with `value`, where there is one, under both the target-specific name
/// and the generic one.
pub open spec fn with_pair(
    m: Map<Seq<char>, Seq<char>>,
    value: Option<Seq<char>>,
    specific: Seq<char>,
    generic: Seq<char>,
) -> Map<Seq<char>, Seq<char>> {
    match value {
        Some(v) => m.insert(specific, v).insert(generic, v),
        None => m,
    }
}

/// `m` with `value`, where there is one, under `name`.
pub open spec fn with_one(m: Map<Seq<char>, Seq<char>>, value: Option<Seq<char>>, name: Seq<char>) -> Map<
    Seq<char>,
    Seq<char>,
> {
    match value {
        Some(v) => m.insert(name, v),
        None => m,
    }
}

/// `m` with the flags, where there are any, joined with spaces under both names.
pub open spec fn with_flags(
    m: Map<Seq<char>, Seq<char>>,
    flags: Seq<Seq<char>>,
    specific: Seq<char>,
    generic: Seq<char>,
) -> Map<Seq<char>, Seq<char>> {
    if flags.len() > 0 {
        m.insert(specific, joined(flags, " "@)).insert(generic, joined(flags, " "@))
    } else {
        m
    }
}

/// `m` with the search path: the toolchain's directories in front of the
/// current value.
pub open spec fn with_search_path(
    m: Map<Seq<char>, Seq<char>>,
    dirs: Seq<Seq<char>>,
    sep: Seq<char>,
    current: Seq<char>,
) -> Map<Seq<char>, Seq<char>> {
    if dirs.len() > 0 {
        m.insert("PATH"@, joined(dirs, sep) + sep + current)
    } else {
        m
    }
}

/// The name of the run-time library search path on the host.
pub open spec fn library_var(darwin: bool) -> Seq<char> {
    if darwin {
        "DYLD_LIBRARY_PATH"@
    } else {
        "LD_LIBRARY_PATH"@
    }
}

/// The name of the run-time library search path on the host.
pub fn library_path_var(darwin: bool) -> (r: &'static str)
    ensures
        r@ == library_var(darwin),
{
    if darwin {
        "DYLD_LIBRARY_PATH"
    } else {
        "LD_LIBRARY_PATH"
    }
}

/// `m` with the run-time library search path: the toolchain's directories
/// in front of the current value, where that is not empty.
pub open spec fn with_library_path(
    m: Map<Seq<char>, Seq<char>>,
    dirs: Seq<Seq<char>>,
    sep: Seq<char>,
    darwin: bool,
    current: Seq<char>,
) -> Map<Seq<char>, Seq<char>> {
    if dirs.len() > 0 {
        if current.len() == 0 {
            m.insert(library_var(darwin), joined(dirs, sep))
        } else {
            m.insert(library_var(darwin), joined(dirs, sep) + sep + current)
        }
    } else {
        m
    }
}

/// The compiler, linker and runner variables of `e`.
pub open spec fn tool_vars(e: CrossEnvView, lower: Seq<char>, upper: Seq<char>) -> Map<
    Seq<char>,
    Seq<char>,
> {
    let m = Map::<Seq<char>, Seq<char>>::empty();
    let m = with_pair(m, e.cc, "CC_"@ + lower, "CC"@);
    let m = with_pair(m, e.cxx, "CXX_"@ + lower, "CXX"@);
    let m = with_pair(m, e.ar, "AR_"@ + lower, "AR"@);
    let m = with_one(m, e.linker, "CARGO_TARGET_"@ + upper + "_LINKER"@);
    with_one(m, e.runner, "CARGO_TARGET_"@ + upper + "_RUNNER"@)
}

/// The environment that `e` stands for. `lower` and `upper` are the target's
/// name as it occurs in variable names, `sep` separates the directories of a
/// search path, and the two current values are those of the process.
pub open spec fn composed(
    e: CrossEnvView,
    lower: Seq<char>,
    upper: Seq<char>,
    sep: Seq<char>,
    darwin: bool,
    current_path: Seq<char>,
    current_library_path: Seq<char>,
) -> Map<Seq<char>, Seq<char>> {
    let m = tool_vars(e, lower, upper);
    let m = with_search_path(m, e.path, sep, current_path);
    let m = with_one(m, e.sdkroot, "SDKROOT"@);
    let m = with_library_path(m, e.library_path, sep, darwin, current_library_path);
    let m = with_flags(m, e.cflags, "CFLAGS_"@ + lower, "CFLAGS"@);
    let m = with_flags(m, e.cxxflags, "CXXFLAGS_"@ + lower, "CXXFLAGS"@);
    let m = with_flags(m, e.ldflags, "LDFLAGS_"@ + lower, "LDFLAGS"@);
    m.union_prefer_right(e.extra_env)
}

/// The target's name as it occurs in the names of the build tool's own
/// variables: upper case, with `_` for `-`.
pub open spec fn upper_name(target: Seq<char>) -> Seq<char> {
    replaced(uppercase(target), '-', '_')
}

fn put_pair(m: &mut EnvMap, value: &Option<String>, prefix: &str, lower: &str, generic: &str)
    ensures
        final(m)@ == with_pair(old(m)@, opt_text(*value), prefix@ + lower@, generic@),
{
    if let Some(v) = value {
        m.insert(cat2(prefix, lower), v.clone());
        m.insert(String::from_str(generic), v.clone());
    }
}

fn put_one(m: &mut EnvMap, value: &Option<String>, name: String)
    ensures
        final(m)@ == with_one(old(m)@, opt_text(*value), name@),
{
    if let Some(v) = value {
        m.insert(name, v.clone());
    }
}

fn put_flags(m: &mut EnvMap, flags: &Vec<String>, prefix: &str, lower: &str, generic: &str)
    ensures
        final(m)@ == with_flags(old(m)@, texts(flags@), prefix@ + lower@, generic@),
{
    if flags.len() > 0 {
        let value = join(flags, " ");
        m.insert(cat2(prefix, lower), value.clone());
        m.insert(String::from_str(generic), value);
    }
}

impl CrossEnv {
    /// Assembles the environment from names that are already in the form in
    /// which they occur in variable names.
    pub fn compose(
        &self,
        lower: &str,
        upper: &str,
        sep: &str,
        darwin: bool,
        current_path: &str,
        current_library_path: &str,
    ) -> (env: EnvMap)
        ensures
            env@ == composed(
                self@,
                lower@,
                upper@,
                sep@,
                darwin,
                current_path@,
                current_library_path@,
            ),
    {
        let mut env = EnvMap::new();
        put_pair(&mut env, &self.cc, "CC_", lower, "CC");
        put_pair(&mut env, &self.cxx, "CXX_", lower, "CXX");
        put_pair(&mut env, &self.ar, "AR_", lower, "AR");
        put_one(&mut env, &self.linker, cat3("CARGO_TARGET_", upper, "_LINKER"));
        put_one(&mut env, &self.runner, cat3("CARGO_TARGET_", upper, "_RUNNER"));
        if self.path.len() > 0 {
            let dirs = join(&self.path, sep);
            env.insert(String::from_str("PATH"), cat3(dirs.as_str(), sep, current_path));
        }
        put_one(&mut env, &self.sdkroot, String::from_str("SDKROOT"));
        if self.library_path.len() > 0 {
            let dirs = join(&self.library_path, sep);
            let name = library_path_var(darwin);
            if current_library_path.unicode_len() == 0 {
                env.insert(String::from_str(name), dirs);
            } else {
                env.insert(String::from_str(name), cat3(dirs.as_str(), sep, current_library_path));
            }
        }
        put_flags(&mut env, &self.cflags, "CFLAGS_", lower, "CFLAGS");
        put_flags(&mut env, &self.cxxflags, "CXXFLAGS_", lower, "CXXFLAGS");
        put_flags(&mut env, &self.ldflags, "LDFLAGS_", lower, "LDFLAGS");
        env.extend(&self.extra_env);
        env
    }

    /// Assembles the environment for `target` on `host`. The two current
    /// values are those of the search path and of the host's run-time library
    /// search path in the process environment (empty where unset).
    pub fn build_env(
        &self,
        target: &str,
        host: &HostPlatform,
        current_path: &str,
        current_library_path: &str,
    ) -> (env: EnvMap)
        ensures
            env@ == composed(
                self@,
                replaced(target@, '-', '_'),
                upper_name(target@),
                if host.os@ == "windows"@ { ";"@ } else { ":"@ },
                host.os@ == "darwin"@,
                current_path@,
                current_library_path@,
            ),
    {
        let lower = underscored(target);
        let upper = underscored(to_uppercase(target).as_str());
        self.compose(
            lower.as_str(),
            upper.as_str(),
            host.path_separator(),
            host.is_darwin(),
            current_path,
            current_library_path,
        )
    }
}

/// The C compiler of a toolchain reaches the environment under both the
/// generic name and the target-specific one, unless a further variable of
/// the toolchain takes one of the two names.
pub proof fn lemma_compiler_under_both_names(
    e: CrossEnvView,
    lower: Seq<char>,
    upper: Seq<char>,
    sep: Seq<char>,
    darwin: bool,
    current_path: Seq<char>,
    current_library_path: Seq<char>,
)
    requires
        e.cc.is_some(),
        !e.extra_env.contains_key("CC"@),
        !e.extra_env.contains_key("CC_"@ + lower),
    ensures
        ({
            let m = composed(e, lower, upper, sep, darwin, current_path, current_library_path);
            &&& m.contains_key("CC"@)
            &&& m["CC"@] == e.cc.unwrap()
            &&& m.contains_key("CC_"@ + lower)
            &&& m["CC_"@ + lower] == e.cc.unwrap()
        }),
{
    reveal_strlit("CC");
    reveal_strlit("CC_");
    reveal_strlit("CXX");
    reveal_strlit("CXX_");
    reveal_strlit("AR");
    reveal_strlit("AR_");
    reveal_strlit("CARGO_TARGET_");
    reveal_strlit("PATH");
    reveal_strlit("SDKROOT");
    reveal_strlit("DYLD_LIBRARY_PATH");
    reveal_strlit("LD_LIBRARY_PATH");
    reveal_strlit("CFLAGS");
    reveal_strlit("CFLAGS_");
    reveal_strlit("CXXFLAGS");
    reveal_strlit("CXXFLAGS_");
    reveal_strlit("LDFLAGS");
    reveal_strlit("LDFLAGS_");
    let g = "CC"@;
    let t = "CC_"@ + lower;
    let others = seq![
        "CXX_"@ + lower,
        "CXX"@,
        "AR_"@ + lower,
        "AR"@,
        "CARGO_TARGET_"@ + upper + "_LINKER"@,
        "CARGO_TARGET_"@ + upper + "_RUNNER"@,
        "PATH"@,
        "SDKROOT"@,
        library_var(darwin),
        "CFLAGS_"@ + lower,
        "CFLAGS"@,
        "CXXFLAGS_"@ + lower,
        "CXXFLAGS"@,
        "LDFLAGS_"@ + lower,
        "LDFLAGS"@,
    ];
    assert forall|i: int| 0 <= i < others.len() implies others[i] != g && others[i] != t by {
        let o = others[i];
        assert(o.len() >= 2);
        assert(o[0] != 'C' || o[1] != 'C');
        assert(g[0] == 'C' && g[1] == 'C');
        assert(t[0] == 'C' && t[1] == 'C');
    }
    assert(g != t) by {
        assert(g.len() == 2 && t.len() >= 3);
    }
}

/// The library search flags for the directories that exist: one `-L` flag
/// for the target's own libraries, one for the compiler's.
pub open spec fn lib_flags(target_lib: Option<Seq<char>>, gcc_lib: Option<Seq<char>>) -> Seq<Seq<char>> {
    let first = match target_lib {
        Some(d) => seq!["-L "@ + d],
        None => Seq::empty(),
    };
    match gcc_lib {
        Some(d) => first.push("-L "@ + d),
        None => first,
    }
}

/// Hands the compiler's library directories to the Rust compiler.
/// `target_lib` is the directory of the target's libraries and `gcc_lib` the
/// first version directory of the compiler's own, each where it exists.
pub fn set_gcc_lib_paths(env: &mut CrossEnv, target_lib: Option<&str>, gcc_lib: Option<&str>)
    ensures
        final(env)@ == (CrossEnvView {
            rustflags: old(env)@.rustflags + lib_flags(opt_str(target_lib), opt_str(gcc_lib)),
            ..old(env)@
        }),
{
    if let Some(d) = target_lib {
        env.add_rustflag(cat2("-L ", d).as_str());
    }
    if let Some(d) = gcc_lib {
        env.add_rustflag(cat2("-L ", d).as_str());
    }
    proof {
        assert(env@.rustflags =~= old(env)@.rustflags + lib_flags(
            opt_str(target_lib),
            opt_str(gcc_lib),
        ));
    }
}

/// The arguments that point a C parser at a sysroot: the sysroot itself, the
/// compiler's own headers where found, and the sysroot's headers, those under
/// `usr` first.
pub open spec fn clang_args(
    sysroot: Seq<char>,
    gcc_include: Option<Seq<char>>,
    usr_include: Option<Seq<char>>,
    headers: Option<Seq<char>>,
) -> Seq<Seq<char>> {
    let a = seq!["--sysroot="@ + sysroot];
    let a = match gcc_include {
        Some(d) => a.push("-I"@ + d),
        None => a,
    };
    match usr_include {
        Some(d) => a.push("-I"@ + d),
        None => match headers {
            Some(d) => a.push("-I"@ + d),
            None => a,
        },
    }
}

/// Points binding generators at the toolchain's sysroot, where it exists.
/// Each directory is given where it exists.
pub fn setup_sysroot_env(
    env: &mut CrossEnv,
    sysroot: Option<&str>,
    gcc_include: Option<&str>,
    usr_include: Option<&str>,
    headers: Option<&str>,
    rust_target: &str,
)
    ensures
        final(env)@ == match sysroot {
            Some(root) => CrossEnvView {
                extra_env: old(env)@.extra_env.insert(
                    "BINDGEN_EXTRA_CLANG_ARGS_"@ + replaced(rust_target@, '-', '_'),
                    joined(
                        clang_args(root@, opt_str(gcc_include), opt_str(usr_include), opt_str(headers)),
                        " "@,
                    ),
                ),
                ..old(env)@
            },
            None => old(env)@,
        },
{
    if let Some(root) = sysroot {
        let mut args: Vec<String> = Vec::new();
        args.push(cat2("--sysroot=", root));
        if let Some(d) = gcc_include {
            args.push(cat2("-I", d));
        }
        if let Some(d) = usr_include {
            args.push(cat2("-I", d));
        } else if let Some(d) = headers {
            args.push(cat2("-I", d));
        }
        proof {
            assert(texts(args@) =~= clang_args(
                root@,
                opt_str(gcc_include),
                opt_str(usr_include),
                opt_str(headers),
            ));
        }
        let name = cat2("BINDGEN_EXTRA_CLANG_ARGS_", underscored(rust_target).as_str());
        env.set_env(name.as_str(), join(&args, " ").as_str());
    }
}

/// The crates that building the standard library from source covers.
pub fn get_build_std_config() -> (r: &'static str)
    ensures
        r@ == "std,core,alloc,proc_macro,test,panic_abort,panic_unwind"@,
{
    "std,core,alloc,proc_macro,test,panic_abort,panic_unwind"
}

} // verus!
