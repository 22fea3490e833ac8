//! Build orchestration: the `cmake` invocations that configure, build and
//! install an entry, and how a finished command is judged.
use vstd::prelude::*;
use crate::entry::Entry;
use crate::error::{Error, Result};
use crate::generator::{build_options, build_type_name, generator_options};
use crate::layout::{build_dir_of, join_path, join_path_exec, prefix_of, src_dir_of, Roots};
use crate::text::{join_strings, joined, starts_with, lemma_differs_at};

verus! {

/// One run of an external program.
#[derive(Debug)]
pub struct Invocation {
    pub program: String,
    pub args: Vec<String>,
    /// Working directory, created before the run if absent.
    pub cwd: Option<String>,
}

/// The directory `cmake` is pointed at: the nested `llvm` directory of a
/// whole-project source tree, else the source directory itself.
pub open spec fn source_root(e: Entry, cache: Seq<char>) -> Seq<char> {
    if e.spec_setting().project {
        join_path(src_dir_of(e, cache), "llvm"@)
    } else {
        src_dir_of(e, cache)
    }
}

/// `-D<key>=<value>`
pub open spec fn define_arg(kv: (String, String)) -> Seq<char> {
    "-D"@ + kv.0@ + "="@ + kv.1@
}

pub open spec fn define_args(opts: Seq<(String, String)>) -> Seq<Seq<char>> {
    opts.map_values(|kv: (String, String)| define_arg(kv))
}

/// Arguments of the configure step, given whether `ccache` and `lld` are
/// available.
pub open spec fn configure_args(
    e: Entry,
    cache: Seq<char>,
    data: Seq<char>,
    ccache: bool,
    lld: bool,
) -> Seq<Seq<char>> {
    let s = e.spec_setting();
    generator_options(s.generator) + seq![
        source_root(e, cache),
        "-DCMAKE_INSTALL_PREFIX="@ + prefix_of(e, data),
        "-DCMAKE_BUILD_TYPE="@ + build_type_name(s.build_type),
    ] + (if ccache {
        seq!["-DLLVM_CCACHE_BUILD=ON"@]
    } else {
        seq![]
    }) + (if lld {
        seq!["-DLLVM_ENABLE_LLD=ON"@]
    } else {
        seq![]
    }) + (if s.target@.len() > 0 {
        seq!["-DLLVM_TARGETS_TO_BUILD="@ + joined(s.target.deep_view(), ";"@)]
    } else {
        seq![]
    }) + define_args(s.option@)
}

/// Arguments of the build-and-install step.
pub open spec fn build_args(e: Entry, cache: Seq<char>, nproc: nat) -> Seq<Seq<char>> {
    seq!["--build"@, build_dir_of(e, cache), "--target"@, "install"@] + build_options(
        e.spec_setting().generator,
        nproc,
        e.spec_setting().build_type,
    )
}

/// `r` runs `cmake` with the configure arguments, in the build directory.
pub open spec fn is_configure(
    r: Invocation,
    e: Entry,
    cache: Seq<char>,
    data: Seq<char>,
    ccache: bool,
    lld: bool,
) -> bool {
    &&& r.program@ == "cmake"@
    &&& r.args.deep_view() == configure_args(e, cache, data, ccache, lld)
    &&& r.cwd matches Some(d) && d@ == build_dir_of(e, cache)
}

/// `r` is the configure step for some availability of `ccache` and `lld`.
pub open spec fn configures(r: Invocation, e: Entry, cache: Seq<char>, data: Seq<char>) -> bool {
    exists|ccache: bool, lld: bool| #[trigger] is_configure(r, e, cache, data, ccache, lld)
}

/// Relies on `which::which`: whether an executable of that name is found on
/// the search path.
#[verifier::external_body]
fn found_on_path(name: &str) -> (r: bool) {
    which::which(name).is_ok()
}

impl Entry {
    /// The configure step, given whether `ccache` and `lld` are available.
    pub fn configure_with(&self, roots: &Roots, ccache: bool, lld: bool) -> (r: Invocation)
        ensures
            is_configure(r, *self, roots.cache@, roots.data@, ccache, lld),
    {
        let setting = self.setting();
        let mut args = setting.generator.option();
        let src = self.src_dir(roots);
        let root = if setting.project {
            join_path_exec(src.as_str(), "llvm")
        } else {
            src
        };
        args.push(root);
        let mut install = "-DCMAKE_INSTALL_PREFIX=".to_owned();
        let prefix = self.prefix(roots);
        install.append(prefix.as_str());
        args.push(install);
        let mut build_type = "-DCMAKE_BUILD_TYPE=".to_owned();
        let bt = setting.build_type.name();
        build_type.append(bt.as_str());
        args.push(build_type);
        if ccache {
            args.push("-DLLVM_CCACHE_BUILD=ON".to_owned());
        }
        if lld {
            args.push("-DLLVM_ENABLE_LLD=ON".to_owned());
        }
        if setting.target.len() > 0 {
            let mut t = "-DLLVM_TARGETS_TO_BUILD=".to_owned();
            let j = join_strings(&setting.target, ";");
            t.append(j.as_str());
            args.push(t);
        }
        let ghost head = args.deep_view();
        let mut i: usize = 0;
        while i < setting.option.len()
            invariant
                i <= setting.option@.len(),
                args.deep_view() == head + define_args(setting.option@.subrange(0, i as int)),
            decreases setting.option@.len() - i,
        {
            let mut d = "-D".to_owned();
            d.append(setting.option[i].0.as_str());
            d.append("=");
            d.append(setting.option[i].1.as_str());
            assert(d@ == define_arg(setting.option@[i as int]));
            let ghost before = args.deep_view();
            args.push(d);
            assert(args.deep_view() =~= before.push(define_arg(setting.option@[i as int])));
            i = i + 1;
            assert(define_args(setting.option@.subrange(0, i as int)) =~= define_args(
                setting.option@.subrange(0, i - 1),
            ).push(define_arg(setting.option@[i - 1])));
            assert(args.deep_view() =~= head + define_args(setting.option@.subrange(0, i as int)));
        }
        assert(setting.option@.subrange(0, setting.option@.len() as int) =~= setting.option@);
        assert(args.deep_view() =~= configure_args(*self, roots.cache@, roots.data@, ccache, lld));
        Invocation { program: "cmake".to_owned(), args, cwd: Some(self.build_dir(roots)) }
    }

    /// The configure step, using `ccache` and `lld` where they are found.
    pub fn configure(&self, roots: &Roots) -> (r: Invocation)
        ensures
            configures(r, *self, roots.cache@, roots.data@),
    {
        let ccache = found_on_path("ccache");
        let lld = found_on_path("lld");
        self.configure_with(roots, ccache, lld)
    }

    /// The steps of a build: configure, then build and install with `nproc`
    /// parallel jobs.
    pub fn build(&self, roots: &Roots, nproc: usize) -> (r: Vec<Invocation>)
        ensures
            r@.len() == 2,
            configures(r@[0], *self, roots.cache@, roots.data@),
            r@[1].program@ == "cmake"@,
            r@[1].args.deep_view() == build_args(*self, roots.cache@, nproc as nat),
            r@[1].cwd is None,
    {
        let configure = self.configure(roots);
        let mut args: Vec<String> = Vec::new();
        args.push("--build".to_owned());
        args.push(self.build_dir(roots));
        args.push("--target".to_owned());
        args.push("install".to_owned());
        let setting = self.setting();
        let mut opts = setting.generator.build_option(nproc, setting.build_type);
        args.append(&mut opts);
        assert(args.deep_view() =~= build_args(*self, roots.cache@, nproc as nat));
        let build = Invocation { program: "cmake".to_owned(), args, cwd: None };
        let mut r: Vec<Invocation> = Vec::new();
        r.push(configure);
        r.push(build);
        assert(r@[0] == configure);
        r
    }
}

/// How an external command ended.
#[derive(PartialEq, Eq, Structural, Debug, Clone, Copy)]
pub enum CommandStatus {
    /// The program could not be started.
    NotFound,
    /// The program exited with this code.
    Exited(i32),
    /// The program was terminated by a signal.
    Signaled,
}

/// The captured output of a command that succeeded, or the error that says
/// how it failed.
pub fn check_output(cmd: String, status: CommandStatus, stdout: String, stderr: String) -> (r:
    Result<(String, String)>)
    ensures
        match status {
            CommandStatus::NotFound => r matches Err(Error::CommandNotFound { cmd: c }) && c@
                == cmd@,
            CommandStatus::Exited(0) => r matches Ok((o, e)) && o@ == stdout@ && e@ == stderr@,
            CommandStatus::Exited(code) => r matches Err(
                Error::CommandError { errno, cmd: c, stdout: o, stderr: e },
            ) && errno == code && c@ == cmd@ && o@ == stdout@ && e@ == stderr@,
            CommandStatus::Signaled => r matches Err(
                Error::CommandTerminatedBySignal { cmd: c, stdout: o, stderr: e },
            ) && c@ == cmd@ && o@ == stdout@ && e@ == stderr@,
        },
{
    match status {
        CommandStatus::NotFound => Err(Error::CommandNotFound { cmd }),
        CommandStatus::Exited(errno) => {
            if errno == 0 {
                Ok((stdout, stderr))
            } else {
                Err(Error::CommandError { errno, cmd, stdout, stderr })
            }
        },
        CommandStatus::Signaled => Err(Error::CommandTerminatedBySignal { cmd, stdout, stderr }),
    }
}

/// How many strings of `s` begin with `p`.
pub open spec fn count_prefixed(s: Seq<Seq<char>>, p: Seq<char>) -> nat
    decreases s.len(),
{
    if s.len() == 0 {
        0
    } else {
        count_prefixed(s.drop_last(), p) + if starts_with(s.last(), p) {
            1nat
        } else {
            0nat
        }
    }
}

proof fn lemma_count_concat(a: Seq<Seq<char>>, b: Seq<Seq<char>>, p: Seq<char>)
    ensures
        count_prefixed(a + b, p) == count_prefixed(a, p) + count_prefixed(b, p),
    decreases b.len(),
{
    if b.len() == 0 {
        assert(a + b =~= a);
    } else {
        lemma_count_concat(a, b.drop_last(), p);
        assert((a + b).drop_last() =~= a + b.drop_last());
    }
}

/// No string of `s` begins with `p` when each differs from it at `k`.
proof fn lemma_count_none(s: Seq<Seq<char>>, p: Seq<char>, k: int)
    requires
        0 <= k < p.len(),
        forall|i: int| 0 <= i < s.len() ==> k >= (#[trigger] s[i]).len() || s[i][k] != p[k],
    ensures
        count_prefixed(s, p) == 0,
    decreases s.len(),
{
    if s.len() > 0 {
        lemma_differs_at(s.last(), p, k);
        lemma_count_none(s.drop_last(), p, k);
    }
}

proof fn lemma_count_defines(opts: Seq<(String, String)>, p: Seq<char>)
    requires
        forall|i: int| 0 <= i < opts.len() ==> !starts_with(define_arg(#[trigger] opts[i]), p),
    ensures
        count_prefixed(define_args(opts), p) == 0,
    decreases opts.len(),
{
    if opts.len() > 0 {
        let d = define_args(opts);
        assert(d.drop_last() =~= define_args(opts.drop_last()));
        assert(d.last() == define_arg(opts[opts.len() - 1]));
        lemma_count_defines(opts.drop_last(), p);
    }
}

proof fn lemma_count_single(x: Seq<char>, p: Seq<char>)
    ensures
        count_prefixed(seq![x], p) == if starts_with(x, p) {
            1nat
        } else {
            0nat
        },
{
    assert(seq![x].drop_last() =~= Seq::<Seq<char>>::empty());
    assert(count_prefixed(Seq::<Seq<char>>::empty(), p) == 0);
    assert(seq![x].last() == x);
}

/// The configure step names the build type exactly once and the install
/// prefix exactly once, whatever extra options it carries, provided neither
/// the source root nor an extra option is itself such a definition.
pub proof fn lemma_configure_defines_once(
    e: Entry,
    cache: Seq<char>,
    data: Seq<char>,
    ccache: bool,
    lld: bool,
)
    requires
        !starts_with(source_root(e, cache), "-DCMAKE_BUILD_TYPE="@),
        !starts_with(source_root(e, cache), "-DCMAKE_INSTALL_PREFIX="@),
        forall|i: int|
            0 <= i < e.spec_setting().option@.len() ==> !starts_with(
                define_arg(#[trigger] e.spec_setting().option@[i]),
                "-DCMAKE_BUILD_TYPE="@,
            ) && !starts_with(define_arg(e.spec_setting().option@[i]), "-DCMAKE_INSTALL_PREFIX="@),
    ensures
        count_prefixed(configure_args(e, cache, data, ccache, lld), "-DCMAKE_BUILD_TYPE="@) == 1,
        count_prefixed(configure_args(e, cache, data, ccache, lld), "-DCMAKE_INSTALL_PREFIX="@)
            == 1,
{
    reveal_strlit("-DCMAKE_BUILD_TYPE=");
    reveal_strlit("-DCMAKE_INSTALL_PREFIX=");
    reveal_strlit("-DLLVM_CCACHE_BUILD=ON");
    reveal_strlit("-DLLVM_ENABLE_LLD=ON");
    reveal_strlit("-DLLVM_TARGETS_TO_BUILD=");
    reveal_strlit("-G");
    reveal_strlit("Unix Makefiles");
    reveal_strlit("Ninja");
    reveal_strlit("Visual Studio 15 2017");
    reveal_strlit("Visual Studio 17 2022 Win64");
    reveal_strlit("-Thost=x64");
    let st = e.spec_setting();
    let bt = "-DCMAKE_BUILD_TYPE="@;
    let ip = "-DCMAKE_INSTALL_PREFIX="@;
    let g = generator_options(st.generator);
    let root = source_root(e, cache);
    let ipx = "-DCMAKE_INSTALL_PREFIX="@ + prefix_of(e, data);
    let btx = "-DCMAKE_BUILD_TYPE="@ + build_type_name(st.build_type);
    let c: Seq<Seq<char>> = if ccache {
        seq!["-DLLVM_CCACHE_BUILD=ON"@]
    } else {
        seq![]
    };
    let l: Seq<Seq<char>> = if lld {
        seq!["-DLLVM_ENABLE_LLD=ON"@]
    } else {
        seq![]
    };
    let t: Seq<Seq<char>> = if st.target@.len() > 0 {
        seq!["-DLLVM_TARGETS_TO_BUILD="@ + joined(st.target.deep_view(), ";"@)]
    } else {
        seq![]
    };
    let d = define_args(st.option@);
    let m = seq![root] + seq![ipx] + seq![btx];
    assert(seq![root, ipx, btx] =~= m);
    let all = configure_args(e, cache, data, ccache, lld);
    assert(all =~= g + m + c + l + t + d);
    assert(btx.subrange(0, bt.len() as int) =~= bt);
    assert(ipx.subrange(0, ip.len() as int) =~= ip);
    lemma_differs_at(ipx, bt, 8);
    lemma_differs_at(btx, ip, 8);
    lemma_count_defines(st.option@, bt);
    lemma_count_defines(st.option@, ip);
    lemma_count_single(root, bt);
    lemma_count_single(root, ip);
    lemma_count_single(ipx, bt);
    lemma_count_single(ipx, ip);
    lemma_count_single(btx, bt);
    lemma_count_single(btx, ip);
    lemma_count_none(g, bt, 1);
    lemma_count_none(g, ip, 1);
    lemma_count_none(c, bt, 2);
    lemma_count_none(c, ip, 2);
    lemma_count_none(l, bt, 2);
    lemma_count_none(l, ip, 2);
    assert(t.len() > 0 ==> t[0][2] == 'L');
    lemma_count_none(t, bt, 2);
    lemma_count_none(t, ip, 2);
    lemma_count_concat(seq![root], seq![ipx], bt);
    lemma_count_concat(seq![root] + seq![ipx], seq![btx], bt);
    lemma_count_concat(seq![root], seq![ipx], ip);
    lemma_count_concat(seq![root] + seq![ipx], seq![btx], ip);
    lemma_count_concat(g, m, bt);
    lemma_count_concat(g + m, c, bt);
    lemma_count_concat(g + m + c, l, bt);
    lemma_count_concat(g + m + c + l, t, bt);
    lemma_count_concat(g + m + c + l + t, d, bt);
    lemma_count_concat(g, m, ip);
    lemma_count_concat(g + m, c, ip);
    lemma_count_concat(g + m + c, l, ip);
    lemma_count_concat(g + m + c + l, t, ip);
    lemma_count_concat(g + m + c + l + t, d, ip);
}

} // verus!
