//! Directory layout: where an entry's source, build tree and install prefix
//! live, and the transfers that fetch its source.
use vstd::prelude::*;
use crate::entry::{Entry, Tool, tool_rel_path, tools_view, ToolView};
use crate::error::{Error, Result};

verus! {

/// `b` appended to `a` as a path component: an absolute `b` replaces `a`.
pub open spec fn join_path(a: Seq<char>, b: Seq<char>) -> Seq<char> {
    if b.len() > 0 && b[0] == '/' {
        b
    } else if a.len() == 0 || a.last() == '/' {
        a + b
    } else {
        a + "/"@ + b
    }
}

/// `b` appended to `a` as a path component.
pub fn join_path_exec(a: &str, b: &str) -> (r: String)
    ensures
        r@ == join_path(a@, b@),
{
    let bl = b.unicode_len();
    if bl > 0 && b.get_char(0) == '/' {
        return b.to_owned();
    }
    let al = a.unicode_len();
    let mut s = a.to_owned();
    if al == 0 || a.get_char(al - 1) == '/' {
        s.append(b);
    } else {
        s.append("/");
        s.append(b);
    }
    s
}

/// Roots under which entries keep their source trees and installs.
pub struct Roots {
    /// Root of the source caches.
    pub cache: String,
    /// Root of the install prefixes.
    pub data: String,
}

/// Relies on `dirs::cache_dir`: the user's cache directory, if the platform
/// has one and it is valid Unicode.
#[verifier::external_body]
fn system_cache_dir() -> (r: Option<String>) {
    dirs::cache_dir().and_then(|p| p.to_str().map(|s| s.to_owned()))
}

/// Relies on `dirs::data_dir`: the user's data directory, if the platform
/// has one and it is valid Unicode.
#[verifier::external_body]
fn system_data_dir() -> (r: Option<String>) {
    dirs::data_dir().and_then(|p| p.to_str().map(|s| s.to_owned()))
}

/// Relies on `dirs::config_dir`: the user's configuration directory, if the
/// platform has one and it is valid Unicode.
#[verifier::external_body]
fn system_config_dir() -> (r: Option<String>) {
    dirs::config_dir().and_then(|p| p.to_str().map(|s| s.to_owned()))
}

/// The application's directory under a system directory, or
/// `UnsupportedOS` where the system has none.
pub fn app_dir(system: Option<String>) -> (r: Result<String>)
    ensures
        match system {
            Some(d) => r matches Ok(s) && s@ == join_path(d@, "llvmenv"@),
            None => r matches Err(Error::UnsupportedOS),
        },
{
    match system {
        Some(d) => Ok(join_path_exec(d.as_str(), "llvmenv")),
        None => Err(Error::UnsupportedOS),
    }
}

/// Path of the entry configuration file under a configuration root.
pub fn entry_toml_path(config_root: &str) -> (r: String)
    ensures
        r@ == join_path(config_root@, "entry.toml"@),
{
    join_path_exec(config_root, "entry.toml")
}

/// The configuration directory of the application.
pub fn config_dir() -> (r: Result<String>)
    ensures
        r is Err ==> r matches Err(Error::UnsupportedOS),
        r matches Ok(d) ==> exists|sys: Seq<char>| d@ == join_path(sys, "llvmenv"@),
{
    let sys = system_config_dir();
    let r = app_dir(sys);
    proof {
        if r is Ok {
            assert(r->Ok_0@ == join_path(sys->0@, "llvmenv"@));
        }
    }
    r
}

impl Roots {
    /// The cache and data roots of this system.
    pub fn from_system() -> (r: Result<Roots>)
        ensures
            r is Err ==> r matches Err(Error::UnsupportedOS),
            r matches Ok(roots) ==> (exists|c: Seq<char>| roots.cache@ == join_path(c, "llvmenv"@))
                && (exists|d: Seq<char>| roots.data@ == join_path(d, "llvmenv"@)),
    {
        let sys_cache = system_cache_dir();
        let cache = match app_dir(sys_cache) {
            Ok(c) => c,
            Err(e) => return Err(e),
        };
        let sys_data = system_data_dir();
        let data = match app_dir(sys_data) {
            Ok(d) => d,
            Err(e) => return Err(e),
        };
        assert(cache@ == join_path(sys_cache->0@, "llvmenv"@));
        assert(data@ == join_path(sys_data->0@, "llvmenv"@));
        Ok(Roots { cache, data })
    }
}

/// Source directory of an entry.
pub open spec fn src_dir_of(e: Entry, cache: Seq<char>) -> Seq<char> {
    match e {
        Entry::Remote { name, setting, .. } => if setting.project {
            join_path(cache, name@)
        } else {
            join_path(join_path(cache, name@), "llvm"@)
        },
        Entry::Local { path, .. } => path@,
    }
}

/// Build directory of an entry.
pub open spec fn build_dir_of(e: Entry, cache: Seq<char>) -> Seq<char> {
    join_path(src_dir_of(e, cache), "build"@)
}

/// Install prefix of an entry.
pub open spec fn prefix_of(e: Entry, data: Seq<char>) -> Seq<char> {
    join_path(data, e.spec_name())
}

/// Whether a transfer fetches anew or refreshes what is there.
#[derive(PartialEq, Eq, Structural, Debug, Clone, Copy)]
pub enum FetchAction {
    Download,
    Update,
}

/// One transfer of a source from `url` into `dest`.
#[derive(Debug)]
pub struct FetchStep {
    pub action: FetchAction,
    pub url: String,
    pub dest: String,
}

pub struct FetchStepView {
    pub action: FetchAction,
    pub url: Seq<char>,
    pub dest: Seq<char>,
}

impl View for FetchStep {
    type V = FetchStepView;

    open spec fn view(&self) -> FetchStepView {
        FetchStepView { action: self.action, url: self.url@, dest: self.dest@ }
    }
}

pub open spec fn steps_view(s: Seq<FetchStep>) -> Seq<FetchStepView> {
    s.map_values(|x: FetchStep| x@)
}

/// Whether every tool has a known place in the source tree.
pub open spec fn all_placed(tools: Seq<ToolView>) -> bool {
    forall|i: int| 0 <= i < tools.len() ==> (#[trigger] tool_rel_path(tools[i])) is Some
}

/// The transfers of the tools, each into its place under `src`.
pub open spec fn tool_steps(tools: Seq<ToolView>, src: Seq<char>, a: FetchAction) -> Seq<
    FetchStepView,
> {
    tools.map_values(
        |t: ToolView|
            FetchStepView { action: a, url: t.url, dest: join_path(src, tool_rel_path(t)->0) },
    )
}

/// The transfers that fetch an entry's source: none for a local entry; for a
/// remote one, its URL into the source directory, then each tool into its
/// place relative to it.
pub open spec fn fetch_plan(e: Entry, cache: Seq<char>, a: FetchAction) -> Seq<FetchStepView> {
    match e {
        Entry::Remote { url, tools, .. } => seq![
            FetchStepView { action: a, url: url@, dest: src_dir_of(e, cache) },
        ] + tool_steps(tools_view(tools@), src_dir_of(e, cache), a),
        Entry::Local { .. } => seq![],
    }
}

/// Whether the fetch plan of `e` can be made: every tool of a remote entry
/// has a known place.
pub open spec fn plan_ok(e: Entry) -> bool {
    match e {
        Entry::Remote { tools, .. } => all_placed(tools_view(tools@)),
        Entry::Local { .. } => true,
    }
}

/// The first tool of a remote entry without a known place.
pub open spec fn first_unplaced(tools: Seq<ToolView>) -> int {
    choose|i: int|
        0 <= i < tools.len() && tool_rel_path(tools[i]) is None && forall|j: int|
            0 <= j < i ==> (#[trigger] tool_rel_path(tools[j])) is Some
}

/// `r` is the fetch plan of `e`, or the `UnknownTool` error for its first
/// tool without a known place.
pub open spec fn fetch_result(
    r: Result<Vec<FetchStep>>,
    e: Entry,
    cache: Seq<char>,
    a: FetchAction,
) -> bool {
    if plan_ok(e) {
        r matches Ok(s) && steps_view(s@) == fetch_plan(e, cache, a)
    } else {
        r matches Err(Error::UnknownTool { name }) && e matches Entry::Remote { tools, .. }
            && name@ == tools@[first_unplaced(tools_view(tools@))].name@
    }
}

/// Fetching a local entry is a no-op: it has no transfers.
pub proof fn lemma_local_fetch_is_noop(e: Entry, cache: Seq<char>, a: FetchAction)
    requires
        e is Local,
    ensures
        plan_ok(e),
        fetch_plan(e, cache, a) == Seq::<FetchStepView>::empty(),
{
}

impl Entry {
    /// Source directory under the cache root (the user's path for a local
    /// entry).
    pub fn src_dir(&self, roots: &Roots) -> (r: String)
        ensures
            r@ == src_dir_of(*self, roots.cache@),
    {
        match self {
            Entry::Remote { name, setting, .. } => {
                let d = join_path_exec(roots.cache.as_str(), name.as_str());
                if setting.project {
                    d
                } else {
                    join_path_exec(d.as_str(), "llvm")
                }
            },
            Entry::Local { path, .. } => path.clone(),
        }
    }

    /// Build directory, inside the source directory.
    pub fn build_dir(&self, roots: &Roots) -> (r: String)
        ensures
            r@ == build_dir_of(*self, roots.cache@),
    {
        let s = self.src_dir(roots);
        join_path_exec(s.as_str(), "build")
    }

    /// Install prefix under the data root.
    pub fn prefix(&self, roots: &Roots) -> (r: String)
        ensures
            r@ == prefix_of(*self, roots.data@),
    {
        join_path_exec(roots.data.as_str(), self.name())
    }

    fn fetch_steps(&self, roots: &Roots, action: FetchAction) -> (r: Result<Vec<FetchStep>>)
        ensures
            fetch_result(r, *self, roots.cache@, action),
    {
        match self {
            Entry::Remote { url, tools, .. } => {
                let src = self.src_dir(roots);
                let mut steps: Vec<FetchStep> = Vec::new();
                steps.push(FetchStep { action, url: url.clone(), dest: src.clone() });
                let ghost tv = tools_view(tools@);
                let mut i: usize = 0;
                while i < tools.len()
                    invariant
                        i <= tools@.len(),
                        tv == tools_view(tools@),
                        *self is Remote,
                        self->Remote_tools == *tools,
                        self->Remote_url == *url,
                        src@ == src_dir_of(*self, roots.cache@),
                        steps@.len() == i + 1,
                        steps@[0]@ == (FetchStepView { action, url: url@, dest: src@ }),
                        forall|j: int| 0 <= j < i ==> (#[trigger] tool_rel_path(tv[j])) is Some,
                        forall|j: int|
                            0 <= j < i ==> #[trigger] steps@[j + 1]@ == (FetchStepView {
                                action,
                                url: tv[j].url,
                                dest: join_path(src@, tool_rel_path(tv[j])->0),
                            }),
                    decreases tools@.len() - i,
                {
                    let rel = match tools[i].rel_path() {
                        Ok(p) => p,
                        Err(e) => {
                            proof {
                                let ii = i as int;
                                assert(tv[ii] == tools@[ii]@);
                                assert(tool_rel_path(tv[ii]) is None);
                                assert(!all_placed(tv));
                                assert(0 <= ii < tv.len() && tool_rel_path(tv[ii]) is None
                                    && forall|j: int|
                                    0 <= j < ii ==> (#[trigger] tool_rel_path(tv[j])) is Some);
                                let k = first_unplaced(tv);
                                if k < ii {
                                    assert(tool_rel_path(tv[k]) is Some);
                                } else if k > ii {
                                    assert(tool_rel_path(tv[ii]) is Some);
                                }
                                assert(k == ii);
                                assert(!plan_ok(*self));
                                assert(tools@[ii]@.name == tools@[ii].name@);
                                assert(e matches Error::UnknownTool { name } && name@ == tools@[ii].name@);
                            }
                            return Err(e);
                        },
                    };
                    assert(tv[i as int] == tools@[i as int]@);
                    let dest = join_path_exec(src.as_str(), rel.as_str());
                    steps.push(FetchStep { action, url: tools[i].url.clone(), dest });
                    i = i + 1;
                }
                assert(all_placed(tv));
                let ghost ts = tool_steps(tv, src@, action);
                assert(forall|j: int| 0 <= j < tv.len() ==> steps@[j + 1]@ == #[trigger] ts[j]);
                assert(steps_view(steps@) =~= seq![steps@[0]@] + ts);
                assert(steps_view(steps@) =~= fetch_plan(*self, roots.cache@, action));
                Ok(steps)
            },
            Entry::Local { .. } => {
                let steps: Vec<FetchStep> = Vec::new();
                assert(steps_view(steps@) =~= Seq::<FetchStepView>::empty());
                Ok(steps)
            },
        }
    }

    /// The transfers that check the source out: nothing for a local entry;
    /// for a remote one, its URL into the source directory, then each tool.
    pub fn checkout(&self, roots: &Roots) -> (r: Result<Vec<FetchStep>>)
        ensures
            fetch_result(r, *self, roots.cache@, FetchAction::Download),
    {
        self.fetch_steps(roots, FetchAction::Download)
    }

    /// The transfers that refresh the source: the same as `checkout`, as
    /// updates.
    pub fn update(&self, roots: &Roots) -> (r: Result<Vec<FetchStep>>)
        ensures
            fetch_result(r, *self, roots.cache@, FetchAction::Update),
    {
        self.fetch_steps(roots, FetchAction::Update)
    }
}

} // verus!
