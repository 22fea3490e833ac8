//! Entries: named build configurations whose source is either fetched from
//! URLs (remote) or already on disk (local).
use vstd::prelude::*;
use crate::error::{Error, Result};
use crate::generator::{BuildType, CMakeGenerator, generator_of_name};
use crate::text::{lower_ascii, str_eq};
use crate::version::{Version, version_le, version_text};

verus! {

/// An LLVM tool (clang, compiler-rt, ...) fetched beside the main source.
#[derive(Debug, PartialEq)]
pub struct Tool {
    /// Name of the tool (placed in `../{name}` by default).
    pub name: String,
    /// URL of the tool: a Git/SVN repository or a tar archive.
    pub url: String,
    /// Git branch (not for SVN).
    pub branch: Option<String>,
    /// Install path relative to the main source directory.
    pub relative_path: Option<String>,
}

/// What a `Tool` holds, as character sequences.
pub struct ToolView {
    pub name: Seq<char>,
    pub url: Seq<char>,
    pub branch: Option<Seq<char>>,
    pub relative_path: Option<Seq<char>>,
}

pub open spec fn opt_view(o: Option<String>) -> Option<Seq<char>> {
    match o {
        Some(s) => Some(s@),
        None => None,
    }
}

impl View for Tool {
    type V = ToolView;

    open spec fn view(&self) -> ToolView {
        ToolView {
            name: self.name@,
            url: self.url@,
            branch: opt_view(self.branch),
            relative_path: opt_view(self.relative_path),
        }
    }
}

pub open spec fn tools_view(s: Seq<Tool>) -> Seq<ToolView> {
    s.map_values(|t: Tool| t@)
}

/// Tools whose location in the source tree is known without a
/// `relative_path`.
pub open spec fn known_tool(n: Seq<char>) -> bool {
    ||| n == "clang-tools-extra"@
    ||| n == "compiler-rt"@
    ||| n == "libcxx"@
    ||| n == "libcxxabi"@
    ||| n == "libunwind"@
    ||| n == "openmp"@
    ||| n == "third-party"@
    ||| n == "mlir"@
    ||| n == "cmake"@
    ||| n == "clang"@
    ||| n == "lld"@
    ||| n == "lldb"@
    ||| n == "polly"@
}

/// Where a tool goes, relative to the main source directory; `None` for an
/// unknown tool without an explicit path.
pub open spec fn tool_rel_path(t: ToolView) -> Option<Seq<char>> {
    match t.relative_path {
        Some(p) => Some(p),
        None => if known_tool(t.name) {
            Some("../"@ + t.name)
        } else {
            None
        },
    }
}

pub fn clone_opt_string(o: &Option<String>) -> (r: Option<String>)
    ensures
        opt_view(r) == opt_view(*o),
{
    match o {
        Some(s) => Some(s.clone()),
        None => None,
    }
}

impl Tool {
    pub fn new(name: &str, url: &str) -> (r: Tool)
        ensures
            r@ == (ToolView { name: name@, url: url@, branch: None, relative_path: None }),
    {
        Tool { name: name.to_owned(), url: url.to_owned(), branch: None, relative_path: None }
    }

    /// A copy of the tool.
    pub fn duplicate(&self) -> (r: Tool)
        ensures
            r@ == self@,
    {
        Tool {
            name: self.name.clone(),
            url: self.url.clone(),
            branch: clone_opt_string(&self.branch),
            relative_path: clone_opt_string(&self.relative_path),
        }
    }

    /// Install path relative to the main source directory.
    pub fn rel_path(&self) -> (r: Result<String>)
        ensures
            match tool_rel_path(self@) {
                Some(p) => r matches Ok(s) && s@ == p,
                None => r matches Err(Error::UnknownTool { name }) && name@ == self.name@,
            },
    {
        match &self.relative_path {
            Some(p) => Ok(p.clone()),
            None => {
                let n = self.name.as_str();
                if is_known_tool(n) {
                    let mut s = "../".to_owned();
                    s.append(n);
                    Ok(s)
                } else {
                    Err(Error::UnknownTool { name: self.name.clone() })
                }
            },
        }
    }
}

fn is_known_tool(n: &str) -> (r: bool)
    ensures
        r == known_tool(n@),
{
    str_eq(n, "clang-tools-extra") || str_eq(n, "compiler-rt") || str_eq(n, "libcxx")
        || str_eq(n, "libcxxabi") || str_eq(n, "libunwind") || str_eq(n, "openmp")
        || str_eq(n, "third-party") || str_eq(n, "mlir") || str_eq(n, "cmake")
        || str_eq(n, "clang") || str_eq(n, "lld") || str_eq(n, "lldb") || str_eq(n, "polly")
}

/// A copy of a list of tools.
pub fn clone_tools(v: &Vec<Tool>) -> (r: Vec<Tool>)
    ensures
        tools_view(r@) == tools_view(v@),
{
    let mut r: Vec<Tool> = Vec::new();
    let mut i: usize = 0;
    while i < v.len()
        invariant
            i <= v@.len(),
            r@.len() == i,
            forall|j: int| 0 <= j < i ==> #[trigger] r@[j]@ == v@[j]@,
        decreases v@.len() - i,
    {
        r.push(v[i].duplicate());
        i = i + 1;
    }
    assert(tools_view(r@) =~= tools_view(v@));
    r
}

/// Setting shared by remote and local entries, as read from the
/// configuration file.
#[derive(Debug, PartialEq)]
pub struct EntrySetting {
    /// URL of the remote LLVM source.
    pub url: Option<String>,
    /// Path of a local LLVM source directory.
    pub path: Option<String>,
    /// Additional LLVM tools (clang, openmp, lld, ...).
    pub tools: Vec<Tool>,
    /// Targets to build, e.g. "X86"; empty means every backend.
    pub target: Vec<String>,
    /// CMake generator (`-G`).
    pub generator: CMakeGenerator,
    /// `CMAKE_BUILD_TYPE`.
    pub build_type: BuildType,
    /// Additional `-D<key>=<value>` build options, in the order given.
    pub option: Vec<(String, String)>,
    /// Whether the source is a whole project (monorepo) rather than a
    /// single-component tarball.
    pub project: bool,
}

/// Whether a setting holds nothing but its defaults besides `url`, `path`
/// and `tools`.
pub open spec fn default_rest(s: EntrySetting) -> bool {
    &&& s.target@.len() == 0
    &&& s.generator == CMakeGenerator::Platform
    &&& s.build_type == BuildType::Release
    &&& s.option@.len() == 0
    &&& !s.project
}

impl Default for EntrySetting {
    fn default() -> (r: EntrySetting)
        ensures
            r.url is None,
            r.path is None,
            r.tools@.len() == 0,
            default_rest(r),
    {
        EntrySetting {
            url: None,
            path: None,
            tools: Vec::new(),
            target: Vec::new(),
            generator: CMakeGenerator::Platform,
            build_type: BuildType::Release,
            option: Vec::new(),
            project: false,
        }
    }
}

/// Describes how to compile LLVM/Clang.
#[derive(Debug, PartialEq)]
pub enum Entry {
    Remote {
        name: String,
        version: Option<Version>,
        url: String,
        tools: Vec<Tool>,
        setting: EntrySetting,
    },
    Local {
        name: String,
        version: Option<Version>,
        path: String,
        setting: EntrySetting,
    },
}

/// The operating system the official release entries are built for; some
/// components are not available everywhere.
#[derive(PartialEq, Eq, Structural, Debug, Clone, Copy)]
pub enum HostOs {
    MacOs,
    Windows,
    Other,
}

pub open spec fn v3(major: u64, minor: u64, patch: u64) -> Version {
    Version { major, minor, patch }
}

/// Releases up to 9.0.0, except 8.0.1, were published on the legacy host.
pub open spec fn legacy_host(v: Version) -> bool {
    version_le(v, v3(9, 0, 0)) && v != v3(8, 0, 1)
}

pub open spec fn official_base_url(v: Version) -> Seq<char> {
    if legacy_host(v) {
        "http://releases.llvm.org/"@ + version_text(v)
    } else {
        "https://github.com/llvm/llvm-project/releases/download/llvmorg-"@ + version_text(v)
    }
}

/// URL of the source tarball of `component` in release `v`.
pub open spec fn official_url(v: Version, component: Seq<char>) -> Seq<char> {
    official_base_url(v) + "/"@ + component + "-"@ + version_text(v) + ".src.tar.xz"@
}

/// The file name component of a tool's tarball: the clang frontend was
/// published as `cfe` up to 9.0.0.
pub open spec fn official_component(name: Seq<char>, v: Version) -> Seq<char> {
    if name == "clang"@ && version_le(v, v3(9, 0, 0)) {
        "cfe"@
    } else {
        name
    }
}

/// Names of the tools of an official release, in fetch order.
pub open spec fn official_tool_names(v: Version, os: HostOs) -> Seq<Seq<char>> {
    seq!["clang"@] + (if version_le(v3(16, 0, 0), v) {
        seq!["mlir"@, "third-party"@, "cmake"@]
    } else {
        seq![]
    }) + seq!["polly"@] + (if os != HostOs::MacOs {
        seq!["compiler-rt"@]
    } else {
        seq![]
    }) + seq!["lld"@, "lldb"@, "clang-tools-extra"@] + (if os != HostOs::Windows {
        seq!["libcxx"@, "libcxxabi"@]
    } else {
        seq![]
    }) + (if os != HostOs::MacOs {
        seq!["libunwind"@]
    } else {
        seq![]
    }) + seq!["openmp"@]
}

pub open spec fn official_tool(v: Version, name: Seq<char>) -> ToolView {
    ToolView {
        name,
        url: official_url(v, official_component(name, v)),
        branch: None,
        relative_path: None,
    }
}

pub open spec fn official_tools(v: Version, os: HostOs) -> Seq<ToolView> {
    official_tool_names(v, os).map_values(|n: Seq<char>| official_tool(v, n))
}

/// `e` is the official entry of release `v` for `os`: named by the
/// version, fetched from the release tarballs of LLVM and of each tool, with
/// default settings.
pub open spec fn is_official(e: Entry, v: Version, os: HostOs) -> bool {
    e matches Entry::Remote { name, version, url, tools, setting } && {
        &&& name@ == version_text(v)
        &&& version == Some(v)
        &&& url@ == official_url(v, "llvm"@)
        &&& tools_view(tools@) == official_tools(v, os)
        &&& opt_view(setting.url) == Some(url@)
        &&& setting.path is None
        &&& tools_view(setting.tools@) == official_tools(v, os)
        &&& default_rest(setting)
    }
}

/// `base/component-version.src.tar.xz`
fn tarball_url(base: &str, component: &str, vtext: &str) -> (r: String)
    ensures
        r@ == base@ + "/"@ + component@ + "-"@ + vtext@ + ".src.tar.xz"@,
{
    let mut s = base.to_owned();
    s.append("/");
    s.append(component);
    s.append("-");
    s.append(vtext);
    s.append(".src.tar.xz");
    s
}

fn official_names(v: &Version, os: HostOs) -> (r: Vec<&'static str>)
    ensures
        r@.map_values(|s: &str| s@) == official_tool_names(*v, os),
{
    let mut r: Vec<&'static str> = Vec::new();
    r.push("clang");
    if Version::new(16, 0, 0).le(v) {
        r.push("mlir");
        r.push("third-party");
        r.push("cmake");
    }
    r.push("polly");
    if os != HostOs::MacOs {
        r.push("compiler-rt");
    }
    r.push("lld");
    r.push("lldb");
    r.push("clang-tools-extra");
    if os != HostOs::Windows {
        r.push("libcxx");
        r.push("libcxxabi");
    }
    if os != HostOs::MacOs {
        r.push("libunwind");
    }
    r.push("openmp");
    assert(r@.map_values(|s: &str| s@) =~= official_tool_names(*v, os));
    r
}

impl Entry {
    /// Entry for an official LLVM release, with the components available on
    /// `os`.
    pub fn official(major: u64, minor: u64, patch: u64, os: HostOs) -> (r: Entry)
        ensures
            is_official(r, v3(major, minor, patch), os),
    {
        let version = Version::new(major, minor, patch);
        let vtext = version.to_string();
        let legacy = version.le(&Version::new(9, 0, 0)) && version != Version::new(8, 0, 1);
        let mut base = if legacy {
            "http://releases.llvm.org/".to_owned()
        } else {
            "https://github.com/llvm/llvm-project/releases/download/llvmorg-".to_owned()
        };
        base.append(vtext.as_str());
        assert(base@ == official_base_url(version));
        let url = tarball_url(base.as_str(), "llvm", vtext.as_str());
        let names = official_names(&version, os);
        let ghost names_view = names@.map_values(|s: &str| s@);
        let mut tools: Vec<Tool> = Vec::new();
        let mut i: usize = 0;
        while i < names.len()
            invariant
                i <= names@.len(),
                names_view == names@.map_values(|s: &str| s@),
                names_view == official_tool_names(version, os),
                base@ == official_base_url(version),
                vtext@ == version_text(version),
                tools@.len() == i,
                forall|j: int|
                    0 <= j < i ==> #[trigger] tools@[j]@ == official_tool(version, names_view[j]),
            decreases names@.len() - i,
        {
            let name = names[i];
            let component = if str_eq(name, "clang") && version.le(&Version::new(9, 0, 0)) {
                "cfe"
            } else {
                name
            };
            let tool_url = tarball_url(base.as_str(), component, vtext.as_str());
            tools.push(Tool::new(name, tool_url.as_str()));
            i = i + 1;
        }
        assert(tools_view(tools@) =~= official_tools(version, os));
        let setting = EntrySetting {
            url: Some(url.clone()),
            path: None,
            tools: clone_tools(&tools),
            target: Vec::new(),
            generator: CMakeGenerator::Platform,
            build_type: BuildType::Release,
            option: Vec::new(),
            project: false,
        };
        Entry::Remote { name: vtext, version: Some(version), url, tools, setting }
    }
}

/// A path with nothing for the shell to expand: no `$`, no leading `~`.
pub open spec fn plain_path(p: Seq<char>) -> bool {
    !p.contains('$') && !(p.len() > 0 && p[0] == '~')
}

/// Relies on `shellexpand::full`: expands `~` and `$VAR` in a path from the
/// environment. A path with no `$` that does not start with `~` comes back
/// unchanged.
#[verifier::external_body]
fn expand_path(path: &str) -> (r: Option<String>)
    ensures
        plain_path(path@) ==> r is Some && r->0@ == path@,
{
    shellexpand::full(path).ok().map(|e| e.to_string())
}

/// `setting` with another generator.
pub open spec fn setting_with_generator(s: EntrySetting, g: CMakeGenerator) -> EntrySetting {
    EntrySetting { generator: g, ..s }
}

/// `setting` with another build type.
pub open spec fn setting_with_build_type(s: EntrySetting, b: BuildType) -> EntrySetting {
    EntrySetting { build_type: b, ..s }
}

/// `e` with its setting replaced.
pub open spec fn entry_with_setting(e: Entry, s: EntrySetting) -> Entry {
    match e {
        Entry::Remote { name, version, url, tools, .. } => Entry::Remote {
            name,
            version,
            url,
            tools,
            setting: s,
        },
        Entry::Local { name, version, path, .. } => Entry::Local {
            name,
            version,
            path,
            setting: s,
        },
    }
}

/// `r` is the `InvalidEntry` error for entry `name`.
pub open spec fn invalid_entry(r: Result<Entry>, name: Seq<char>) -> bool {
    r matches Err(Error::InvalidEntry { name: n, .. }) && n@ == name
}

/// `r` is the local entry `name` at `path` described by `setting`.
pub open spec fn is_local(
    r: Result<Entry>,
    name: Seq<char>,
    version: Option<Version>,
    path: Seq<char>,
    setting: EntrySetting,
) -> bool {
    r matches Ok(Entry::Local { name: n, version: v, path: p, setting: s }) && n@ == name && v
        == version && p@ == path && s == setting
}

/// `r` is the remote entry `name` described by `setting`, fetched from its
/// `url` with its tools.
pub open spec fn is_remote_of(
    r: Result<Entry>,
    name: Seq<char>,
    version: Option<Version>,
    setting: EntrySetting,
) -> bool {
    r matches Ok(Entry::Remote { name: n, version: v, url: u, tools: t, setting: s }) && n@
        == name && v == version && opt_view(setting.url) == Some(u@) && tools_view(t@)
        == tools_view(setting.tools@) && s == setting
}

impl Entry {
    pub open spec fn spec_name(&self) -> Seq<char> {
        match self {
            Entry::Remote { name, .. } => name@,
            Entry::Local { name, .. } => name@,
        }
    }

    pub open spec fn spec_version(&self) -> Option<Version> {
        match self {
            Entry::Remote { version, .. } => *version,
            Entry::Local { version, .. } => *version,
        }
    }

    pub open spec fn spec_setting(&self) -> EntrySetting {
        match self {
            Entry::Remote { setting, .. } => *setting,
            Entry::Local { setting, .. } => *setting,
        }
    }

    /// The entry that `setting` describes under `name`, with `expanded` the
    /// expansion of its `path`, if it has one and it could be expanded.
    pub fn with_expanded_path(
        name: &str,
        version: Option<Version>,
        setting: EntrySetting,
        expanded: Option<String>,
    ) -> (r: Result<Entry>)
        ensures
            setting.url is Some && setting.path is Some ==> invalid_entry(r, name@),
            setting.url is None && setting.path is None ==> invalid_entry(r, name@),
            setting.url is None && setting.path is Some ==> match expanded {
                Some(e) => is_local(r, name@, version, e@, setting),
                None => invalid_entry(r, name@),
            },
            setting.url is Some && setting.path is None ==> is_remote_of(r, name@, version, setting),
    {
        if setting.path.is_some() && setting.url.is_some() {
            return Err(
                Error::InvalidEntry {
                    name: name.to_owned(),
                    message: "One of Path or URL are allowed".to_owned(),
                },
            );
        }
        if setting.path.is_some() {
            return match expanded {
                Some(path) => Ok(Entry::Local { name: name.to_owned(), version, path, setting }),
                None => Err(
                    Error::InvalidEntry {
                        name: name.to_owned(),
                        message: "Path cannot be expanded".to_owned(),
                    },
                ),
            };
        }
        match &setting.url {
            Some(url) => {
                let url = url.clone();
                let tools = clone_tools(&setting.tools);
                Ok(Entry::Remote { name: name.to_owned(), version, url, tools, setting })
            },
            None => Err(
                Error::InvalidEntry {
                    name: name.to_owned(),
                    message: "Path nor URL are not found".to_owned(),
                },
            ),
        }
    }

    /// The entry that `setting` describes under `name`: remote if it has a
    /// `url`, local if it has a `path` (expanded from the environment). A
    /// setting with both, or with neither, is invalid.
    pub fn parse_setting(name: &str, version: Option<Version>, setting: EntrySetting) -> (r:
        Result<Entry>)
        ensures
            setting.url is Some && setting.path is Some ==> invalid_entry(r, name@),
            setting.url is None && setting.path is None ==> invalid_entry(r, name@),
            setting.url is None && setting.path is Some ==> match r {
                Ok(_) => exists|p: Seq<char>| is_local(r, name@, version, p, setting),
                Err(_) => invalid_entry(r, name@),
            },
            setting.url is None && setting.path is Some && plain_path(setting.path->0@)
                ==> is_local(r, name@, version, setting.path->0@, setting),
            setting.url is Some && setting.path is None ==> is_remote_of(r, name@, version, setting),
    {
        let expanded = match &setting.path {
            Some(p) => expand_path(p.as_str()),
            None => None,
        };
        Entry::with_expanded_path(name, version, setting, expanded)
    }

    pub fn name(&self) -> (r: &str)
        ensures
            r@ == self.spec_name(),
    {
        match self {
            Entry::Remote { name, .. } => name.as_str(),
            Entry::Local { name, .. } => name.as_str(),
        }
    }

    pub fn version(&self) -> (r: Option<Version>)
        ensures
            r == self.spec_version(),
    {
        match self {
            Entry::Remote { version, .. } => *version,
            Entry::Local { version, .. } => *version,
        }
    }

    pub fn setting(&self) -> (r: &EntrySetting)
        ensures
            *r == self.spec_setting(),
    {
        match self {
            Entry::Remote { setting, .. } => setting,
            Entry::Local { setting, .. } => setting,
        }
    }

    /// Overrides the CMake generator by name.
    pub fn set_builder(&mut self, generator: &str) -> (r: Result<()>)
        ensures
            match generator_of_name(lower_ascii(generator@)) {
                Some(g) => r is Ok && *final(self) == entry_with_setting(
                    *old(self),
                    setting_with_generator(old(self).spec_setting(), g),
                ),
                None => r matches Err(Error::UnsupportedGenerator { generator: s }) && s@
                    == generator@ && *final(self) == *old(self),
            },
    {
        let g = CMakeGenerator::parse(generator)?;
        match self {
            Entry::Remote { setting, .. } => setting.generator = g,
            Entry::Local { setting, .. } => setting.generator = g,
        }
        Ok(())
    }

    /// Overrides the CMake build type.
    pub fn set_build_type(&mut self, build_type: BuildType) -> (r: Result<()>)
        ensures
            r is Ok,
            *final(self) == entry_with_setting(
                *old(self),
                setting_with_build_type(old(self).spec_setting(), build_type),
            ),
    {
        match self {
            Entry::Remote { setting, .. } => setting.build_type = build_type,
            Entry::Local { setting, .. } => setting.build_type = build_type,
        }
        Ok(())
    }
}

} // verus!
