//! CMake generator and build-type policy: which arguments `cmake` gets at
//! configure time and at build time.
use vstd::prelude::*;
use crate::error::{Error, Result};
use crate::text::{lower_ascii, decimal, to_ascii_lowercase, u64_to_decimal, str_eq};

verus! {

/// Option for CMake generators (`-G`).
#[derive(PartialEq, Eq, Structural, Debug, Clone, Copy)]
pub enum CMakeGenerator {
    /// Platform default generator (no `-G` option).
    Platform,
    /// Unix Makefiles.
    Makefile,
    /// Ninja.
    Ninja,
    /// Visual Studio 15 2017.
    VisualStudio,
    /// Visual Studio 17 2022 Win64.
    VisualStudioWin64,
}

/// CMake build type (`CMAKE_BUILD_TYPE`).
#[derive(PartialEq, Eq, Structural, Debug, Clone, Copy)]
pub enum BuildType {
    Debug,
    Release,
    RelWithDebInfo,
    MinSizeRel,
}

/// The generator that a lower-cased name selects.
pub open spec fn generator_of_name(l: Seq<char>) -> Option<CMakeGenerator> {
    if l == "makefile"@ {
        Some(CMakeGenerator::Makefile)
    } else if l == "ninja"@ {
        Some(CMakeGenerator::Ninja)
    } else if l == "visualstudio"@ || l == "vs"@ {
        Some(CMakeGenerator::VisualStudio)
    } else {
        None
    }
}

/// The build type that a lower-cased name selects.
pub open spec fn build_type_of_name(l: Seq<char>) -> Option<BuildType> {
    if l == "debug"@ {
        Some(BuildType::Debug)
    } else if l == "release"@ {
        Some(BuildType::Release)
    } else if l == "relwithdebinfo"@ {
        Some(BuildType::RelWithDebInfo)
    } else if l == "minsizerel"@ {
        Some(BuildType::MinSizeRel)
    } else {
        None
    }
}

/// The name CMake knows the build type by.
pub open spec fn build_type_name(b: BuildType) -> Seq<char> {
    match b {
        BuildType::Debug => "Debug"@,
        BuildType::Release => "Release"@,
        BuildType::RelWithDebInfo => "RelWithDebInfo"@,
        BuildType::MinSizeRel => "MinSizeRel"@,
    }
}

/// Arguments given to `cmake` at configure time for a generator.
pub open spec fn generator_options(g: CMakeGenerator) -> Seq<Seq<char>> {
    match g {
        CMakeGenerator::Platform => seq![],
        CMakeGenerator::Makefile => seq!["-G"@, "Unix Makefiles"@],
        CMakeGenerator::Ninja => seq!["-G"@, "Ninja"@],
        CMakeGenerator::VisualStudio => seq!["-G"@, "Visual Studio 15 2017"@],
        CMakeGenerator::VisualStudioWin64 => seq![
            "-G"@,
            "Visual Studio 17 2022 Win64"@,
            "-Thost=x64"@,
        ],
    }
}

/// Arguments given to `cmake --build` for a generator.
pub open spec fn build_options(g: CMakeGenerator, nproc: nat, b: BuildType) -> Seq<Seq<char>> {
    match g {
        CMakeGenerator::VisualStudio | CMakeGenerator::VisualStudioWin64 => seq![
            "--config"@,
            build_type_name(b),
        ],
        CMakeGenerator::Platform => seq![],
        CMakeGenerator::Makefile | CMakeGenerator::Ninja => seq!["--"@, "-j"@, decimal(nproc)],
    }
}

/// Whether `s` holds `a` immediately followed by `b`.
pub open spec fn adjacent(s: Seq<Seq<char>>, a: Seq<char>, b: Seq<char>) -> bool {
    exists|i: int| 0 <= i && i + 1 < s.len() && #[trigger] s[i] == a && s[i + 1] == b
}

/// Makefile and Ninja builds always pass `-j <nproc>` and never `--config`;
/// Visual Studio builds always pass `--config` and never `-j`.
pub proof fn lemma_build_options_parallelism(g: CMakeGenerator, nproc: nat, b: BuildType)
    ensures
        (g == CMakeGenerator::Makefile || g == CMakeGenerator::Ninja) ==> {
            &&& adjacent(build_options(g, nproc, b), "-j"@, decimal(nproc))
            &&& !build_options(g, nproc, b).contains("--config"@)
        },
        (g == CMakeGenerator::VisualStudio || g == CMakeGenerator::VisualStudioWin64) ==> {
            &&& build_options(g, nproc, b).contains("--config"@)
            &&& !build_options(g, nproc, b).contains("-j"@)
        },
{
    reveal_strlit("-j");
    reveal_strlit("--");
    reveal_strlit("--config");
    reveal_strlit("Debug");
    reveal_strlit("Release");
    reveal_strlit("RelWithDebInfo");
    reveal_strlit("MinSizeRel");
    let s = build_options(g, nproc, b);
    if g == CMakeGenerator::Makefile || g == CMakeGenerator::Ninja {
        assert(s[1] == "-j"@ && s[2] == decimal(nproc));
        lemma_decimal_starts_with_digit(nproc);
        assert("--config"@[1] == '-');
        assert("-j"@.len() != "--config"@.len());
        assert("--"@[1] != "--config"@[2]);
        if s.contains("--config"@) {
            let i = choose|i: int| 0 <= i < s.len() && s[i] == "--config"@;
            if i == 0 {
                assert(s[0][1] != "--config"@[1] || s[0].len() != "--config"@.len());
            } else if i == 2 {
                assert(s[2][0] != "--config"@[0]);
            }
        }
    } else if g == CMakeGenerator::VisualStudio || g == CMakeGenerator::VisualStudioWin64 {
        assert(s[0] == "--config"@);
        if s.contains("-j"@) {
            let i = choose|i: int| 0 <= i < s.len() && s[i] == "-j"@;
            if i == 0 {
                assert(s[0].len() != "-j"@.len());
            } else {
                assert(s[1][0] != "-j"@[0]);
            }
        }
    }
}

/// The decimal representation of a number starts with a digit.
pub proof fn lemma_decimal_starts_with_digit(n: nat)
    ensures
        decimal(n).len() >= 1,
        '0' <= decimal(n)[0] <= '9',
    decreases n,
{
    if n >= 10 {
        lemma_decimal_starts_with_digit(n / 10);
    }
}

impl CMakeGenerator {
    /// Parses a generator name, ignoring ASCII case; `vs` stands for
    /// Visual Studio.
    pub fn parse(generator: &str) -> (r: Result<CMakeGenerator>)
        ensures
            match generator_of_name(lower_ascii(generator@)) {
                Some(g) => r == Ok::<CMakeGenerator, Error>(g),
                None => r matches Err(Error::UnsupportedGenerator { generator: s })
                    && s@ == generator@,
            },
    {
        let l = to_ascii_lowercase(generator);
        if str_eq(l.as_str(), "makefile") {
            Ok(CMakeGenerator::Makefile)
        } else if str_eq(l.as_str(), "ninja") {
            Ok(CMakeGenerator::Ninja)
        } else if str_eq(l.as_str(), "visualstudio") || str_eq(l.as_str(), "vs") {
            Ok(CMakeGenerator::VisualStudio)
        } else {
            Err(Error::UnsupportedGenerator { generator: generator.to_owned() })
        }
    }

    /// Options for `cmake` at configure time.
    pub fn option(&self) -> (r: Vec<String>)
        ensures
            r.deep_view() == generator_options(*self),
    {
        let r = match self {
            CMakeGenerator::Platform => Vec::new(),
            CMakeGenerator::Makefile => vec!["-G".to_owned(), "Unix Makefiles".to_owned()],
            CMakeGenerator::Ninja => vec!["-G".to_owned(), "Ninja".to_owned()],
            CMakeGenerator::VisualStudio => vec![
                "-G".to_owned(),
                "Visual Studio 15 2017".to_owned(),
            ],
            CMakeGenerator::VisualStudioWin64 => vec![
                "-G".to_owned(),
                "Visual Studio 17 2022 Win64".to_owned(),
                "-Thost=x64".to_owned(),
            ],
        };
        assert(r.deep_view() =~= generator_options(*self));
        r
    }

    /// Options for `cmake --build`.
    pub fn build_option(&self, nproc: usize, build_type: BuildType) -> (r: Vec<String>)
        ensures
            r.deep_view() == build_options(*self, nproc as nat, build_type),
    {
        let r = match self {
            CMakeGenerator::VisualStudioWin64 | CMakeGenerator::VisualStudio => vec![
                "--config".to_owned(),
                build_type.name(),
            ],
            CMakeGenerator::Platform => Vec::new(),
            CMakeGenerator::Makefile | CMakeGenerator::Ninja => vec![
                "--".to_owned(),
                "-j".to_owned(),
                u64_to_decimal(nproc as u64),
            ],
        };
        assert(r.deep_view() =~= build_options(*self, nproc as nat, build_type));
        r
    }
}

impl Default for CMakeGenerator {
    fn default() -> (r: Self)
        ensures
            r == CMakeGenerator::Platform,
    {
        CMakeGenerator::Platform
    }
}

impl core::str::FromStr for CMakeGenerator {
    type Err = Error;

    fn from_str(generator: &str) -> Result<CMakeGenerator> {
        CMakeGenerator::parse(generator)
    }
}

impl BuildType {
    /// Parses a build-type name, ignoring ASCII case.
    pub fn parse(s: &str) -> (r: Result<BuildType>)
        ensures
            match build_type_of_name(lower_ascii(s@)) {
                Some(b) => r == Ok::<BuildType, Error>(b),
                None => r matches Err(Error::UnsupportedBuildType { build_type: t })
                    && t@ == s@,
            },
    {
        let l = to_ascii_lowercase(s);
        if str_eq(l.as_str(), "debug") {
            Ok(BuildType::Debug)
        } else if str_eq(l.as_str(), "release") {
            Ok(BuildType::Release)
        } else if str_eq(l.as_str(), "relwithdebinfo") {
            Ok(BuildType::RelWithDebInfo)
        } else if str_eq(l.as_str(), "minsizerel") {
            Ok(BuildType::MinSizeRel)
        } else {
            Err(Error::UnsupportedBuildType { build_type: s.to_owned() })
        }
    }

    /// The name CMake knows the build type by.
    pub fn name(&self) -> (r: String)
        ensures
            r@ == build_type_name(*self),
    {
        match self {
            BuildType::Debug => "Debug".to_owned(),
            BuildType::Release => "Release".to_owned(),
            BuildType::RelWithDebInfo => "RelWithDebInfo".to_owned(),
            BuildType::MinSizeRel => "MinSizeRel".to_owned(),
        }
    }
}

impl Default for BuildType {
    fn default() -> (r: Self)
        ensures
            r == BuildType::Release,
    {
        BuildType::Release
    }
}

impl core::str::FromStr for BuildType {
    type Err = Error;

    fn from_str(s: &str) -> Result<BuildType> {
        BuildType::parse(s)
    }
}

} // verus!
