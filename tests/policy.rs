use llvmenv::catalog::{load_entries, load_entry, official_releases};
use llvmenv::entry::{Entry, EntrySetting, HostOs};
use llvmenv::error::Error;
use llvmenv::generator::{BuildType, CMakeGenerator};
use llvmenv::layout::{app_dir, entry_toml_path, join_path_exec, Roots};
use llvmenv::orchestrate::{check_output, CommandStatus};
use llvmenv::releases::{parse_version, resolve_versions};
use llvmenv::version::Version;
use std::str::FromStr;

#[test]
fn generator_parse_is_case_insensitive() {
    assert_eq!(CMakeGenerator::parse("NINJA").unwrap(), CMakeGenerator::Ninja);
    assert_eq!(CMakeGenerator::parse("vs").unwrap(), CMakeGenerator::VisualStudio);
    assert_eq!(CMakeGenerator::parse("VisualStudio").unwrap(), CMakeGenerator::VisualStudio);
    assert_eq!(CMakeGenerator::from_str("Makefile").unwrap(), CMakeGenerator::Makefile);
}

#[test]
fn generator_parse_rejects_unknown() {
    match CMakeGenerator::parse("potato") {
        Err(Error::UnsupportedGenerator { generator }) => assert_eq!(generator, "potato"),
        other => panic!("unexpected: {:?}", other),
    }
    assert!(CMakeGenerator::from_str("MySuperBuilder").is_err());
}

#[test]
fn build_type_parse() {
    assert_eq!(BuildType::parse("RELWITHDEBINFO").unwrap(), BuildType::RelWithDebInfo);
    assert_eq!(BuildType::from_str("debug").unwrap(), BuildType::Debug);
    match BuildType::parse("fast") {
        Err(Error::UnsupportedBuildType { build_type }) => assert_eq!(build_type, "fast"),
        other => panic!("unexpected: {:?}", other),
    }
    assert_eq!(BuildType::MinSizeRel.name(), "MinSizeRel");
}

#[test]
fn generator_options() {
    assert!(CMakeGenerator::Platform.option().is_empty());
    assert_eq!(CMakeGenerator::Makefile.option(), vec!["-G", "Unix Makefiles"]);
    assert_eq!(CMakeGenerator::Ninja.option(), vec!["-G", "Ninja"]);
    assert_eq!(CMakeGenerator::VisualStudio.option(), vec!["-G", "Visual Studio 15 2017"]);
    assert_eq!(
        CMakeGenerator::VisualStudioWin64.option(),
        vec!["-G", "Visual Studio 17 2022 Win64", "-Thost=x64"]
    );
}

#[test]
fn build_options_parallelism() {
    assert_eq!(
        CMakeGenerator::Ninja.build_option(12, BuildType::Release),
        vec!["--", "-j", "12"]
    );
    assert_eq!(
        CMakeGenerator::Makefile.build_option(4, BuildType::Debug),
        vec!["--", "-j", "4"]
    );
    assert_eq!(
        CMakeGenerator::VisualStudio.build_option(4, BuildType::Debug),
        vec!["--config", "Debug"]
    );
    assert_eq!(
        CMakeGenerator::VisualStudioWin64.build_option(8, BuildType::MinSizeRel),
        vec!["--config", "MinSizeRel"]
    );
    assert!(CMakeGenerator::Platform.build_option(8, BuildType::Release).is_empty());
}

fn roots() -> Roots {
    Roots { cache: "/cache".into(), data: "/data".into() }
}

#[test]
fn configure_arguments() {
    let setting = EntrySetting {
        url: Some("https://example.com/llvm".into()),
        target: vec!["X86".into(), "AArch64".into()],
        generator: CMakeGenerator::Ninja,
        option: vec![("LLVM_ENABLE_ASSERTIONS".into(), "ON".into()), ("A".into(), "b".into())],
        ..Default::default()
    };
    let e = Entry::parse_setting("mine", None, setting).unwrap();
    let inv = e.configure_with(&roots(), true, false);
    assert_eq!(inv.program, "cmake");
    assert_eq!(inv.cwd.as_deref(), Some("/cache/mine/llvm/build"));
    assert_eq!(
        inv.args,
        vec![
            "-G",
            "Ninja",
            "/cache/mine/llvm",
            "-DCMAKE_INSTALL_PREFIX=/data/mine",
            "-DCMAKE_BUILD_TYPE=Release",
            "-DLLVM_CCACHE_BUILD=ON",
            "-DLLVM_TARGETS_TO_BUILD=X86;AArch64",
            "-DLLVM_ENABLE_ASSERTIONS=ON",
            "-DA=b",
        ]
    );
}

#[test]
fn configure_has_one_build_type_and_one_prefix() {
    let option = (0..20).map(|i| (format!("OPT{}", i), "1".to_string())).collect();
    let setting = EntrySetting {
        url: Some("https://example.com/llvm".into()),
        option,
        project: true,
        ..Default::default()
    };
    let e = Entry::parse_setting("many", None, setting).unwrap();
    let args = e.configure(&roots()).args;
    assert_eq!(args.iter().filter(|a| a.starts_with("-DCMAKE_BUILD_TYPE=")).count(), 1);
    assert_eq!(args.iter().filter(|a| a.starts_with("-DCMAKE_INSTALL_PREFIX=")).count(), 1);
    assert_eq!(args[0], "/cache/many/llvm");
}

#[test]
fn build_steps() {
    let mut e = Entry::official(10, 0, 0, HostOs::Other);
    e.set_builder("ninja").unwrap();
    e.set_build_type(BuildType::Debug).unwrap();
    let steps = e.build(&roots(), 6);
    assert_eq!(steps.len(), 2);
    assert!(steps[0].args.contains(&"-DCMAKE_BUILD_TYPE=Debug".to_string()));
    assert_eq!(
        steps[1].args,
        vec!["--build", "/cache/10.0.0/llvm/build", "--target", "install", "--", "-j", "6"]
    );
}

#[test]
fn set_builder_rejects_unknown_and_keeps_entry() {
    let mut e = Entry::official(10, 0, 0, HostOs::Other);
    assert!(matches!(e.set_builder("potato"), Err(Error::UnsupportedGenerator { .. })));
    assert_eq!(e, Entry::official(10, 0, 0, HostOs::Other));
}

#[test]
fn command_outcomes() {
    let ok = check_output("cmake".into(), CommandStatus::Exited(0), "out".into(), "err".into());
    assert_eq!(ok.unwrap(), ("out".to_string(), "err".to_string()));
    match check_output("cmake".into(), CommandStatus::Exited(2), "o".into(), "e".into()) {
        Err(Error::CommandError { errno, .. }) => assert_eq!(errno, 2),
        other => panic!("unexpected: {:?}", other),
    }
    assert!(matches!(
        check_output("nope".into(), CommandStatus::NotFound, String::new(), String::new()),
        Err(Error::CommandNotFound { .. })
    ));
    assert!(matches!(
        check_output("cmake".into(), CommandStatus::Signaled, String::new(), String::new()),
        Err(Error::CommandTerminatedBySignal { .. })
    ));
}

#[test]
fn resolve_dedups_filters_and_sorts() {
    let listing = "h1\trefs/tags/llvmorg-10.0.0\nh1\trefs/tags/llvmorg-10.0.0\nh1\trefs/tags/llvmorg-9.0.1-rc1\nh1\trefs/tags/llvmorg-9.0.0\n";
    let vs = resolve_versions(listing).unwrap();
    assert_eq!(vs, vec![Version::new(10, 0, 0), Version::new(9, 0, 0)]);
}

#[test]
fn resolve_orders_numerically() {
    let listing = "a\trefs/tags/llvmorg-9.0.0\nb\trefs/tags/llvmorg-10.0.1\nc\trefs/tags/llvmorg-10-init\nd\trefs/tags/other-11.0.0\ne\trefs/tags/llvmorg-3.9.1\n";
    let vs = resolve_versions(listing).unwrap();
    assert_eq!(vs, vec![Version::new(10, 0, 1), Version::new(9, 0, 0), Version::new(3, 9, 1)]);
}

#[test]
fn resolve_rejects_leading_zero() {
    let listing = "a\trefs/tags/llvmorg-10.01.0\n";
    match resolve_versions(listing) {
        Err(Error::InvalidVersion { version }) => assert_eq!(version, "10.01.0"),
        other => panic!("unexpected: {:?}", other),
    }
}

#[test]
fn resolve_drops_last_piece() {
    assert!(resolve_versions("a\trefs/tags/llvmorg-1.0.0").unwrap().is_empty());
    assert!(resolve_versions("").unwrap().is_empty());
}

#[test]
fn official_releases_newest_first() {
    let listing = "a\trefs/tags/llvmorg-9.0.0\nb\trefs/tags/llvmorg-16.0.0\n";
    let es = official_releases(listing, HostOs::Other).unwrap();
    let names: Vec<&str> = es.iter().map(|e| e.name()).collect();
    assert_eq!(names, vec!["16.0.0", "9.0.0"]);
    assert_eq!(es[0], Entry::official(16, 0, 0, HostOs::Other));
}

#[test]
fn version_parsing() {
    assert_eq!(parse_version("10.0.1"), Some(Version::new(10, 0, 1)));
    assert_eq!(parse_version("mirror"), None);
    assert_eq!(Version::new(10, 2, 31).to_string(), "10.2.31");
}

#[test]
fn catalog_first_match_wins() {
    let configured = vec![(
        "9.0.0".to_string(),
        EntrySetting { path: Some("/src/nine".into()), ..Default::default() },
    )];
    let listing = "a\trefs/tags/llvmorg-9.0.0\n";
    let entries = load_entries(configured, listing, HostOs::Other).unwrap();
    assert_eq!(entries.len(), 2);
    assert_eq!(entries[0].version(), Some(Version::new(9, 0, 0)));
    let found = load_entry(entries, "9.0.0").unwrap();
    assert!(matches!(found, Entry::Local { .. }));
}

#[test]
fn catalog_lookup_missing() {
    let entries = official_releases("a\trefs/tags/llvmorg-9.0.0\n", HostOs::Other).unwrap();
    match load_entry(entries, "nope") {
        Err(Error::InvalidEntry { name, .. }) => assert_eq!(name, "nope"),
        other => panic!("unexpected: {:?}", other),
    }
}

#[test]
fn catalog_invalid_setting_fails() {
    let configured = vec![("bad".to_string(), EntrySetting::default())];
    assert!(matches!(
        load_entries(configured, "", HostOs::Other),
        Err(Error::InvalidEntry { .. })
    ));
}

#[test]
fn paths() {
    assert_eq!(join_path_exec("/a", "b"), "/a/b");
    assert_eq!(join_path_exec("/a/", "b"), "/a/b");
    assert_eq!(join_path_exec("/a", "/b"), "/b");
    assert_eq!(app_dir(Some("/home/u/.cache".into())).unwrap(), "/home/u/.cache/llvmenv");
    assert!(matches!(app_dir(None), Err(Error::UnsupportedOS)));
    assert_eq!(entry_toml_path("/c/llvmenv"), "/c/llvmenv/entry.toml");
}

#[test]
fn invalid_version_error() {
    match Error::invalid_version("x.y") {
        Error::InvalidVersion { version } => assert_eq!(version, "x.y"),
        other => panic!("unexpected: {:?}", other),
    }
}
