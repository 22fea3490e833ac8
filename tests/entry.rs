use llvmenv::entry::{Entry, EntrySetting, HostOs, Tool};
use llvmenv::error::Error;
use llvmenv::layout::{FetchAction, Roots};
use llvmenv::version::Version;

#[test]
fn parse_url() {
    let setting = EntrySetting {
        url: Some("http://llvm.org/svn/llvm-project/llvm/trunk".into()),
        ..Default::default()
    };
    let _entry = Entry::parse_setting("url", None, setting).unwrap();
}

#[test]
fn parse_path() {
    let setting = EntrySetting {
        path: Some("~/.config/llvmenv".into()),
        ..Default::default()
    };
    let _entry = Entry::parse_setting("path", None, setting).unwrap();
}

#[should_panic]
#[test]
fn parse_no_entry() {
    let setting = EntrySetting::default();
    let _entry = Entry::parse_setting("no_entry", None, setting).unwrap();
}

#[should_panic]
#[test]
fn parse_duplicated() {
    let setting = EntrySetting {
        url: Some("http://llvm.org/svn/llvm-project/llvm/trunk".into()),
        path: Some("~/.config/llvmenv".into()),
        ..Default::default()
    };
    let _entry = Entry::parse_setting("duplicated", None, setting).unwrap();
}

#[test]
fn parse_with_version() {
    let path = "~/.config/llvmenv";
    let version = Version::new(10, 0, 0);
    let setting = EntrySetting {
        path: Some(path.into()),
        ..Default::default()
    };
    let setting2 = EntrySetting {
        path: Some(path.into()),
        ..Default::default()
    };
    let entry = Entry::parse_setting("path", Some(version), setting).unwrap();

    assert_eq!(entry.version(), Some(version));
    assert_eq!(
        entry,
        Entry::Local {
            name: "path".into(),
            version: Some(version),
            path: shellexpand::full(path).unwrap().to_string(),
            setting: setting2,
        }
    )
}

#[test]
fn both_url_and_path_is_invalid_entry() {
    let setting = EntrySetting {
        url: Some("https://example.com/llvm".into()),
        path: Some("/src/llvm".into()),
        ..Default::default()
    };
    match Entry::parse_setting("both", None, setting) {
        Err(Error::InvalidEntry { name, .. }) => assert_eq!(name, "both"),
        other => panic!("unexpected: {:?}", other),
    }
}

#[test]
fn neither_url_nor_path_is_invalid_entry() {
    match Entry::parse_setting("none", None, EntrySetting::default()) {
        Err(Error::InvalidEntry { name, .. }) => assert_eq!(name, "none"),
        other => panic!("unexpected: {:?}", other),
    }
}

#[test]
fn plain_local_path_is_kept_verbatim() {
    let setting = EntrySetting { path: Some("/src/llvm".into()), ..Default::default() };
    let entry = Entry::parse_setting("mine", None, setting).unwrap();
    match entry {
        Entry::Local { path, .. } => assert_eq!(path, "/src/llvm"),
        other => panic!("unexpected: {:?}", other),
    }
}

#[test]
fn remote_entry_carries_url_and_tools() {
    let setting = EntrySetting {
        url: Some("https://github.com/llvm-mirror/llvm".into()),
        tools: vec![Tool::new("clang", "https://github.com/llvm-mirror/clang")],
        ..Default::default()
    };
    match Entry::parse_setting("mirror", None, setting).unwrap() {
        Entry::Remote { name, url, tools, .. } => {
            assert_eq!(name, "mirror");
            assert_eq!(url, "https://github.com/llvm-mirror/llvm");
            assert_eq!(tools.len(), 1);
            assert_eq!(tools[0].name, "clang");
        }
        other => panic!("unexpected: {:?}", other),
    }
}

fn tool_names(e: &Entry) -> Vec<String> {
    match e {
        Entry::Remote { tools, .. } => tools.iter().map(|t| t.name.clone()).collect(),
        Entry::Local { .. } => vec![],
    }
}

fn primary_url(e: &Entry) -> String {
    match e {
        Entry::Remote { url, .. } => url.clone(),
        Entry::Local { .. } => String::new(),
    }
}

#[test]
fn official_9_0_0_uses_legacy_host() {
    let e = Entry::official(9, 0, 0, HostOs::Other);
    assert_eq!(primary_url(&e), "http://releases.llvm.org/9.0.0/llvm-9.0.0.src.tar.xz");
    assert_eq!(e.name(), "9.0.0");
}

#[test]
fn official_8_0_1_uses_release_assets() {
    let e = Entry::official(8, 0, 1, HostOs::Other);
    assert_eq!(
        primary_url(&e),
        "https://github.com/llvm/llvm-project/releases/download/llvmorg-8.0.1/llvm-8.0.1.src.tar.xz"
    );
}

#[test]
fn official_9_0_1_uses_release_assets() {
    let e = Entry::official(9, 0, 1, HostOs::Other);
    assert_eq!(
        primary_url(&e),
        "https://github.com/llvm/llvm-project/releases/download/llvmorg-9.0.1/llvm-9.0.1.src.tar.xz"
    );
}

#[test]
fn official_clang_tarball_name_changes_after_9() {
    let old = Entry::official(9, 0, 0, HostOs::Other);
    let new = Entry::official(10, 0, 0, HostOs::Other);
    match (&old, &new) {
        (Entry::Remote { tools: a, .. }, Entry::Remote { tools: b, .. }) => {
            assert_eq!(a[0].name, "clang");
            assert_eq!(a[0].url, "http://releases.llvm.org/9.0.0/cfe-9.0.0.src.tar.xz");
            assert_eq!(b[0].name, "clang");
            assert_eq!(
                b[0].url,
                "https://github.com/llvm/llvm-project/releases/download/llvmorg-10.0.0/clang-10.0.0.src.tar.xz"
            );
        }
        _ => panic!("official entries are remote"),
    }
}

#[test]
fn official_16_has_mlir_third_party_cmake() {
    let names = tool_names(&Entry::official(16, 0, 0, HostOs::Other));
    for t in ["mlir", "third-party", "cmake"] {
        assert!(names.iter().any(|n| n == t), "{} missing", t);
    }
}

#[test]
fn official_15_lacks_mlir_third_party_cmake() {
    let names = tool_names(&Entry::official(15, 0, 0, HostOs::Other));
    for t in ["mlir", "third-party", "cmake"] {
        assert!(!names.iter().any(|n| n == t), "{} present", t);
    }
}

#[test]
fn official_tool_sets_by_platform() {
    let other = tool_names(&Entry::official(15, 0, 0, HostOs::Other));
    assert_eq!(
        other,
        vec![
            "clang", "polly", "compiler-rt", "lld", "lldb", "clang-tools-extra", "libcxx",
            "libcxxabi", "libunwind", "openmp"
        ]
    );
    let mac = tool_names(&Entry::official(15, 0, 0, HostOs::MacOs));
    assert!(!mac.iter().any(|n| n == "compiler-rt" || n == "libunwind"));
    let win = tool_names(&Entry::official(15, 0, 0, HostOs::Windows));
    assert!(!win.iter().any(|n| n == "libcxx" || n == "libcxxabi"));
    assert!(win.iter().any(|n| n == "openmp"));
}

#[test]
fn unknown_tool_without_path_is_an_error() {
    let setting = EntrySetting {
        url: Some("https://example.com/llvm".into()),
        tools: vec![Tool::new("mystery", "https://example.com/mystery")],
        ..Default::default()
    };
    let e = Entry::parse_setting("x", None, setting).unwrap();
    let roots = Roots { cache: "/cache".into(), data: "/data".into() };
    match e.checkout(&roots) {
        Err(Error::UnknownTool { name }) => assert_eq!(name, "mystery"),
        other => panic!("unexpected: {:?}", other),
    }
}

#[test]
fn explicit_relative_path_is_used() {
    let mut tool = Tool::new("extra", "https://example.com/extra");
    tool.relative_path = Some("tools/clang/tools/extra".into());
    assert_eq!(tool.rel_path().unwrap(), "tools/clang/tools/extra");
    assert_eq!(Tool::new("lld", "u").rel_path().unwrap(), "../lld");
}

#[test]
fn remote_checkout_plan() {
    let e = Entry::official(16, 0, 0, HostOs::Other);
    let roots = Roots { cache: "/cache".into(), data: "/data".into() };
    let steps = e.checkout(&roots).unwrap();
    assert_eq!(steps[0].dest, "/cache/16.0.0/llvm");
    assert_eq!(steps[0].action, FetchAction::Download);
    assert_eq!(
        steps[0].url,
        "https://github.com/llvm/llvm-project/releases/download/llvmorg-16.0.0/llvm-16.0.0.src.tar.xz"
    );
    assert_eq!(steps[1].dest, "/cache/16.0.0/llvm/../clang");
    assert_eq!(steps.len(), 14);
    let updates = e.update(&roots).unwrap();
    assert!(updates.iter().all(|s| s.action == FetchAction::Update));
    assert_eq!(updates.len(), steps.len());
}

#[test]
fn local_checkout_and_update_are_noops() {
    let setting = EntrySetting { path: Some("/src/llvm".into()), ..Default::default() };
    let e = Entry::parse_setting("mine", None, setting).unwrap();
    let roots = Roots { cache: "/cache".into(), data: "/data".into() };
    assert!(e.checkout(&roots).unwrap().is_empty());
    assert!(e.update(&roots).unwrap().is_empty());
}

#[test]
fn directory_layout() {
    let roots = Roots { cache: "/cache/llvmenv".into(), data: "/data/llvmenv".into() };
    let e = Entry::official(10, 0, 0, HostOs::Other);
    assert_eq!(e.src_dir(&roots), "/cache/llvmenv/10.0.0/llvm");
    assert_eq!(e.build_dir(&roots), "/cache/llvmenv/10.0.0/llvm/build");
    assert_eq!(e.prefix(&roots), "/data/llvmenv/10.0.0");
    let setting = EntrySetting {
        url: Some("https://example.com/llvm-project".into()),
        project: true,
        ..Default::default()
    };
    let p = Entry::parse_setting("mono", None, setting).unwrap();
    assert_eq!(p.src_dir(&roots), "/cache/llvmenv/mono");
    let setting = EntrySetting { path: Some("/home/me/llvm".into()), ..Default::default() };
    let l = Entry::parse_setting("mine", None, setting).unwrap();
    assert_eq!(l.src_dir(&roots), "/home/me/llvm");
    assert_eq!(l.build_dir(&roots), "/home/me/llvm/build");
}
