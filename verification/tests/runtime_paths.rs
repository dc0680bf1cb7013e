use threadbridge::runtime_paths::{
    ancestors, bundle_assets_path, resolve_data_root, resolve_runtime_paths_with, BuildFlavor,
    CanonicalPath, DiskFacts, RuntimePathError, RuntimePathOverrides, DEBUG_EVENTS_RELATIVE_PATH,
};

const SOURCE_ROOT: &str = "/tmp/source-tree";
const CURRENT_EXE: &str = "/tmp/source-tree/target/debug/threadbridge_desktop";

fn source_tree() -> DiskFacts {
    DiskFacts {
        directories: vec![format!("{SOURCE_ROOT}/runtime_assets")],
        files: vec![format!("{SOURCE_ROOT}/Cargo.toml")],
        canonical_paths: Vec::new(),
    }
}

#[test]
fn debug_build_defaults_to_source_tree_layout() {
    let paths = resolve_runtime_paths_with(
        &source_tree(),
        "/tmp/debug-default",
        CURRENT_EXE,
        BuildFlavor::Debug,
        Some("/tmp/platform"),
        &RuntimePathOverrides::default(),
    )
    .unwrap();
    assert_eq!(paths.data_root_path, format!("{SOURCE_ROOT}/data"));
    assert_eq!(
        paths.debug_log_path,
        format!("{SOURCE_ROOT}/data/{DEBUG_EVENTS_RELATIVE_PATH}")
    );
    assert_eq!(
        paths.runtime_assets_root_path,
        format!("{SOURCE_ROOT}/runtime_assets")
    );
    assert_eq!(
        paths.runtime_assets_seed_root_path,
        format!("{SOURCE_ROOT}/runtime_assets")
    );
}

#[test]
fn release_build_defaults_to_platform_data_dir_and_bundle_runtime_assets() {
    let facts = DiskFacts {
        directories: vec![
            "/tmp/bundle-root/threadBridge.app/Contents/Resources/runtime_assets".to_owned(),
        ],
        files: Vec::new(),
        canonical_paths: Vec::new(),
    };
    let paths = resolve_runtime_paths_with(
        &facts,
        "/tmp/release-default",
        "/tmp/bundle-root/threadBridge.app/Contents/MacOS/threadbridge_desktop",
        BuildFlavor::Release,
        Some("/tmp/platform"),
        &RuntimePathOverrides::default(),
    )
    .unwrap();
    assert_eq!(paths.data_root_path, "/tmp/platform/threadBridge/data");
    assert_eq!(
        paths.debug_log_path,
        format!("/tmp/platform/threadBridge/data/{DEBUG_EVENTS_RELATIVE_PATH}")
    );
    assert_eq!(
        paths.runtime_assets_root_path,
        "/tmp/platform/threadBridge/runtime_assets"
    );
    assert_eq!(
        paths.runtime_assets_seed_root_path,
        "/tmp/bundle-root/threadBridge.app/Contents/Resources/runtime_assets"
    );
}

#[test]
fn data_root_override_has_highest_precedence() {
    let paths = resolve_runtime_paths_with(
        &source_tree(),
        "/tmp/override",
        CURRENT_EXE,
        BuildFlavor::Release,
        None,
        &RuntimePathOverrides {
            data_root: Some("./custom-data".to_owned()),
            bot_data_path: Some("./ignored/state.json".to_owned()),
            debug_log_path: None,
        },
    )
    .unwrap();
    assert_eq!(paths.data_root_path, "/tmp/override/custom-data");
    assert_eq!(
        paths.debug_log_path,
        format!("/tmp/override/custom-data/{DEBUG_EVENTS_RELATIVE_PATH}")
    );
    assert_eq!(
        paths.runtime_assets_root_path,
        format!("{SOURCE_ROOT}/runtime_assets")
    );
}

#[test]
fn legacy_bot_data_path_uses_parent_directory() {
    let paths = resolve_runtime_paths_with(
        &source_tree(),
        "/tmp/legacy",
        CURRENT_EXE,
        BuildFlavor::Release,
        Some("/tmp/platform"),
        &RuntimePathOverrides {
            data_root: None,
            bot_data_path: Some("./legacy/state.json".to_owned()),
            debug_log_path: None,
        },
    )
    .unwrap();
    assert_eq!(paths.data_root_path, "/tmp/legacy/legacy");
}

#[test]
fn debug_log_override_is_resolved_relative_to_cwd() {
    let paths = resolve_runtime_paths_with(
        &source_tree(),
        "/tmp/debug-log",
        CURRENT_EXE,
        BuildFlavor::Debug,
        None,
        &RuntimePathOverrides {
            data_root: Some("./custom-data".to_owned()),
            bot_data_path: None,
            debug_log_path: Some("./logs/custom.jsonl".to_owned()),
        },
    )
    .unwrap();
    assert_eq!(paths.data_root_path, "/tmp/debug-log/custom-data");
    assert_eq!(paths.debug_log_path, "/tmp/debug-log/logs/custom.jsonl");
}

#[test]
fn release_build_requires_platform_local_data_dir_without_overrides() {
    let error = resolve_runtime_paths_with(
        &source_tree(),
        "/tmp/missing-platform",
        CURRENT_EXE,
        BuildFlavor::Release,
        None,
        &RuntimePathOverrides::default(),
    )
    .unwrap_err();
    assert!(error
        .to_text()
        .contains("failed to resolve a local application data directory"));
}

#[test]
fn absolute_overrides_are_preserved() {
    let paths = resolve_runtime_paths_with(
        &source_tree(),
        "/tmp/absolute",
        CURRENT_EXE,
        BuildFlavor::Debug,
        None,
        &RuntimePathOverrides {
            data_root: Some("/tmp/explicit-data-root".to_owned()),
            bot_data_path: None,
            debug_log_path: Some("/tmp/explicit-debug-log/events.jsonl".to_owned()),
        },
    )
    .unwrap();
    assert_eq!(paths.data_root_path, "/tmp/explicit-data-root");
    assert_eq!(paths.debug_log_path, "/tmp/explicit-debug-log/events.jsonl");
}

#[test]
fn missing_assets_are_an_error() {
    let nothing = DiskFacts {
        directories: Vec::new(),
        files: Vec::new(),
        canonical_paths: Vec::new(),
    };
    let error = resolve_runtime_paths_with(
        &nothing,
        "/work",
        "/usr/bin/threadbridge",
        BuildFlavor::Debug,
        None,
        &RuntimePathOverrides {
            data_root: Some("/data".to_owned()),
            bot_data_path: None,
            debug_log_path: None,
        },
    )
    .unwrap_err();
    assert_eq!(error, RuntimePathError::NoAssetsRoot);
}

#[test]
fn linked_roots_are_followed() {
    let mut facts = source_tree();
    facts.canonical_paths.push(CanonicalPath {
        path: "/work/./d".to_owned(),
        canonical: "/real/d".to_owned(),
    });
    let paths = resolve_runtime_paths_with(
        &facts,
        "/work",
        CURRENT_EXE,
        BuildFlavor::Debug,
        None,
        &RuntimePathOverrides {
            data_root: Some("./d".to_owned()),
            bot_data_path: None,
            debug_log_path: None,
        },
    )
    .unwrap();
    assert_eq!(paths.data_root_path, "/real/d");
}

#[test]
fn bundled_assets_need_a_place_beside_the_data() {
    let facts = DiskFacts {
        directories: vec!["/app/Contents/Resources/runtime_assets".to_owned()],
        files: Vec::new(),
        canonical_paths: Vec::new(),
    };
    let error = resolve_runtime_paths_with(
        &facts,
        "/work",
        "/app/Contents/MacOS/tool",
        BuildFlavor::Release,
        None,
        &RuntimePathOverrides {
            data_root: Some("/".to_owned()),
            bot_data_path: None,
            debug_log_path: None,
        },
    )
    .unwrap_err();
    assert_eq!(error, RuntimePathError::NoDataRootParent);
    assert_eq!(
        error.to_text(),
        "failed to resolve runtime assets root because data root has no parent directory"
    );
}

#[test]
fn paths_know_their_ancestors() {
    assert_eq!(ancestors("/a/b"), vec!["/a/b", "/a", "/"]);
    assert_eq!(
        bundle_assets_path("/x/Tool.app/Contents/MacOS/tool").as_deref(),
        Some("/x/Tool.app/Contents/Resources/runtime_assets")
    );
}

#[test]
fn build_flavor_follows_the_assertions() {
    assert_eq!(BuildFlavor::current(true), BuildFlavor::Debug);
    assert_eq!(BuildFlavor::current(false), BuildFlavor::Release);
}

#[test]
fn a_data_root_that_is_set_decides_alone() {
    let mut overrides = RuntimePathOverrides::default();
    overrides.data_root = Some("/srv/data".to_owned());
    let debug = resolve_data_root(
        &source_tree(),
        "/tmp/cwd",
        BuildFlavor::Debug,
        Some("/tmp/platform"),
        &overrides,
        Some(SOURCE_ROOT),
    );
    assert_eq!(debug.ok().as_deref(), Some("/srv/data"));
    overrides.bot_data_path = Some("/old/data/bot.json".to_owned());
    let release = resolve_data_root(
        &source_tree(),
        "/tmp/cwd",
        BuildFlavor::Release,
        None,
        &overrides,
        None,
    );
    assert_eq!(release.ok().as_deref(), Some("/srv/data"));
}
