use vfox_plugin::{
    env_map, finish_message, is_disabled, EnvKey, IndexEntry, NameSet, Outcome, PluginCatalog,
    PluginError, PluginType, Refusal, VfoxPlugin,
};

fn entry(name: &str, kind: PluginType) -> IndexEntry {
    IndexEntry { name: name.to_string(), kind }
}

fn names(plugins: &[VfoxPlugin]) -> Vec<String> {
    plugins.iter().map(|p| p.name().to_string()).collect()
}

#[test]
fn new_plugin_lives_under_the_plugins_root() {
    let plugin = VfoxPlugin::new("bun".to_string(), "/data/plugins");
    assert_eq!(plugin.name(), "bun");
    assert_eq!(plugin.path(), "/data/plugins/bun");
    assert_eq!(plugin.plugins_root(), "/data/plugins");
    assert_eq!(plugin.repo_url(), None);
    assert_eq!(plugin.get_plugin_type(), PluginType::Vfox);
}

#[test]
fn duplicate_is_equal() {
    let plugin = VfoxPlugin::new("bun".to_string(), "/data/plugins")
        .with_repo_url(Some("https://example.com/bun".to_string()));
    assert_eq!(plugin.duplicate(), plugin);
}

#[test]
fn remote_falls_back_to_the_registered_one() {
    let plugin = VfoxPlugin::new("bun".to_string(), "/data/plugins");
    assert_eq!(plugin.get_remote_url(None), None);
    assert_eq!(
        plugin.get_remote_url(Some("https://example.com/on-disk".to_string())),
        Some("https://example.com/on-disk".to_string())
    );
    let registered = plugin.with_repo_url(Some("https://example.com/registered".to_string()));
    assert_eq!(registered.repo_url(), Some("https://example.com/registered".to_string()));
    assert_eq!(
        registered.get_remote_url(None),
        Some("https://example.com/registered".to_string())
    );
    assert_eq!(
        registered.get_remote_url(Some("https://example.com/on-disk".to_string())),
        Some("https://example.com/on-disk".to_string())
    );
}

#[test]
fn not_installed_error_advises_auto_install() {
    let plugin = VfoxPlugin::new("bun".to_string(), "/data/plugins");
    assert_eq!(plugin.is_installed_err(true), Ok(()));
    let err = plugin.is_installed_err(false).unwrap_err();
    assert_eq!(err, PluginError::NotInstalled { plugin: "bun".to_string() });
    assert_eq!(
        err.message(),
        "run with --yes to install plugin automatically: asdf plugin bun is not installed"
    );
    assert_eq!(err.plugin(), "bun");
}

#[test]
fn list_keeps_only_this_kind() {
    let index = vec![entry("bun", PluginType::Vfox), entry("ruby", PluginType::Asdf)];
    let plugins = VfoxPlugin::list(&index, &vec![], "/data/plugins").unwrap();
    assert_eq!(names(&plugins), vec!["bun".to_string()]);
    assert_eq!(plugins[0].path(), "/data/plugins/bun");
    assert_eq!(plugins[0].repo_url(), None);
}

#[test]
fn list_leaves_out_disabled_tools() {
    let index = vec![entry("bun", PluginType::Vfox), entry("deno", PluginType::Vfox)];
    let disabled = vec!["bun".to_string()];
    let plugins = VfoxPlugin::list(&index, &disabled, "/data/plugins").unwrap();
    assert_eq!(names(&plugins), vec!["deno".to_string()]);
}

#[test]
fn list_is_ordered_by_name_and_has_each_name_once() {
    let index = vec![
        entry("zig", PluginType::Vfox),
        entry("bun", PluginType::Vfox),
        entry("python", PluginType::Asdf),
        entry("deno", PluginType::Vfox),
        entry("bun", PluginType::Vfox),
        entry("Bun", PluginType::Vfox),
    ];
    let plugins = VfoxPlugin::list(&index, &vec!["nothing".to_string()], "/p").unwrap();
    assert_eq!(
        names(&plugins),
        vec!["Bun".to_string(), "bun".to_string(), "deno".to_string(), "zig".to_string()]
    );
}

#[test]
fn list_of_empty_index_is_empty() {
    let plugins = VfoxPlugin::list(&vec![], &vec!["bun".to_string()], "/p").unwrap();
    assert!(plugins.is_empty());
}

#[test]
fn disabled_lookup_is_exact() {
    let disabled = vec!["bun".to_string(), "deno".to_string()];
    assert!(is_disabled(&disabled, "deno"));
    assert!(!is_disabled(&disabled, "den"));
    assert!(!is_disabled(&vec![], "deno"));
}

#[test]
fn name_set_orders_as_strings_do() {
    let mut set = NameSet::new();
    for name in ["b", "a", "ab", "", "é", "z", "a", "B"] {
        set = set.insert(name.to_string());
    }
    let mut expected: Vec<String> =
        ["b", "a", "ab", "", "é", "z", "B"].iter().map(|s| s.to_string()).collect();
    expected.sort();
    assert_eq!(set.to_vec(), expected);
    assert_eq!(set.len(), 7);
    assert_eq!(set.get(0), "");
    assert!(set.contains("ab"));
    assert!(set.contains(""));
    assert!(!set.contains("abc"));
    assert!(!NameSet::new().contains("a"));
}

#[test]
fn catalog_is_computed_once() {
    let mut catalog = PluginCatalog::new();
    assert!(!catalog.is_computed());
    assert!(!catalog.contains("bun"));
    assert!(catalog.names().is_empty());
    let index = vec![entry("deno", PluginType::Vfox), entry("bun", PluginType::Vfox)];
    let first = VfoxPlugin::list(&index, &vec![], "/p");
    assert_eq!(catalog.init(first), None);
    assert!(catalog.is_computed());
    assert_eq!(catalog.names(), vec!["bun".to_string(), "deno".to_string()]);
    let later = VfoxPlugin::list(&vec![entry("zig", PluginType::Vfox)], &vec![], "/p");
    assert_eq!(catalog.init(later), None);
    assert_eq!(catalog.names(), vec!["bun".to_string(), "deno".to_string()]);
    assert!(catalog.contains("bun"));
    assert!(!catalog.contains("zig"));
}

#[test]
fn catalog_of_failed_listing_is_empty_and_stays_so() {
    let mut catalog = PluginCatalog::new();
    let failure = Err(PluginError::Filesystem {
        plugin: "".to_string(),
        path: "/p".to_string(),
        cause: "unreadable".to_string(),
    });
    assert_eq!(
        catalog.init(failure),
        Some("Failed to list vfox plugins: Failed to remove directory /p: unreadable".to_string())
    );
    assert!(catalog.is_computed());
    assert!(catalog.names().is_empty());
    let later = VfoxPlugin::list(&vec![entry("zig", PluginType::Vfox)], &vec![], "/p");
    assert_eq!(catalog.init(later), None);
    assert!(catalog.names().is_empty());
}

#[test]
fn runtime_directories_are_those_given() {
    let plugin = VfoxPlugin::new("bun".to_string(), "/data/plugins");
    let config = plugin.vfox("/cache", "/downloads", "/installs", "/tmp");
    assert_eq!(config.plugin_dir, "/data/plugins");
    assert_eq!(config.cache_dir, "/cache");
    assert_eq!(config.download_dir, "/downloads");
    assert_eq!(config.install_dir, "/installs");
    assert_eq!(config.temp_dir, "/tmp/mise-vfox");
}

#[test]
fn env_map_keeps_first_place_and_last_value() {
    let results = vec![
        EnvKey { key: "B".to_string(), value: "1".to_string() },
        EnvKey { key: "A".to_string(), value: "2".to_string() },
        EnvKey { key: "B".to_string(), value: "3".to_string() },
    ];
    let map = env_map(results);
    let entries: Vec<(String, String)> =
        map.iter().map(|(k, v)| (k.clone(), v.clone())).collect();
    assert_eq!(
        entries,
        vec![("B".to_string(), "3".to_string()), ("A".to_string(), "2".to_string())]
    );
}

#[test]
fn mise_env_hands_back_a_map_or_the_failure() {
    let plugin = VfoxPlugin::new("bun".to_string(), "/data/plugins");
    let map = plugin
        .mise_env(Ok(vec![EnvKey { key: "BUN_HOME".to_string(), value: "/x".to_string() }]))
        .unwrap()
        .unwrap();
    assert_eq!(map.len(), 1);
    assert_eq!(map.get("BUN_HOME"), Some(&"/x".to_string()));
    let empty = plugin.mise_env(Ok(vec![])).unwrap().unwrap();
    assert!(empty.is_empty());
    let err = plugin.mise_env(Err("lua error".to_string())).unwrap_err();
    assert_eq!(
        err,
        PluginError::RuntimeExecution { plugin: "bun".to_string(), message: "lua error".to_string() }
    );
    assert_eq!(err.message(), "plugin bun: lua error");
}

#[test]
fn mise_path_hands_back_the_entries_in_order() {
    let plugin = VfoxPlugin::new("bun".to_string(), "/data/plugins");
    assert_eq!(
        plugin.mise_path(Ok(vec!["/b/bin".to_string(), "/a/bin".to_string()])),
        Ok(Some(vec!["/b/bin".to_string(), "/a/bin".to_string()]))
    );
    assert_eq!(
        plugin.mise_path(Err("boom".to_string())),
        Err(PluginError::RuntimeExecution { plugin: "bun".to_string(), message: "boom".to_string() })
    );
}

#[test]
fn finish_message_joins_with_a_hash() {
    assert_eq!(finish_message("https://example.com/p", "abc1234"), "https://example.com/p#abc1234");
    assert_eq!(finish_message("", ""), "#");
}

#[test]
fn closing_message_highlights_the_revision_on_a_colour_terminal() {
    console::set_colors_enabled_stderr(true);
    let outcome = Outcome::CheckedOut {
        url: "https://example.com/p".to_string(),
        revision: "abc1234".to_string(),
    };
    let message = outcome.message().unwrap();
    assert!(message.starts_with("https://example.com/p#"));
    assert!(message.contains("abc1234"));
    assert!(message.contains("\u{1b}["));
    assert_ne!(message, "https://example.com/p#abc1234");
}

#[test]
fn removal_closes_the_progress_display() {
    assert_eq!(Outcome::Removed.message(), Some("uninstalled".to_string()));
}

#[test]
fn outcomes_that_changed_nothing_have_no_closing_message() {
    assert_eq!(Outcome::Untouched.message(), None);
    assert_eq!(Outcome::Refused(Refusal::Symlink).message(), None);
    assert_eq!(Outcome::Refused(Refusal::NotRepository).message(), None);
    assert_eq!(Outcome::Reading(Some("main".to_string())).message(), None);
    assert_eq!(Outcome::Reading(None).message(), None);
}

#[test]
fn refused_update_has_a_warning() {
    assert_eq!(
        Outcome::Refused(Refusal::Symlink).warning("bun"),
        Some("plugin:bun is a symlink, not updating".to_string())
    );
    assert_eq!(
        Outcome::Refused(Refusal::NotRepository).warning("bun"),
        Some("plugin:bun is not a git repository, not updating".to_string())
    );
    assert_eq!(Outcome::Removed.warning("bun"), None);
    assert_eq!(Outcome::Untouched.warning("bun"), None);
    assert_eq!(
        Outcome::CheckedOut { url: "u".to_string(), revision: "r".to_string() }.warning("bun"),
        None
    );
}

#[test]
fn duplicates_are_equal() {
    let outcome = Outcome::Reading(Some("main".to_string()));
    assert_eq!(outcome.duplicate(), outcome);
    let err = PluginError::Validation { plugin: "p".to_string(), url: "/x".to_string() };
    assert_eq!(err.duplicate(), err);
    assert_eq!(err.plugin(), "p");
}
