use vfox_plugin::{
    Lifecycle, Outcome, PluginError, Refusal, Registry, Reply, Request, VfoxPlugin,
};

fn registry_with_bun() -> Registry {
    let mut registry = Registry::new();
    assert!(registry.insert("bun".to_string(), "vfox:version-fox/vfox-bun".to_string()));
    registry
}

fn announce(message: &str) -> Request {
    Request::Announce { message: message.to_string() }
}

/// Feeds `replies` to `machine` one by one and collects the request that was
/// pending before each, and the one that is pending at the end.
fn drive(mut machine: Lifecycle, registry: &Registry, replies: Vec<Reply>) -> Vec<Request> {
    let mut seen = vec![machine.request()];
    for reply in replies {
        assert!(machine.expects(&reply));
        machine = machine.advance(registry, reply);
        seen.push(machine.request());
    }
    seen
}

#[test]
fn install_of_alias_clones_from_github() {
    let registry = registry_with_bun();
    let plugin = VfoxPlugin::new("bun".to_string(), "/data/plugins");
    let seen = drive(
        plugin.install(),
        &registry,
        vec![
            Reply::Remote(None),
            Reply::Flag(false),
            Reply::Done,
            Reply::Done,
            Reply::Text("abc1234".to_string()),
        ],
    );
    assert_eq!(
        seen,
        vec![
            Request::RemoteUrl,
            Request::PathExists,
            announce("cloning https://github.com/version-fox/vfox-bun"),
            Request::Clone {
                url: "https://github.com/version-fox/vfox-bun".to_string(),
                path: "/data/plugins/bun".to_string(),
            },
            Request::ShortRevision,
            Request::Finished(Ok(Outcome::CheckedOut {
                url: "https://github.com/version-fox/vfox-bun".to_string(),
                revision: "abc1234".to_string(),
            })),
        ]
    );
    match &seen[5] {
        Request::Finished(Ok(outcome)) => {
            let message = outcome.message().unwrap();
            assert!(message.contains("https://github.com/version-fox/vfox-bun"));
            assert!(message.contains("#"));
            assert!(message.contains("abc1234"));
        }
        other => panic!("unexpected request {:?}", other),
    }
}

#[test]
fn install_of_local_path_is_refused_before_any_clone() {
    let registry = registry_with_bun();
    let plugin = VfoxPlugin::new("~/local/plugin".to_string(), "/data/plugins");
    let seen = drive(plugin.install(), &registry, vec![Reply::Remote(None)]);
    assert_eq!(seen.len(), 2);
    assert_eq!(seen[0], Request::RemoteUrl);
    match &seen[1] {
        Request::Finished(Err(err)) => {
            assert_eq!(
                *err,
                PluginError::Validation {
                    plugin: "~/local/plugin".to_string(),
                    url: "~/local/plugin".to_string(),
                }
            );
            let message = err.message();
            assert!(message.starts_with("Invalid repository URL: ~/local/plugin"));
            assert!(message.contains("`mise plugins link`"));
        }
        other => panic!("unexpected request {:?}", other),
    }
}

#[test]
fn install_source_refuses_absolute_local_remote() {
    let registry = Registry::new();
    let plugin = VfoxPlugin::new("tool".to_string(), "/data/plugins");
    assert_eq!(
        plugin.install_source(&registry, Some("/srv/git/tool#main")),
        Err(PluginError::Validation { plugin: "tool".to_string(), url: "/srv/git/tool".to_string() })
    );
}

#[test]
fn install_source_splits_the_ref() {
    let registry = Registry::new();
    let plugin = VfoxPlugin::new("https://example.com/t/p#v2".to_string(), "/data/plugins");
    assert_eq!(
        plugin.install_source(&registry, None),
        Ok(("https://example.com/t/p".to_string(), Some("v2".to_string())))
    );
    let plain = VfoxPlugin::new("owner/repo".to_string(), "/data/plugins");
    assert_eq!(
        plain.install_source(&registry, None),
        Ok(("https://github.com/owner/repo".to_string(), None))
    );
}

#[test]
fn install_with_ref_checks_it_out_and_reports_its_revision() {
    let registry = Registry::new();
    let plugin = VfoxPlugin::new("https://example.com/t/p#v2".to_string(), "/data/plugins");
    let seen = drive(
        plugin.install(),
        &registry,
        vec![
            Reply::Remote(None),
            Reply::Flag(false),
            Reply::Done,
            Reply::Done,
            Reply::Done,
            Reply::Done,
            Reply::Text("feed123".to_string()),
        ],
    );
    assert_eq!(
        seen,
        vec![
            Request::RemoteUrl,
            Request::PathExists,
            announce("cloning https://example.com/t/p"),
            Request::Clone {
                url: "https://example.com/t/p".to_string(),
                path: "/data/plugins/https://example.com/t/p#v2".to_string(),
            },
            announce("checking out v2"),
            Request::Checkout { gitref: Some("v2".to_string()) },
            Request::ShortRevision,
            Request::Finished(Ok(Outcome::CheckedOut {
                url: "https://example.com/t/p".to_string(),
                revision: "feed123".to_string(),
            })),
        ]
    );
}

#[test]
fn install_over_installed_removes_first() {
    let registry = registry_with_bun();
    let plugin = VfoxPlugin::new("bun".to_string(), "/data/plugins");
    let seen = drive(
        plugin.install(),
        &registry,
        vec![
            Reply::Remote(Some("https://github.com/version-fox/vfox-bun".to_string())),
            Reply::Flag(true),
            Reply::Done,
            Reply::Done,
            Reply::Done,
            Reply::Done,
            Reply::Done,
            Reply::Text("abc1234".to_string()),
        ],
    );
    assert_eq!(
        seen,
        vec![
            Request::RemoteUrl,
            Request::PathExists,
            announce("uninstalling"),
            announce("removing /data/plugins/bun"),
            Request::RemoveAll { path: "/data/plugins/bun".to_string() },
            announce("cloning https://github.com/version-fox/vfox-bun"),
            Request::Clone {
                url: "https://github.com/version-fox/vfox-bun".to_string(),
                path: "/data/plugins/bun".to_string(),
            },
            Request::ShortRevision,
            Request::Finished(Ok(Outcome::CheckedOut {
                url: "https://github.com/version-fox/vfox-bun".to_string(),
                revision: "abc1234".to_string(),
            })),
        ]
    );
}

#[test]
fn install_twice_ends_at_the_same_revision() {
    let registry = registry_with_bun();
    let plugin = VfoxPlugin::new("bun".to_string(), "/data/plugins");
    let first = drive(
        plugin.install(),
        &registry,
        vec![
            Reply::Remote(None),
            Reply::Flag(false),
            Reply::Done,
            Reply::Done,
            Reply::Text("abc1234".to_string()),
        ],
    );
    let second = drive(
        plugin.install(),
        &registry,
        vec![
            Reply::Remote(Some("https://github.com/version-fox/vfox-bun".to_string())),
            Reply::Flag(true),
            Reply::Done,
            Reply::Done,
            Reply::Done,
            Reply::Done,
            Reply::Done,
            Reply::Text("abc1234".to_string()),
        ],
    );
    assert_eq!(first.last(), second.last());
    assert_eq!(first[3], second[6]);
}

#[test]
fn install_stops_at_the_first_failure() {
    let registry = registry_with_bun();
    let plugin = VfoxPlugin::new("bun".to_string(), "/data/plugins");
    let seen = drive(
        plugin.install(),
        &registry,
        vec![
            Reply::Remote(None),
            Reply::Flag(false),
            Reply::Done,
            Reply::Failed("authentication required".to_string()),
        ],
    );
    assert_eq!(
        seen.last().unwrap(),
        &Request::Finished(Err(PluginError::Repository {
            plugin: "bun".to_string(),
            path: "/data/plugins/bun".to_string(),
            detail: "authentication required".to_string(),
        }))
    );
}

#[test]
fn install_reports_a_failed_removal() {
    let registry = registry_with_bun();
    let plugin = VfoxPlugin::new("bun".to_string(), "/data/plugins");
    let seen = drive(
        plugin.install(),
        &registry,
        vec![
            Reply::Remote(None),
            Reply::Flag(true),
            Reply::Done,
            Reply::Done,
            Reply::Failed("permission denied".to_string()),
        ],
    );
    let expected = PluginError::Filesystem {
        plugin: "bun".to_string(),
        path: "/data/plugins/bun".to_string(),
        cause: "permission denied".to_string(),
    };
    assert_eq!(
        expected.message(),
        "Failed to remove directory /data/plugins/bun: permission denied"
    );
    assert_eq!(seen.last().unwrap(), &Request::Finished(Err(expected)));
}

#[test]
fn install_fails_on_unresolvable_name() {
    let registry = Registry::new();
    let plugin = VfoxPlugin::new("nodejs".to_string(), "/data/plugins");
    let seen = drive(plugin.install(), &registry, vec![Reply::Remote(None)]);
    assert_eq!(
        seen.last().unwrap(),
        &Request::Finished(Err(PluginError::Resolution {
            plugin: "nodejs".to_string(),
            input: "nodejs".to_string(),
        }))
    );
}

#[test]
fn uninstall_of_absent_plugin_does_nothing() {
    let registry = Registry::new();
    let plugin = VfoxPlugin::new("bun".to_string(), "/data/plugins");
    let seen = drive(plugin.uninstall(), &registry, vec![Reply::Flag(false)]);
    assert_eq!(
        seen,
        vec![Request::PathExists, Request::Finished(Ok(Outcome::Untouched))]
    );
}

#[test]
fn uninstall_removes_the_install_path() {
    let registry = Registry::new();
    let plugin = VfoxPlugin::new("bun".to_string(), "/data/plugins");
    let seen = drive(
        plugin.uninstall(),
        &registry,
        vec![Reply::Flag(true), Reply::Done, Reply::Done, Reply::Done],
    );
    assert_eq!(
        seen,
        vec![
            Request::PathExists,
            announce("uninstalling"),
            announce("removing /data/plugins/bun"),
            Request::RemoveAll { path: "/data/plugins/bun".to_string() },
            Request::Finished(Ok(Outcome::Removed)),
        ]
    );
}

#[test]
fn uninstall_ends_with_one_closing_message() {
    let registry = Registry::new();
    let plugin = VfoxPlugin::new("bun".to_string(), "/data/plugins");
    let seen = drive(
        plugin.uninstall(),
        &registry,
        vec![Reply::Flag(true), Reply::Done, Reply::Done, Reply::Done],
    );
    let announced = seen.iter().filter(|r| matches!(r, Request::Announce { .. })).count();
    assert_eq!(announced, 2);
    match seen.last() {
        Some(Request::Finished(Ok(outcome))) => {
            assert_eq!(outcome.message(), Some("uninstalled".to_string()));
            assert_eq!(outcome.warning("bun"), None);
        }
        other => panic!("unexpected request {:?}", other),
    }
    let absent = drive(plugin.uninstall(), &registry, vec![Reply::Flag(false)]);
    match absent.last() {
        Some(Request::Finished(Ok(outcome))) => assert_eq!(outcome.message(), None),
        other => panic!("unexpected request {:?}", other),
    }
}

#[test]
fn refused_update_ends_with_a_warning_and_no_closing_message() {
    let registry = Registry::new();
    let plugin = VfoxPlugin::new("bun".to_string(), "/data/plugins");
    let seen = drive(plugin.update(None), &registry, vec![Reply::Flag(true)]);
    match seen.last() {
        Some(Request::Finished(Ok(outcome))) => {
            assert_eq!(outcome.message(), None);
            assert_eq!(
                outcome.warning(plugin.name()),
                Some("plugin:bun is a symlink, not updating".to_string())
            );
        }
        other => panic!("unexpected request {:?}", other),
    }
}

#[test]
fn uninstall_twice_succeeds_both_times() {
    let registry = Registry::new();
    let plugin = VfoxPlugin::new("bun".to_string(), "/data/plugins");
    let first = drive(
        plugin.uninstall(),
        &registry,
        vec![Reply::Flag(true), Reply::Done, Reply::Done, Reply::Done],
    );
    let second = drive(plugin.uninstall(), &registry, vec![Reply::Flag(false)]);
    assert!(matches!(first.last(), Some(Request::Finished(Ok(_)))));
    assert!(matches!(second.last(), Some(Request::Finished(Ok(_)))));
    assert!(!second.iter().any(|r| matches!(r, Request::RemoveAll { .. })));
}

#[test]
fn update_of_symlink_is_refused_without_error() {
    let registry = Registry::new();
    let plugin = VfoxPlugin::new("bun".to_string(), "/data/plugins");
    let seen = drive(plugin.update(Some("main".to_string())), &registry, vec![Reply::Flag(true)]);
    assert_eq!(
        seen,
        vec![
            Request::PathIsSymlink,
            Request::Finished(Ok(Outcome::Refused(Refusal::Symlink))),
        ]
    );
}

#[test]
fn update_of_non_repository_is_refused_without_error() {
    let registry = Registry::new();
    let plugin = VfoxPlugin::new("bun".to_string(), "/data/plugins");
    let seen = drive(
        plugin.update(None),
        &registry,
        vec![Reply::Flag(false), Reply::Flag(false)],
    );
    assert_eq!(
        seen,
        vec![
            Request::PathIsSymlink,
            Request::IsRepository,
            Request::Finished(Ok(Outcome::Refused(Refusal::NotRepository))),
        ]
    );
}

#[test]
fn update_checks_out_the_ref_and_reports_the_remote() {
    let registry = Registry::new();
    let plugin = VfoxPlugin::new("bun".to_string(), "/data/plugins");
    let seen = drive(
        plugin.update(Some("v1".to_string())),
        &registry,
        vec![
            Reply::Flag(false),
            Reply::Flag(true),
            Reply::Done,
            Reply::Done,
            Reply::Text("0ddba11".to_string()),
            Reply::Remote(Some("https://example.com/bun".to_string())),
        ],
    );
    assert_eq!(
        seen,
        vec![
            Request::PathIsSymlink,
            Request::IsRepository,
            announce("updating git repo"),
            Request::Checkout { gitref: Some("v1".to_string()) },
            Request::ShortRevision,
            Request::RemoteUrl,
            Request::Finished(Ok(Outcome::CheckedOut {
                url: "https://example.com/bun".to_string(),
                revision: "0ddba11".to_string(),
            })),
        ]
    );
}

#[test]
fn update_without_ref_goes_to_the_upstream_tip() {
    let registry = Registry::new();
    let plugin = VfoxPlugin::new("bun".to_string(), "/data/plugins")
        .with_repo_url(Some("https://example.com/registered".to_string()));
    let seen = drive(
        plugin.update(None),
        &registry,
        vec![
            Reply::Flag(false),
            Reply::Flag(true),
            Reply::Done,
            Reply::Done,
            Reply::Text("0ddba11".to_string()),
            Reply::Remote(None),
        ],
    );
    assert_eq!(seen[3], Request::Checkout { gitref: None });
    assert_eq!(
        seen[6],
        Request::Finished(Ok(Outcome::CheckedOut {
            url: "https://example.com/registered".to_string(),
            revision: "0ddba11".to_string(),
        }))
    );
}

#[test]
fn update_without_any_remote_reports_an_empty_address() {
    let registry = Registry::new();
    let plugin = VfoxPlugin::new("bun".to_string(), "/data/plugins");
    let seen = drive(
        plugin.update(None),
        &registry,
        vec![
            Reply::Flag(false),
            Reply::Flag(true),
            Reply::Done,
            Reply::Done,
            Reply::Text("0ddba11".to_string()),
            Reply::Remote(None),
        ],
    );
    assert_eq!(
        seen[6],
        Request::Finished(Ok(Outcome::CheckedOut {
            url: "".to_string(),
            revision: "0ddba11".to_string(),
        }))
    );
}

#[test]
fn update_reports_a_failed_checkout() {
    let registry = Registry::new();
    let plugin = VfoxPlugin::new("bun".to_string(), "/data/plugins");
    let seen = drive(
        plugin.update(Some("nope".to_string())),
        &registry,
        vec![
            Reply::Flag(false),
            Reply::Flag(true),
            Reply::Done,
            Reply::Failed("unknown ref".to_string()),
        ],
    );
    let expected = PluginError::Repository {
        plugin: "bun".to_string(),
        path: "/data/plugins/bun".to_string(),
        detail: "unknown ref".to_string(),
    };
    assert_eq!(expected.message(), "plugin bun at /data/plugins/bun: unknown ref");
    assert_eq!(seen.last().unwrap(), &Request::Finished(Err(expected)));
}

#[test]
fn ensure_installed_leaves_an_installed_plugin_alone() {
    let registry = registry_with_bun();
    let plugin = VfoxPlugin::new("bun".to_string(), "/data/plugins");
    let seen = drive(plugin.ensure_installed(), &registry, vec![Reply::Flag(true)]);
    assert_eq!(
        seen,
        vec![Request::PathExists, Request::Finished(Ok(Outcome::Untouched))]
    );
}

#[test]
fn ensure_installed_installs_an_absent_plugin() {
    let registry = registry_with_bun();
    let plugin = VfoxPlugin::new("bun".to_string(), "/data/plugins");
    let seen = drive(
        plugin.ensure_installed(),
        &registry,
        vec![
            Reply::Flag(false),
            Reply::Remote(None),
            Reply::Flag(false),
            Reply::Done,
            Reply::Done,
            Reply::Text("abc1234".to_string()),
        ],
    );
    assert_eq!(seen[1], Request::RemoteUrl);
    assert_eq!(
        seen[4],
        Request::Clone {
            url: "https://github.com/version-fox/vfox-bun".to_string(),
            path: "/data/plugins/bun".to_string(),
        }
    );
    assert_eq!(
        seen[6],
        Request::Finished(Ok(Outcome::CheckedOut {
            url: "https://github.com/version-fox/vfox-bun".to_string(),
            revision: "abc1234".to_string(),
        }))
    );
}

#[test]
fn revision_of_absent_plugin_is_none() {
    let registry = Registry::new();
    let plugin = VfoxPlugin::new("bun".to_string(), "/data/plugins");
    let seen = drive(plugin.current_sha_short(), &registry, vec![Reply::Flag(false)]);
    assert_eq!(
        seen,
        vec![Request::PathExists, Request::Finished(Ok(Outcome::Reading(None)))]
    );
}

#[test]
fn revision_of_installed_plugin_is_read() {
    let registry = Registry::new();
    let plugin = VfoxPlugin::new("bun".to_string(), "/data/plugins");
    let seen = drive(
        plugin.current_sha_short(),
        &registry,
        vec![Reply::Flag(true), Reply::Text("abc1234".to_string())],
    );
    assert_eq!(
        seen,
        vec![
            Request::PathExists,
            Request::ShortRevision,
            Request::Finished(Ok(Outcome::Reading(Some("abc1234".to_string())))),
        ]
    );
}

#[test]
fn branch_of_installed_plugin_is_read() {
    let registry = Registry::new();
    let plugin = VfoxPlugin::new("bun".to_string(), "/data/plugins");
    let seen = drive(
        plugin.current_abbrev_ref(),
        &registry,
        vec![Reply::Flag(true), Reply::Text("main".to_string())],
    );
    assert_eq!(
        seen,
        vec![
            Request::PathExists,
            Request::BranchName,
            Request::Finished(Ok(Outcome::Reading(Some("main".to_string())))),
        ]
    );
    let absent = drive(plugin.current_abbrev_ref(), &registry, vec![Reply::Flag(false)]);
    assert_eq!(absent[1], Request::Finished(Ok(Outcome::Reading(None))));
}

#[test]
fn branch_read_failure_is_a_repository_error() {
    let registry = Registry::new();
    let plugin = VfoxPlugin::new("bun".to_string(), "/data/plugins");
    let seen = drive(
        plugin.current_abbrev_ref(),
        &registry,
        vec![Reply::Flag(true), Reply::Failed("detached".to_string())],
    );
    assert_eq!(
        seen[2],
        Request::Finished(Err(PluginError::Repository {
            plugin: "bun".to_string(),
            path: "/data/plugins/bun".to_string(),
            detail: "detached".to_string(),
        }))
    );
}

#[test]
fn unexpected_reply_is_ignored() {
    let registry = Registry::new();
    let plugin = VfoxPlugin::new("bun".to_string(), "/data/plugins");
    let machine = plugin.uninstall();
    assert!(!machine.expects(&Reply::Done));
    assert!(!machine.expects(&Reply::Text("x".to_string())));
    let machine = machine.advance(&registry, Reply::Done);
    assert_eq!(machine.request(), Request::PathExists);
    assert!(!machine.is_finished());
}

#[test]
fn finished_machine_stays_finished() {
    let registry = Registry::new();
    let plugin = VfoxPlugin::new("bun".to_string(), "/data/plugins");
    let machine = plugin.uninstall().advance(&registry, Reply::Flag(false));
    assert!(machine.is_finished());
    assert!(!machine.expects(&Reply::Done));
    let machine = machine.advance(&registry, Reply::Flag(true));
    assert!(machine.is_finished());
    assert_eq!(machine.request(), Request::Finished(Ok(Outcome::Untouched)));
}
