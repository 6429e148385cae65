use hot_reload::debounce::DebouncedEvent;
use hot_reload::file_reloader::{
    normalize_event_path, Dependency, EventKind, EventPath, ModifyKind, WatchReport,
    DEFAULT_CHANNEL_SIZE,
};
use hot_reload::path::FilePath;
use hot_reload::path_set::occurs;
use hot_reload::{FileReloader, ReloaderError};

fn path(text: &str) -> FilePath {
    FilePath::from_bytes(text.as_bytes())
}

fn dependency(text: &str, canonical: Option<&str>) -> Dependency {
    Dependency {
        path: path(text),
        canonical: canonical.map(path),
    }
}

fn event(kind: EventKind, paths: &[&str]) -> WatchReport {
    let paths = paths.iter().map(|text| EventPath {
        path: path(text),
        canonical: None,
    });
    WatchReport::Event {
        kind,
        paths: paths.collect(),
        current_dir: Some(path("/srv")),
    }
}

#[test]
fn the_event_channel_has_room_for_a_hundred() {
    assert_eq!(DEFAULT_CHANNEL_SIZE, 100);
}

#[test]
fn a_relative_source_starts_from_the_current_directory() {
    let located = FileReloader::locate::<u8>(path("app.toml"), Ok(path("/srv")));
    assert!(located.unwrap().is_same(&path("/srv/app.toml")));
    let located = FileReloader::locate::<u8>(path("/etc/app.toml"), Ok(path("/srv")));
    assert!(located.unwrap().is_same(&path("/etc/app.toml")));
}

#[test]
fn the_current_directory_matters_to_relative_sources_only() {
    let unknown = || Err("permission denied".to_string());
    let located = FileReloader::locate::<u8>(path("/etc/app.toml"), unknown());
    assert!(located.is_ok());
    let located = FileReloader::locate::<u8>(path("app.toml"), unknown());
    assert!(
        matches!(located, Err(ReloaderError::Other(text)) if text == "permission denied")
    );
}

#[test]
fn a_new_reloader_tracks_its_file_only() {
    let reloader = FileReloader::new(path("/srv/link.toml"), Some(path("/srv/app.toml")));
    assert!(reloader.file_path().is_same(&path("/srv/app.toml")));
    let files = reloader.tracked_paths_snapshot();
    assert_eq!(files.len(), 1);
    assert!(files[0].is_same(&path("/srv/app.toml")));
    let reloader = FileReloader::new(path("/srv/missing.toml"), None);
    assert!(reloader.file_path().is_same(&path("/srv/missing.toml")));
}

#[test]
fn a_separator_at_the_end_is_kept_for_the_file_system() {
    let located = FileReloader::locate::<u8>(path("app.toml/"), Ok(path("/srv"))).unwrap();
    assert_eq!(located.to_bytes(), b"/srv/app.toml/");
    let reloader = FileReloader::new(located, None);
    assert_eq!(reloader.file_path().to_bytes(), b"/srv/app.toml/");
    assert!(reloader.file_path().is_same(&path("/srv/app.toml")));
}

#[test]
fn plain_paths_are_handed_out_plain() {
    let locate = |source: &str| {
        let located = FileReloader::locate::<u8>(path(source), Ok(path("/srv")));
        located.unwrap().to_bytes()
    };
    assert_eq!(locate("app.toml"), b"/srv/app.toml");
    assert_eq!(locate("./conf/app.toml"), b"/srv/conf/app.toml");
    assert_eq!(locate("/etc/app.toml"), b"/etc/app.toml");
    assert_eq!(locate("."), b"/srv/");
    assert_eq!(locate("../app.toml/"), b"/srv/../app.toml/");

    let event = |text: &str, current_dir: Option<&str>| {
        normalize_event_path(path(text), &current_dir.map(path)).to_bytes()
    };
    assert_eq!(event("a.toml", Some("/srv")), b"/srv/a.toml");
    assert_eq!(event("/a.toml", Some("/srv")), b"/a.toml");
    assert_eq!(event("a.toml", None), b"./a.toml");
    assert_eq!(event("/a.toml/", None), b"/a.toml/");

    let reloader = FileReloader::new(path("/srv/app.toml"), None);
    let dependency = |text: &str| reloader.resolve_dependency_path(path(text)).to_bytes();
    assert_eq!(dependency("users.toml"), b"/srv/users.toml");
    assert_eq!(dependency("/etc/users.toml"), b"/etc/users.toml");
    assert_eq!(dependency("conf/"), b"/srv/conf/");
    let root = FileReloader::new(path("/"), None);
    assert_eq!(root.resolve_dependency_path(path("users.toml")).to_bytes(), b"users.toml");
    assert_eq!(reloader.file_path().to_bytes(), b"/srv/app.toml");
}

#[test]
fn an_event_naming_the_main_file_matches_it() {
    for source in ["app.toml", "./app.toml", "/srv/app.toml", "conf/../app.toml", "app.toml/"] {
        for canonical in [None, Some("/srv/real.toml")] {
            let located = FileReloader::locate::<u8>(path(source), Ok(path("/srv"))).unwrap();
            let candidate = normalize_event_path(path(source), &Some(path("/srv")));
            assert_eq!(located.to_bytes(), candidate.to_bytes(), "{source}");
            let reloader = FileReloader::new(located, canonical.map(path));
            let report = WatchReport::Event {
                kind: EventKind::Create,
                paths: vec![EventPath {
                    path: path(source),
                    canonical: canonical.map(path),
                }],
                current_dir: Some(path("/srv")),
            };
            assert!(reloader.classify(report).is_some(), "{source}");
        }
    }
}

#[test]
fn a_load_becomes_a_reload() {
    assert!(matches!(FileReloader::reload(Ok(3)), Ok(Some(3))));
    let failed = FileReloader::reload::<u8>(Err("no such file".to_string()));
    assert!(matches!(failed, Err(ReloaderError::Reload(text)) if text == "no such file"));
}

#[test]
fn dependencies_start_from_the_directory_of_the_file() {
    let reloader = FileReloader::new(path("/srv/app.toml"), None);
    let candidate = reloader.resolve_dependency_path(path("conf/users.toml"));
    assert!(candidate.is_same(&path("/srv/conf/users.toml")));
    let candidate = reloader.resolve_dependency_path(path("./users.toml"));
    assert!(candidate.is_same(&path("/srv/users.toml")));
    let candidate = reloader.resolve_dependency_path(path("/etc/users.toml"));
    assert!(candidate.is_same(&path("/etc/users.toml")));
    let root = FileReloader::new(path("/"), None);
    let candidate = root.resolve_dependency_path(path("users.toml"));
    assert!(candidate.is_same(&path("users.toml")));
}

#[test]
fn tracked_paths_follow_the_dependencies() {
    let mut reloader = FileReloader::new(path("/srv/app.toml"), None);
    let (added, removed) = reloader.update_tracked_paths(vec![
        dependency("a.toml", None),
        dependency("link.toml", Some("/etc/b.toml")),
        dependency("/srv/a.toml", None),
        dependency("app.toml", None),
    ]);
    assert_eq!(added.len(), 2);
    assert!(occurs(&added, &path("/srv/a.toml")));
    assert!(occurs(&added, &path("/etc/b.toml")));
    assert!(removed.is_empty());

    let (added, removed) = reloader.update_tracked_paths(vec![dependency("a.toml", None)]);
    assert!(added.is_empty());
    assert_eq!(removed.len(), 1);
    assert!(removed[0].is_same(&path("/etc/b.toml")));
    let files = reloader.tracked_paths_snapshot();
    assert_eq!(files.len(), 2);
    assert!(occurs(&files, &path("/srv/app.toml")));
    assert!(occurs(&files, &path("/srv/a.toml")));
}

#[test]
fn event_paths_start_from_the_current_directory() {
    let candidate = normalize_event_path(path("a.toml"), &Some(path("/srv")));
    assert!(candidate.is_same(&path("/srv/a.toml")));
    let candidate = normalize_event_path(path("/a.toml"), &Some(path("/srv")));
    assert!(candidate.is_same(&path("/a.toml")));
    let candidate = normalize_event_path(path("a.toml"), &None);
    assert!(candidate.is_same(&path("./a.toml")));
}

#[test]
fn events_on_tracked_files_lead_to_reloads() {
    let reloader = FileReloader::new(path("/srv/app.toml"), None);
    let kinds = vec![
        EventKind::Create,
        EventKind::Modify(ModifyKind::Any),
        EventKind::Modify(ModifyKind::Data),
        EventKind::Modify(ModifyKind::Name),
        EventKind::Modify(ModifyKind::Other),
    ];
    for kind in kinds {
        let reaction = reloader.classify(event(kind, &["/srv/other", "/srv/app.toml"]));
        assert!(matches!(reaction, Some(DebouncedEvent::Reload)), "{kind:?}");
    }
    let reaction = reloader.classify(event(EventKind::Remove, &["/srv/app.toml"]));
    assert!(matches!(reaction, Some(DebouncedEvent::RemovedPendingVerification)));
}

#[test]
fn events_are_told_by_where_their_paths_lead() {
    let reloader = FileReloader::new(path("/srv/app.toml"), None);
    let created = |text: &str, canonical: Option<&str>, current_dir: Option<&str>| {
        reloader.classify(WatchReport::Event {
            kind: EventKind::Create,
            paths: vec![EventPath {
                path: path(text),
                canonical: canonical.map(path),
            }],
            current_dir: current_dir.map(path),
        })
    };
    assert!(created("app.toml", None, Some("/srv")).is_some());
    assert!(created("app.toml", None, Some("/etc")).is_none());
    assert!(created("app.toml", None, None).is_none());
    assert!(created("link.toml", Some("/srv/app.toml"), None).is_some());
    assert!(created("/srv/app.toml", Some("/srv/real.toml"), None).is_none());
    assert!(created("/srv/app.toml", None, Some("/etc")).is_some());
}

#[test]
fn access_and_metadata_are_ignored() {
    let reloader = FileReloader::new(path("/srv/app.toml"), None);
    let kinds = vec![
        EventKind::Any,
        EventKind::Access,
        EventKind::Other,
        EventKind::Modify(ModifyKind::Metadata),
    ];
    for kind in kinds {
        assert!(reloader.classify(event(kind, &["/srv/app.toml"])).is_none(), "{kind:?}");
    }
}

#[test]
fn unrelated_files_are_ignored() {
    let mut reloader = FileReloader::new(path("/srv/app.toml"), None);
    assert!(reloader.classify(event(EventKind::Create, &["/srv/a.toml"])).is_none());
    assert!(reloader.classify(event(EventKind::Remove, &[])).is_none());
    reloader.update_tracked_paths(vec![dependency("a.toml", None)]);
    assert!(reloader.classify(event(EventKind::Create, &["/srv/a.toml"])).is_some());
}

#[test]
fn a_failing_watcher_is_reported() {
    let reloader = FileReloader::new(path("/srv/app.toml"), None);
    let reaction = reloader.classify(WatchReport::Failed("queue overflow".to_string()));
    assert!(matches!(reaction, Some(DebouncedEvent::Error(text)) if text == "queue overflow"));
}
