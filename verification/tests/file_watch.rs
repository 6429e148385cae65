use hot_reload::debounce::DebouncedEvent;
use hot_reload::file_reloader::Dependency;
use hot_reload::file_watch::{
    handle_debounced_event, handle_load, verify_removal, watch_realtime, HandlingStep,
    WatcherState,
};
use hot_reload::path::FilePath;
use hot_reload::path_set::occurs;
use hot_reload::{FileReloader, WatchEvent};

fn path(text: &str) -> FilePath {
    FilePath::from_bytes(text.as_bytes())
}

fn on(text: &str) -> Dependency {
    Dependency {
        path: path(text),
        canonical: None,
    }
}

#[test]
fn a_watch_covers_the_main_file() {
    let mut reloader = FileReloader::new(path("/srv/app.toml"), None);
    let (_state, directories) = watch_realtime(&mut reloader, None);
    assert_eq!(directories.len(), 1);
    assert_eq!(directories[0].to_bytes(), b"/srv");
}

#[test]
fn a_watch_covers_the_dependencies() {
    let mut reloader = FileReloader::new(path("/srv/app.toml"), None);
    let loaded = vec![on("a.toml"), on("/etc/b.toml")];
    let (_state, directories) = watch_realtime(&mut reloader, Some(loaded));
    assert_eq!(directories.len(), 2);
    assert!(occurs(&directories, &path("/srv")));
    assert!(occurs(&directories, &path("/etc")));
    assert_eq!(reloader.tracked_paths_snapshot().len(), 3);
}

#[test]
fn a_second_watch_covers_all_again() {
    let mut reloader = FileReloader::new(path("/srv/app.toml"), None);
    let (first, _) = watch_realtime(&mut reloader, Some(vec![on("/etc/b.toml")]));
    drop(first);
    let (_state, directories) = watch_realtime(&mut reloader, None);
    assert_eq!(directories.len(), 2);
    assert!(occurs(&directories, &path("/etc")));
}

#[test]
fn directories_come_and_go_with_the_files() {
    let mut reloader = FileReloader::new(path("/srv/app.toml"), None);
    let (mut state, _) = watch_realtime(&mut reloader, Some(vec![on("/etc/b.toml")]));

    let loaded = Ok((1, vec![on("/etc/c.toml"), on("/opt/d.toml")]));
    let outcome = handle_load(&mut reloader, &mut state, loaded);
    assert!(matches!(outcome.report, WatchEvent::Changed(1)));
    assert_eq!(outcome.to_watch.len(), 1);
    assert_eq!(outcome.to_watch[0].to_bytes(), b"/opt");
    assert!(outcome.to_unwatch.is_empty());

    let outcome = handle_load(&mut reloader, &mut state, Ok((2, vec![])));
    assert!(matches!(outcome.report, WatchEvent::Changed(2)));
    assert!(outcome.to_watch.is_empty());
    assert_eq!(outcome.to_unwatch.len(), 2);
    assert!(occurs(&outcome.to_unwatch, &path("/etc")));
    assert!(occurs(&outcome.to_unwatch, &path("/opt")));
    assert_eq!(reloader.tracked_paths_snapshot().len(), 1);
}

#[test]
fn a_failed_load_changes_no_watch() {
    let mut reloader = FileReloader::new(path("/srv/app.toml"), None);
    let (mut state, _) = watch_realtime(&mut reloader, Some(vec![on("/etc/b.toml")]));
    let failed: Result<(u8, Vec<Dependency>), String> = Err("not toml".to_string());
    let outcome = handle_load(&mut reloader, &mut state, failed);
    assert!(matches!(outcome.report, WatchEvent::Error(text) if text == "not toml"));
    assert!(outcome.to_watch.is_empty());
    assert!(outcome.to_unwatch.is_empty());
    assert_eq!(reloader.tracked_paths_snapshot().len(), 2);
}

#[test]
fn a_directory_is_left_only_when_no_file_needs_it() {
    let mut state = WatcherState::new();
    let both = vec![path("/a/x"), path("/a/y")];
    let (to_watch, to_unwatch) = state.synchronize_directories(&both, &both, &vec![]);
    assert_eq!(to_watch.len(), 1);
    assert!(to_unwatch.is_empty());
    let (to_watch, to_unwatch) =
        state.synchronize_directories(&vec![path("/a/x")], &vec![], &vec![path("/a/y")]);
    assert!(to_watch.is_empty());
    assert!(to_unwatch.is_empty());
    let (_, to_unwatch) = state.synchronize_directories(&vec![], &vec![], &vec![path("/a/x")]);
    assert_eq!(to_unwatch.len(), 1);
    assert_eq!(to_unwatch[0].to_bytes(), b"/a");
    let (_, to_unwatch) = state.synchronize_directories(&vec![], &vec![], &vec![path("/a/x")]);
    assert!(to_unwatch.is_empty());
}

#[test]
fn a_debounced_event_has_a_first_step() {
    let step: HandlingStep<u8> = handle_debounced_event(DebouncedEvent::Reload);
    assert!(matches!(step, HandlingStep::Load));
    let step: HandlingStep<u8> =
        handle_debounced_event(DebouncedEvent::RemovedPendingVerification);
    assert!(matches!(step, HandlingStep::CheckExistence));
    let step: HandlingStep<u8> =
        handle_debounced_event(DebouncedEvent::Error("odd".to_string()));
    assert!(
        matches!(step, HandlingStep::Report(WatchEvent::Error(text)) if text == "odd")
    );
}

#[test]
fn a_file_that_is_back_was_modified() {
    let step: HandlingStep<u8> = verify_removal(true);
    assert!(matches!(step, HandlingStep::Load));
    let step: HandlingStep<u8> = verify_removal(false);
    assert!(matches!(
        step,
        HandlingStep::Report(WatchEvent::Error(text)) if text == "File was removed"
    ));
}
