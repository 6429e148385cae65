//! A realtime watch on a file: the directories that it has to watch, and what
//! comes of each debounced event.
use vstd::prelude::*;

use crate::debounce::DebouncedEvent;
use crate::file_reloader::{tracked_with, Dependency, FileReloader};
use crate::path::{FilePath, PathModel};
use crate::path_set::{
    all_plain, directories, directories_hold_their_paths, members, models, taken_one_more, PathSet,
};
use crate::service::WatchEvent;

verus! {

/// The directories that are watched after a change of the tracked files, if
/// `watched` were before: those of files that came in, and no longer those of
/// files that went, unless a tracked file is still in them.
pub open spec fn synchronized(
    watched: Set<PathModel>,
    now: Set<PathModel>,
    added: Set<PathModel>,
    removed: Set<PathModel>,
) -> Set<PathModel> {
    watched.union(directories(added)).difference(
        directories(removed).difference(directories(now)),
    )
}

/// Whether every file is right in a watched directory, with one name behind the
/// directory's. That is all that a watch which does not look into
/// subdirectories reports on.
pub open spec fn covers(watched: Set<PathModel>, files: Set<PathModel>) -> bool {
    forall|file: PathModel| #[trigger]
        files.contains(file) && file.names.len() > 0 ==> watched.contains(
            PathModel { absolute: file.absolute, names: file.names.drop_last() },
        )
}

/// Watching the directories of the tracked files covers each of them.
pub proof fn watched_directories_cover_the_files(files: Set<PathModel>)
    ensures
        covers(directories(files), files),
{
    assert forall|file: PathModel| #[trigger]
        files.contains(file) && file.names.len() > 0 implies directories(files).contains(
        PathModel { absolute: file.absolute, names: file.names.drop_last() },
    ) by {
        directories_hold_their_paths(files, file, file);
    }
}

/// A directory is watched after a change of the tracked files if it was before
/// or a file came into it, unless a file went from it and none is left in it.
pub proof fn what_is_watched_after_a_change(
    watched: Set<PathModel>,
    now: Set<PathModel>,
    added: Set<PathModel>,
    removed: Set<PathModel>,
    dir: PathModel,
)
    ensures
        synchronized(watched, now, added, removed).contains(dir) <==> {
            &&& watched.contains(dir) || directories(added).contains(dir)
            &&& directories(removed).contains(dir) ==> directories(now).contains(dir)
        },
{
}

/// A file that is covered is right in a watched directory: the directory's path
/// with the file's name behind it is the file's.
pub proof fn a_covered_file_is_right_in_a_directory(
    watched: Set<PathModel>,
    files: Set<PathModel>,
    file: PathModel,
)
    requires
        covers(watched, files),
        files.contains(file),
        file.names.len() > 0,
    ensures
        exists|dir: PathModel| #[trigger]
            watched.contains(dir) && dir.absolute == file.absolute && file.names == dir.names.push(
                file.names.last(),
            ),
{
    let dir = PathModel { absolute: file.absolute, names: file.names.drop_last() };
    assert(watched.contains(dir));
    assert(file.names == dir.names.push(file.names.last()));
}

/// Tracks the directories that are registered with a file system watcher.
#[derive(Debug)]
pub struct WatcherState {
    /// Set of currently watched directories
    watched_directories: PathSet,
}

impl View for WatcherState {
    type V = Set<PathModel>;

    /// The directories that are watched.
    closed spec fn view(&self) -> Set<PathModel> {
        self.watched_directories@
    }
}

/// The directories of the files in a list, each once.
fn directories_of(paths: &Vec<FilePath>) -> (dirs: PathSet)
    ensures
        dirs@ == directories(members(paths@)),
        dirs.is_plain(),
{
    let mut dirs = PathSet::new();
    let ghost all = models(paths@);
    assert(directories(all.take(0).to_set()) =~= Set::<PathModel>::empty()) by {
        assert(all.take(0).to_set() =~= Set::<PathModel>::empty());
    }
    for i in 0..paths.len()
        invariant
            all == models(paths@),
                dirs@ =~= directories(all.take(i as int).to_set()),
            dirs.is_plain(),
    {
        proof {
            taken_one_more(all, i as int);
            directories_of_insert(all.take(i as int).to_set(), all[i as int]);
        }
        dirs.insert(paths[i].directory());
    }
    assert(all.take(paths.len() as int) == all);
    dirs
}

proof fn directories_of_insert(paths: Set<PathModel>, path: PathModel)
    ensures
        directories(paths.insert(path)) == directories(paths).insert(path.directory()),
{
    assert forall|dir: PathModel| directories(paths.insert(path)).contains(dir) <==> directories(
        paths,
    ).insert(path.directory()).contains(dir) by {
        if directories(paths.insert(path)).contains(dir) {
            let p = choose|p: PathModel|
                paths.insert(path).contains(p) && #[trigger] p.directory() == dir;
            if p != path {
                assert(paths.contains(p));
            }
        }
        if directories(paths).contains(dir) {
            let p = choose|p: PathModel| paths.contains(p) && #[trigger] p.directory() == dir;
            assert(paths.insert(path).contains(p));
        }
        if dir == path.directory() {
            assert(paths.insert(path).contains(path));
        }
    }
    assert(directories(paths.insert(path)) =~= directories(paths).insert(path.directory()));
}

impl WatcherState {
    /// A watcher with which no directory is registered.
    pub fn new() -> (state: WatcherState)
        ensures
            state@ == Set::<PathModel>::empty(),
    {
        WatcherState { watched_directories: PathSet::new() }
    }

    /// Synchronize watched directories with the currently tracked files.
    /// Gives the directories to register with the watcher, and those to
    /// unregister.
    pub fn synchronize_directories(
        &mut self,
        tracked_files: &Vec<FilePath>,
        added_files: &Vec<FilePath>,
        removed_files: &Vec<FilePath>,
    ) -> (changes: (Vec<FilePath>, Vec<FilePath>))
        ensures
            final(self)@ == synchronized(
                old(self)@,
                members(tracked_files@),
                members(added_files@),
                members(removed_files@),
            ),
            members(changes.0@) == directories(members(added_files@)).difference(old(self)@),
            models(changes.0@).no_duplicates(),
            all_plain(changes.0@),
            members(changes.1@) == directories(members(removed_files@)).difference(
                directories(members(tracked_files@)),
            ).intersect(old(self)@.union(directories(members(added_files@)))),
            models(changes.1@).no_duplicates(),
            all_plain(changes.1@),
    {
        let entered = directories_of(added_files);
        let left = directories_of(removed_files);
        let needed = directories_of(tracked_files);
        let to_watch = entered.difference(&self.watched_directories);
        let ghost before = self@;
        for i in 0..to_watch.len()
            invariant
                self@ =~= before.union(models(to_watch@).take(i as int).to_set()),
        {
            proof {
                taken_one_more(models(to_watch@), i as int);
            }
            self.watched_directories.insert(to_watch[i].clone());
        }
        assert(models(to_watch@).take(to_watch.len() as int) == models(to_watch@));
        let ghost wider = self@;
        assert(wider =~= before.union(directories(members(added_files@))));
        let unneeded = left.difference(&needed);
        let mut dropped = PathSet::new();
        for i in 0..unneeded.len()
            invariant
                self@ =~= wider.difference(models(unneeded@).take(i as int).to_set()),
                dropped@ =~= models(unneeded@).take(i as int).to_set().intersect(wider),
                all_plain(unneeded@),
                dropped.is_plain(),
        {
            proof {
                taken_one_more(models(unneeded@), i as int);
            }
            if self.watched_directories.remove(&unneeded[i]) {
                dropped.insert(unneeded[i].clone());
            }
        }
        assert(models(unneeded@).take(unneeded.len() as int) == models(unneeded@));
        (to_watch, dropped.to_vec())
    }
}

/// If exactly the directories of the tracked files are watched, they are after
/// every change of the tracked files as well.
pub proof fn directories_follow_the_tracked_files(before: Set<PathModel>, now: Set<PathModel>)
    ensures
        synchronized(directories(before), now, now.difference(before), before.difference(now))
            == directories(now),
{
    let watched = synchronized(
        directories(before),
        now,
        now.difference(before),
        before.difference(now),
    );
    assert forall|dir: PathModel| watched.contains(dir) <==> directories(now).contains(dir) by {
        if watched.contains(dir) && !directories(now).contains(dir) {
            if directories(before).contains(dir) {
                let p = choose|p: PathModel| before.contains(p) && #[trigger] p.directory() == dir;
                if now.contains(p) {
                    assert(directories(now).contains(p.directory()));
                } else {
                    assert(before.difference(now).contains(p));
                    assert(directories(before.difference(now)).contains(dir));
                }
            } else {
                let p = choose|p: PathModel|
                    now.difference(before).contains(p) && #[trigger] p.directory() == dir;
                assert(now.contains(p));
                assert(directories(now).contains(p.directory()));
            }
        }
        if directories(now).contains(dir) {
            let p = choose|p: PathModel| now.contains(p) && #[trigger] p.directory() == dir;
            if before.contains(p) {
                assert(directories(before).contains(p.directory()));
            } else {
                assert(now.difference(before).contains(p));
                assert(directories(now.difference(before)).contains(p.directory()));
            }
        }
    }
    assert(watched =~= directories(now));
}

/// A watch that begins with all tracked files as new ones watches exactly
/// their directories.
pub proof fn a_watch_begins_in_step(now: Set<PathModel>)
    ensures
        synchronized(Set::<PathModel>::empty(), now, now, Set::<PathModel>::empty()) == directories(
            now,
        ),
{
    let none = Set::<PathModel>::empty();
    assert(directories(none) =~= none);
    assert(synchronized(none, now, now, none) =~= directories(now));
}

/// What has to be done with a debounced event next.
#[derive(Debug)]
pub enum HandlingStep<V> {
    /// Load the main file.
    Load,
    /// Look whether the main file exists.
    CheckExistence,
    /// Tell the service.
    Report(WatchEvent<V>),
}

/// What comes of the main file having been loaded, or not.
#[derive(Debug)]
pub struct LoadOutcome<V> {
    /// Directories to register with the watcher.
    pub to_watch: Vec<FilePath>,
    /// Directories to unregister.
    pub to_unwatch: Vec<FilePath>,
    /// What to tell the service.
    pub report: WatchEvent<V>,
}

/// The first step for a debounced event.
pub fn handle_debounced_event<V>(event: DebouncedEvent) -> (step: HandlingStep<V>)
    ensures
        match event {
            DebouncedEvent::Reload => step is Load,
            DebouncedEvent::RemovedPendingVerification => step is CheckExistence,
            DebouncedEvent::Error(message) => step == HandlingStep::<V>::Report(
                WatchEvent::Error(message),
            ),
        },
{
    match event {
        DebouncedEvent::Reload => HandlingStep::Load,
        DebouncedEvent::RemovedPendingVerification => HandlingStep::CheckExistence,
        DebouncedEvent::Error(message) => HandlingStep::Report(WatchEvent::Error(message)),
    }
}

/// The step after it was looked whether the main file exists: one that was
/// there again after its removal was modified. One that is gone is an error
/// and not a removal, because it may be recreated later.
pub fn verify_removal<V>(exists_now: bool) -> (step: HandlingStep<V>)
    ensures
        exists_now ==> step is Load,
        !exists_now ==> (step matches HandlingStep::Report(WatchEvent::Error(message)) && message@
            == "File was removed"@),
{
    if exists_now {
        HandlingStep::Load
    } else {
        HandlingStep::Report(WatchEvent::Error("File was removed".to_owned()))
    }
}

/// What comes of the main file having been loaded with these dependencies, or
/// of a load that failed with this message.
pub fn handle_load<V>(
    reloader: &mut FileReloader,
    state: &mut WatcherState,
    loaded: Result<(V, Vec<Dependency>), String>,
) -> (outcome: LoadOutcome<V>)
    ensures
        final(reloader).main_path() == old(reloader).main_path(),
        match loaded {
            Ok((value, dependencies)) => {
                let before = old(reloader).files();
                let now = final(reloader).files();
                &&& outcome.report == WatchEvent::Changed(value)
                &&& now == tracked_with(old(reloader).main_file(), dependencies@)
                &&& final(state)@ == synchronized(
                    old(state)@,
                    now,
                    now.difference(before),
                    before.difference(now),
                )
            },
            Err(message) => {
                &&& outcome.report == WatchEvent::<V>::Error(message)
                &&& final(reloader).files() == old(reloader).files()
                &&& final(state)@ == old(state)@
            },
        },
        members(outcome.to_watch@) == final(state)@.difference(old(state)@),
        models(outcome.to_watch@).no_duplicates(),
        all_plain(outcome.to_watch@),
        members(outcome.to_unwatch@) == old(state)@.difference(final(state)@),
        models(outcome.to_unwatch@).no_duplicates(),
        all_plain(outcome.to_unwatch@),
        old(state)@ == directories(old(reloader).files()) ==> final(state)@ == directories(
            final(reloader).files(),
        ) && covers(final(state)@, final(reloader).files()),
{
    match loaded {
        Ok((value, dependencies)) => {
            let (added, removed) = reloader.update_tracked_paths(dependencies);
            let snapshot = reloader.tracked_paths_snapshot();
            let (to_watch, to_unwatch) = state.synchronize_directories(&snapshot, &added, &removed);
            proof {
                let before = old(reloader).files();
                let now = reloader.files();
                directories_follow_the_tracked_files(before, now);
                watched_directories_cover_the_files(now);
                assert(members(to_watch@) =~= state@.difference(old(state)@));
                assert(members(to_unwatch@) =~= old(state)@.difference(state@));
            }
            LoadOutcome { to_watch, to_unwatch, report: WatchEvent::Changed(value) }
        },
        Err(message) => {
            let to_watch: Vec<FilePath> = Vec::new();
            let to_unwatch: Vec<FilePath> = Vec::new();
            assert(members(to_watch@) =~= state@.difference(old(state)@));
            assert(members(to_unwatch@) =~= old(state)@.difference(state@));
            proof {
                watched_directories_cover_the_files(reloader.files());
            }
            LoadOutcome { to_watch, to_unwatch, report: WatchEvent::Error(message) }
        },
    }
}

/// Begins a watch on the files of a reloader. `loaded` are the dependencies of
/// the main file, where it could be loaded; else the tracked files stay as they
/// are. Gives the directories to register with the watcher.
pub fn watch_realtime(reloader: &mut FileReloader, loaded: Option<Vec<Dependency>>) -> (begun: (
    WatcherState,
    Vec<FilePath>,
))
    ensures
        final(reloader).main_path() == old(reloader).main_path(),
        final(reloader).files() == (match loaded {
            Some(dependencies) => tracked_with(old(reloader).main_file(), dependencies@),
            None => old(reloader).files(),
        }),
        begun.0@ == directories(final(reloader).files()),
        begun.0@.contains(final(reloader).main_file().directory()),
        covers(begun.0@, final(reloader).files()),
        members(begun.1@) == begun.0@,
        models(begun.1@).no_duplicates(),
        all_plain(begun.1@),
{
    if let Some(dependencies) = loaded {
        let _ = reloader.update_tracked_paths(dependencies);
    }
    let snapshot = reloader.tracked_paths_snapshot();
    let mut state = WatcherState::new();
    let none: Vec<FilePath> = Vec::new();
    assert(members(none@) =~= Set::<PathModel>::empty());
    let (to_watch, _) = state.synchronize_directories(&snapshot, &snapshot, &none);
    proof {
        a_watch_begins_in_step(reloader.files());
        watched_directories_cover_the_files(reloader.files());
        assert(members(to_watch@) =~= state@);
    }
    (state, to_watch)
}

} // verus!
