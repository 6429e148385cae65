//! Reloading of files: which files and directories are watched, and what the
//! events of a file system watcher lead to.
use vstd::prelude::*;

use crate::debounce::DebouncedEvent;
use crate::error::{ReloadResult, ReloaderError};
use crate::path::{dot, opens_from, written, FilePath, PathModel};
use crate::path_set::{members, models, taken_one_more, PathSet};

verus! {

/// Default channel size for the events of a file watcher
pub const DEFAULT_CHANNEL_SIZE: usize = 100;

/// What happened to a file, as far as a file system watcher can tell.
#[derive(Debug, Clone, Copy, PartialEq, Eq, Structural)]
pub enum EventKind {
    /// Anything.
    Any,
    /// The file was opened, read or closed.
    Access,
    /// The file was created.
    Create,
    /// The file was modified.
    Modify(ModifyKind),
    /// The file was removed.
    Remove,
    /// Something else.
    Other,
}

/// What was modified in a file.
#[derive(Debug, Clone, Copy, PartialEq, Eq, Structural)]
pub enum ModifyKind {
    /// Anything.
    Any,
    /// The content.
    Data,
    /// The metadata only.
    Metadata,
    /// The name.
    Name,
    /// Something else.
    Other,
}

/// A file that something happened to.
#[derive(Debug)]
pub struct EventPath {
    /// The path that the watcher gives for it.
    pub path: FilePath,
    /// What the file system resolves the path to, where it can.
    pub canonical: Option<FilePath>,
}

/// What a file system watcher reports.
#[derive(Debug)]
pub enum WatchReport {
    /// Something happened to these files. Relative paths start from the
    /// current directory, which may be unknown.
    Event { kind: EventKind, paths: Vec<EventPath>, current_dir: Option<FilePath> },
    /// Watching failed.
    Failed(String),
}

/// A file that the watched one depends on.
#[derive(Debug)]
pub struct Dependency {
    /// The path that the watched file gives for it.
    pub path: FilePath,
    /// What the file system resolves the path to, where it can.
    pub canonical: Option<FilePath>,
}

/// Where `path` is looked for, from the directory `base`.
pub open spec fn from_base(path: PathModel, base: PathModel) -> PathModel {
    if path.absolute {
        path
    } else {
        base.join(path)
    }
}

/// The path that stands for `candidate`, which the file system resolves to
/// `canonical` where it can.
pub open spec fn settled(candidate: PathModel, canonical: Option<FilePath>) -> PathModel {
    match canonical {
        Some(path) => path@,
        None => candidate,
    }
}

/// Where a path of a file event is looked for: relative paths start from the
/// current directory, or from `.` where that is unknown.
pub open spec fn event_candidate(path: PathModel, current_dir: Option<FilePath>) -> PathModel {
    match current_dir {
        Some(base) => from_base(path, base@),
        None => from_base(path, PathModel { absolute: false, names: seq![dot()] }),
    }
}

/// Whether that path is written with a separator at its end.
pub open spec fn event_opens(path: FilePath, current_dir: Option<FilePath>) -> bool {
    match current_dir {
        Some(base) => opens_from(path, base@),
        None => opens_from(path, PathModel { absolute: false, names: seq![dot()] }),
    }
}

/// `located` is where `source` is looked for, from the current directory
/// `base`.
pub open spec fn was_located(source: FilePath, base: FilePath, located: FilePath) -> bool {
    if source@.absolute {
        located == source
    } else {
        located@ == base@.join(source@) && located.is_open_ended() == opens_from(source, base@)
    }
}

/// The paths that stand for the files of an event, one by one.
pub open spec fn event_files(paths: Seq<EventPath>, current_dir: Option<FilePath>) -> Seq<
    PathModel,
> {
    paths.map_values(
        |event: EventPath| settled(event_candidate(event.path@, current_dir), event.canonical),
    )
}

/// Where a dependency of `file` is looked for: relative paths start from the
/// directory of the file.
pub open spec fn dependency_candidate(file: PathModel, path: PathModel) -> PathModel {
    match file.parent() {
        Some(parent) => from_base(path, parent),
        None => path,
    }
}

/// Whether that path is written with a separator at its end.
pub open spec fn dependency_opens(file: PathModel, path: FilePath) -> bool {
    match file.parent() {
        Some(parent) => opens_from(path, parent),
        None => path.is_open_ended(),
    }
}

/// The path that a dependency of `file` is tracked under.
pub open spec fn resolved(file: PathModel, dependency: Dependency) -> PathModel {
    settled(dependency_candidate(file, dependency.path@), dependency.canonical)
}

/// The paths that are tracked for `file` with these dependencies.
pub open spec fn tracked_with(file: PathModel, dependencies: Seq<Dependency>) -> Set<PathModel> {
    dependencies.map_values(|dependency: Dependency| resolved(file, dependency)).to_set().insert(
        file,
    )
}

/// What an event of this kind on a tracked file leads to. A creation and a
/// modification lead to a reload, unless only metadata changed; a removal is
/// verified first; other events are ignored.
pub open spec fn reaction(kind: EventKind) -> Option<DebouncedEvent> {
    match kind {
        EventKind::Modify(ModifyKind::Metadata) => None,
        EventKind::Modify(_) | EventKind::Create => Some(DebouncedEvent::Reload),
        EventKind::Remove => Some(DebouncedEvent::RemovedPendingVerification),
        EventKind::Any | EventKind::Access | EventKind::Other => None,
    }
}

/// The path that stands for `candidate`, which the file system resolves to
/// `canonical` where it can.
fn settle(candidate: FilePath, canonical: Option<FilePath>) -> (path: FilePath)
    ensures
        path == (match canonical {
            Some(path) => path,
            None => candidate,
        }),
{
    match canonical {
        Some(path) => path,
        None => candidate,
    }
}

/// Where a path of a file event is looked for: relative paths start from the
/// current directory, or from `.` where that is unknown.
pub fn normalize_event_path(path: FilePath, current_dir: &Option<FilePath>) -> (candidate: FilePath)
    ensures
        candidate@ == event_candidate(path@, *current_dir),
        candidate.is_open_ended() == event_opens(path, *current_dir),
{
    if path.is_absolute() {
        return path;
    }
    match current_dir {
        Some(base) => base.join(path),
        None => FilePath::current_dir().join(path),
    }
}

/// A file that is reloaded, with the files that it depends on.
#[derive(Debug)]
pub struct FileReloader {
    /// Path to the main file being watched
    file_path: FilePath,
    /// Set of all tracked file paths (main file + dependencies)
    tracked_paths: PathSet,
}

impl FileReloader {
    /// The paths that are tracked.
    pub closed spec fn files(&self) -> Set<PathModel> {
        self.tracked_paths@
    }

    /// The path of the main file, as it was written.
    pub closed spec fn main_path(&self) -> FilePath {
        self.file_path
    }

    /// The path of the main file.
    pub open spec fn main_file(&self) -> PathModel {
        self.main_path()@
    }

    /// The main file is tracked.
    #[verifier::type_invariant]
    spec fn tracks_the_main_file(&self) -> bool {
        self.tracked_paths@.contains(self.file_path@)
    }

    /// Path to the main file being watched
    pub fn file_path(&self) -> (path: &FilePath)
        ensures
            *path == self.main_path(),
    {
        &self.file_path
    }

    /// Where a source is looked for: relative paths start from the current
    /// directory, which has to be known for them.
    pub fn locate<V>(source: FilePath, current_dir: Result<FilePath, String>) -> (located:
        ReloadResult<FilePath, V, String>)
        ensures
            match located {
                Ok(path) => match current_dir {
                    Ok(base) => was_located(source, base, path),
                    Err(_) => source@.absolute && path == source,
                },
                Err(error) => {
                    &&& !source@.absolute
                    &&& current_dir matches Err(message)
                    &&& error == ReloaderError::<V, String>::Other(message)
                },
            },
    {
        if source.is_absolute() {
            return Ok(source);
        }
        match current_dir {
            Ok(base) => Ok(base.join(source)),
            Err(message) => Err(ReloaderError::Other(message)),
        }
    }

    /// A reloader of the file at `located`, which the file system resolves to
    /// `canonical` where it can. By default, only the main file is tracked.
    pub fn new(located: FilePath, canonical: Option<FilePath>) -> (reloader: FileReloader)
        ensures
            reloader.main_path() == (match canonical {
                Some(path) => path,
                None => located,
            }),
            reloader.main_file() == settled(located@, canonical),
            reloader.files() == set![reloader.main_file()],
    {
        let file_path = settle(located, canonical);
        let mut tracked_paths = PathSet::new();
        tracked_paths.insert(file_path.clone());
        FileReloader { file_path, tracked_paths }
    }

    /// What a reload gives for a file that could be loaded or not.
    pub fn reload<F>(loaded: Result<F, String>) -> (reloaded: ReloadResult<Option<F>, F, String>)
        ensures
            reloaded == (match loaded {
                Ok(value) => Ok::<Option<F>, ReloaderError<F, String>>(Some(value)),
                Err(message) => Err(ReloaderError::Reload(message)),
            }),
    {
        match loaded {
            Ok(value) => Ok(Some(value)),
            Err(message) => Err(ReloaderError::Reload(message)),
        }
    }

    /// Where a dependency is looked for: relative paths start from the
    /// directory of the main file.
    pub fn resolve_dependency_path(&self, path: FilePath) -> (candidate: FilePath)
        ensures
            candidate@ == dependency_candidate(self.main_file(), path@),
            candidate.is_open_ended() == dependency_opens(self.main_file(), path),
    {
        if path.is_absolute() {
            return path;
        }
        match self.file_path.parent() {
            Some(parent) => parent.join(path),
            None => path,
        }
    }

    /// Track the main file and these dependencies from now on, and nothing
    /// else. Gives the paths that came in and those that went.
    pub fn update_tracked_paths(&mut self, dependencies: Vec<Dependency>) -> (changes: (
        Vec<FilePath>,
        Vec<FilePath>,
    ))
        ensures
            final(self).main_path() == old(self).main_path(),
            final(self).files() == tracked_with(old(self).main_file(), dependencies@),
            members(changes.0@) == final(self).files().difference(old(self).files()),
            models(changes.0@).no_duplicates(),
            members(changes.1@) == old(self).files().difference(final(self).files()),
            models(changes.1@).no_duplicates(),
    {
        let mut new_set = PathSet::new();
        new_set.insert(self.file_path.clone());
        let ghost file = self.file_path@;
        let ghost all = dependencies@.map_values(|dependency: Dependency| resolved(file, dependency));
        assert(all.take(0).to_set() =~= Set::<PathModel>::empty());
        let count: usize = dependencies.len();
        for i in 0..count
            invariant
                count == dependencies.len(),
                file == self.file_path@,
                all == dependencies@.map_values(
                    |dependency: Dependency| resolved(file, dependency),
                ),
                new_set@ =~= all.take(i as int).to_set().insert(file),
        {
            let candidate = self.resolve_dependency_path(dependencies[i].path.clone());
            let path = match &dependencies[i].canonical {
                Some(canonical) => canonical.clone(),
                None => candidate,
            };
            proof {
                taken_one_more(all, i as int);
                assert(path@ == all[i as int]);
            }
            new_set.insert(path);
        }
        assert(all.take(count as int) == all);
        let added = new_set.difference(&self.tracked_paths);
        let removed = self.tracked_paths.difference(&new_set);
        self.tracked_paths = new_set;
        (added, removed)
    }

    /// The paths that are tracked, each once.
    pub fn tracked_paths_snapshot(&self) -> (paths: Vec<FilePath>)
        ensures
            members(paths@) == self.files(),
            members(paths@).contains(self.main_file()),
            models(paths@).no_duplicates(),
    {
        proof {
            use_type_invariant(self);
        }
        self.tracked_paths.to_vec()
    }

    /// Whether an event on these paths concerns a tracked file.
    fn is_relevant(&self, paths: &Vec<EventPath>, current_dir: &Option<FilePath>) -> (relevant:
        bool)
        ensures
            relevant == !event_files(paths@, *current_dir).to_set().disjoint(self.files()),
    {
        let ghost all = event_files(paths@, *current_dir);
        for i in 0..paths.len()
            invariant
                all == event_files(paths@, *current_dir),
                forall|j: int| 0 <= j < i ==> !self.files().contains(#[trigger] all[j]),
        {
            let candidate = normalize_event_path(paths[i].path.clone(), current_dir);
            let path = match &paths[i].canonical {
                Some(canonical) => canonical.clone(),
                None => candidate,
            };
            assert(path@ == all[i as int]);
            if self.tracked_paths.contains(&path) {
                assert(all.to_set().contains(path@));
                return true;
            }
        }
        false
    }

    /// What the report of a file system watcher leads to.
    pub fn classify(&self, report: WatchReport) -> (event: Option<DebouncedEvent>)
        ensures
            match report {
                WatchReport::Failed(message) => event == Some(DebouncedEvent::Error(message)),
                WatchReport::Event { kind, paths, current_dir } => event == (if event_files(
                    paths@,
                    current_dir,
                ).to_set().disjoint(self.files()) {
                    None
                } else {
                    reaction(kind)
                }),
            },
    {
        match report {
            WatchReport::Failed(message) => Some(DebouncedEvent::Error(message)),
            WatchReport::Event { kind, paths, current_dir } => {
                if !self.is_relevant(&paths, &current_dir) {
                    return None;
                }
                match kind {
                    EventKind::Modify(ModifyKind::Metadata) => None,
                    EventKind::Modify(_) | EventKind::Create => Some(DebouncedEvent::Reload),
                    EventKind::Remove => Some(DebouncedEvent::RemovedPendingVerification),
                    EventKind::Any | EventKind::Access | EventKind::Other => None,
                }
            },
        }
    }
}

/// An event that names the main file by the source that it was located by, from
/// the same current directory, leads to the main file: the same text is handed
/// to the file system, so that it resolves alike, and the main file is the one
/// that is found among the tracked ones.
pub proof fn events_on_the_main_file_match(
    source: FilePath,
    base: FilePath,
    located: FilePath,
    candidate: FilePath,
    canonical: Option<FilePath>,
)
    requires
        was_located(source, base, located),
        candidate@ == event_candidate(source@, Some(base)),
        candidate.is_open_ended() == event_opens(source, Some(base)),
    ensures
        candidate@ == located@,
        written(candidate@, candidate.is_open_ended()) == written(
            located@,
            located.is_open_ended(),
        ),
        event_files(seq![EventPath { path: source, canonical }], Some(base)) == seq![
            settled(located@, canonical),
        ],
{
    assert(event_files(seq![EventPath { path: source, canonical }], Some(base)) =~= seq![
        settled(located@, canonical),
    ]);
}

/// A relative dependency is a sibling of the main file: its names stand where
/// the last name of the main file does, but for a `.` at its beginning. An
/// absolute one is itself. One that is named by the last name of the main file
/// is the main file.
pub proof fn dependencies_are_siblings(file: PathModel, path: PathModel)
    requires
        file.names.len() > 0,
        file.absolute || file.names.len() > 1,
    ensures
        path.absolute ==> dependency_candidate(file, path) == path,
        !path.absolute ==> dependency_candidate(file, path).absolute == file.absolute,
        !path.absolute && (path.names.len() == 0 || path.names[0] != seq![0x2eu8])
            ==> dependency_candidate(file, path).names == file.names.drop_last() + path.names,
        !path.absolute && path.names.len() > 0 && path.names[0] == seq![0x2eu8]
            ==> dependency_candidate(file, path).names == file.names.drop_last()
            + path.names.drop_first(),
        !path.absolute && path.names == seq![file.names.last()] && file.names.last()
            != seq![0x2eu8] ==> dependency_candidate(file, path) == file,
{
    assert(file.names.drop_last() + seq![file.names.last()] == file.names);
}

/// A dependency of a file that is given by its name alone is itself; so is one
/// of a path without names.
pub proof fn dependencies_of_a_bare_name(file: PathModel, path: PathModel)
    requires
        file.names.len() == 0 || (!file.absolute && file.names.len() == 1),
    ensures
        dependency_candidate(file, path) == path,
{
    if file.names.len() == 1 {
        assert(file.names.drop_last().len() == 0);
    }
}

/// A path is tracked if it is the main file, or what the file system resolves a
/// dependency to, or where a dependency that does not resolve is looked for; no
/// other path is.
pub proof fn what_is_tracked(file: PathModel, dependencies: Seq<Dependency>, path: PathModel)
    ensures
        tracked_with(file, dependencies).contains(path) <==> path == file || exists|i: int|
            0 <= i < dependencies.len() && path == match (#[trigger] dependencies[i]).canonical {
                Some(canonical) => canonical@,
                None => dependency_candidate(file, dependencies[i].path@),
            },
{
    let all = dependencies.map_values(|dependency: Dependency| resolved(file, dependency));
    if all.to_set().contains(path) {
        let i = choose|i: int| 0 <= i < all.len() && all[i] == path;
        assert(all[i] == resolved(file, dependencies[i]));
    }
    if exists|i: int|
        0 <= i < dependencies.len() && path == match (#[trigger] dependencies[i]).canonical {
            Some(canonical) => canonical@,
            None => dependency_candidate(file, dependencies[i].path@),
        } {
        let i = choose|i: int|
            0 <= i < dependencies.len() && path == match (#[trigger] dependencies[i]).canonical {
                Some(canonical) => canonical@,
                None => dependency_candidate(file, dependencies[i].path@),
            };
        assert(all[i] == path);
    }
}

/// What the file system resolves a path to stands for it; a path that does not
/// resolve stands for itself.
pub proof fn what_stands_for_a_path(candidate: PathModel, canonical: FilePath)
    ensures
        settled(candidate, Some(canonical)) == canonical@,
        settled(candidate, None) == candidate,
{
}

/// A relative path of an event is looked for in the current directory: its
/// names stand behind those of the directory, but for a `.` at its beginning.
/// Where the directory is unknown, a `.` stands for it. An absolute path is
/// itself.
pub proof fn where_event_paths_lead(path: PathModel, base: FilePath)
    requires
        base@.absolute,
    ensures
        path.absolute ==> event_candidate(path, Some(base)) == path,
        path.absolute ==> event_candidate(path, None) == path,
        !path.absolute ==> {
            let rest = if path.names.len() > 0 && path.names[0] == seq![0x2eu8] {
                path.names.drop_first()
            } else {
                path.names
            };
            &&& event_candidate(path, Some(base)) == (PathModel {
                absolute: true,
                names: base@.names + rest,
            })
            &&& event_candidate(path, None) == (PathModel {
                absolute: false,
                names: seq![seq![0x2eu8]] + rest,
            })
        },
{
}

/// An event has a path for each file that it names: the one that the file
/// system resolves it to, or else the one where it is looked for.
pub proof fn every_event_path_counts(paths: Seq<EventPath>, current_dir: Option<FilePath>, i: int)
    requires
        0 <= i < paths.len(),
    ensures
        event_files(paths, current_dir).len() == paths.len(),
        paths[i].canonical matches Some(path) ==> event_files(paths, current_dir)[i] == path@,
        paths[i].canonical is None ==> event_files(paths, current_dir)[i] == event_candidate(
            paths[i].path@,
            current_dir,
        ),
{
}

/// A source is looked for where a relative path of an event is; its text ends
/// with a separator if it was written so, unless it names nothing but the
/// directory.
pub proof fn where_a_source_is_located(source: FilePath, base: FilePath, located: FilePath)
    requires
        base@.absolute,
        was_located(source, base, located),
    ensures
        source@.absolute ==> located == source,
        !source@.absolute ==> located@ == (PathModel {
            absolute: true,
            names: base@.names + (if source@.names.len() > 0 && source@.names[0] == seq![0x2eu8] {
                source@.names.drop_first()
            } else {
                source@.names
            }),
        }),
        source@.names.len() > 0 && source@.names[0] != seq![0x2eu8] ==> located.is_open_ended()
            == source.is_open_ended(),
        source@.names.len() > 1 ==> located.is_open_ended() == source.is_open_ended(),
{
}

/// What the kinds of events on tracked files lead to.
pub proof fn how_events_are_taken(kind: EventKind)
    ensures
        reaction(kind) == Some(DebouncedEvent::Reload) <==> kind == EventKind::Create || (kind
            matches EventKind::Modify(what) && what != ModifyKind::Metadata),
        reaction(kind) == Some(DebouncedEvent::RemovedPendingVerification) <==> kind
            == EventKind::Remove,
        reaction(kind) is None <==> kind == EventKind::Any || kind == EventKind::Access || kind
            == EventKind::Other || kind == EventKind::Modify(ModifyKind::Metadata),
{
}

/// Whether the texts of event paths and dependencies end with a separator: as
/// they were written, if they name anything.
pub proof fn how_candidates_end(file: PathModel, path: FilePath, current_dir: Option<FilePath>)
    requires
        path@.names.len() > 1 || (path@.names.len() == 1 && path@.names[0] != seq![0x2eu8])
            || path@.absolute,
    ensures
        event_opens(path, current_dir) == path.is_open_ended(),
        dependency_opens(file, path) == path.is_open_ended(),
{
}

} // verus!
