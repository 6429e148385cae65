//! Sets of paths, held as lists in which no path occurs twice.
use vstd::prelude::*;

use crate::path::{is_plain, FilePath, PathModel};

verus! {

/// The paths in a list, one by one.
pub open spec fn models(paths: Seq<FilePath>) -> Seq<PathModel> {
    paths.map_values(|path: FilePath| path@)
}

/// The paths that occur in a list.
pub open spec fn members(paths: Seq<FilePath>) -> Set<PathModel> {
    models(paths).to_set()
}

/// Whether every path in a list is written without a separator at its end.
pub open spec fn all_plain(paths: Seq<FilePath>) -> bool {
    forall|i: int| 0 <= i < paths.len() ==> is_plain(#[trigger] paths[i])
}

/// The directories of a set of paths.
pub open spec fn directories(paths: Set<PathModel>) -> Set<PathModel> {
    paths.map(|path: PathModel| path.directory())
}

proof fn members_of_push(paths: Seq<FilePath>, path: FilePath)
    ensures
        models(paths.push(path)) == models(paths).push(path@),
        members(paths.push(path)) == members(paths).insert(path@),
{
    assert(models(paths.push(path)) == models(paths).push(path@));
    assert forall|model: PathModel| members(paths.push(path)).contains(model) <==> members(
        paths,
    ).insert(path@).contains(model) by {
        let pushed = models(paths.push(path));
        if members(paths).contains(model) {
            let i = choose|i: int| 0 <= i < models(paths).len() && models(paths)[i] == model;
            assert(pushed[i] == model);
        }
        if model == path@ {
            assert(pushed[paths.len() as int] == model);
        }
        if pushed.contains(model) && model != path@ {
            let i = choose|i: int| 0 <= i < pushed.len() && pushed[i] == model;
            assert(models(paths)[i] == model);
        }
    }
    assert(members(paths.push(path)) =~= members(paths).insert(path@));
}

/// Where a path stands in a list, if it does.
fn position(paths: &Vec<FilePath>, path: &FilePath) -> (found: Option<usize>)
    ensures
        match found {
            Some(i) => i < paths.len() && paths@[i as int]@ == path@,
            None => !members(paths@).contains(path@),
        },
{
    for i in 0..paths.len()
        invariant
            forall|j: int| 0 <= j < i ==> (#[trigger] paths@[j])@ != path@,
    {
        if paths[i].is_same(path) {
            return Some(i);
        }
    }
    assert(forall|j: int| 0 <= j < paths.len() ==> models(paths@)[j] == paths@[j]@);
    None
}

/// Whether a path occurs in a list.
pub fn occurs(paths: &Vec<FilePath>, path: &FilePath) -> (found: bool)
    ensures
        found == members(paths@).contains(path@),
{
    match position(paths, path) {
        Some(i) => {
            assert(models(paths@)[i as int] == path@);
            true
        },
        None => false,
    }
}

/// A set of paths.
#[derive(Debug)]
pub struct PathSet {
    paths: Vec<FilePath>,
}

impl View for PathSet {
    type V = Set<PathModel>;

    closed spec fn view(&self) -> Set<PathModel> {
        members(self.paths@)
    }
}

impl PathSet {
    /// No path occurs twice.
    #[verifier::type_invariant]
    spec fn unrepeated(&self) -> bool {
        models(self.paths@).no_duplicates()
    }

    /// Whether every path in the set is written without a separator at its end.
    pub closed spec fn is_plain(&self) -> bool {
        all_plain(self.paths@)
    }

    /// The empty set.
    pub fn new() -> (set: PathSet)
        ensures
            set.is_plain(),
            set@ == Set::<PathModel>::empty(),
    {
        let set = PathSet { paths: Vec::new() };
        assert(members(set.paths@) =~= Set::<PathModel>::empty());
        set
    }

    /// Whether a path is in the set.
    pub fn contains(&self, path: &FilePath) -> (found: bool)
        ensures
            found == self@.contains(path@),
    {
        occurs(&self.paths, path)
    }

    /// Adds a path; `true` if it was not in the set.
    pub fn insert(&mut self, path: FilePath) -> (added: bool)
        ensures
            final(self)@ == old(self)@.insert(path@),
            added == !old(self)@.contains(path@),
            old(self).is_plain() && is_plain(path) ==> final(self).is_plain(),
    {
        proof {
            use_type_invariant(&*self);
        }
        if occurs(&self.paths, &path) {
            assert(self@ =~= self@.insert(path@));
            return false;
        }
        let mut paths: Vec<FilePath> = Vec::new();
        std::mem::swap(&mut paths, &mut self.paths);
        proof {
            members_of_push(paths@, path);
            assert(!models(paths@).contains(path@));
        }
        paths.push(path);
        self.paths = paths;
        true
    }

    /// Takes a path out; `true` if it was in the set.
    pub fn remove(&mut self, path: &FilePath) -> (removed: bool)
        ensures
            final(self)@ == old(self)@.remove(path@),
            removed == old(self)@.contains(path@),
            old(self).is_plain() ==> final(self).is_plain(),
    {
        proof {
            use_type_invariant(&*self);
        }
        match position(&self.paths, path) {
            Some(i) => {
                let ghost before = models(self.paths@);
                let mut paths: Vec<FilePath> = Vec::new();
                std::mem::swap(&mut paths, &mut self.paths);
                paths.remove(i);
                proof {
                    let after = models(paths@);
                    assert(after == before.remove(i as int));
                    assert(before[i as int] == path@);
                    assert forall|model: PathModel|
                        after.to_set().contains(model) <==> before.to_set().remove(path@).contains(
                            model,
                        ) by {
                        if after.contains(model) {
                            let j = choose|j: int| 0 <= j < after.len() && after[j] == model;
                            if j < i {
                                assert(before[j] == model);
                            } else {
                                assert(before[j + 1] == model);
                            }
                        }
                        if before.contains(model) && model != path@ {
                            let j = choose|j: int| 0 <= j < before.len() && before[j] == model;
                            if j < i {
                                assert(after[j] == model);
                            } else {
                                assert(after[j - 1] == model);
                            }
                        }
                    }
                    assert(after.to_set() =~= before.to_set().remove(path@));
                }
                self.paths = paths;
                true
            },
            None => {
                assert(self@ =~= self@.remove(path@));
                false
            },
        }
    }

    /// The paths in the set, each once.
    pub fn to_vec(&self) -> (paths: Vec<FilePath>)
        ensures
            members(paths@) == self@,
            models(paths@).no_duplicates(),
            self.is_plain() ==> all_plain(paths@),
    {
        proof {
            use_type_invariant(self);
        }
        let mut paths: Vec<FilePath> = Vec::new();
        for i in 0..self.paths.len()
            invariant
                models(paths@) == models(self.paths@).take(i as int),
                self.is_plain() ==> all_plain(paths@),
        {
            let path = self.paths[i].clone();
            proof {
                members_of_push(paths@, path);
                assert(models(self.paths@).take(i + 1) == models(self.paths@).take(i as int).push(
                    models(self.paths@)[i as int],
                ));
            }
            paths.push(path);
        }
        assert(models(self.paths@).take(self.paths.len() as int) == models(self.paths@));
        paths
    }

    /// The paths that are in this set and not in `other`, each once.
    pub fn difference(&self, other: &PathSet) -> (paths: Vec<FilePath>)
        ensures
            members(paths@) == self@.difference(other@),
            models(paths@).no_duplicates(),
            self.is_plain() ==> all_plain(paths@),
    {
        let mut result = PathSet::new();
        let ghost source = models(self.paths@);
        assert(source.take(0).to_set() =~= Set::<PathModel>::empty());
        for i in 0..self.paths.len()
            invariant
                source == models(self.paths@),
                result@ =~= source.take(i as int).to_set().difference(other@),
                self.is_plain() ==> result.is_plain(),
        {
            proof {
                taken_one_more(source, i as int);
            }
            if !other.contains(&self.paths[i]) {
                result.insert(self.paths[i].clone());
            }
        }
        assert(source.take(self.paths.len() as int) == source);
        proof {
            use_type_invariant(&result);
        }
        result.paths
    }
}

/// Taking one more element of a list adds that element to the set of those taken.
pub proof fn taken_one_more<A>(list: Seq<A>, taken: int)
    requires
        0 <= taken < list.len(),
    ensures
        list.take(taken + 1).to_set() == list.take(taken).to_set().insert(list[taken]),
{
    let more = list.take(taken + 1);
    let less = list.take(taken);
    assert forall|a: A| more.to_set().contains(a) <==> less.to_set().insert(list[taken]).contains(
        a,
    ) by {
        if more.contains(a) {
            let i = choose|i: int| 0 <= i < more.len() && more[i] == a;
            if i < taken {
                assert(less[i] == a);
            }
        }
        if less.contains(a) {
            let i = choose|i: int| 0 <= i < less.len() && less[i] == a;
            assert(more[i] == a);
        }
        if a == list[taken] {
            assert(more[taken] == a);
        }
    }
    assert(more.to_set() =~= less.to_set().insert(list[taken]));
}

/// The members of a list are the paths that stand somewhere in it.
pub proof fn members_stand_in_the_list(paths: Seq<FilePath>, model: PathModel)
    ensures
        members(paths).contains(model) <==> exists|i: int|
            0 <= i < paths.len() && (#[trigger] paths[i])@ == model,
{
    if members(paths).contains(model) {
        let i = choose|i: int| 0 <= i < models(paths).len() && models(paths)[i] == model;
        assert(paths[i]@ == model);
    }
    if exists|i: int| 0 <= i < paths.len() && (#[trigger] paths[i])@ == model {
        let i = choose|i: int| 0 <= i < paths.len() && (#[trigger] paths[i])@ == model;
        assert(models(paths)[i] == model);
    }
}

/// The directories of a set of paths hold each path right in them, with one
/// name behind the directory's; there is no directory among them that does not.
/// A path without names stands for itself.
pub proof fn directories_hold_their_paths(paths: Set<PathModel>, path: PathModel, dir: PathModel)
    ensures
        paths.contains(path) && path.names.len() > 0 ==> directories(paths).contains(
            PathModel { absolute: path.absolute, names: path.names.drop_last() },
        ),
        paths.contains(path) && path.names.len() == 0 ==> directories(paths).contains(path),
        directories(paths).contains(dir) ==> exists|inner: PathModel| #[trigger]
            paths.contains(inner) && (if inner.names.len() > 0 {
                inner.absolute == dir.absolute && inner.names == dir.names.push(
                    inner.names.last(),
                )
            } else {
                inner == dir
            }),
{
    if paths.contains(path) {
        assert(directories(paths).contains(path.directory()));
    }
    if directories(paths).contains(dir) {
        let inner = choose|p: PathModel| paths.contains(p) && #[trigger] p.directory() == dir;
        assert(paths.contains(inner));
        if inner.names.len() > 0 {
            assert(inner.names == inner.names.drop_last().push(inner.names.last()));
        }
    }
}

/// In a plain list no path with names is written open-ended.
pub proof fn what_plain_lists_hold(paths: Seq<FilePath>, i: int)
    requires
        all_plain(paths),
        0 <= i < paths.len(),
    ensures
        paths[i]@.names.len() > 0 ==> !paths[i].is_open_ended(),
{
}

} // verus!
