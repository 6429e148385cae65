//! Unix paths, as the components that `std::path` splits them into.
use vstd::prelude::*;

verus! {

/// What a path is: two paths are the same if these are equal.
#[verifier::ext_equal]
pub struct PathModel {
    /// Whether the path starts at the root.
    pub absolute: bool,
    /// The names on the way, `.` and `..` among them.
    pub names: Seq<Seq<u8>>,
}

/// A path of a Unix file system. Names are bytes, which need not be text.
///
/// Repeated and trailing separators are not part of a path, nor is a `.` that
/// does not stand at its beginning. Whether the path was written with a
/// separator at its end is kept beside it: the file system takes such a path
/// for that of a directory.
#[derive(Debug)]
pub struct FilePath {
    absolute: bool,
    names: Vec<Vec<u8>>,
    open_ended: bool,
}

impl View for FilePath {
    type V = PathModel;

    closed spec fn view(&self) -> PathModel {
        PathModel {
            absolute: self.absolute,
            names: self.names@.map_values(|name: Vec<u8>| name@),
        }
    }
}

impl PathModel {
    /// Whether the path has neither root nor name.
    pub open spec fn is_empty(self) -> bool {
        !self.absolute && self.names.len() == 0
    }

    /// Whether this is what a path is split into: the names are not empty and
    /// hold no separator, and a `.` stands only at the beginning of a relative
    /// path.
    pub open spec fn is_normal(self) -> bool {
        forall|i: int|
            0 <= i < self.names.len() ==> {
                &&& #[trigger] self.names[i].len() > 0
                &&& !self.names[i].contains(0x2f)
                &&& self.names[i] == dot() ==> i == 0 && !self.absolute
            }
    }

    /// The path without its last name; a path without names has none.
    pub open spec fn parent(self) -> Option<PathModel> {
        if self.names.len() == 0 {
            None
        } else {
            Some(PathModel { absolute: self.absolute, names: self.names.drop_last() })
        }
    }

    /// The directory to look in for the path: its parent, or itself if it has none.
    pub open spec fn directory(self) -> PathModel {
        match self.parent() {
            Some(parent) => parent,
            None => self,
        }
    }

    /// The path without a `.` at its beginning.
    pub open spec fn undotted(self) -> Seq<Seq<u8>> {
        if self.names.len() > 0 && self.names[0] == dot() {
            self.names.drop_first()
        } else {
            self.names
        }
    }

    /// `path` as seen from here: an absolute path is itself.
    pub open spec fn join(self, path: PathModel) -> PathModel {
        if path.absolute || self.is_empty() {
            path
        } else {
            PathModel { absolute: self.absolute, names: self.names + path.undotted() }
        }
    }
}

/// The name `.`.
pub open spec fn dot() -> Seq<u8> {
    seq![0x2e]
}

/// What stands between the separators of a text.
pub open spec fn segments(text: Seq<u8>) -> Seq<Seq<u8>>
    decreases text.len(),
{
    if text.len() == 0 {
        seq![Seq::empty()]
    } else {
        let before = segments(text.drop_last());
        if text.last() == 0x2f {
            before.push(Seq::empty())
        } else {
            before.drop_last().push(before.last().push(text.last()))
        }
    }
}

/// The names among the segments of a text: those that are not empty, nor `.`
/// behind a separator.
pub open spec fn kept(segments: Seq<Seq<u8>>) -> Seq<Seq<u8>>
    decreases segments.len(),
{
    if segments.len() == 0 {
        Seq::empty()
    } else {
        let before = kept(segments.drop_last());
        let last = segments.last();
        if last.len() > 0 && (last == dot() ==> segments.len() == 1) {
            before.push(last)
        } else {
            before
        }
    }
}

/// The path that a text stands for.
pub open spec fn split(text: Seq<u8>) -> PathModel {
    PathModel { absolute: text.len() > 0 && text[0] == 0x2f, names: kept(segments(text)) }
}

/// Whether a text ends with a separator, or with a `.` behind one.
pub open spec fn ends_open(text: Seq<u8>) -> bool {
    &&& segments(text).len() > 1
    &&& segments(text).last().len() == 0 || segments(text).last() == dot()
}

/// The names with separators between them.
pub open spec fn joined_names(names: Seq<Seq<u8>>) -> Seq<u8>
    decreases names.len(),
{
    if names.len() == 0 {
        Seq::empty()
    } else if names.len() == 1 {
        names[0]
    } else {
        joined_names(names.drop_last()).push(0x2f) + names.last()
    }
}

/// The text of a path, with a separator at its end if it is open-ended.
pub open spec fn written(path: PathModel, open_ended: bool) -> Seq<u8> {
    let body = if path.absolute {
        seq![0x2fu8] + joined_names(path.names)
    } else {
        joined_names(path.names)
    };
    if open_ended && path.names.len() > 0 {
        body.push(0x2f)
    } else {
        body
    }
}

proof fn segments_are_plain(text: Seq<u8>)
    ensures
        segments(text).len() > 0,
        forall|i: int| 0 <= i < segments(text).len() ==> !(#[trigger] segments(text)[i]).contains(
            0x2f,
        ),
        text.len() > 0 && text[0] == 0x2f ==> segments(text).len() > 1 && segments(text)[0].len()
            == 0,
    decreases text.len(),
{
    if text.len() > 0 {
        segments_are_plain(text.drop_last());
    }
}

proof fn kept_names_are_normal(list: Seq<Seq<u8>>)
    requires
        forall|i: int| 0 <= i < list.len() ==> !(#[trigger] list[i]).contains(0x2f),
    ensures
        forall|i: int|
            0 <= i < kept(list).len() ==> {
                &&& (#[trigger] kept(list)[i]).len() > 0
                &&& !kept(list)[i].contains(0x2f)
                &&& kept(list)[i] == dot() ==> i == 0 && list[0] == dot()
            },
        list.len() > 0 && list[0] == dot() ==> kept(list).len() > 0,
    decreases list.len(),
{
    if list.len() > 0 {
        let fewer = list.drop_last();
        assert forall|i: int| 0 <= i < fewer.len() implies !(#[trigger] fewer[i]).contains(
            0x2f,
        ) by {
            assert(fewer[i] == list[i]);
        }
        kept_names_are_normal(fewer);
        let before = kept(fewer);
        assert(fewer.len() == 0 ==> before.len() == 0);
        assert(fewer.len() > 0 ==> fewer[0] == list[0]);
        assert(list.last() == list[list.len() - 1]);
        assert forall|i: int| 0 <= i < kept(list).len() implies {
            &&& (#[trigger] kept(list)[i]).len() > 0
            &&& !kept(list)[i].contains(0x2f)
            &&& kept(list)[i] == dot() ==> i == 0 && list[0] == dot()
        } by {
            if i < before.len() {
                assert(kept(list)[i] == before[i]);
            }
        }
    }
}

/// Every text stands for a path as paths are split.
pub proof fn a_text_is_a_normal_path(text: Seq<u8>)
    ensures
        split(text).is_normal(),
{
    segments_are_plain(text);
    kept_names_are_normal(segments(text));
}

proof fn plain_without_the_last(name: Seq<u8>)
    requires
        name.len() > 0,
        !name.contains(0x2f),
    ensures
        !name.drop_last().contains(0x2f),
        name.last() != 0x2f,
        name.drop_last().push(name.last()) == name,
{
    let shorter = name.drop_last();
    if shorter.contains(0x2f) {
        let i = choose|i: int| 0 <= i < shorter.len() && shorter[i] == 0x2f;
        assert(name[i] == 0x2f);
    }
    assert(name.contains(name.last()));
    assert(shorter.push(name.last()) == name);
}

proof fn segments_of_a_segment(name: Seq<u8>)
    requires
        !name.contains(0x2f),
    ensures
        segments(name) == seq![name],
    decreases name.len(),
{
    if name.len() > 0 {
        let shorter = name.drop_last();
        plain_without_the_last(name);
        segments_of_a_segment(shorter);
    } else {
        assert(name == Seq::<u8>::empty());
    }
}

proof fn segments_behind_a_separator(text: Seq<u8>, name: Seq<u8>)
    requires
        !name.contains(0x2f),
    ensures
        segments(text.push(0x2f) + name) == segments(text).push(name),
    decreases name.len(),
{
    let whole = text.push(0x2f) + name;
    if name.len() > 0 {
        let shorter = name.drop_last();
        plain_without_the_last(name);
        segments_behind_a_separator(text, shorter);
        assert(whole.drop_last() == text.push(0x2f) + shorter);
        assert(segments(whole) == segments(text).push(name));
    } else {
        assert(whole.drop_last() == text);
        assert(name == Seq::<u8>::empty());
    }
}

/// Whether these can be the names of a path: none is empty, holds a separator
/// or is a `.` behind another one, or at all if `dotless`.
spec fn are_names(names: Seq<Seq<u8>>, dotless: bool) -> bool {
    forall|i: int|
        0 <= i < names.len() ==> {
            &&& (#[trigger] names[i]).len() > 0
            &&& !names[i].contains(0x2f)
            &&& names[i] == dot() ==> i == 0 && !dotless
        }
}

proof fn names_without_the_last(names: Seq<Seq<u8>>, dotless: bool)
    requires
        names.len() > 0,
        are_names(names, dotless),
    ensures
        are_names(names.drop_last(), dotless),
{
    let fewer = names.drop_last();
    assert forall|i: int| 0 <= i < fewer.len() implies {
        &&& (#[trigger] fewer[i]).len() > 0
        &&& !fewer[i].contains(0x2f)
        &&& fewer[i] == dot() ==> i == 0 && !dotless
    } by {
        assert(fewer[i] == names[i]);
    }
}

proof fn segments_of_joined_names(names: Seq<Seq<u8>>)
    requires
        names.len() > 0,
        are_names(names, false),
    ensures
        segments(joined_names(names)) == names,
        joined_names(names).len() > 0,
        joined_names(names)[0] != 0x2f,
    decreases names.len(),
{
    if names.len() == 1 {
        segments_of_a_segment(names[0]);
        assert(names == seq![names[0]]);
        assert(names[0].contains(names[0][0]));
    } else {
        names_without_the_last(names, false);
        segments_of_joined_names(names.drop_last());
        segments_behind_a_separator(joined_names(names.drop_last()), names.last());
        assert(names.drop_last().push(names.last()) == names);
    }
}

proof fn segments_behind_the_root(names: Seq<Seq<u8>>)
    requires
        names.len() > 0,
        are_names(names, true),
    ensures
        segments(seq![0x2fu8] + joined_names(names)) == seq![Seq::<u8>::empty()] + names,
    decreases names.len(),
{
    let none = Seq::<u8>::empty();
    let whole = seq![0x2fu8] + joined_names(names);
    if names.len() == 1 {
        segments_behind_a_separator(none, names[0]);
        assert(whole == none.push(0x2f) + names[0]);
        assert(segments(none).push(names[0]) == seq![none] + names);
    } else {
        let fewer = names.drop_last();
        names_without_the_last(names, true);
        segments_behind_the_root(fewer);
        let before = seq![0x2fu8] + joined_names(fewer);
        segments_behind_a_separator(before, names.last());
        assert(whole == before.push(0x2f) + names.last());
        assert((seq![none] + fewer).push(names.last()) == seq![none] + names);
    }
}

proof fn names_are_kept(names: Seq<Seq<u8>>)
    requires
        are_names(names, false),
    ensures
        kept(names) == names,
    decreases names.len(),
{
    if names.len() > 0 {
        names_without_the_last(names, false);
        names_are_kept(names.drop_last());
        assert(names.last() == names[names.len() - 1]);
        assert(names.drop_last().push(names.last()) == names);
    }
}

proof fn names_behind_the_root_are_kept(names: Seq<Seq<u8>>)
    requires
        are_names(names, true),
    ensures
        kept(seq![Seq::<u8>::empty()] + names) == names,
    decreases names.len(),
{
    let rooted = seq![Seq::<u8>::empty()] + names;
    if names.len() > 0 {
        names_without_the_last(names, true);
        names_behind_the_root_are_kept(names.drop_last());
        assert(rooted.drop_last() == seq![Seq::<u8>::empty()] + names.drop_last());
        assert(rooted.last() == names[names.len() - 1]);
        assert(names.drop_last().push(names.last()) == names);
    } else {
        reveal_with_fuel(kept, 2);
        assert(rooted.drop_last() == Seq::<Seq<u8>>::empty());
        assert(rooted.last().len() == 0);
        assert(kept(rooted) == names);
    }
}

/// Reading the text of a path gives the path back.
pub proof fn a_written_path_reads_back(path: PathModel, open_ended: bool)
    requires
        path.is_normal(),
    ensures
        split(written(path, open_ended)) == path,
{
    let names = path.names;
    let body = written(path, false);
    assert(are_names(names, path.absolute)) by {
        assert forall|i: int| 0 <= i < names.len() implies {
            &&& (#[trigger] names[i]).len() > 0
            &&& !names[i].contains(0x2f)
            &&& names[i] == dot() ==> i == 0 && !path.absolute
        } by {
            assert(path.names[i].len() > 0);
        }
    }
    if names.len() == 0 {
        reveal_with_fuel(segments, 2);
        reveal_with_fuel(kept, 3);
        if path.absolute {
            assert(body == seq![0x2fu8]);
            assert(body.drop_last() == Seq::<u8>::empty());
            let list = segments(body);
            assert(list == seq![Seq::<u8>::empty(), Seq::<u8>::empty()]);
            assert(list.drop_last().drop_last() == Seq::<Seq<u8>>::empty());
            assert(kept(list.drop_last()) == Seq::<Seq<u8>>::empty());
        } else {
            assert(body == Seq::<u8>::empty());
            assert(segments(body).drop_last() == Seq::<Seq<u8>>::empty());
        }
        assert(split(body).names == names);
    } else {
        if path.absolute {
            segments_behind_the_root(names);
            names_behind_the_root_are_kept(names);
        } else {
            assert(are_names(names, false));
            segments_of_joined_names(names);
            names_are_kept(names);
        }
        assert(split(body) == path);
        let none = Seq::<u8>::empty();
        segments_behind_a_separator(body, none);
        assert(body.push(0x2f) + none == body.push(0x2f));
        assert(segments(body).push(none).drop_last() == segments(body));
        assert(split(body.push(0x2f)) == path);
    }
}

fn same_bytes(a: &Vec<u8>, b: &Vec<u8>) -> (same: bool)
    ensures
        same == (a@ == b@),
{
    if a.len() != b.len() {
        return false;
    }
    for i in 0..a.len()
        invariant
            a.len() == b.len(),
            forall|j: int| 0 <= j < i ==> a@[j] == b@[j],
    {
        if a[i] != b[i] {
            return false;
        }
    }
    assert(a@ == b@);
    true
}

fn append_bytes(text: &mut Vec<u8>, bytes: &Vec<u8>)
    ensures
        final(text)@ == old(text)@ + bytes@,
{
    let ghost before = text@;
    for i in 0..bytes.len()
        invariant
            text@ == before + bytes@.take(i as int),
    {
        text.push(bytes[i]);
    }
    assert(bytes@.take(bytes.len() as int) == bytes@);
}

/// Copies of the names from `from` on, behind those in `names`.
fn append_names(names: &mut Vec<Vec<u8>>, more: &Vec<Vec<u8>>, from: usize, to: usize)
    requires
        from <= to <= more.len(),
    ensures
        final(names)@.map_values(|name: Vec<u8>| name@) == old(names)@.map_values(
            |name: Vec<u8>| name@,
        ) + more@.map_values(|name: Vec<u8>| name@).subrange(from as int, to as int),
{
    let ghost before = names@.map_values(|name: Vec<u8>| name@);
    let ghost source = more@.map_values(|name: Vec<u8>| name@);
    for i in from..to
        invariant
            from <= i <= to <= more.len(),
            source == more@.map_values(|name: Vec<u8>| name@),
            names@.map_values(|name: Vec<u8>| name@) == before + source.subrange(
                from as int,
                i as int,
            ),
    {
        let mut name: Vec<u8> = Vec::new();
        append_bytes(&mut name, &more[i]);
        assert(name@ == more@[i as int]@);
        let ghost held = names@;
        names.push(name);
        proof {
            assert(names@.map_values(|name: Vec<u8>| name@) == held.map_values(
                |name: Vec<u8>| name@,
            ).push(name@));
            assert(source.subrange(from as int, i + 1) == source.subrange(
                from as int,
                i as int,
            ).push(source[i as int]));
        }
    }
}

/// Whether `path`, looked for from `base`, is written with a separator at its
/// end.
pub open spec fn opens_from(path: FilePath, base: PathModel) -> bool {
    if path@.absolute || base.is_empty() {
        path.is_open_ended()
    } else {
        path.is_open_ended() || path@.undotted().len() == 0
    }
}

/// Whether the text of a path is that of its names, with no separator at its
/// end.
pub open spec fn is_plain(path: FilePath) -> bool {
    path.is_open_ended() ==> path@.names.len() == 0
}

/// The names behind those in `names`, if `segment` is one of them.
fn keep_segment(names: &mut Vec<Vec<u8>>, segment: Vec<u8>, first: bool)
    ensures
        final(names)@.map_values(|name: Vec<u8>| name@) == (if segment@.len() > 0 && (segment@
            == dot() ==> first) {
            old(names)@.map_values(|name: Vec<u8>| name@).push(segment@)
        } else {
            old(names)@.map_values(|name: Vec<u8>| name@)
        }),
{
    let dotted = is_dot(&segment);
    if segment.len() > 0 && (first || !dotted) {
        let ghost held = names@;
        let ghost kept_bytes = segment@;
        names.push(segment);
        assert(names@.map_values(|name: Vec<u8>| name@) == held.map_values(
            |name: Vec<u8>| name@,
        ).push(kept_bytes));
    }
}

fn is_dot(name: &Vec<u8>) -> (dotted: bool)
    ensures
        dotted == (name@ == dot()),
{
    if name.len() == 1 && name[0] == 0x2e {
        assert(name@ == dot());
        true
    } else {
        false
    }
}

impl FilePath {
    /// The path is as paths are split.
    #[verifier::type_invariant]
    spec fn normal(&self) -> bool {
        self@.is_normal()
    }

    /// Whether the path was written with a separator at its end.
    pub closed spec fn is_open_ended(&self) -> bool {
        self.open_ended
    }

    /// The path that a text stands for.
    pub fn from_bytes(text: &[u8]) -> (path: FilePath)
        ensures
            path@ == split(text@),
            path@.is_normal(),
            path.is_open_ended() == ends_open(text@),
    {
        let mut names: Vec<Vec<u8>> = Vec::new();
        let mut segment: Vec<u8> = Vec::new();
        let mut first = true;
        proof {
            assert(segments(text@.take(0)) == seq![Seq::<u8>::empty()]);
            assert(segments(text@.take(0)).drop_last() == Seq::<Seq<u8>>::empty());
            assert(names@.map_values(|name: Vec<u8>| name@) == Seq::<Seq<u8>>::empty());
        }
        for i in 0..text.len()
            invariant
                segments(text@.take(i as int)).len() > 0,
                segment@ == segments(text@.take(i as int)).last(),
                first == (segments(text@.take(i as int)).len() == 1),
                names@.map_values(|name: Vec<u8>| name@) == kept(
                    segments(text@.take(i as int)).drop_last(),
                ),
        {
            let ghost before = segments(text@.take(i as int));
            let ghost after = segments(text@.take(i + 1));
            assert(text@.take(i + 1).drop_last() == text@.take(i as int));
            if text[i] == 0x2f {
                keep_segment(&mut names, segment, first);
                segment = Vec::new();
                first = false;
                assert(after.drop_last() == before);
            } else {
                segment.push(text[i]);
                assert(after.drop_last() == before.drop_last());
            }
        }
        assert(text@.take(text@.len() as int) == text@);
        let absolute = text.len() > 0 && text[0] == 0x2f;
        let open_ended = !first && (segment.len() == 0 || is_dot(&segment));
        keep_segment(&mut names, segment, first);
        proof {
            a_text_is_a_normal_path(text@);
        }
        FilePath { absolute, names, open_ended }
    }

    /// The text of the path: reading it gives the path back.
    pub fn to_bytes(&self) -> (text: Vec<u8>)
        ensures
            text@ == written(self@, self.is_open_ended()),
            split(text@) == self@,
    {
        proof {
            use_type_invariant(self);
            a_written_path_reads_back(self@, self.is_open_ended());
        }
        let mut text: Vec<u8> = Vec::new();
        if self.absolute {
            text.push(0x2f);
        }
        let ghost start = text@;
        assert(start + joined_names(self@.names.take(0)) == start);
        for i in 0..self.names.len()
            invariant
                text@ == start + joined_names(self@.names.take(i as int)),
        {
            assert(self@.names.take(i + 1).drop_last() == self@.names.take(i as int));
            assert(self@.names.take(i + 1).last() == self.names@[i as int]@);
            if i > 0 {
                text.push(0x2f);
            }
            append_bytes(&mut text, &self.names[i]);
            assert(text@ == start + joined_names(self@.names.take(i + 1)));
        }
        assert(self@.names.take(self.names.len() as int) == self@.names);
        if self.open_ended && self.names.len() > 0 {
            text.push(0x2f);
        }
        assert(text@ == written(self@, self.is_open_ended()));
        text
    }

    /// The relative path `.`.
    pub fn current_dir() -> (path: FilePath)
        ensures
            path@ == (PathModel { absolute: false, names: seq![dot()] }),
            !path.is_open_ended(),
    {
        let mut name: Vec<u8> = Vec::new();
        name.push(0x2e);
        let mut names: Vec<Vec<u8>> = Vec::new();
        names.push(name);
        assert(name@ == dot());
        assert(names@.map_values(|name: Vec<u8>| name@) == seq![dot()]);
        FilePath { absolute: false, names, open_ended: false }
    }

    /// Whether the path starts at the root.
    pub fn is_absolute(&self) -> (absolute: bool)
        ensures
            absolute == self@.absolute,
    {
        self.absolute
    }

    /// Whether two paths are the same.
    pub fn is_same(&self, other: &FilePath) -> (same: bool)
        ensures
            same == (self@ == other@),
    {
        if self.absolute != other.absolute || self.names.len() != other.names.len() {
            assert(self@.names.len() == self.names.len() && other@.names.len() == other.names.len());
            return false;
        }
        for i in 0..self.names.len()
            invariant
                self.names.len() == other.names.len(),
                forall|j: int| 0 <= j < i ==> self@.names[j] == other@.names[j],
        {
            if !same_bytes(&self.names[i], &other.names[i]) {
                assert(self@.names[i as int] != other@.names[i as int]);
                return false;
            }
        }
        assert(self@.names == other@.names);
        true
    }

    /// The path without its last name; a path without names has none.
    pub fn parent(&self) -> (parent: Option<FilePath>)
        ensures
            match parent {
                Some(path) => self@.parent() == Some(path@) && !path.is_open_ended(),
                None => self@.parent() is None,
            },
    {
        if self.names.len() == 0 {
            return None;
        }
        let mut names: Vec<Vec<u8>> = Vec::new();
        append_names(&mut names, &self.names, 0, self.names.len() - 1);
        proof {
            use_type_invariant(self);
            assert(names@.map_values(|name: Vec<u8>| name@) == self@.names.drop_last());
            paths_stay_normal(self@, self@);
        }
        Some(FilePath { absolute: self.absolute, names, open_ended: false })
    }

    /// The directory to look in for the path: its parent, or itself if it has none.
    pub fn directory(&self) -> (directory: FilePath)
        ensures
            directory@ == self@.directory(),
            directory.is_open_ended() == (self@.parent() is None && self.is_open_ended()),
            is_plain(directory),
    {
        match self.parent() {
            Some(parent) => parent,
            None => self.clone(),
        }
    }

    /// `path` as seen from here: an absolute path is itself.
    pub fn join(&self, path: FilePath) -> (joined: FilePath)
        ensures
            joined@ == self@.join(path@),
            joined.is_open_ended() == opens_from(path, self@),
    {
        proof {
            use_type_invariant(self);
            use_type_invariant(&path);
            paths_stay_normal(self@, path@);
        }
        if path.absolute || (!self.absolute && self.names.len() == 0) {
            return path;
        }
        let first: usize = if path.names.len() > 0 && is_dot(&path.names[0]) {
            1
        } else {
            0
        };
        let mut names: Vec<Vec<u8>> = Vec::new();
        append_names(&mut names, &self.names, 0, self.names.len());
        append_names(&mut names, &path.names, first, path.names.len());
        assert(names@.map_values(|name: Vec<u8>| name@) == self@.names + path@.undotted());
        let open_ended = path.open_ended || first == path.names.len();
        FilePath { absolute: self.absolute, names, open_ended }
    }
}

impl Clone for FilePath {
    fn clone(&self) -> (copy: Self)
        ensures
            copy@ == self@,
            copy.is_open_ended() == self.is_open_ended(),
    {
        proof {
            use_type_invariant(self);
        }
        let mut names: Vec<Vec<u8>> = Vec::new();
        append_names(&mut names, &self.names, 0, self.names.len());
        assert(names@.map_values(|name: Vec<u8>| name@) == self@.names);
        FilePath { absolute: self.absolute, names, open_ended: self.open_ended }
    }
}

/// Joining paths and taking parents stay within what paths are split into.
pub proof fn paths_stay_normal(base: PathModel, path: PathModel)
    requires
        base.is_normal(),
        path.is_normal(),
    ensures
        base.join(path).is_normal(),
        base.parent() matches Some(parent) ==> parent.is_normal(),
        base.directory().is_normal(),
{
    let joined = base.join(path);
    if !path.absolute && !base.is_empty() {
        assert forall|i: int| 0 <= i < joined.names.len() implies {
            &&& #[trigger] joined.names[i].len() > 0
            &&& !joined.names[i].contains(0x2f)
            &&& joined.names[i] == dot() ==> i == 0 && !joined.absolute
        } by {
            if i < base.names.len() {
                assert(joined.names[i] == base.names[i]);
            } else {
                let rest = path.undotted();
                let j = i - base.names.len();
                assert(joined.names[i] == rest[j]);
                if rest.len() < path.names.len() {
                    assert(rest[j] == path.names[j + 1]);
                } else {
                    assert(rest[j] == path.names[j]);
                }
            }
        }
    }
    if base.names.len() > 0 {
        let parent = base.parent()->0;
        assert(forall|i: int| 0 <= i < parent.names.len() ==> parent.names[i] == base.names[i]);
    }
}

/// A path is its directory with one name behind it; a path without names is its
/// own directory. The directory is the parent, where there is one.
pub proof fn a_path_is_right_in_its_directory(path: PathModel)
    ensures
        path.names.len() > 0 ==> {
            &&& path.directory().absolute == path.absolute
            &&& path.names == path.directory().names.push(path.names.last())
            &&& path.parent() == Some(path.directory())
        },
        path.names.len() == 0 ==> path.directory() == path && path.parent() is None,
{
    if path.names.len() > 0 {
        assert(path.names == path.names.drop_last().push(path.names.last()));
    }
}

/// Joining puts the names of a relative path behind those of the base, but for
/// a `.` at its beginning. An absolute path, and any path as seen from nowhere,
/// is itself.
pub proof fn joining_puts_the_names_behind(base: PathModel, path: PathModel)
    ensures
        path.absolute ==> base.join(path) == path,
        !base.absolute && base.names.len() == 0 ==> base.join(path) == path,
        !path.absolute && (base.absolute || base.names.len() > 0) ==> {
            &&& base.join(path).absolute == base.absolute
            &&& (path.names.len() == 0 || path.names[0] != seq![0x2eu8]) ==> base.join(path).names
                == base.names + path.names
            &&& (path.names.len() > 0 && path.names[0] == seq![0x2eu8]) ==> base.join(path).names
                == base.names + path.names.drop_first()
        },
{
}

/// It makes no difference in which order three paths are joined.
pub proof fn joins_can_be_chained(a: PathModel, b: PathModel, c: PathModel)
    ensures
        a.join(b).join(c) == a.join(b.join(c)),
{
    if !c.absolute && !b.absolute && !a.is_empty() && !b.is_empty() {
        let inner = b.join(c);
        assert(inner.names == b.names + c.undotted());
        if b.names[0] == dot() {
            assert(inner.names.drop_first() == b.names.drop_first() + c.undotted());
        }
        assert(inner.undotted() == b.undotted() + c.undotted());
        assert(a.join(b).join(c).names == a.join(inner).names);
    } else if !c.absolute && !b.absolute && !a.is_empty() {
        assert(a.join(b).names == a.names);
    }
}

/// A name joined to a base is right in it.
pub proof fn a_joined_name_is_right_in_the_base(base: PathModel, name: Seq<u8>)
    requires
        !base.is_empty(),
        name != dot(),
    ensures
        base.join(PathModel { absolute: false, names: seq![name] }).directory() == base,
{
    let path = PathModel { absolute: false, names: seq![name] };
    assert((base.names + path.names).drop_last() == base.names);
}

proof fn segments_of_both_sides(a: Seq<u8>, b: Seq<u8>)
    ensures
        segments(a.push(0x2f) + b) == segments(a) + segments(b),
    decreases b.len(),
{
    let whole = a.push(0x2f) + b;
    segments_are_plain(b);
    if b.len() > 0 {
        let shorter = b.drop_last();
        segments_of_both_sides(a, shorter);
        segments_are_plain(shorter);
        assert(whole.drop_last() == a.push(0x2f) + shorter);
        assert(segments(whole) == segments(a) + segments(b));
    } else {
        assert(whole.drop_last() == a);
        assert(segments(whole) == segments(a) + segments(b));
    }
}

/// The names among segments that all stand behind a separator.
spec fn kept_behind(list: Seq<Seq<u8>>) -> Seq<Seq<u8>>
    decreases list.len(),
{
    if list.len() == 0 {
        Seq::empty()
    } else if list.last().len() > 0 && list.last() != dot() {
        kept_behind(list.drop_last()).push(list.last())
    } else {
        kept_behind(list.drop_last())
    }
}

proof fn kept_of_both_sides(a: Seq<Seq<u8>>, b: Seq<Seq<u8>>)
    requires
        a.len() > 0,
    ensures
        kept(a + b) == kept(a) + kept_behind(b),
    decreases b.len(),
{
    if b.len() > 0 {
        kept_of_both_sides(a, b.drop_last());
        assert((a + b).drop_last() == a + b.drop_last());
        assert(kept(a + b) == kept(a) + kept_behind(b));
    } else {
        assert(a + b == a);
    }
}

proof fn kept_but_for_a_dot(list: Seq<Seq<u8>>)
    ensures
        list.len() > 0 && list[0] == dot() ==> kept(list) == seq![dot()] + kept_behind(list),
        !(list.len() > 0 && list[0] == dot()) ==> kept(list) == kept_behind(list),
        forall|i: int| 0 <= i < kept_behind(list).len() ==> #[trigger] kept_behind(list)[i] != dot(),
    decreases list.len(),
{
    if list.len() > 0 {
        let fewer = list.drop_last();
        kept_but_for_a_dot(fewer);
        if fewer.len() > 0 {
            assert(fewer[0] == list[0]);
        } else {
            assert(list.last() == list[0]);
        }
        if list[0] == dot() {
            assert(kept(list) == seq![dot()] + kept_behind(list));
        }
    }
}

proof fn a_text_has_a_root_or_a_name(text: Seq<u8>)
    requires
        text.len() > 0,
    ensures
        !split(text).is_empty(),
{
    if text[0] != 0x2f {
        first_segment_is_not_empty(text);
        a_first_segment_is_kept(segments(text));
    }
}

proof fn first_segment_is_not_empty(text: Seq<u8>)
    requires
        text.len() > 0,
        text[0] != 0x2f,
    ensures
        segments(text).len() > 0,
        segments(text)[0].len() > 0,
    decreases text.len(),
{
    let shorter = text.drop_last();
    segments_are_plain(shorter);
    if shorter.len() > 0 {
        first_segment_is_not_empty(shorter);
    }
}

proof fn a_first_segment_is_kept(list: Seq<Seq<u8>>)
    requires
        list.len() > 0,
        list[0].len() > 0,
    ensures
        kept(list).len() > 0,
    decreases list.len(),
{
    if list.len() > 1 {
        a_first_segment_is_kept(list.drop_last());
    }
}

/// A text that continues another one behind a separator stands for the path
/// that the first one stands for, joined with that of the second.
pub proof fn texts_join_as_paths_do(a: Seq<u8>, b: Seq<u8>)
    requires
        a.len() > 0,
        b.len() > 0 ==> b[0] != 0x2f,
    ensures
        split(a.push(0x2f) + b) == split(a).join(split(b)),
{
    let list = segments(b);
    segments_of_both_sides(a, b);
    segments_are_plain(a);
    kept_of_both_sides(segments(a), list);
    kept_but_for_a_dot(list);
    a_text_has_a_root_or_a_name(a);
    let path = split(b);
    assert(path.undotted() == kept_behind(list)) by {
        segments_are_plain(b);
        if list[0] == dot() {
            assert(path.names[0] == dot());
            assert(path.names.drop_first() == kept_behind(list));
        } else if path.names.len() > 0 {
            assert(kept_behind(list)[0] != dot());
        }
    }
}

/// A separator that follows another one is no part of a path.
pub proof fn doubled_separators_are_one(a: Seq<u8>, b: Seq<u8>)
    ensures
        split(a.push(0x2f).push(0x2f) + b) == split(a.push(0x2f) + b),
{
    let none = Seq::<u8>::empty();
    segments_of_both_sides(a.push(0x2f), b);
    segments_of_both_sides(a, b);
    segments_of_both_sides(a, none);
    assert(a.push(0x2f) + none == a.push(0x2f));
    segments_are_plain(a);
    let list = segments(a).push(none);
    assert(segments(a) + segments(none) == list);
    assert(list.drop_last() == segments(a));
    kept_of_both_sides(list, segments(b));
    kept_of_both_sides(segments(a), segments(b));
}

/// A text is open-ended if nothing, or a `.`, stands behind its last separator.
pub proof fn what_ends_open(text: Seq<u8>, last: Seq<u8>)
    requires
        !last.contains(0x2f),
    ensures
        ends_open(text.push(0x2f) + last) == (last.len() == 0 || last == seq![0x2eu8]),
        !ends_open(last),
{
    segments_behind_a_separator(text, last);
    segments_of_a_segment(last);
    segments_are_plain(text);
}

/// A path that is written open-ended reads back so, if it has names.
pub proof fn a_written_path_ends_as_it_says(path: PathModel, open_ended: bool)
    requires
        path.is_normal(),
        path.names.len() > 0,
    ensures
        written(path, open_ended).last() == 0x2f <==> open_ended,
        path.names.last() != dot() ==> ends_open(written(path, open_ended)) == open_ended,
{
    let names = path.names;
    let last = names.last();
    assert(last == names[names.len() - 1]);
    let body = written(path, false);
    assert(last.contains(last.last()));
    if names.len() > 1 {
        let start = if path.absolute {
            seq![0x2fu8] + joined_names(names.drop_last())
        } else {
            joined_names(names.drop_last())
        };
        assert(body == start.push(0x2f) + last);
        what_ends_open(start, last);
    } else if path.absolute {
        assert(body == Seq::<u8>::empty().push(0x2f) + last);
        what_ends_open(Seq::<u8>::empty(), last);
    } else {
        assert(body == last);
        what_ends_open(Seq::<u8>::empty(), last);
    }
    assert(body.last() == last.last());
    let none = Seq::<u8>::empty();
    assert(body.push(0x2f) + none == body.push(0x2f));
    what_ends_open(body, none);
}

/// Looked for from a directory, a path is taken for that of a directory if it
/// was written so, or names nothing in it.
pub proof fn what_opens_from_a_base(path: FilePath, base: PathModel)
    ensures
        path.is_open_ended() ==> opens_from(path, base),
        path@.absolute ==> opens_from(path, base) == path.is_open_ended(),
        base.is_empty() ==> opens_from(path, base) == path.is_open_ended(),
        path@.names.len() > 1 ==> opens_from(path, base) == path.is_open_ended(),
        path@.names.len() == 1 && path@.names[0] != dot() ==> opens_from(path, base)
            == path.is_open_ended(),
        !path@.absolute && !base.is_empty() && path@.names.len() == 0 ==> opens_from(path, base),
        !path@.absolute && !base.is_empty() && path@.names == seq![dot()] ==> opens_from(
            path,
            base,
        ),
{
}

/// What the names of a path as paths are split are like.
pub proof fn what_normal_paths_are(path: PathModel, i: int)
    requires
        path.is_normal(),
        0 <= i < path.names.len(),
    ensures
        path.names[i].len() > 0,
        forall|j: int| 0 <= j < path.names[i].len() ==> #[trigger] path.names[i][j] != 0x2f,
        path.names[i] == seq![0x2eu8] ==> i == 0 && !path.absolute,
{
    let name = path.names[i];
    assert(name.len() > 0);
    assert(!name.contains(0x2f));
    if name =~= seq![0x2eu8] {
        assert(name == dot());
    }
    assert forall|j: int| 0 <= j < name.len() implies #[trigger] name[j] != 0x2f by {
        assert(name.contains(name[j]));
    }
}

/// The text of a plain path does not end with a separator, unless it is the
/// root.
pub proof fn plain_paths_end_with_a_name(path: FilePath)
    requires
        is_plain(path),
    ensures
        written(path@, path.is_open_ended()) == written(path@, false),
        path@.names.len() > 0 ==> !path.is_open_ended(),
{
}

} // verus!
