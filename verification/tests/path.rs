use std::path::Path;

use hot_reload::path::FilePath;
use hot_reload::path_set::{occurs, PathSet};

fn path(text: &str) -> FilePath {
    FilePath::from_bytes(text.as_bytes())
}

fn text(path: &FilePath) -> String {
    String::from_utf8(path.to_bytes()).unwrap()
}

fn same(a: &FilePath, b: &Path) -> bool {
    a.is_same(&path(b.to_str().unwrap())) && Path::new(&text(a)) == b
}

const PATHS: [&str; 20] = [
    "", ".", "..", "/", "a", "a/b", "./a", "./a/./b", "../a", "/a/b/", "/a//c", "/../a", "a/", "a/.",
    "./", "././a", "//", "/.", "/./a", ".a/..b",
];

#[test]
fn written_paths_read_back() {
    for a in PATHS {
        let written = text(&path(a));
        assert_eq!(Path::new(&written), Path::new(a), "{a}");
        assert!(path(&written).is_same(&path(a)), "{a}");
    }
}

#[test]
fn paths_are_written_without_what_is_no_part_of_them() {
    let texts = [
        ("/a//b", "/a/b"),
        ("./a/./b", "./a/b"),
        ("a/.", "a/"),
        ("a//", "a/"),
        ("/.", "/"),
        ("//", "/"),
        ("./", "./"),
        ("", ""),
    ];
    for (given, expected) in texts {
        assert_eq!(text(&path(given)), expected);
    }
    assert_eq!(text(&path("/srv").join(path("app.toml/"))), "/srv/app.toml/");
    assert_eq!(text(&path("/srv").join(path(""))), "/srv/");
    assert_eq!(text(&path("/srv/app/").parent().unwrap()), "/srv");
    assert_eq!(text(&path("a/").clone()), "a/");
}

#[test]
fn names_need_not_be_text() {
    let path = FilePath::from_bytes(&[0x2f, 0xff, 0x2f, 0x61]);
    assert_eq!(path.to_bytes(), vec![0x2f, 0xff, 0x2f, 0x61]);
    assert_eq!(path.directory().to_bytes(), vec![0x2f, 0xff]);
}

#[test]
fn paths_compare_like_std_paths() {
    for a in PATHS {
        for b in PATHS {
            assert_eq!(path(a).is_same(&path(b)), Path::new(a) == Path::new(b), "{a} {b}");
        }
    }
}

#[test]
fn paths_have_the_parents_of_std_paths() {
    for a in PATHS {
        match (path(a).parent(), Path::new(a).parent()) {
            (Some(ours), Some(theirs)) => assert!(same(&ours, theirs), "{a}"),
            (None, None) => {}
            _ => panic!("{a}"),
        }
        assert_eq!(path(a).is_absolute(), Path::new(a).is_absolute(), "{a}");
    }
}

#[test]
fn paths_join_like_std_paths() {
    for a in PATHS {
        for b in PATHS {
            let joined = path(a).join(path(b));
            assert!(same(&joined, &Path::new(a).join(b)), "{a} {b}");
        }
    }
}

#[test]
fn a_path_without_parent_is_its_own_directory() {
    assert_eq!(path("/etc/app.toml").directory().to_bytes(), b"/etc");
    assert_eq!(path("/etc/app/").directory().to_bytes(), b"/etc");
    assert!(path("/").directory().is_same(&path("/")));
    assert!(path("").directory().is_same(&path("")));
    assert!(path("app.toml").directory().is_same(&path("")));
    assert!(FilePath::current_dir().is_same(&path(".")));
    assert!(path("a/b").clone().is_same(&path("a/b")));
}

#[test]
fn a_set_holds_each_path_once() {
    let mut set = PathSet::new();
    assert!(set.insert(path("/a/b")));
    assert!(!set.insert(path("/a//b/")));
    assert!(set.insert(path("/a/c")));
    assert!(set.contains(&path("/a/b")));
    assert!(!set.contains(&path("/a")));
    assert_eq!(set.to_vec().len(), 2);
    assert!(occurs(&set.to_vec(), &path("/a/c")));
    assert!(!occurs(&set.to_vec(), &path("/a/d")));
}

#[test]
fn a_set_forgets_a_path() {
    let mut set = PathSet::new();
    set.insert(path("a"));
    set.insert(path("b"));
    set.insert(path("c"));
    assert!(set.remove(&path("b")));
    assert!(!set.remove(&path("b")));
    assert!(!set.contains(&path("b")));
    assert!(set.contains(&path("a")));
    assert!(set.contains(&path("c")));
}

#[test]
fn sets_differ_by_what_only_one_has() {
    let mut set = PathSet::new();
    set.insert(path("a"));
    set.insert(path("b"));
    let mut other = PathSet::new();
    other.insert(path("b"));
    other.insert(path("c"));
    let difference = set.difference(&other);
    assert_eq!(difference.len(), 1);
    assert!(difference[0].is_same(&path("a")));
    assert!(set.difference(&set).is_empty());
}
