use filesearcherv5_web::path::{
    file_name, has_parent_dir, is_absolute, path_components, push_path, starts_with, Component,
};
use std::path::{Component as StdComponent, Path, PathBuf};

fn std_components(p: &str) -> Vec<String> {
    Path::new(p)
        .components()
        .map(|c| match c {
            StdComponent::RootDir => "/".to_string(),
            StdComponent::CurDir => ".".to_string(),
            StdComponent::ParentDir => "..".to_string(),
            StdComponent::Normal(n) => format!("n:{}", n.to_str().unwrap()),
            StdComponent::Prefix(_) => "prefix".to_string(),
        })
        .collect()
}

fn our_components(p: &str) -> Vec<String> {
    path_components(p.as_bytes())
        .into_iter()
        .map(|c| match c {
            Component::RootDir => "/".to_string(),
            Component::CurDir => ".".to_string(),
            Component::ParentDir => "..".to_string(),
            Component::Normal(n) => format!("n:{}", String::from_utf8(n).unwrap()),
        })
        .collect()
}

const SAMPLES: &[&str] = &[
    "", "/", "//", ".", "..", "./", "/.", "/..", "a", "a/", "a//b", "a/./b", "a/b/.", "./a/b",
    ".//a", "../a", "a/../b", "/a/b/", "///a///", "a/.", "a/..", ".a", "..a", "a.", "a..",
    "./.", "./..", "test.txt", "subdir/nested.txt", "subdir/../test.txt", "/etc/passwd",
    "../../etc/passwd", "foo.txt/.", "foo.txt/.//", " ", "a b/c",
];

#[test]
fn components_agree_with_std() {
    for s in SAMPLES {
        assert_eq!(our_components(s), std_components(s), "components of {:?}", s);
    }
}

#[test]
fn file_name_agrees_with_std() {
    for s in SAMPLES {
        let ours = file_name(s.as_bytes()).map(|n| String::from_utf8(n).unwrap());
        let theirs = Path::new(s).file_name().map(|n| n.to_str().unwrap().to_string());
        assert_eq!(ours, theirs, "file name of {:?}", s);
    }
}

#[test]
fn is_absolute_and_parent_dir_agree_with_std() {
    for s in SAMPLES {
        assert_eq!(is_absolute(s.as_bytes()), Path::new(s).is_absolute(), "{:?}", s);
        let parent = Path::new(s).components().any(|c| matches!(c, StdComponent::ParentDir));
        assert_eq!(has_parent_dir(s.as_bytes()), parent, "{:?}", s);
    }
}

#[test]
fn starts_with_agrees_with_std() {
    for a in SAMPLES {
        for b in SAMPLES {
            assert_eq!(
                starts_with(a.as_bytes(), b.as_bytes()),
                Path::new(a).starts_with(b),
                "{:?} starts with {:?}",
                a,
                b
            );
        }
    }
}

#[test]
fn push_agrees_with_std() {
    for a in SAMPLES {
        for b in SAMPLES {
            let mut expected = PathBuf::from(a);
            expected.push(b);
            let ours = String::from_utf8(push_path(a.as_bytes(), b.as_bytes())).unwrap();
            assert_eq!(ours, expected.to_str().unwrap(), "push {:?} onto {:?}", b, a);
        }
    }
}

#[test]
fn starts_with_by_whole_components() {
    assert!(starts_with(b"/srv/files/a.txt", b"/srv/files"));
    assert!(starts_with(b"/srv/files", b"/srv/files/"));
    assert!(!starts_with(b"/srv/files2/a.txt", b"/srv/files"));
    assert!(!starts_with(b"/srv", b"/srv/files"));
}

#[test]
fn file_name_strips_directories_and_refuses_parent() {
    assert_eq!(file_name(b"../../etc/passwd"), Some(b"passwd".to_vec()));
    assert_eq!(file_name(b"a/.."), None);
    assert_eq!(file_name(b""), None);
    assert_eq!(file_name(b"/"), None);
    assert_eq!(file_name(b"dir/file.txt/"), Some(b"file.txt".to_vec()));
}

#[test]
fn push_path_examples() {
    assert_eq!(push_path(b"/srv", b"a.txt"), b"/srv/a.txt".to_vec());
    assert_eq!(push_path(b"/srv/", b"a.txt"), b"/srv/a.txt".to_vec());
    assert_eq!(push_path(b"", b"a.txt"), b"a.txt".to_vec());
    assert_eq!(push_path(b"/srv", b"/etc"), b"/etc".to_vec());
}
