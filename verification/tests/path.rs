use rviv::path::{Component, FilePath};

fn path(text: &str) -> FilePath {
    let mut components = Vec::new();
    if text.starts_with('/') {
        components.push(Component::RootDir);
    }
    for part in text.split('/') {
        match part {
            "" => {}
            "." => components.push(Component::CurDir),
            ".." => components.push(Component::ParentDir),
            name => components.push(Component::Normal(name.as_bytes().to_vec())),
        }
    }
    FilePath { components }
}

fn extension(text: &str) -> Option<String> {
    path(text).extension().map(|e| String::from_utf8(e).unwrap())
}

#[test]
fn extensions_are_what_follows_the_last_dot() {
    assert_eq!(extension("/a/b.png"), Some("png".to_string()));
    assert_eq!(extension("b.tar.gz"), Some("gz".to_string()));
    assert_eq!(extension("b."), Some("".to_string()));
    assert_eq!(extension("b"), None);
    assert_eq!(extension(".png"), None);
    assert_eq!(extension(".a.png"), Some("png".to_string()));
    assert_eq!(extension("a.png/.."), None);
    assert_eq!(extension("/"), None);
    assert_eq!(extension(""), None);
}

#[test]
fn extensions_agree_with_the_standard_library() {
    for text in ["a.b", "a", ".a", "a.", "a..b", "..b", ".a.b", "x/y.z", "x.y/z", "/", "", ".."] {
        let expected = std::path::Path::new(text)
            .extension()
            .map(|e| e.to_str().unwrap().to_string());
        assert_eq!(extension(text), expected, "{}", text);
    }
}

#[test]
fn parents_are_without_the_last_component() {
    assert!(path("/a/b").parent().unwrap().same(&path("/a")));
    assert!(path("/a").parent().unwrap().same(&path("/")));
    assert!(path("a").parent().unwrap().same(&path("")));
    assert!(path("/").parent().is_none());
    assert!(path("").parent().is_none());
}

#[test]
fn paths_are_the_same_component_by_component() {
    assert!(path("/a/b").same(&path("/a//b")));
    assert!(!path("/a/b").same(&path("a/b")));
    assert!(!path("/a/b").same(&path("/a")));
    assert!(!path("/a/b").same(&path("/a/B")));
    assert!(path("/a/../b").duplicate().same(&path("/a/../b")));
    assert!(FilePath::current_dir().same(&path(".")));
}

#[test]
fn paths_are_ordered_as_in_the_standard_library() {
    let texts = [
        "", "/", ".", "..", "a", "b", "a/b", "a/c", "a.b", "a-b", "ab", "/a", "/a/b", "/ab", "../a",
        "./a", "A", "aa/b",
    ];
    for a in texts {
        for b in texts {
            let expected = std::path::Path::new(a) < std::path::Path::new(b);
            assert_eq!(path(a).precedes(&path(b)), expected, "{:?} {:?}", a, b);
        }
    }
}

#[test]
fn the_order_of_paths_is_total() {
    let texts = ["/x/a.png", "/x/b.png", "/x", "/x/a/z.png", "/x/aa.png"];
    for a in texts {
        for b in texts {
            let (p, q) = (path(a), path(b));
            let holding = [p.precedes(&q), p.same(&q), q.precedes(&p)];
            assert_eq!(holding.iter().filter(|&&h| h).count(), 1);
        }
    }
}

#[test]
fn components_are_ordered_by_kind_and_name() {
    let name = |text: &str| Component::Normal(text.as_bytes().to_vec());
    let kinds = [
        Component::RootDir,
        Component::CurDir,
        Component::ParentDir,
        name("A"),
        name("a"),
        name("ab"),
    ];
    for (i, a) in kinds.iter().enumerate() {
        for (j, b) in kinds.iter().enumerate() {
            assert_eq!(a.precedes(b), i < j);
            assert_eq!(a.same(b), i == j);
        }
        assert!(a.duplicate().same(a));
    }
}
