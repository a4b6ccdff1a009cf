use rviv::gallery::{
    collect_images, directory_scan, has_image_extension, input_paths, sibling_scan, sort_images,
    Entry, Gallery, Input, NoImages,
};
use rviv::path::{Component, FilePath};

fn path(text: &str) -> FilePath {
    let mut components = Vec::new();
    if text.starts_with('/') {
        components.push(Component::RootDir);
    }
    for part in text.split('/') {
        match part {
            "" => {}
            "." => components.push(Component::CurDir),
            ".." => components.push(Component::ParentDir),
            name => components.push(Component::Normal(name.as_bytes().to_vec())),
        }
    }
    FilePath { components }
}

fn text_of(path: &FilePath) -> String {
    let mut text = String::new();
    for component in &path.components {
        match component {
            Component::RootDir => {}
            Component::CurDir => text.push('.'),
            Component::ParentDir => text.push_str(".."),
            Component::Normal(name) => {
                text.push('/');
                text.push_str(std::str::from_utf8(name).unwrap());
            }
        }
    }
    text
}

fn texts_of(paths: &[FilePath]) -> Vec<String> {
    paths.iter().map(text_of).collect()
}

fn file(text: &str) -> Entry {
    Entry { is_file: true, path: path(text) }
}

fn directory(text: &str) -> Entry {
    Entry { is_file: false, path: path(text) }
}

#[test]
fn all_known_extensions_are_images() {
    for extension in ["jpg", "jpeg", "png", "gif", "bmp", "webp", "tiff", "ico"] {
        assert!(has_image_extension(&path(&format!("/p/x.{}", extension))));
        assert!(has_image_extension(&path(&format!("/p/x.{}", extension.to_uppercase()))));
    }
    assert!(has_image_extension(&path("/p/x.JpEg")));
}

#[test]
fn other_extensions_are_not_images() {
    for name in ["x", "x.", ".png", "x.pn", "x.pngg", "x.txt", "x.tif", "x.png/y", "png", "x.p\u{f1}g"] {
        assert!(!has_image_extension(&path(name)), "{}", name);
    }
    let odd = FilePath { components: vec![Component::Normal(vec![120, 46, 0xff, 0xfe])] };
    assert!(!has_image_extension(&odd));
}

#[test]
fn without_arguments_the_current_directory_is_looked_at() {
    let here = input_paths(Vec::new());
    assert_eq!(here.len(), 1);
    assert!(here[0].same(&path(".")));
    let given = input_paths(vec![path("/a"), path("/b")]);
    assert_eq!(texts_of(&given), vec!["/a", "/b"]);
}

#[test]
fn directories_are_searched_as_deep_as_wanted() {
    let deep = directory_scan(&path("/a"), true);
    assert_eq!(deep.max_depth, None);
    assert!(deep.root.same(&path("/a")));
    assert_eq!(directory_scan(&path("/a"), false).max_depth, Some(1));
}

#[test]
fn a_file_brings_its_directory() {
    let scan = sibling_scan(&path("/a/b.png"));
    assert!(scan.root.same(&path("/a")));
    assert_eq!(scan.max_depth, Some(1));
    assert!(sibling_scan(&path("/")).root.same(&path(".")));
    assert!(sibling_scan(&path("b.png")).root.same(&path("")));
}

#[test]
fn images_are_collected_once_and_in_order() {
    let inputs = vec![
        Input::File {
            path: path("/p/c.png"),
            siblings: vec![file("/p/b.jpg"), file("/p/c.png"), file("/p/n.txt"), directory("/p/d.png")],
        },
        Input::Directory { entries: vec![directory("/q"), file("/q/a.gif"), file("/p/b.jpg")] },
    ];
    assert_eq!(texts_of(&collect_images(&inputs)), vec!["/p/c.png", "/p/b.jpg", "/q/a.gif"]);
}

#[test]
fn a_named_file_that_is_no_image_brings_only_its_siblings() {
    let inputs = vec![Input::File {
        path: path("/p/notes.txt"),
        siblings: vec![file("/p/notes.txt"), file("/p/a.png")],
    }];
    let gallery = Gallery::open(&inputs, false, &path("/p/notes.txt")).unwrap();
    assert_eq!(texts_of(&gallery.images), vec!["/p/a.png"]);
    assert_eq!(gallery.start, 0);
}

#[test]
fn the_gallery_starts_with_the_first_argument() {
    let inputs = vec![Input::File {
        path: path("/p/c.png"),
        siblings: vec![file("/p/b.png"), file("/p/a.png"), file("/p/c.png")],
    }];
    let unsorted = Gallery::open(&inputs, false, &path("/p/c.png")).unwrap();
    assert_eq!(texts_of(&unsorted.images), vec!["/p/c.png", "/p/b.png", "/p/a.png"]);
    assert_eq!(unsorted.start, 0);
    let sorted = Gallery::open(&inputs, true, &path("/p/c.png")).unwrap();
    assert_eq!(texts_of(&sorted.images), vec!["/p/a.png", "/p/b.png", "/p/c.png"]);
    assert_eq!(sorted.start, 2);
}

#[test]
fn without_images_there_is_no_gallery() {
    let inputs = vec![Input::Directory { entries: vec![file("/p/a.txt"), directory("/p/b.png")] }];
    assert_eq!(Gallery::open(&inputs, true, &path("/p")).unwrap_err(), NoImages);
    assert_eq!(Gallery::open(&Vec::new(), false, &path(".")).unwrap_err(), NoImages);
}

#[test]
fn sorting_is_by_components() {
    let mut images = vec![
        path("/p/b.png"),
        path("/p/a/z.png"),
        path("/p/a.png"),
        path("/p/B.png"),
        path("/p/a-1.png"),
        path("/p/a/b.png"),
    ];
    let mut expected: Vec<std::path::PathBuf> =
        images.iter().map(|p| std::path::PathBuf::from(text_of(p))).collect();
    expected.sort();
    sort_images(&mut images);
    let sorted: Vec<std::path::PathBuf> =
        images.iter().map(|p| std::path::PathBuf::from(text_of(p))).collect();
    assert_eq!(sorted, expected);
}

#[test]
fn a_sorted_gallery_does_not_depend_on_the_order_of_what_was_found() {
    let one = vec![Input::Directory { entries: vec![file("/p/a.png"), file("/p/b.png"), file("/p/c.png")] }];
    let other = vec![Input::Directory { entries: vec![file("/p/c.png"), file("/p/a.png"), file("/p/b.png")] }];
    let a = Gallery::open(&one, true, &path("/p")).unwrap();
    let b = Gallery::open(&other, true, &path("/p")).unwrap();
    assert_eq!(texts_of(&a.images), texts_of(&b.images));
}
