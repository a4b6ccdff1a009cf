//! Which images are shown, in which order, and with which one the viewer starts.

use vstd::prelude::*;
use vstd::string::*;

use crate::path::{
    extension, law_extension_follows_the_last_dot, law_files_of_a_directory_are_ordered_by_name,
    law_other_paths_have_no_extension, law_path_order_is_total, parent, path_less, paths, FilePath, Part,
};

verus! {

/// Something that was found in a directory.
#[derive(Debug)]
pub struct Entry {
    pub is_file: bool,
    pub path: FilePath,
}

/// What was found for one argument: the entries of a directory, or a file with the entries of the
/// directory that holds it.
#[derive(Debug)]
pub enum Input {
    Directory { entries: Vec<Entry> },
    File { path: FilePath, siblings: Vec<Entry> },
}

/// A directory to search, and how deep; without a depth, all of it.
#[derive(Debug)]
pub struct Scan {
    pub root: FilePath,
    pub max_depth: Option<usize>,
}

/// A byte with upper case ASCII letters made lower case.
pub open spec fn lower(byte: u8) -> u8 {
    if 65 <= byte <= 90 {
        (byte + 32) as u8
    } else {
        byte
    }
}

/// The bytes spell the word, in upper or lower case letters.
pub open spec fn spells(text: Seq<u8>, word: Seq<char>) -> bool {
    &&& text.len() == word.len()
    &&& forall|i: int| 0 <= i < text.len() ==> lower(#[trigger] text[i]) as char == word[i]
}

/// The extensions of the image formats that the viewer knows.
pub open spec fn is_image_extension(text: Seq<u8>) -> bool {
    ||| spells(text, "jpg"@)
    ||| spells(text, "jpeg"@)
    ||| spells(text, "png"@)
    ||| spells(text, "gif"@)
    ||| spells(text, "bmp"@)
    ||| spells(text, "webp"@)
    ||| spells(text, "tiff"@)
    ||| spells(text, "ico"@)
}

/// The path has the extension of an image.
pub open spec fn is_image(path: Seq<Part>) -> bool {
    extension(path) matches Some(text) && is_image_extension(text)
}

fn text_spells(text: &Vec<u8>, word: &str) -> (r: bool)
    ensures
        r == spells(text@, word@),
{
    if text.len() != word.unicode_len() {
        return false;
    }
    let mut i: usize = 0;
    while i < text.len()
        invariant
            i <= text@.len() == word@.len(),
            forall|j: int| 0 <= j < i ==> lower(#[trigger] text@[j]) as char == word@[j],
        decreases text@.len() - i,
    {
        let byte: u8 = text[i];
        let small: u8 = if 65 <= byte && byte <= 90 {
            byte + 32
        } else {
            byte
        };
        if small as char != word.get_char(i) {
            assert(lower(text@[i as int]) as char != word@[i as int]);
            return false;
        }
        i = i + 1;
    }
    true
}

/// Whether the path has the extension of an image that the viewer knows.
pub fn has_image_extension(path: &FilePath) -> (r: bool)
    ensures
        r == is_image(path@),
{
    match path.extension() {
        Some(text) => {
            text_spells(&text, "jpg") || text_spells(&text, "jpeg") || text_spells(&text, "png")
                || text_spells(&text, "gif") || text_spells(&text, "bmp") || text_spells(
                &text,
                "webp",
            ) || text_spells(&text, "tiff") || text_spells(&text, "ico")
        },
        None => false,
    }
}

/// The paths to look at: the arguments, or the current directory where there are none.
pub fn input_paths(arguments: Vec<FilePath>) -> (inputs: Vec<FilePath>)
    ensures
        arguments@.len() > 0 ==> inputs@ == arguments@,
        arguments@.len() == 0 ==> paths(inputs@) == seq![seq![Part::CurDir]],
{
    if arguments.is_empty() {
        let here: FilePath = FilePath::current_dir();
        let inputs: Vec<FilePath> = vec![here];
        assert(paths(inputs@) =~= seq![seq![Part::CurDir]]);
        inputs
    } else {
        arguments
    }
}

/// How a directory is searched: all of it, or only what lies directly in it.
pub fn directory_scan(path: &FilePath, recursive: bool) -> (scan: Scan)
    ensures
        scan.root@ == path@,
        scan.max_depth == (if recursive {
            None::<usize>
        } else {
            Some(1usize)
        }),
{
    Scan {
        root: path.duplicate(),
        max_depth: if recursive {
            None
        } else {
            Some(1)
        },
    }
}

/// How the surroundings of a file are searched: what lies directly in its directory.
pub fn sibling_scan(path: &FilePath) -> (scan: Scan)
    ensures
        scan.root@ == (match parent(path@) {
            Some(dir) => dir,
            None => seq![Part::CurDir],
        }),
        scan.max_depth == Some(1usize),
{
    let root: FilePath = match path.parent() {
        Some(dir) => dir,
        None => FilePath::current_dir(),
    };
    Scan { root, max_depth: Some(1) }
}

/// The paths of the files among the entries.
pub open spec fn files(entries: Seq<Entry>) -> Seq<Seq<Part>>
    decreases entries.len(),
{
    if entries.len() == 0 {
        Seq::empty()
    } else if entries.last().is_file {
        files(entries.drop_last()).push(entries.last().path@)
    } else {
        files(entries.drop_last())
    }
}

/// The files that one argument brings, in the order in which they are looked at.
pub open spec fn candidates_of(input: Input) -> Seq<Seq<Part>> {
    match input {
        Input::Directory { entries } => files(entries@),
        Input::File { path, siblings } => seq![path@] + files(siblings@),
    }
}

/// The files that the arguments bring.
pub open spec fn candidates(inputs: Seq<Input>) -> Seq<Seq<Part>>
    decreases inputs.len(),
{
    if inputs.len() == 0 {
        Seq::empty()
    } else {
        candidates(inputs.drop_last()) + candidates_of(inputs.last())
    }
}

/// The list with one more path, if that is an image and not in the list yet.
pub open spec fn with_path(list: Seq<Seq<Part>>, path: Seq<Part>) -> Seq<Seq<Part>> {
    if is_image(path) && !list.contains(path) {
        list.push(path)
    } else {
        list
    }
}

/// The list with each of the paths, one after the other.
pub open spec fn with_paths(list: Seq<Seq<Part>>, more: Seq<Seq<Part>>) -> Seq<Seq<Part>>
    decreases more.len(),
{
    if more.len() == 0 {
        list
    } else {
        with_path(with_paths(list, more.drop_last()), more.last())
    }
}

/// The images among the paths, each once, in the order in which they first occur.
pub open spec fn distinct_images(found: Seq<Seq<Part>>) -> Seq<Seq<Part>> {
    with_paths(Seq::empty(), found)
}

proof fn lemma_with_paths_joined(list: Seq<Seq<Part>>, a: Seq<Seq<Part>>, b: Seq<Seq<Part>>)
    ensures
        with_paths(list, a + b) == with_paths(with_paths(list, a), b),
    decreases b.len(),
{
    if b.len() == 0 {
        assert(a + b =~= a);
    } else {
        lemma_with_paths_joined(list, a, b.drop_last());
        assert((a + b).drop_last() =~= a + b.drop_last());
    }
}

/// Whether the path is in the list.
fn list_contains(list: &Vec<FilePath>, path: &FilePath) -> (r: bool)
    ensures
        r == paths(list@).contains(path@),
{
    position(list, path).is_some()
}

/// Where the path first is in the list.
fn position(list: &Vec<FilePath>, path: &FilePath) -> (found: Option<usize>)
    ensures
        match found {
            Some(i) => {
                &&& i < list@.len()
                &&& list@[i as int]@ == path@
                &&& forall|j: int| 0 <= j < i ==> list@[j]@ != path@
                &&& paths(list@).contains(path@)
            },
            None => !paths(list@).contains(path@),
        },
{
    let mut i: usize = 0;
    while i < list.len()
        invariant
            i <= list@.len(),
            forall|j: int| 0 <= j < i ==> list@[j]@ != path@,
        decreases list@.len() - i,
    {
        if list[i].same(path) {
            assert(paths(list@)[i as int] == path@);
            return Some(i);
        }
        i = i + 1;
    }
    assert forall|j: int| 0 <= j < list@.len() implies paths(list@)[j] != path@ by {}
    None
}

fn add_path(list: &mut Vec<FilePath>, path: &FilePath)
    ensures
        paths(final(list)@) == with_path(paths(old(list)@), path@),
{
    if has_image_extension(path) && !list_contains(list, path) {
        let copy: FilePath = path.duplicate();
        list.push(copy);
        assert(paths(list@) =~= paths(old(list)@).push(path@));
    }
}

fn add_files(list: &mut Vec<FilePath>, entries: &Vec<Entry>)
    ensures
        paths(final(list)@) == with_paths(paths(old(list)@), files(entries@)),
{
    let mut i: usize = 0;
    assert(entries@.take(0) =~= Seq::empty());
    while i < entries.len()
        invariant
            i <= entries@.len(),
            paths(list@) == with_paths(paths(old(list)@), files(entries@.take(i as int))),
        decreases entries@.len() - i,
    {
        proof {
            let seen = files(entries@.take(i as int));
            let entry = entries@[i as int];
            assert(entries@.take(i + 1).drop_last() =~= entries@.take(i as int));
            assert(entries@.take(i + 1).last() == entry);
            assert(seen.push(entry.path@).drop_last() =~= seen);
        }
        if entries[i].is_file {
            add_path(list, &entries[i].path);
        }
        i = i + 1;
    }
    assert(entries@.take(i as int) =~= entries@);
}

/// The images that the arguments bring, each once, in the order in which they are found.
pub fn collect_images(inputs: &Vec<Input>) -> (images: Vec<FilePath>)
    ensures
        paths(images@) == distinct_images(candidates(inputs@)),
{
    let mut images: Vec<FilePath> = Vec::new();
    let mut i: usize = 0;
    assert(inputs@.take(0) =~= Seq::empty());
    assert(paths(images@) =~= Seq::empty());
    while i < inputs.len()
        invariant
            i <= inputs@.len(),
            paths(images@) == distinct_images(candidates(inputs@.take(i as int))),
        decreases inputs@.len() - i,
    {
        proof {
            assert(inputs@.take(i + 1).drop_last() =~= inputs@.take(i as int));
            lemma_with_paths_joined(
                Seq::empty(),
                candidates(inputs@.take(i as int)),
                candidates_of(inputs@[i as int]),
            );
        }
        match &inputs[i] {
            Input::Directory { entries } => add_files(&mut images, entries),
            Input::File { path, siblings } => {
                proof {
                    let one = seq![path@];
                    lemma_with_paths_joined(paths(images@), one, files(siblings@));
                    assert(one.drop_last() =~= Seq::empty());
                    assert(with_paths(paths(images@), one.drop_last()) == paths(images@));
                }
                add_path(&mut images, path);
                add_files(&mut images, siblings);
            },
        }
        i = i + 1;
    }
    assert(inputs@.take(i as int) =~= inputs@);
    images
}

/// No path comes before one that stands further ahead.
pub open spec fn is_sorted(list: Seq<Seq<Part>>) -> bool {
    forall|i: int, j: int| 0 <= i < j < list.len() ==> !path_less(list[j], list[i])
}

/// Where a path goes in a sorted list: behind those that come before it.
fn insertion_point(sorted: &Vec<FilePath>, path: &FilePath) -> (pos: usize)
    requires
        is_sorted(paths(sorted@)),
    ensures
        pos <= sorted@.len(),
        forall|k: int| 0 <= k < pos ==> path_less(#[trigger] paths(sorted@)[k], path@),
        forall|k: int|
            pos <= k < sorted@.len() ==> !path_less(#[trigger] paths(sorted@)[k], path@),
{
    let mut low: usize = 0;
    let mut high: usize = sorted.len();
    while low < high
        invariant
            low <= high <= sorted@.len(),
            is_sorted(paths(sorted@)),
            forall|k: int| 0 <= k < low ==> path_less(#[trigger] paths(sorted@)[k], path@),
            forall|k: int|
                high <= k < sorted@.len() ==> !path_less(#[trigger] paths(sorted@)[k], path@),
        decreases high - low,
    {
        let middle: usize = low + (high - low) / 2;
        let ghost list = paths(sorted@);
        assert(list[middle as int] == sorted@[middle as int]@);
        if sorted[middle].precedes(path) {
            proof {
                assert forall|k: int| 0 <= k < middle + 1 implies path_less(
                    #[trigger] list[k],
                    path@,
                ) by {
                    let m = list[middle as int];
                    if k < middle {
                        law_path_order_is_total(list[k], m, path@);
                        assert(!path_less(m, list[k]));
                    }
                }
            }
            low = middle + 1;
        } else {
            proof {
                assert forall|k: int| middle <= k < sorted@.len() implies !path_less(
                    #[trigger] list[k],
                    path@,
                ) by {
                    let m = list[middle as int];
                    if k > middle {
                        law_path_order_is_total(m, list[k], path@);
                        assert(!path_less(list[k], m));
                    }
                }
            }
            high = middle;
        }
    }
    low
}

/// Sorts the paths.
pub fn sort_images(images: &mut Vec<FilePath>)
    ensures
        is_sorted(paths(final(images)@)),
        paths(final(images)@).to_multiset() == paths(old(images)@).to_multiset(),
{
    broadcast use vstd::seq_lib::group_to_multiset_ensures;

    let mut sorted: Vec<FilePath> = Vec::new();
    assert(paths(sorted@).to_multiset().add(paths(images@).to_multiset()) =~= paths(
        images@,
    ).to_multiset());
    while images.len() > 0
        invariant
            is_sorted(paths(sorted@)),
            paths(sorted@).to_multiset().add(paths(images@).to_multiset()) == paths(
                old(images)@,
            ).to_multiset(),
        decreases images@.len(),
    {
        let ghost before = paths(images@);
        let ghost list = paths(sorted@);
        if let Some(path) = images.pop() {
            assert(paths(images@) =~= before.drop_last());
            assert(before =~= before.drop_last().push(path@));
            let pos: usize = insertion_point(&sorted, &path);
            proof {
                assert forall|k: int| 0 <= k < pos implies !path_less(path@, #[trigger] list[k]) by {
                    law_path_order_is_total(list[k], path@, path@);
                }
                law_path_order_is_total(path@, path@, path@);
            }
            let ghost value = path@;
            sorted.insert(pos, path);
            assert(paths(sorted@) =~= list.insert(pos as int, value));
            assert(is_sorted(paths(sorted@)));
            proof {
                vstd::seq_lib::to_multiset_insert(list, pos as int, value);
                vstd::seq_lib::to_multiset_build(before.drop_last(), value);
            }
            assert(paths(sorted@).to_multiset().add(paths(images@).to_multiset())
                =~= list.to_multiset().add(before.to_multiset()));
        }
    }
    assert(paths(sorted@).to_multiset().add(paths(images@).to_multiset()) =~= paths(
        sorted@,
    ).to_multiset());
    *images = sorted;
}

/// The images of a viewer and the number of the one that it starts with.
#[derive(Debug)]
pub struct Gallery {
    pub images: Vec<FilePath>,
    pub start: usize,
}

/// There is nothing to show.
#[derive(Clone, Copy, Debug, PartialEq, Eq, Structural)]
pub struct NoImages;

/// The number of the path in the list, or else zero.
pub open spec fn start_number(list: Seq<Seq<Part>>, first: Seq<Part>) -> int {
    match list.index_of_first(first) {
        Some(i) => i,
        None => 0,
    }
}

impl Gallery {
    /// The gallery of what was found, sorted if that is wanted. It starts with `first`, the path of
    /// the first argument, where that is one of the images.
    pub fn open(inputs: &Vec<Input>, sort: bool, first: &FilePath) -> (r: Result<
        Gallery,
        NoImages,
    >)
        ensures
            r is Err <==> distinct_images(candidates(inputs@)).len() == 0,
            match r {
                Ok(gallery) => {
                    let found = distinct_images(candidates(inputs@));
                    let shown = paths(gallery.images@);
                    &&& gallery.start < gallery.images@.len()
                    &&& gallery.start == start_number(shown, first@)
                    &&& shown.to_multiset() == found.to_multiset()
                    &&& if sort {
                        is_sorted(shown)
                    } else {
                        shown == found
                    }
                },
                Err(_) => true,
            },
    {
        let mut images: Vec<FilePath> = collect_images(inputs);
        if sort {
            sort_images(&mut images);
        }
        proof {
            vstd::seq_lib::to_multiset_len(paths(images@));
            vstd::seq_lib::to_multiset_len(distinct_images(candidates(inputs@)));
            paths(images@).index_of_first_ensures(first@);
        }
        if images.is_empty() {
            return Err(NoImages);
        }
        let start: usize = match position(&images, first) {
            Some(i) => {
                assert(paths(images@)[i as int] == first@);
                i
            },
            None => 0,
        };
        Ok(Gallery { images, start })
    }
}

/// Every image of the gallery is there once: `distinct_images` holds no path twice, holds exactly
/// those of the paths that are images, and keeps the order in which they first occur.
pub proof fn law_distinct_images(found: Seq<Seq<Part>>)
    ensures
        distinct_images(found).no_duplicates(),
        forall|p: Seq<Part>|
            #![trigger distinct_images(found).contains(p)]
            #![trigger found.contains(p)]
            distinct_images(found).contains(p) <==> found.contains(p) && is_image(p),
        forall|i: int, j: int|
            0 <= i < j < distinct_images(found).len() ==> (#[trigger] found.index_of_first(
                distinct_images(found)[i],
            ))->0 < (#[trigger] found.index_of_first(distinct_images(found)[j]))->0,
    decreases found.len(),
{
    if found.len() > 0 {
        let before = found.drop_last();
        let path = found.last();
        let prior = distinct_images(before);
        let list = distinct_images(found);
        let is_new = is_image(path) && !prior.contains(path);
        law_distinct_images(before);
        assert(list == (if is_new {
            prior.push(path)
        } else {
            prior
        }));
        assert forall|p: Seq<Part>|
            #![trigger list.contains(p)]
            #![trigger found.contains(p)]
            list.contains(p) <==> found.contains(p) && is_image(p) by {
            assert(prior.contains(p) <==> before.contains(p) && is_image(p));
            if found.contains(p) {
                let i = found.index_of(p);
                if p != path {
                    assert(before[i] == p);
                }
            }
            if before.contains(p) {
                assert(found[before.index_of(p)] == p);
            }
            assert(found[found.len() - 1] == path);
            if is_new {
                assert(list[prior.len() as int] == path);
                if prior.contains(p) {
                    assert(list[prior.index_of(p)] == p);
                }
                if list.contains(p) && p != path {
                    assert(prior[list.index_of(p)] == p);
                }
            }
        }
        assert forall|p: Seq<Part>| before.contains(p) implies found.index_of_first(p)
            == before.index_of_first(p) by {
            before.index_of_first_ensures(p);
            found.index_of_first_ensures(p);
            let a = before.index_of_first(p)->0;
            assert(found[a] == p);
            assert(found.contains(p));
            let b = found.index_of_first(p)->0;
            assert(before[b] == p);
        }
        assert forall|i: int, j: int| 0 <= i < j < list.len() implies (
        #[trigger] found.index_of_first(list[i]))->0 < (#[trigger] found.index_of_first(
            list[j],
        ))->0 by {
            assert(prior[i] == list[i]);
            assert(prior.contains(list[i]));
            assert(before.contains(list[i]));
            before.index_of_first_ensures(list[i]);
            if j < prior.len() {
                assert(prior[j] == list[j]);
                assert(prior.contains(list[j]));
                assert(before.contains(list[j]));
                assert(before.index_of_first(prior[i])->0 < before.index_of_first(prior[j])->0);
            } else {
                assert(list[j] == path);
                assert(prior.contains(path) <==> before.contains(path) && is_image(path));
                assert(!before.contains(path));
                assert(found[found.len() - 1] == path);
                found.index_of_first_ensures(path);
                let b = found.index_of_first(path)->0;
                if b < before.len() {
                    assert(before[b] == path);
                }
            }
        }
    }
}

/// A sorted gallery is in strictly ascending order, and any other gallery of the same images in
/// ascending order is the same.
pub proof fn law_sorted_gallery_is_unique(
    found: Seq<Seq<Part>>,
    a: Seq<Seq<Part>>,
    b: Seq<Seq<Part>>,
)
    requires
        is_sorted(a),
        is_sorted(b),
        a.to_multiset() == distinct_images(found).to_multiset(),
        b.to_multiset() == distinct_images(found).to_multiset(),
    ensures
        forall|i: int, j: int| 0 <= i < j < a.len() ==> path_less(a[i], a[j]),
        a == b,
{
    let list = distinct_images(found);
    law_distinct_images(found);
    list.lemma_multiset_has_no_duplicates();
    a.lemma_multiset_has_no_duplicates_conv();
    assert forall|i: int, j: int| 0 <= i < j < a.len() implies path_less(a[i], a[j]) by {
        law_path_order_is_total(a[i], a[j], a[j]);
    }
    let leq = |x: Seq<Part>, y: Seq<Part>| !path_less(y, x);
    assert(vstd::relations::total_ordering(leq)) by {
        assert forall|x: Seq<Part>| #[trigger] leq(x, x) by {
            law_path_order_is_total(x, x, x);
        }
        assert forall|x: Seq<Part>, y: Seq<Part>| #[trigger] leq(x, y) && #[trigger] leq(
            y,
            x,
        ) implies x == y by {
            law_path_order_is_total(x, y, y);
        }
        assert forall|x: Seq<Part>, y: Seq<Part>, z: Seq<Part>| #[trigger] leq(x, y)
            && #[trigger] leq(y, z) implies leq(x, z) by {
            law_path_order_is_total(z, x, y);
            law_path_order_is_total(y, z, x);
            law_path_order_is_total(x, y, z);
        }
        assert forall|x: Seq<Part>, y: Seq<Part>| #[trigger] leq(x, y) || leq(y, x) by {
            law_path_order_is_total(x, y, y);
        }
    }
    vstd::seq_lib::lemma_sorted_unique(a, b, leq);
}

/// The images are the files with these extensions, in letters of either case: jpg, jpeg, png, gif,
/// bmp, webp, tiff and ico, and no others.
pub proof fn law_known_extensions(text: Seq<u8>)
    ensures
        is_image_extension(text) <==> exists|word: Seq<u8>|
            {
                &&& {
                    ||| word == seq![106u8, 112, 103]
                    ||| word == seq![106u8, 112, 101, 103]
                    ||| word == seq![112u8, 110, 103]
                    ||| word == seq![103u8, 105, 102]
                    ||| word == seq![98u8, 109, 112]
                    ||| word == seq![119u8, 101, 98, 112]
                    ||| word == seq![116u8, 105, 102, 102]
                    ||| word == seq![105u8, 99, 111]
                }
                &&& #[trigger] word.len() == text.len()
                &&& forall|i: int|
                    0 <= i < text.len() ==> #[trigger] text[i] == word[i] || text[i] + 32
                        == word[i]
            },
{
    reveal_strlit("jpg");
    reveal_strlit("jpeg");
    reveal_strlit("png");
    reveal_strlit("gif");
    reveal_strlit("bmp");
    reveal_strlit("webp");
    reveal_strlit("tiff");
    reveal_strlit("ico");
    lemma_spells(text, "jpg"@, seq![106u8, 112, 103]);
    lemma_spells(text, "jpeg"@, seq![106u8, 112, 101, 103]);
    lemma_spells(text, "png"@, seq![112u8, 110, 103]);
    lemma_spells(text, "gif"@, seq![103u8, 105, 102]);
    lemma_spells(text, "bmp"@, seq![98u8, 109, 112]);
    lemma_spells(text, "webp"@, seq![119u8, 101, 98, 112]);
    lemma_spells(text, "tiff"@, seq![116u8, 105, 102, 102]);
    lemma_spells(text, "ico"@, seq![105u8, 99, 111]);
}

/// To spell a word of small letters is to have its length, and each of its letters, small or
/// capital.
proof fn lemma_spells(text: Seq<u8>, word: Seq<char>, letters: Seq<u8>)
    requires
        word.len() == letters.len(),
        forall|i: int|
            0 <= i < word.len() ==> 97 <= #[trigger] letters[i] <= 122 && word[i]
                == letters[i] as char,
    ensures
        spells(text, word) <==> {
            &&& letters.len() == text.len()
            &&& forall|i: int|
                0 <= i < text.len() ==> #[trigger] text[i] == letters[i] || text[i] + 32
                    == letters[i]
        },
{
}

/// A path brings an image into the gallery exactly if its extension is a known one.
pub proof fn law_images_have_known_extensions(dir: Seq<Part>, stem: Seq<u8>, text: Seq<u8>)
    requires
        stem.len() > 0,
        forall|j: int| 0 <= j < text.len() ==> text[j] != 46,
    ensures
        is_image(dir.push(Part::Normal(stem + seq![46u8] + text))) <==> is_image_extension(text),
{
    law_extension_follows_the_last_dot(dir, stem, text);
}

/// The files of two series of entries are those of the first and then those of the second. An entry
/// that is a file is one of them, and another one is not.
pub proof fn law_files_keep_their_order(a: Seq<Entry>, b: Seq<Entry>, entry: Entry)
    ensures
        files(a + b) == files(a) + files(b),
        entry.is_file ==> files(seq![entry]) == seq![entry.path@],
        !entry.is_file ==> files(seq![entry]) == Seq::<Seq<Part>>::empty(),
        files(Seq::<Entry>::empty()) == Seq::<Seq<Part>>::empty(),
    decreases b.len(),
{
    let one = seq![entry];
    assert(one.drop_last() =~= Seq::empty());
    assert(files(one.drop_last()) =~= Seq::empty());
    assert(files(one) =~= if entry.is_file {
        seq![entry.path@]
    } else {
        Seq::empty()
    });
    if b.len() == 0 {
        assert(a + b =~= a);
        assert(files(a) + files(b) =~= files(a));
    } else {
        law_files_keep_their_order(a, b.drop_last(), entry);
        assert((a + b).drop_last() =~= a + b.drop_last());
        assert(files(a + b) =~= files(a) + files(b));
    }
}

/// The arguments are looked at in their order. A directory brings its files; a file brings itself
/// first, and then the files around it.
pub proof fn law_arguments_keep_their_order(
    a: Seq<Input>,
    b: Seq<Input>,
    path: FilePath,
    entries: Vec<Entry>,
)
    ensures
        candidates(a + b) == candidates(a) + candidates(b),
        candidates(seq![Input::Directory { entries }]) == files(entries@),
        candidates(seq![Input::File { path, siblings: entries }]) == seq![path@] + files(entries@),
        candidates(Seq::<Input>::empty()) == Seq::<Seq<Part>>::empty(),
    decreases b.len(),
{
    let directory = seq![Input::Directory { entries }];
    let file = seq![Input::File { path, siblings: entries }];
    assert(directory.drop_last() =~= Seq::empty());
    assert(file.drop_last() =~= Seq::empty());
    assert(candidates(directory.drop_last()) =~= Seq::empty());
    assert(directory.last() == Input::Directory { entries });
    assert(file.last() == Input::File { path, siblings: entries });
    assert(candidates(directory) =~= files(entries@));
    assert(candidates(file) =~= seq![path@] + files(entries@));
    if b.len() == 0 {
        assert(a + b =~= a);
        assert(candidates(a) + candidates(b) =~= candidates(a));
    } else {
        law_arguments_keep_their_order(a, b.drop_last(), path, entries);
        assert((a + b).drop_last() =~= a + b.drop_last());
        assert(candidates(a + b) =~= candidates(a) + candidates(b));
    }
}

/// The gallery starts with the first argument wherever that is one of its images, and otherwise with
/// its first image.
pub proof fn law_gallery_starts_with_the_first_argument(list: Seq<Seq<Part>>, first: Seq<Part>)
    ensures
        list.contains(first) ==> 0 <= start_number(list, first) < list.len() && list[start_number(
            list,
            first,
        )] == first,
        list.contains(first) ==> forall|i: int|
            0 <= i < start_number(list, first) ==> list[i] != first,
        !list.contains(first) ==> start_number(list, first) == 0,
{
    list.index_of_first_ensures(first);
}

/// A list of files in one directory is sorted exactly if none comes after one with a greater name:
/// at the first byte in which two names differ, the one further ahead has the smaller byte.
pub proof fn law_sorted_files_are_in_ascending_order(
    list: Seq<Seq<Part>>,
    dir: Seq<Part>,
    p: int,
    q: int,
    a: Seq<u8>,
    b: Seq<u8>,
    i: int,
)
    requires
        is_sorted(list),
        0 <= p < q < list.len(),
        list[p] == dir.push(Part::Normal(a)),
        list[q] == dir.push(Part::Normal(b)),
        0 <= i < a.len(),
        i < b.len(),
        forall|j: int| 0 <= j < i ==> a[j] == b[j],
        a[i] != b[i],
    ensures
        a[i] < b[i],
{
    if a[i] > b[i] {
        law_files_of_a_directory_are_ordered_by_name(dir, b, a, i);
    }
}

/// A path without an extension brings no image: one whose name has no dot behind its first byte, or
/// one that does not end in a name.
pub proof fn law_other_paths_are_no_images(dir: Seq<Part>, name: Seq<u8>, part: Part)
    requires
        forall|j: int| 0 < j < name.len() ==> name[j] != 46,
        !(part is Normal),
    ensures
        !is_image(dir.push(Part::Normal(name))),
        !is_image(dir.push(part)),
        !is_image(Seq::empty()),
{
    law_other_paths_have_no_extension(dir, name, part);
}

/// One of the entries is a file with this path.
pub open spec fn lists_file(entries: Seq<Entry>, path: Seq<Part>) -> bool {
    exists|j: int|
        0 <= j < entries.len() && (#[trigger] entries[j]).is_file && entries[j].path@ == path
}

/// The files among the entries are found, and nothing else.
pub proof fn law_files_are_found(entries: Seq<Entry>, path: Seq<Part>)
    ensures
        files(entries).contains(path) <==> lists_file(entries, path),
    decreases entries.len(),
{
    if entries.len() > 0 {
        let before = entries.drop_last();
        let last = entries.last();
        law_files_are_found(before, path);
        if lists_file(before, path) {
            let j = choose|j: int|
                0 <= j < before.len() && (#[trigger] before[j]).is_file && before[j].path@ == path;
            assert(entries[j] == before[j]);
        }
        if lists_file(entries, path) {
            let j = choose|j: int|
                0 <= j < entries.len() && (#[trigger] entries[j]).is_file && entries[j].path@
                    == path;
            if j < before.len() {
                assert(before[j] == entries[j]);
            }
        }
        assert(entries[entries.len() - 1] == last);
        if last.is_file {
            let found = files(before);
            assert(files(entries) == found.push(last.path@));
            assert(found.push(last.path@)[found.len() as int] == last.path@);
            if found.contains(path) {
                assert(found.push(last.path@)[found.index_of(path)] == path);
            }
            if files(entries).contains(path) && path != last.path@ {
                assert(found[files(entries).index_of(path)] == path);
            }
        }
    }
}

/// The argument is this file, or a file in the directory that was searched for it.
pub open spec fn brings(input: Input, path: Seq<Part>) -> bool {
    match input {
        Input::Directory { entries } => lists_file(entries@, path),
        Input::File { path: own, siblings } => own@ == path || lists_file(siblings@, path),
    }
}

/// The gallery holds the images that some argument brings, and nothing else.
pub proof fn law_gallery_holds_what_was_found(inputs: Seq<Input>, path: Seq<Part>)
    ensures
        distinct_images(candidates(inputs)).contains(path) <==> is_image(path) && exists|i: int|
            0 <= i < inputs.len() && #[trigger] brings(inputs[i], path),
{
    lemma_candidates(inputs, path);
    law_distinct_images(candidates(inputs));
}

proof fn lemma_candidates(inputs: Seq<Input>, path: Seq<Part>)
    ensures
        candidates(inputs).contains(path) <==> exists|i: int|
            0 <= i < inputs.len() && #[trigger] brings(inputs[i], path),
    decreases inputs.len(),
{
    if inputs.len() > 0 {
        let before = inputs.drop_last();
        let last = inputs.last();
        let n = inputs.len() - 1;
        lemma_candidates(before, path);
        let old_ones = candidates(before);
        let new_ones = candidates_of(last);
        assert(new_ones.contains(path) <==> brings(last, path)) by {
            match last {
                Input::Directory { entries } => law_files_are_found(entries@, path),
                Input::File { path: own, siblings } => {
                    law_files_are_found(siblings@, path);
                    lemma_contained(seq![own@], files(siblings@), path);
                    assert(seq![own@].contains(path) <==> own@ == path) by {
                        assert(seq![own@][0] == own@);
                    }
                },
            }
        }
        lemma_contained(old_ones, new_ones, path);
        if exists|i: int| 0 <= i < before.len() && #[trigger] brings(before[i], path) {
            let i = choose|i: int| 0 <= i < before.len() && #[trigger] brings(before[i], path);
            assert(brings(inputs[i], path));
        }
        if exists|i: int| 0 <= i < inputs.len() && #[trigger] brings(inputs[i], path) {
            let i = choose|i: int| 0 <= i < inputs.len() && #[trigger] brings(inputs[i], path);
            if i < n {
                assert(brings(before[i], path));
            }
        }
        if brings(last, path) {
            assert(brings(inputs[n], path));
        }
    }
}

proof fn lemma_contained(a: Seq<Seq<Part>>, b: Seq<Seq<Part>>, path: Seq<Part>)
    ensures
        (a + b).contains(path) <==> a.contains(path) || b.contains(path),
{
    if a.contains(path) {
        assert((a + b)[a.index_of(path)] == path);
    }
    if b.contains(path) {
        assert((a + b)[a.len() + b.index_of(path)] == path);
    }
    if (a + b).contains(path) {
        let i = (a + b).index_of(path);
        if i < a.len() {
            assert(a[i] == path);
        } else {
            assert(b[i - a.len()] == path);
        }
    }
}

} // verus!
