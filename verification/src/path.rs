//! File paths by their components: when two are the same, which comes first, and what a file is
//! called.

use vstd::prelude::*;

verus! {

/// One component of a path. A name is a string of bytes.
#[derive(Debug)]
pub enum Component {
    RootDir,
    CurDir,
    ParentDir,
    Normal(Vec<u8>),
}

/// A path, as its components.
#[derive(Debug)]
pub struct FilePath {
    pub components: Vec<Component>,
}

/// The mathematical value of a component.
#[verifier::ext_equal]
pub enum Part {
    RootDir,
    CurDir,
    ParentDir,
    Normal(Seq<u8>),
}

impl View for Component {
    type V = Part;

    open spec fn view(&self) -> Part {
        match self {
            Component::RootDir => Part::RootDir,
            Component::CurDir => Part::CurDir,
            Component::ParentDir => Part::ParentDir,
            Component::Normal(name) => Part::Normal(name@),
        }
    }
}

/// The mathematical values of a series of components.
pub open spec fn parts(components: Seq<Component>) -> Seq<Part> {
    Seq::new(components.len(), |i: int| components[i]@)
}

impl View for FilePath {
    type V = Seq<Part>;

    open spec fn view(&self) -> Seq<Part> {
        parts(self.components@)
    }
}

/// The mathematical values of a series of paths.
pub open spec fn paths(list: Seq<FilePath>) -> Seq<Seq<Part>> {
    Seq::new(list.len(), |i: int| list[i]@)
}

/// The order of names: the first byte in which they differ decides, and a beginning of a name
/// comes before the name.
pub open spec fn name_less(a: Seq<u8>, b: Seq<u8>) -> bool
    decreases a.len(),
{
    if b.len() == 0 {
        false
    } else if a.len() == 0 {
        true
    } else if a[0] != b[0] {
        a[0] < b[0]
    } else {
        name_less(a.drop_first(), b.drop_first())
    }
}

/// The kinds of components, in their order.
pub open spec fn part_kind(part: Part) -> int {
    match part {
        Part::RootDir => 0,
        Part::CurDir => 1,
        Part::ParentDir => 2,
        Part::Normal(_) => 3,
    }
}

/// The order of components: by kind, and names by the order of names.
pub open spec fn part_less(a: Part, b: Part) -> bool {
    match (a, b) {
        (Part::Normal(x), Part::Normal(y)) => name_less(x, y),
        _ => part_kind(a) < part_kind(b),
    }
}

/// The order of paths: the first component in which they differ decides, and a beginning of a path
/// comes before the path.
pub open spec fn path_less(a: Seq<Part>, b: Seq<Part>) -> bool
    decreases a.len(),
{
    if b.len() == 0 {
        false
    } else if a.len() == 0 {
        true
    } else if a[0] != b[0] {
        part_less(a[0], b[0])
    } else {
        path_less(a.drop_first(), b.drop_first())
    }
}

fn same_name(a: &Vec<u8>, b: &Vec<u8>) -> (r: bool)
    ensures
        r == (a@ == b@),
{
    if a.len() != b.len() {
        return false;
    }
    let mut i: usize = 0;
    while i < a.len()
        invariant
            i <= a@.len() == b@.len(),
            forall|j: int| 0 <= j < i ==> a@[j] == b@[j],
        decreases a@.len() - i,
    {
        if a[i] != b[i] {
            return false;
        }
        i = i + 1;
    }
    assert(a@ =~= b@);
    true
}

fn is_name_less(a: &Vec<u8>, b: &Vec<u8>) -> (r: bool)
    ensures
        r == name_less(a@, b@),
{
    let mut i: usize = 0;
    assert(a@.skip(0) =~= a@ && b@.skip(0) =~= b@);
    while i < a.len() && i < b.len() && a[i] == b[i]
        invariant
            i <= a@.len(),
            i <= b@.len(),
            name_less(a@, b@) == name_less(a@.skip(i as int), b@.skip(i as int)),
        decreases a@.len() - i,
    {
        assert(a@.skip(i as int).drop_first() =~= a@.skip(i + 1));
        assert(b@.skip(i as int).drop_first() =~= b@.skip(i + 1));
        i = i + 1;
    }
    if i < b.len() {
        if i < a.len() {
            a[i] < b[i]
        } else {
            true
        }
    } else {
        false
    }
}

impl Component {
    pub fn same(&self, other: &Component) -> (r: bool)
        ensures
            r == (self@ == other@),
    {
        match (self, other) {
            (Component::RootDir, Component::RootDir) => true,
            (Component::CurDir, Component::CurDir) => true,
            (Component::ParentDir, Component::ParentDir) => true,
            (Component::Normal(a), Component::Normal(b)) => same_name(a, b),
            _ => false,
        }
    }

    fn kind(&self) -> (kind: u8)
        ensures
            kind == part_kind(self@),
    {
        match self {
            Component::RootDir => 0,
            Component::CurDir => 1,
            Component::ParentDir => 2,
            Component::Normal(_) => 3,
        }
    }

    /// Whether this component comes before the other one.
    pub fn precedes(&self, other: &Component) -> (r: bool)
        ensures
            r == part_less(self@, other@),
    {
        match (self, other) {
            (Component::Normal(a), Component::Normal(b)) => is_name_less(a, b),
            _ => self.kind() < other.kind(),
        }
    }

    pub fn duplicate(&self) -> (copy: Component)
        ensures
            copy@ == self@,
    {
        match self {
            Component::RootDir => Component::RootDir,
            Component::CurDir => Component::CurDir,
            Component::ParentDir => Component::ParentDir,
            Component::Normal(name) => Component::Normal(name.clone()),
        }
    }
}

/// The name of the file that the path leads to, if its last component is a name.
pub open spec fn file_name(path: Seq<Part>) -> Option<Seq<u8>> {
    if path.len() > 0 {
        match path.last() {
            Part::Normal(name) => Some(name),
            _ => None,
        }
    } else {
        None
    }
}

/// The byte between a file's stem and its extension.
pub const DOT: u8 = 46;

/// The place of the last dot in a name, or -1.
pub open spec fn last_dot(name: Seq<u8>) -> int
    decreases name.len(),
{
    if name.len() == 0 {
        -1
    } else if name.last() == DOT {
        name.len() - 1
    } else {
        last_dot(name.drop_last())
    }
}

/// What stands behind the last dot of a name, unless there is no dot or nothing before it.
pub open spec fn name_extension(name: Seq<u8>) -> Option<Seq<u8>> {
    if last_dot(name) > 0 {
        Some(name.skip(last_dot(name) + 1))
    } else {
        None
    }
}

/// The extension of the file that a path leads to.
pub open spec fn extension(path: Seq<Part>) -> Option<Seq<u8>> {
    match file_name(path) {
        Some(name) => name_extension(name),
        None => None,
    }
}

/// The directory that holds what the path leads to: the path without its last component, unless
/// there is none or it is the root.
pub open spec fn parent(path: Seq<Part>) -> Option<Seq<Part>> {
    if path.len() > 0 && path.last() != Part::RootDir {
        Some(path.drop_last())
    } else {
        None
    }
}

impl FilePath {
    /// The current directory.
    pub fn current_dir() -> (path: FilePath)
        ensures
            path@ == seq![Part::CurDir],
    {
        let path: FilePath = FilePath { components: vec![Component::CurDir] };
        assert(path@ =~= seq![Part::CurDir]);
        path
    }

    /// Whether the two paths have the same components.
    pub fn same(&self, other: &FilePath) -> (r: bool)
        ensures
            r == (self@ == other@),
    {
        if self.components.len() != other.components.len() {
            assert(self@.len() != other@.len());
            return false;
        }
        let mut i: usize = 0;
        while i < self.components.len()
            invariant
                i <= self.components@.len() == other.components@.len(),
                forall|j: int| 0 <= j < i ==> self@[j] == other@[j],
            decreases self.components@.len() - i,
        {
            if !self.components[i].same(&other.components[i]) {
                assert(self@[i as int] != other@[i as int]);
                return false;
            }
            i = i + 1;
        }
        assert(self@ =~= other@);
        true
    }

    /// Whether this path comes before the other one.
    pub fn precedes(&self, other: &FilePath) -> (r: bool)
        ensures
            r == path_less(self@, other@),
    {
        let mut i: usize = 0;
        assert(self@.skip(0) =~= self@ && other@.skip(0) =~= other@);
        while i < self.components.len() && i < other.components.len() && self.components[i].same(
            &other.components[i],
        )
            invariant
                i <= self@.len() == self.components@.len(),
                i <= other@.len() == other.components@.len(),
                path_less(self@, other@) == path_less(
                    self@.skip(i as int),
                    other@.skip(i as int),
                ),
            decreases self.components@.len() - i,
        {
            assert(self@[i as int] == other@[i as int]);
            assert(self@.skip(i as int).drop_first() =~= self@.skip(i + 1));
            assert(other@.skip(i as int).drop_first() =~= other@.skip(i + 1));
            i = i + 1;
        }
        if i < other.components.len() {
            if i < self.components.len() {
                self.components[i].precedes(&other.components[i])
            } else {
                true
            }
        } else {
            false
        }
    }

    pub fn duplicate(&self) -> (copy: FilePath)
        ensures
            copy@ == self@,
    {
        let mut components: Vec<Component> = Vec::new();
        let mut i: usize = 0;
        while i < self.components.len()
            invariant
                i <= self.components@.len(),
                parts(components@) =~= self@.take(i as int),
            decreases self.components@.len() - i,
        {
            let component: Component = self.components[i].duplicate();
            let ghost before = parts(components@);
            components.push(component);
            assert(parts(components@) =~= before.push(self@[i as int]));
            assert(self@.take(i + 1) =~= self@.take(i as int).push(self@[i as int]));
            i = i + 1;
        }
        let copy: FilePath = FilePath { components };
        assert(copy@ =~= self@);
        copy
    }

    /// The extension of the file, without its dot.
    pub fn extension(&self) -> (found: Option<Vec<u8>>)
        ensures
            match found {
                Some(text) => extension(self@) == Some(text@),
                None => extension(self@) is None,
            },
    {
        let len: usize = self.components.len();
        if len == 0 {
            return None;
        }
        match &self.components[len - 1] {
            Component::Normal(name) => name_extension_of(name),
            _ => None,
        }
    }

    /// The directory that holds what the path leads to.
    pub fn parent(&self) -> (found: Option<FilePath>)
        ensures
            match found {
                Some(dir) => parent(self@) == Some(dir@),
                None => parent(self@) is None,
            },
    {
        let len: usize = self.components.len();
        if len == 0 {
            return None;
        }
        if let Component::RootDir = &self.components[len - 1] {
            return None;
        }
        let mut dir: FilePath = self.duplicate();
        dir.components.pop();
        assert(dir@ =~= self@.drop_last());
        Some(dir)
    }
}

fn name_extension_of(name: &Vec<u8>) -> (found: Option<Vec<u8>>)
    ensures
        match found {
            Some(text) => name_extension(name@) == Some(text@),
            None => name_extension(name@) is None,
        },
{
    let mut end: usize = name.len();
    assert(name@.take(end as int) =~= name@);
    while end > 0 && name[end - 1] != DOT
        invariant
            end <= name@.len(),
            last_dot(name@.take(end as int)) == last_dot(name@),
        decreases end,
    {
        assert(name@.take(end as int).drop_last() =~= name@.take(end - 1));
        end = end - 1;
    }
    if end <= 1 {
        return None;
    }
    let mut text: Vec<u8> = Vec::new();
    let mut i: usize = end;
    while i < name.len()
        invariant
            end <= i <= name@.len(),
            text@ =~= name@.subrange(end as int, i as int),
        decreases name@.len() - i,
    {
        text.push(name[i]);
        i = i + 1;
    }
    assert(text@ =~= name@.skip(end as int));
    Some(text)
}

/// The order of names is a strict total order.
pub proof fn law_name_order_is_total(a: Seq<u8>, b: Seq<u8>, c: Seq<u8>)
    ensures
        !name_less(a, a),
        name_less(a, b) && name_less(b, c) ==> name_less(a, c),
        name_less(a, b) || name_less(b, a) || a == b,
        !(name_less(a, b) && name_less(b, a)),
    decreases a.len(),
{
    let (x, y, z) = (a.drop_first(), b.drop_first(), c.drop_first());
    if a.len() > 0 {
        law_name_order_is_total(x, x, x);
        if b.len() > 0 {
            law_name_order_is_total(x, y, z);
            if a[0] == b[0] && x == y {
                assert(a =~= seq![a[0]] + x);
                assert(b =~= seq![b[0]] + y);
            }
        }
    } else if b.len() == 0 {
        assert(a =~= b);
    }
}

/// The order of components is a strict total order.
pub proof fn law_component_order_is_total(a: Part, b: Part, c: Part)
    ensures
        !part_less(a, a),
        part_less(a, b) && part_less(b, c) ==> part_less(a, c),
        part_less(a, b) || part_less(b, a) || a == b,
        !(part_less(a, b) && part_less(b, a)),
{
    let name = |p: Part|
        match p {
            Part::Normal(n) => n,
            _ => Seq::<u8>::empty(),
        };
    law_name_order_is_total(name(a), name(b), name(c));
}

/// The order of paths is a strict total order.
pub proof fn law_path_order_is_total(a: Seq<Part>, b: Seq<Part>, c: Seq<Part>)
    ensures
        !path_less(a, a),
        path_less(a, b) && path_less(b, c) ==> path_less(a, c),
        path_less(a, b) || path_less(b, a) || a == b,
        !(path_less(a, b) && path_less(b, a)),
    decreases a.len(),
{
    let (x, y, z) = (a.drop_first(), b.drop_first(), c.drop_first());
    if a.len() > 0 {
        law_path_order_is_total(x, x, x);
        if b.len() > 0 {
            law_path_order_is_total(x, y, z);
            law_component_order_is_total(a[0], b[0], c[0]);
            law_component_order_is_total(b[0], a[0], c[0]);
            if a[0] == b[0] && x == y {
                assert(a =~= seq![a[0]] + x);
                assert(b =~= seq![b[0]] + y);
            }
        }
    } else if b.len() == 0 {
        assert(a =~= b);
    }
}

/// The first byte in which two names differ decides which comes first: the one with the smaller
/// byte.
pub proof fn law_first_difference_orders_names(a: Seq<u8>, b: Seq<u8>, i: int)
    requires
        0 <= i < a.len(),
        i < b.len(),
        forall|j: int| 0 <= j < i ==> a[j] == b[j],
        a[i] != b[i],
    ensures
        name_less(a, b) <==> a[i] < b[i],
        name_less(b, a) <==> b[i] < a[i],
    decreases i,
{
    if i > 0 {
        assert(a[0] == b[0]);
        law_first_difference_orders_names(a.drop_first(), b.drop_first(), i - 1);
    }
}

/// A proper beginning of a name comes before the name.
pub proof fn law_beginning_of_a_name_comes_first(a: Seq<u8>, b: Seq<u8>)
    requires
        a.len() < b.len(),
        forall|j: int| 0 <= j < a.len() ==> a[j] == b[j],
    ensures
        name_less(a, b),
        !name_less(b, a),
    decreases a.len(),
{
    if a.len() > 0 {
        assert(a[0] == b[0]);
        law_beginning_of_a_name_comes_first(a.drop_first(), b.drop_first());
    }
}

/// The root comes before the current directory, that before the parent directory, and that before
/// every name. Two names come in the order of names.
pub proof fn law_components_are_ordered_by_kind(a: Seq<u8>, b: Seq<u8>)
    ensures
        part_less(Part::RootDir, Part::CurDir),
        part_less(Part::RootDir, Part::ParentDir),
        part_less(Part::RootDir, Part::Normal(a)),
        part_less(Part::CurDir, Part::ParentDir),
        part_less(Part::CurDir, Part::Normal(a)),
        part_less(Part::ParentDir, Part::Normal(a)),
        part_less(Part::Normal(a), Part::Normal(b)) <==> name_less(a, b),
{
}

/// The first component in which two paths differ decides which comes first.
pub proof fn law_first_difference_orders_paths(a: Seq<Part>, b: Seq<Part>, i: int)
    requires
        0 <= i < a.len(),
        i < b.len(),
        forall|j: int| 0 <= j < i ==> a[j] == b[j],
        a[i] != b[i],
    ensures
        path_less(a, b) <==> part_less(a[i], b[i]),
        path_less(b, a) <==> part_less(b[i], a[i]),
    decreases i,
{
    if i > 0 {
        assert(a[0] == b[0]);
        law_first_difference_orders_paths(a.drop_first(), b.drop_first(), i - 1);
    }
}

/// A proper beginning of a path comes before the path.
pub proof fn law_beginning_of_a_path_comes_first(a: Seq<Part>, b: Seq<Part>)
    requires
        a.len() < b.len(),
        forall|j: int| 0 <= j < a.len() ==> a[j] == b[j],
    ensures
        path_less(a, b),
        !path_less(b, a),
    decreases a.len(),
{
    if a.len() > 0 {
        assert(a[0] == b[0]);
        law_beginning_of_a_path_comes_first(a.drop_first(), b.drop_first());
    }
}

/// Two files in one directory come in the order of their names, at the first byte in which these
/// differ.
pub proof fn law_files_of_a_directory_are_ordered_by_name(
    dir: Seq<Part>,
    a: Seq<u8>,
    b: Seq<u8>,
    i: int,
)
    requires
        0 <= i < a.len(),
        i < b.len(),
        forall|j: int| 0 <= j < i ==> a[j] == b[j],
        a[i] < b[i],
    ensures
        path_less(dir.push(Part::Normal(a)), dir.push(Part::Normal(b))),
        !path_less(dir.push(Part::Normal(b)), dir.push(Part::Normal(a))),
{
    law_first_difference_orders_names(a, b, i);
    assert(Part::Normal(a) != Part::Normal(b));
    law_first_difference_orders_paths(
        dir.push(Part::Normal(a)),
        dir.push(Part::Normal(b)),
        dir.len() as int,
    );
}

proof fn lemma_last_dot(name: Seq<u8>, dot: int)
    requires
        -1 <= dot < name.len(),
        dot >= 0 ==> name[dot] == 46,
        forall|j: int| dot < j < name.len() ==> name[j] != 46,
    ensures
        last_dot(name) == dot,
    decreases name.len(),
{
    if name.len() > 0 && dot < name.len() - 1 {
        assert(name[name.len() - 1] != 46);
        lemma_last_dot(name.drop_last(), dot);
    }
}

/// Behind a stem and a dot stands the extension: what follows the dot, if it holds no other one.
pub proof fn law_extension_follows_the_last_dot(dir: Seq<Part>, stem: Seq<u8>, text: Seq<u8>)
    requires
        stem.len() > 0,
        forall|j: int| 0 <= j < text.len() ==> text[j] != 46,
    ensures
        extension(dir.push(Part::Normal(stem + seq![46u8] + text))) == Some(text),
{
    let name = stem + seq![46u8] + text;
    lemma_last_dot(name, stem.len() as int);
    assert(name.skip(stem.len() as int + 1) =~= text);
    assert(dir.push(Part::Normal(name)).last() == Part::Normal(name));
}

/// A name without a dot behind its first byte has no extension, and neither has a path that does
/// not end in a name.
pub proof fn law_other_paths_have_no_extension(dir: Seq<Part>, name: Seq<u8>, part: Part)
    requires
        forall|j: int| 0 < j < name.len() ==> name[j] != 46,
        !(part is Normal),
    ensures
        extension(dir.push(Part::Normal(name))) is None,
        extension(dir.push(part)) is None,
        extension(Seq::empty()) is None,
{
    let last = if name.len() > 0 && name[0] == 46 {
        0int
    } else {
        -1int
    };
    lemma_last_dot(name, last);
    assert(dir.push(Part::Normal(name)).last() == Part::Normal(name));
    assert(dir.push(part).last() == part);
}

/// What lies in a directory has it as its parent. The root and the empty path have none.
pub proof fn law_parent_is_the_directory(dir: Seq<Part>, part: Part)
    ensures
        part != Part::RootDir ==> parent(dir.push(part)) == Some(dir),
        parent(dir.push(Part::RootDir)) is None,
        parent(Seq::empty()) is None,
{
    assert(dir.push(part).drop_last() =~= dir);
}

/// A path has the name of its last component, and no name if that is none.
pub proof fn law_file_is_named_by_its_last_component(dir: Seq<Part>, name: Seq<u8>, part: Part)
    requires
        !(part is Normal),
    ensures
        file_name(dir.push(Part::Normal(name))) == Some(name),
        file_name(dir.push(part)) is None,
        file_name(Seq::empty()) is None,
{
    assert(dir.push(Part::Normal(name)).last() == Part::Normal(name));
    assert(dir.push(part).last() == part);
}

} // verus!
