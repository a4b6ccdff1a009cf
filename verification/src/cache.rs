//! The texture cache: which uploaded images stay on the GPU, and which one leaves next.

use std::collections::{HashMap, VecDeque};

use vstd::prelude::*;

verus! {

broadcast use {vstd::std_specs::hash::group_hash_axioms, vstd::seq_lib::group_seq_properties};

/// How many textures the viewer keeps on the GPU.
pub const MAX_CACHED_TEXTURES: usize = 10;

/// An uploaded image: its three GPU handles and its size in pixels.
#[derive(Clone, Copy, Debug, PartialEq, Eq, Structural)]
pub struct Texture {
    pub image: u64,
    pub memory: u64,
    pub view: u64,
    pub width: u32,
    pub height: u32,
}

/// What a cache holds: its keys, from the one used longest ago to the one used last, the
/// texture under each key, and the number of keys that fit.
#[verifier::ext_equal]
pub struct CacheView {
    pub order: Seq<usize>,
    pub textures: Map<usize, Texture>,
    pub capacity: nat,
}

/// The keys `order` without `key`, and `key` last.
pub open spec fn moved_to_back(order: Seq<usize>, key: usize) -> Seq<usize> {
    order.remove_value(key).push(key)
}

impl CacheView {
    pub open spec fn wf(self) -> bool {
        &&& 0 < self.capacity
        &&& self.order.len() <= self.capacity
        &&& self.order.no_duplicates()
        &&& self.textures.dom() =~= self.order.to_set()
    }

    pub open spec fn contains(self, key: usize) -> bool {
        self.textures.contains_key(key)
    }

    /// The cache after a use of a key that it holds.
    pub open spec fn touched(self, key: usize) -> CacheView {
        CacheView { order: moved_to_back(self.order, key), ..self }
    }

    pub open spec fn is_full(self) -> bool {
        self.order.len() >= self.capacity
    }

    /// The texture that leaves when another one comes: the one used longest ago, if the cache
    /// is full.
    pub open spec fn evicted(self) -> Option<Texture> {
        if self.is_full() {
            Some(self.textures[self.order[0]])
        } else {
            None
        }
    }

    /// The textures, the one used longest ago first.
    pub open spec fn in_order(self) -> Seq<Texture> {
        self.order.map_values(|key: usize| self.textures[key])
    }

    /// The cache after a texture has come under a new key.
    pub open spec fn inserted(self, key: usize, texture: Texture) -> CacheView {
        if self.is_full() {
            CacheView {
                order: self.order.drop_first().push(key),
                textures: self.textures.remove(self.order[0]).insert(key, texture),
                capacity: self.capacity,
            }
        } else {
            CacheView {
                order: self.order.push(key),
                textures: self.textures.insert(key, texture),
                capacity: self.capacity,
            }
        }
    }

    /// The cache after a use of a key: it is looked up if the cache holds it, and inserted with
    /// this texture if not.
    pub open spec fn used(self, key: usize, texture: Texture) -> CacheView {
        if self.contains(key) {
            self.touched(key)
        } else {
            self.inserted(key, texture)
        }
    }
}

/// Textures by image number, with the order in which they were last used.
pub struct TextureCache {
    textures: HashMap<usize, Texture>,
    order: VecDeque<usize>,
    max_cache_size: usize,
}

impl View for TextureCache {
    type V = CacheView;

    closed spec fn view(&self) -> CacheView {
        CacheView {
            order: self.order@,
            textures: self.textures@,
            capacity: self.max_cache_size as nat,
        }
    }
}

impl TextureCache {
    /// An empty cache for `MAX_CACHED_TEXTURES` textures.
    pub fn new() -> (cache: TextureCache)
        ensures
            cache@.wf(),
            cache@ == (CacheView {
                order: Seq::empty(),
                textures: Map::empty(),
                capacity: MAX_CACHED_TEXTURES as nat,
            }),
    {
        let cache = TextureCache {
            textures: HashMap::new(),
            order: VecDeque::new(),
            max_cache_size: MAX_CACHED_TEXTURES,
        };
        assert(cache@.order =~= Seq::empty());
        assert(cache@.textures =~= Map::empty());
        cache
    }

    pub fn len(&self) -> (n: usize)
        ensures
            n == self@.order.len(),
    {
        self.order.len()
    }

    pub fn contains(&self, key: usize) -> (found: bool)
        ensures
            found == self@.contains(key),
    {
        self.textures.contains_key(&key)
    }

    /// The texture under `key`, which counts as a use of it.
    pub fn lookup(&mut self, key: usize) -> (found: Option<Texture>)
        requires
            old(self)@.wf(),
        ensures
            final(self)@.wf(),
            old(self)@.contains(key) ==> {
                &&& found == Some(old(self)@.textures[key])
                &&& final(self)@ == old(self)@.touched(key)
            },
            !old(self)@.contains(key) ==> found is None && final(self)@ == old(self)@,
    {
        let texture: Texture = match self.textures.get(&key) {
            Some(texture) => *texture,
            None => {
                return None;
            },
        };
        proof {
            assert(self.order@.to_set().contains(key));
        }
        let len: usize = self.order.len();
        let mut pos: usize = 0;
        while self.order[pos] != key
            invariant
                self.order@.contains(key),
                pos < len == self.order@.len(),
                forall|i: int| 0 <= i < pos ==> self.order@[i] != key,
                self.order@ == old(self).order@,
            decreases len - pos,
        {
            pos = pos + 1;
        }
        proof {
            lemma_remove_at(self.order@, key, pos as int);
        }
        self.order.remove(pos);
        self.order.push_back(key);
        proof {
            lemma_moved_to_back(old(self).order@, key);
        }
        Some(texture)
    }

    /// Keeps `texture` under the new key `key`, and hands back the texture that has to leave.
    pub fn insert(&mut self, key: usize, texture: Texture) -> (evicted: Option<Texture>)
        requires
            old(self)@.wf(),
            !old(self)@.contains(key),
        ensures
            final(self)@.wf(),
            final(self)@ == old(self)@.inserted(key, texture),
            evicted == old(self)@.evicted(),
    {
        proof {
            assert(!self.order@.contains(key)) by {
                if self.order@.contains(key) {
                    assert(self.order@.to_set().contains(key));
                }
            }
            lemma_inserted(self@, key, texture);
        }
        let mut evicted: Option<Texture> = None;
        if self.order.len() >= self.max_cache_size {
            if let Some(oldest) = self.order.pop_front() {
                proof {
                    assert(old(self).order@.to_set().contains(oldest));
                }
                evicted = self.textures.remove(&oldest);
            }
        }
        self.textures.insert(key, texture);
        self.order.push_back(key);
        evicted
    }

    /// Empties the cache and hands back what it held, the texture used longest ago first.
    pub fn drain(&mut self) -> (textures: Vec<Texture>)
        requires
            old(self)@.wf(),
        ensures
            final(self)@.wf(),
            final(self)@ == (CacheView {
                order: Seq::empty(),
                textures: Map::empty(),
                capacity: old(self)@.capacity,
            }),
            textures@ == old(self)@.in_order(),
    {
        let mut textures: Vec<Texture> = Vec::new();
        let len: usize = self.order.len();
        let mut i: usize = 0;
        while i < len
            invariant
                i <= len == self.order@.len(),
                self@ == old(self)@,
                self@.wf(),
                textures@ =~= self@.in_order().take(i as int),
            decreases len - i,
        {
            proof {
                assert(self.order@.to_set().contains(self.order@[i as int]));
            }
            if let Some(texture) = self.textures.get(&self.order[i]) {
                textures.push(*texture);
            }
            i = i + 1;
        }
        self.textures.clear();
        self.order.clear();
        proof {
            assert(self@.order =~= Seq::empty());
            assert(self@.textures =~= Map::empty());
            assert(textures@ =~= old(self)@.in_order());
        }
        textures
    }
}

/// An insertion keeps the cache well formed.
pub(crate) proof fn lemma_inserted(cache: CacheView, key: usize, texture: Texture)
    requires
        cache.wf(),
        !cache.order.contains(key),
    ensures
        cache.inserted(key, texture).wf(),
{
    let after = cache.inserted(key, texture);
    let kept = if cache.is_full() {
        cache.order.drop_first()
    } else {
        cache.order
    };
    assert(after.order == kept.push(key));
    assert forall|k: usize| after.textures.contains_key(k) <==> after.order.contains(k) by {
        if k == key {
            assert(after.order[kept.len() as int] == key);
        } else {
            assert(kept.push(key).contains(k) <==> kept.contains(k));
            if cache.is_full() {
                if cache.order.contains(k) && k != cache.order[0] {
                    let i = cache.order.index_of(k);
                    assert(kept[i - 1] == k);
                }
                if kept.contains(k) {
                    let i = kept.index_of(k);
                    assert(cache.order[i + 1] == k);
                }
            }
            assert(cache.textures.contains_key(k) <==> cache.order.contains(k)) by {
                assert(cache.textures.dom().contains(k) <==> cache.order.to_set().contains(k));
            }
        }
    }
}

/// Removing the value at its only place is removing it at that place.
proof fn lemma_remove_at(order: Seq<usize>, key: usize, pos: int)
    requires
        0 <= pos < order.len(),
        order[pos] == key,
        forall|i: int| 0 <= i < pos ==> order[i] != key,
    ensures
        order.remove_value(key) == order.remove(pos),
{
    order.index_of_first_ensures(key);
}

/// Moving a key to the back keeps the keys, and keeps them distinct.
proof fn lemma_moved_to_back(order: Seq<usize>, key: usize)
    requires
        order.no_duplicates(),
        order.contains(key),
    ensures
        moved_to_back(order, key).no_duplicates(),
        moved_to_back(order, key).len() == order.len(),
        moved_to_back(order, key).to_set() =~= order.to_set(),
{
    order.index_of_first_ensures(key);
    let pos = order.index_of_first(key)->0;
    let rest = order.remove(pos);
    assert(order.remove_value(key) == rest);
    assert forall|k: usize| #[trigger] order.contains(k) implies moved_to_back(
        order,
        key,
    ).contains(k) by {
        let i = order.index_of(k);
        if i < pos {
            assert(rest.push(key)[i] == k);
        } else if i > pos {
            assert(rest.push(key)[i - 1] == k);
        } else {
            assert(rest.push(key)[rest.len() as int] == k);
        }
    }
}

/// The keys of `history`, each once, in the order of their last uses.
pub open spec fn by_last_use(history: Seq<usize>) -> Seq<usize>
    decreases history.len(),
{
    if history.len() == 0 {
        Seq::empty()
    } else {
        moved_to_back(by_last_use(history.drop_last()), history.last())
    }
}

/// The last `count` elements of `order`, or all of them where there are fewer.
pub open spec fn most_recent(order: Seq<usize>, count: nat) -> Seq<usize> {
    if order.len() <= count {
        order
    } else {
        order.skip(order.len() - count)
    }
}

/// The keys of a series of uses.
pub open spec fn keys_of(uses: Seq<(usize, Texture)>) -> Seq<usize> {
    uses.map_values(|u: (usize, Texture)| u.0)
}

/// A cache that started empty, after a series of uses: a key that it holds is looked up, and any
/// other key is inserted with the texture that goes with it.
pub open spec fn after_uses(capacity: nat, uses: Seq<(usize, Texture)>) -> CacheView
    decreases uses.len(),
{
    if uses.len() == 0 {
        CacheView { order: Seq::empty(), textures: Map::empty(), capacity }
    } else {
        let before = after_uses(capacity, uses.drop_last());
        let (key, texture) = uses.last();
        before.used(key, texture)
    }
}

/// `by_last_use` lists exactly the keys of the history, none twice, and a key stands before
/// another one exactly if its last use came first.
#[verifier::spinoff_prover]
#[verifier::rlimit(40)]
pub proof fn law_by_last_use(history: Seq<usize>)
    ensures
        by_last_use(history).no_duplicates(),
        forall|k: usize| by_last_use(history).contains(k) <==> history.contains(k),
        forall|i: int, j: int|
            0 <= i < j < by_last_use(history).len() ==> (#[trigger] history.index_of_last(
                by_last_use(history)[i],
            ))->0 < (#[trigger] history.index_of_last(by_last_use(history)[j]))->0,
    decreases history.len(),
{
    if history.len() > 0 {
        let before = history.drop_last();
        let key = history.last();
        let prior = by_last_use(before);
        let order = by_last_use(history);
        let rest = prior.remove_value(key);
        law_by_last_use(before);
        lemma_without(prior, key);
        assert(order == rest.push(key));
        assert forall|k: usize| order.contains(k) <==> history.contains(k) by {
            if k == key {
                assert(history[history.len() - 1] == key);
                assert(order[rest.len() as int] == key);
            } else {
                assert(order.contains(k) <==> rest.contains(k));
                if before.contains(k) {
                    assert(history[before.index_of(k)] == k);
                }
                if history.contains(k) {
                    assert(before[history.index_of(k)] == k);
                }
            }
        }
        assert forall|k: usize| k != key && before.contains(k) implies history.index_of_last(k)
            == before.index_of_last(k) by {
            history.index_of_last_ensures(k);
            before.index_of_last_ensures(k);
            let a = history.index_of_last(k)->0;
            let b = before.index_of_last(k)->0;
            assert(history[b] == k);
            assert(before[a] == k);
        }
        history.index_of_last_ensures(key);
        assert(history.index_of_last(key)->0 == history.len() - 1);
        assert forall|i: int, j: int| 0 <= i < j < order.len() implies (
        #[trigger] history.index_of_last(order[i]))->0 < (#[trigger] history.index_of_last(
            order[j],
        ))->0 by {
            let a = order[i];
            assert(rest[i] == a);
            assert(rest.contains(a));
            assert(prior.contains(a));
            before.index_of_last_ensures(a);
            if j < rest.len() {
                let b = order[j];
                assert(rest.contains(rest[j]));
                let (p, q) = (place_before(prior, key, i), place_before(prior, key, j));
                lemma_place_before(prior, key, i);
                lemma_place_before(prior, key, j);
                assert(prior[p] == a && prior[q] == b);
                assert(before.index_of_last(prior[p])->0 < before.index_of_last(prior[q])->0);
            }
        }
    }
}

/// Where the element at `i` of a sequence without `key` stood before.
spec fn place_before(order: Seq<usize>, key: usize, i: int) -> int {
    if order.contains(key) && i >= order.index_of_first(key)->0 {
        i + 1
    } else {
        i
    }
}

proof fn lemma_place_before(order: Seq<usize>, key: usize, i: int)
    requires
        0 <= i < order.remove_value(key).len(),
    ensures
        0 <= place_before(order, key, i) < order.len(),
        order.remove_value(key)[i] == order[place_before(order, key, i)],
{
    order.index_of_first_ensures(key);
}

/// What is left of distinct keys without one of them.
proof fn lemma_without(order: Seq<usize>, key: usize)
    requires
        order.no_duplicates(),
    ensures
        order.remove_value(key).no_duplicates(),
        !order.remove_value(key).contains(key),
        forall|k: usize|
            k != key ==> (order.remove_value(key).contains(k) <==> order.contains(k)),
{
    let rest = order.remove_value(key);
    order.index_of_first_ensures(key);
    if order.contains(key) {
        let pos = order.index_of_first(key)->0;
        assert(rest == order.remove(pos));
        assert forall|k: usize| k != key implies (rest.contains(k) <==> order.contains(k)) by {
            if order.contains(k) {
                let i = order.index_of(k);
                if i < pos {
                    assert(rest[i] == k);
                } else {
                    assert(rest[i - 1] == k);
                }
            }
            if rest.contains(k) {
                let i = rest.index_of(k);
                assert(order[if i < pos { i } else { i + 1 }] == k);
            }
        }
    }
}

/// The cache gives back what was put into it: the new texture is under its key, the one used longest
/// ago is gone if the cache was full, and every other one is where it was.
pub proof fn law_cache_gives_back(cache: CacheView, key: usize, texture: Texture)
    requires
        cache.wf(),
        !cache.contains(key),
    ensures
        ({
            let after = cache.inserted(key, texture);
            &&& after.contains(key)
            &&& after.textures[key] == texture
            &&& cache.is_full() ==> !after.contains(cache.order[0])
            &&& forall|k: usize|
                #![trigger after.contains(k)]
                k != key ==> (after.contains(k) <==> cache.contains(k) && !(cache.is_full() && k
                    == cache.order[0]))
            &&& forall|k: usize|
                #![trigger after.textures[k]]
                k != key && after.contains(k) ==> after.textures[k] == cache.textures[k]
            &&& forall|k: usize|
                #![trigger cache.touched(k)]
                cache.touched(k).textures == cache.textures
        }),
{
    if cache.is_full() {
        assert(cache.order.to_set().contains(cache.order[0]));
        assert(cache.contains(cache.order[0]));
    }
}

/// One use keeps the cache at the most recent ones of the keys in the order of their last uses.
#[verifier::spinoff_prover]
#[verifier::rlimit(40)]
proof fn lemma_use(before: CacheView, prior: Seq<usize>, key: usize, texture: Texture)
    requires
        before.wf(),
        prior.no_duplicates(),
        before.order == most_recent(prior, before.capacity),
    ensures
        before.used(key, texture).wf(),
        before.used(key, texture).capacity == before.capacity,
        before.used(key, texture).order == most_recent(
            moved_to_back(prior, key),
            before.capacity,
        ),
{
    let capacity = before.capacity;
    assert(before.contains(key) <==> before.order.contains(key)) by {
        assert(before.textures.dom().contains(key) <==> before.order.to_set().contains(key));
    }
    prior.index_of_first_ensures(key);
    before.order.index_of_first_ensures(key);
    let skipped = prior.len() - before.order.len();
    assert(forall|i: int|
        0 <= i < before.order.len() ==> #[trigger] before.order[i] == prior[i + skipped]);
    if before.contains(key) {
        lemma_moved_to_back(before.order, key);
        let pos = before.order.index_of_first(key)->0;
        assert(prior[pos + skipped] == key);
        assert(prior.index_of_first(key) == Some(pos + skipped));
        assert(moved_to_back(before.order, key) =~= most_recent(
            moved_to_back(prior, key),
            capacity,
        ));
    } else {
        lemma_inserted(before, key, texture);
        if prior.contains(key) {
            let pos = prior.index_of_first(key)->0;
            assert(pos < skipped) by {
                if pos >= skipped {
                    assert(before.order[pos - skipped] == key);
                }
            }
            assert(before.order.drop_first().push(key) =~= most_recent(
                moved_to_back(prior, key),
                capacity,
            ));
        } else {
            assert(prior.remove_value(key) == prior);
            assert(before.inserted(key, texture).order =~= most_recent(
                moved_to_back(prior, key),
                capacity,
            ));
        }
    }
}

/// The cache is a least-recently-used cache: after any series of uses it holds exactly the
/// most recently used keys, as many as fit, in the order of their last uses.
pub proof fn law_least_recently_used(capacity: nat, uses: Seq<(usize, Texture)>)
    requires
        0 < capacity,
    ensures
        after_uses(capacity, uses).wf(),
        after_uses(capacity, uses).capacity == capacity,
        after_uses(capacity, uses).order == most_recent(by_last_use(keys_of(uses)), capacity),
    decreases uses.len(),
{
    if uses.len() > 0 {
        let history = keys_of(uses.drop_last());
        let (key, texture) = uses.last();
        law_least_recently_used(capacity, uses.drop_last());
        assert(by_last_use(history).no_duplicates()) by {
            law_by_last_use(history);
        }
        assert(keys_of(uses).drop_last() =~= history);
        assert(keys_of(uses).last() == key);
        lemma_use(after_uses(capacity, uses.drop_last()), by_last_use(history), key, texture);
    } else {
        assert(keys_of(uses) =~= Seq::empty());
        assert(by_last_use(keys_of(uses)) =~= Seq::empty());
    }
}

/// Use number `i` brought the texture that the cache holds under `key`: the key was not there
/// before, and has been there ever since.
pub open spec fn brought_in(
    capacity: nat,
    uses: Seq<(usize, Texture)>,
    key: usize,
    i: int,
) -> bool {
    &&& 0 <= i < uses.len()
    &&& uses[i].0 == key
    &&& !after_uses(capacity, uses.take(i)).contains(key)
    &&& forall|j: int|
        i < j <= uses.len() ==> (#[trigger] after_uses(capacity, uses.take(j))).contains(key)
    &&& after_uses(capacity, uses).textures[key] == uses[i].1
}

/// Over any series of uses a key that the cache holds keeps the texture that it was inserted with.
pub proof fn law_held_texture_is_the_one_inserted(
    capacity: nat,
    uses: Seq<(usize, Texture)>,
    key: usize,
)
    requires
        0 < capacity,
        after_uses(capacity, uses).contains(key),
    ensures
        exists|i: int| brought_in(capacity, uses, key, i),
    decreases uses.len(),
{
    assert(uses.len() > 0);
    let before = uses.drop_last();
    let cache = after_uses(capacity, before);
    law_least_recently_used(capacity, before);
    assert(uses.take(uses.len() as int) =~= uses);
    assert(uses.take(uses.len() - 1) =~= before);
    let i = if cache.contains(key) {
        law_held_texture_is_the_one_inserted(capacity, before, key);
        choose|i: int| brought_in(capacity, before, key, i)
    } else {
        uses.len() - 1
    };
    if cache.contains(key) {
        assert(before.take(i) =~= uses.take(i));
        if !cache.contains(uses.last().0) {
            law_cache_gives_back(cache, uses.last().0, uses.last().1);
        }
    } else if !cache.contains(uses.last().0) {
        law_cache_gives_back(cache, uses.last().0, uses.last().1);
    }
    assert forall|j: int| i < j <= uses.len() implies (#[trigger] after_uses(
        capacity,
        uses.take(j),
    )).contains(key) by {
        if j < uses.len() {
            assert(before.take(j) =~= uses.take(j));
            assert(after_uses(capacity, before.take(j)).contains(key));
        }
    }
    assert(brought_in(capacity, uses, key, i));
}

/// The other keys that were used after use number `i`.
pub open spec fn others_since(uses: Seq<(usize, Texture)>, i: int) -> Set<usize> {
    keys_of(uses.skip(i + 1)).to_set().remove(uses[i].0)
}

/// A key is found again while fewer other keys than fit have been used since.
pub proof fn law_recent_key_is_held(capacity: nat, uses: Seq<(usize, Texture)>, i: int)
    requires
        0 < capacity,
        0 <= i < uses.len(),
        others_since(uses, i).len() < capacity,
    ensures
        after_uses(capacity, uses).contains(uses[i].0),
{
    let key = uses[i].0;
    let history = keys_of(uses);
    let order = by_last_use(history);
    let cache = after_uses(capacity, uses);
    law_least_recently_used(capacity, uses);
    law_by_last_use(history);
    assert(history[i] == key);
    assert(history.contains(key));
    let p = order.index_of(key);
    let later = order.skip(p + 1);
    let others = others_since(uses, i);
    history.index_of_last_ensures(key);
    assert forall|k: usize| later.to_set().contains(k) implies others.contains(k) by {
        let q = later.index_of(k);
        assert(order[p + 1 + q] == k);
        assert(order.contains(k));
        history.index_of_last_ensures(k);
        let (a, b) = (history.index_of_last(order[p])->0, history.index_of_last(order[p + 1 + q])->0);
        assert(a < b);
        assert(i <= a);
        assert(keys_of(uses.skip(i + 1))[b - i - 1] == k);
        assert(keys_of(uses.skip(i + 1)).contains(k));
    }
    assert(later.no_duplicates());
    later.unique_seq_to_set();
    assert(keys_of(uses.skip(i + 1)).to_set().finite());
    vstd::set_lib::lemma_len_subset(later.to_set(), others);
    let skipped = order.len() - cache.order.len();
    assert(cache.order[p - skipped] == key);
    assert(cache.order.to_set().contains(key));
}

/// What a use does to the order of the keys. A key that is used again goes to the end, and the others
/// close the gap. A new one comes to the end, and in a full cache the first one makes room for it.
pub proof fn law_uses_go_to_the_end(
    cache: CacheView,
    key: usize,
    texture: Texture,
    pos: int,
    i: int,
)
    requires
        cache.wf(),
        0 <= pos,
        0 <= i,
    ensures
        cache.contains(key) ==> {
            let after = cache.touched(key);
            &&& after.order.len() == cache.order.len()
            &&& after.order.last() == key
            &&& after.textures == cache.textures
            &&& after.capacity == cache.capacity
            &&& pos < cache.order.len() && cache.order[pos] == key && i < pos ==> after.order[i]
                == cache.order[i]
            &&& pos < cache.order.len() && cache.order[pos] == key && pos <= i
                < cache.order.len() - 1 ==> after.order[i] == cache.order[i + 1]
        },
        !cache.contains(key) ==> {
            let after = cache.inserted(key, texture);
            let full = cache.order.len() >= cache.capacity;
            let gone = if full {
                1int
            } else {
                0int
            };
            &&& after.order.len() == cache.order.len() + 1 - gone
            &&& after.order.last() == key
            &&& after.textures[key] == texture
            &&& after.capacity == cache.capacity
            &&& i < cache.order.len() - gone ==> after.order[i] == cache.order[i + gone]
        },
{
    assert(cache.contains(key) <==> cache.order.contains(key)) by {
        assert(cache.textures.dom().contains(key) <==> cache.order.to_set().contains(key));
    }
    cache.order.index_of_first_ensures(key);
}

/// A texture leaves exactly if the cache is full, and it is the one that was under the first key.
pub proof fn law_only_a_full_cache_evicts(cache: CacheView)
    ensures
        cache.evicted() is Some <==> cache.order.len() >= cache.capacity,
        cache.evicted() is Some ==> cache.evicted() == Some(cache.textures[cache.order[0]]),
{
}

/// The textures come in the order of their keys, each once.
pub proof fn law_textures_are_in_order(cache: CacheView, i: int)
    requires
        0 <= i < cache.order.len(),
    ensures
        cache.in_order().len() == cache.order.len(),
        cache.in_order()[i] == cache.textures[cache.order[i]],
{
}

/// The most recent elements are as many as wanted, or all where there are fewer, and they are those
/// at the end.
pub proof fn law_most_recent_is_the_end(order: Seq<usize>, count: nat, i: int)
    requires
        0 <= i < most_recent(order, count).len(),
    ensures
        most_recent(order, count).len() <= count,
        most_recent(order, count).len() == count || most_recent(order, count).len() == order.len(),
        most_recent(order, count)[i] == order[order.len() - most_recent(order, count).len() + i],
{
}

} // verus!
