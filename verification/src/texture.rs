//! Bringing an image to the GPU: what to do next, given what has been done.

use vstd::multiset::Multiset;
use vstd::prelude::*;

use crate::cache::{law_cache_gives_back, lemma_inserted, CacheView, Texture};
use crate::config::{
    full_view, staging_buffer, staging_config, texture_config, texture_image, view_config,
    BufferConfig, ImageConfig, ImageRange, ViewConfig, R8G8B8A8_SRGB,
};
use crate::context::{
    all_texture_parts, lemma_joined, lemma_parts_joined, lemma_parts_of_one, staging_parts,
    texture_parts, Resource, Staging, StoreView, TextureStore,
};
use crate::device::DEVICE_LOCAL;

verus! {

/// How far a load has come.
#[derive(Clone, Copy, Debug, PartialEq, Eq, Structural)]
pub enum LoadPhase {
    /// The image is on the GPU already.
    Cached { texture: Texture },
    /// The file has to be decoded.
    Decode,
    /// The GPU has to finish what it does.
    WaitIdle,
    /// The staging buffer is too small, and goes.
    DropBuffer,
    /// Its memory goes.
    DropMemory,
    /// A staging buffer that is large enough has to be made.
    CreateStaging,
    /// The pixels have to be written into this staging buffer, which is then the one to use.
    Fill { staging: Staging },
    /// An image on the GPU has to be made.
    CreateImage,
    /// Memory for it has to be allocated.
    Allocate { image: u64 },
    /// The memory has to be bound to it.
    BindMemory { image: u64, memory: u64 },
    /// The pixels have to be copied from the staging buffer.
    Copy { image: u64, memory: u64 },
    /// A view of the image has to be made.
    CreateView { image: u64, memory: u64 },
    /// The view has to be made the one that is drawn.
    Bind { texture: Texture },
    /// The view of a texture that left the cache goes.
    ReleaseView { texture: Texture },
    /// Its image goes.
    ReleaseImage { texture: Texture },
    /// Its memory goes.
    ReleaseMemory { texture: Texture },
    /// The image is on the GPU, and is the one that is drawn.
    Finished,
}

/// The load of the image with number `key`. The size in pixels and in bytes is known once the
/// file is decoded, or found in the cache.
#[derive(Clone, Copy, Debug, PartialEq, Eq, Structural)]
pub struct Load {
    pub key: usize,
    pub width: u32,
    pub height: u32,
    pub size: u64,
    pub phase: LoadPhase,
    /// The step of this phase went wrong, and the load ends there. What it holds stays, and the
    /// store still names a staging buffer that the load has destroyed and not replaced.
    pub failed: bool,
}

/// What a load asks for.
#[derive(Clone, Copy, Debug, PartialEq, Eq, Structural)]
pub enum LoadAction {
    Decode,
    WaitIdle,
    Destroy(Resource),
    CreateStaging { staging: BufferConfig },
    Fill { memory: u64, size: u64 },
    CreateImage { texture: ImageConfig },
    Allocate { image: u64, properties: u32 },
    BindMemory { image: u64, memory: u64 },
    Copy { buffer: u64, image: u64, width: u32, height: u32 },
    CreateView { image: u64, description: ViewConfig },
    Bind { view: u64 },
    Finished { width: u32, height: u32 },
    Failed,
}

/// What came of it.
#[derive(Clone, Copy, Debug, PartialEq, Eq, Structural)]
pub enum LoadReply {
    Done,
    Decoded { width: u32, height: u32, size: u64 },
    Handle(u64),
    Buffer { buffer: u64, memory: u64 },
    Failed,
}

/// What a load asks for at each phase.
pub open spec fn load_action(load: Load, store: StoreView) -> LoadAction {
    if load.failed {
        LoadAction::Failed
    } else {
        match load.phase {
            LoadPhase::Cached { texture } => LoadAction::Bind { view: texture.view },
            LoadPhase::Decode => LoadAction::Decode,
            LoadPhase::WaitIdle => LoadAction::WaitIdle,
            LoadPhase::DropBuffer => LoadAction::Destroy(Resource::Buffer(store.staging.buffer)),
            LoadPhase::DropMemory => LoadAction::Destroy(Resource::Memory(store.staging.memory)),
            LoadPhase::CreateStaging => LoadAction::CreateStaging {
                staging: staging_buffer(load.size),
            },
            LoadPhase::Fill { staging } => LoadAction::Fill {
                memory: staging.memory,
                size: load.size,
            },
            LoadPhase::CreateImage => LoadAction::CreateImage {
                texture: texture_image(load.width, load.height),
            },
            LoadPhase::Allocate { image } => LoadAction::Allocate {
                image,
                properties: DEVICE_LOCAL,
            },
            LoadPhase::BindMemory { image, memory } => LoadAction::BindMemory { image, memory },
            LoadPhase::Copy { image, .. } => LoadAction::Copy {
                buffer: store.staging.buffer,
                image,
                width: load.width,
                height: load.height,
            },
            LoadPhase::CreateView { image, .. } => LoadAction::CreateView {
                image,
                description: full_view(R8G8B8A8_SRGB),
            },
            LoadPhase::Bind { texture } => LoadAction::Bind { view: texture.view },
            LoadPhase::ReleaseView { texture } => LoadAction::Destroy(
                Resource::ImageView(texture.view),
            ),
            LoadPhase::ReleaseImage { texture } => LoadAction::Destroy(
                Resource::Image(texture.image),
            ),
            LoadPhase::ReleaseMemory { texture } => LoadAction::Destroy(
                Resource::Memory(texture.memory),
            ),
            LoadPhase::Finished => LoadAction::Finished { width: load.width, height: load.height },
        }
    }
}

impl Load {
    pub open spec fn at(self, phase: LoadPhase) -> Load {
        Load { phase, ..self }
    }

    /// There are four bytes for each pixel.
    pub open spec fn is_sized(self) -> bool {
        self.size == 4 * self.width * self.height
    }

    /// The replies that the step of this phase can have. A decoded image has four bytes for each
    /// pixel. Where the buffer cannot be made or the
    /// copy cannot be submitted, the viewer gives up, and the load with it.
    pub open spec fn expects(self, reply: LoadReply) -> bool {
        &&& !self.failed
        &&& match self.phase {
            LoadPhase::Decode => match reply {
                LoadReply::Decoded { width, height, size } => size == 4 * width * height,
                LoadReply::Failed => true,
                _ => false,
            },
            LoadPhase::CreateStaging => reply is Buffer,
            LoadPhase::CreateImage => reply is Handle || reply is Failed,
            LoadPhase::Allocate { .. } => reply is Handle || reply is Failed,
            LoadPhase::CreateView { .. } => reply is Handle || reply is Failed,
            LoadPhase::WaitIdle => reply is Done || reply is Failed,
            LoadPhase::Fill { .. } => reply is Done || reply is Failed,
            LoadPhase::BindMemory { .. } => reply is Done || reply is Failed,
            LoadPhase::Finished => false,
            _ => reply is Done,
        }
    }

    /// The load goes with the store: its image is not in the cache before it has been uploaded,
    /// and a staging buffer that is written to or read from is there and holds all its pixels.
    pub open spec fn fits(self, store: StoreView) -> bool {
        &&& store.cache.wf()
        &&& match self.phase {
            LoadPhase::Cached { .. } => true,
            LoadPhase::ReleaseView { .. } => true,
            LoadPhase::ReleaseImage { .. } => true,
            LoadPhase::ReleaseMemory { .. } => true,
            LoadPhase::Finished => true,
            LoadPhase::Decode => !store.cache.contains(self.key),
            LoadPhase::WaitIdle => {
                &&& !store.cache.contains(self.key)
                &&& self.is_sized()
            },
            LoadPhase::DropBuffer => {
                &&& !store.cache.contains(self.key)
                &&& self.is_sized()
            },
            LoadPhase::DropMemory => {
                &&& !store.cache.contains(self.key)
                &&& self.is_sized()
            },
            LoadPhase::CreateStaging => {
                &&& !store.cache.contains(self.key)
                &&& self.is_sized()
            },
            LoadPhase::Fill { staging } => {
                &&& !store.cache.contains(self.key)
                &&& self.is_sized()
                &&& self.size <= staging.size
            },
            LoadPhase::Bind { texture } => {
                &&& !store.cache.contains(self.key)
                &&& texture.width == self.width
                &&& texture.height == self.height
            },
            _ => {
                &&& !store.cache.contains(self.key)
                &&& self.is_sized()
                &&& self.size <= store.staging.size
            },
        }
    }
}

/// The load and the store after a reply.
pub open spec fn load_next(load: Load, store: StoreView, reply: LoadReply) -> (Load, StoreView) {
    match reply {
        LoadReply::Failed => (Load { failed: true, ..load }, store),
        LoadReply::Decoded { width, height, size } => (
            Load { width, height, size, phase: LoadPhase::WaitIdle, ..load },
            store,
        ),
        LoadReply::Buffer { buffer, memory } => (
            load.at(LoadPhase::Fill { staging: Staging { buffer, memory, size: load.size } }),
            store,
        ),
        LoadReply::Handle(handle) => (
            match load.phase {
                LoadPhase::CreateImage => load.at(LoadPhase::Allocate { image: handle }),
                LoadPhase::Allocate { image } => load.at(
                    LoadPhase::BindMemory { image, memory: handle },
                ),
                LoadPhase::CreateView { image, memory } => load.at(
                    LoadPhase::Bind {
                        texture: Texture {
                            image,
                            memory,
                            view: handle,
                            width: load.width,
                            height: load.height,
                        },
                    },
                ),
                _ => load,
            },
            store,
        ),
        LoadReply::Done => match load.phase {
            LoadPhase::WaitIdle => (
                load.at(
                    if load.size > store.staging.size {
                        LoadPhase::DropBuffer
                    } else {
                        LoadPhase::Fill { staging: store.staging }
                    },
                ),
                store,
            ),
            LoadPhase::DropBuffer => (load.at(LoadPhase::DropMemory), store),
            LoadPhase::DropMemory => (load.at(LoadPhase::CreateStaging), store),
            LoadPhase::Fill { staging } => (
                load.at(LoadPhase::CreateImage),
                StoreView { staging, ..store },
            ),
            LoadPhase::BindMemory { image, memory } => (
                load.at(LoadPhase::Copy { image, memory }),
                store,
            ),
            LoadPhase::Copy { image, memory } => (
                load.at(LoadPhase::CreateView { image, memory }),
                store,
            ),
            LoadPhase::Bind { texture } => (
                load.at(
                    match store.cache.evicted() {
                        Some(old) => LoadPhase::ReleaseView { texture: old },
                        None => LoadPhase::Finished,
                    },
                ),
                StoreView { cache: store.cache.inserted(load.key, texture), ..store },
            ),
            LoadPhase::ReleaseView { texture } => (
                load.at(LoadPhase::ReleaseImage { texture }),
                store,
            ),
            LoadPhase::ReleaseImage { texture } => (
                load.at(LoadPhase::ReleaseMemory { texture }),
                store,
            ),
            LoadPhase::ReleaseMemory { .. } => (load.at(LoadPhase::Finished), store),
            LoadPhase::Cached { .. } => (load.at(LoadPhase::Finished), store),
            _ => (load, store),
        },
    }
}

impl Load {
    /// Starts to load the image with number `key`. One that is in the cache has been used again,
    /// and needs nothing but to be bound.
    pub fn start(store: &mut TextureStore, key: usize) -> (load: Load)
        requires
            old(store).cache@.wf(),
        ensures
            load.key == key,
            !load.failed,
            load.fits(final(store)@),
            old(store).cache@.contains(key) ==> {
                let texture = old(store).cache@.textures[key];
                &&& load.phase == LoadPhase::Cached { texture }
                &&& load.width == texture.width
                &&& load.height == texture.height
                &&& final(store)@ == (StoreView {
                    cache: old(store).cache@.touched(key),
                    ..old(store)@
                })
            },
            !old(store).cache@.contains(key) ==> {
                &&& load.phase == LoadPhase::Decode
                &&& final(store)@ == old(store)@
            },
    {
        match store.cache.lookup(key) {
            Some(texture) => Load {
                key,
                width: texture.width,
                height: texture.height,
                size: 0,
                phase: LoadPhase::Cached { texture },
                failed: false,
            },
            None => Load {
                key,
                width: 0,
                height: 0,
                size: 0,
                phase: LoadPhase::Decode,
                failed: false,
            },
        }
    }

    /// What the load needs next.
    pub fn action(&self, store: &TextureStore) -> (action: LoadAction)
        requires
            self.fits(store@),
        ensures
            action == load_action(*self, store@),
    {
        if self.failed {
            return LoadAction::Failed;
        }
        match self.phase {
            LoadPhase::Cached { texture } => LoadAction::Bind { view: texture.view },
            LoadPhase::Decode => LoadAction::Decode,
            LoadPhase::WaitIdle => LoadAction::WaitIdle,
            LoadPhase::DropBuffer => LoadAction::Destroy(Resource::Buffer(store.staging.buffer)),
            LoadPhase::DropMemory => LoadAction::Destroy(Resource::Memory(store.staging.memory)),
            LoadPhase::CreateStaging => LoadAction::CreateStaging {
                staging: staging_config(self.size),
            },
            LoadPhase::Fill { staging } => LoadAction::Fill {
                memory: staging.memory,
                size: self.size,
            },
            LoadPhase::CreateImage => LoadAction::CreateImage {
                texture: texture_config(self.width, self.height),
            },
            LoadPhase::Allocate { image } => LoadAction::Allocate {
                image,
                properties: DEVICE_LOCAL,
            },
            LoadPhase::BindMemory { image, memory } => LoadAction::BindMemory { image, memory },
            LoadPhase::Copy { image, memory: _ } => LoadAction::Copy {
                buffer: store.staging.buffer,
                image,
                width: self.width,
                height: self.height,
            },
            LoadPhase::CreateView { image, memory: _ } => LoadAction::CreateView {
                image,
                description: view_config(R8G8B8A8_SRGB),
            },
            LoadPhase::Bind { texture } => LoadAction::Bind { view: texture.view },
            LoadPhase::ReleaseView { texture } => LoadAction::Destroy(
                Resource::ImageView(texture.view),
            ),
            LoadPhase::ReleaseImage { texture } => LoadAction::Destroy(
                Resource::Image(texture.image),
            ),
            LoadPhase::ReleaseMemory { texture } => LoadAction::Destroy(
                Resource::Memory(texture.memory),
            ),
            LoadPhase::Finished => LoadAction::Finished { width: self.width, height: self.height },
        }
    }

    /// Goes on after the reply to what the load asked for.
    pub fn advance(&mut self, store: &mut TextureStore, reply: LoadReply)
        requires
            old(self).expects(reply),
            old(self).fits(old(store)@),
        ensures
            (*final(self), final(store)@) == load_next(*old(self), old(store)@, reply),
            final(self).fits(final(store)@),
    {
        match reply {
            LoadReply::Failed => {
                self.failed = true;
            },
            LoadReply::Decoded { width, height, size } => {
                self.width = width;
                self.height = height;
                self.size = size;
                self.phase = LoadPhase::WaitIdle;
            },
            LoadReply::Buffer { buffer, memory } => {
                self.phase = LoadPhase::Fill {
                    staging: Staging { buffer, memory, size: self.size },
                };
            },
            LoadReply::Handle(handle) => match self.phase {
                LoadPhase::CreateImage => {
                    self.phase = LoadPhase::Allocate { image: handle };
                },
                LoadPhase::Allocate { image } => {
                    self.phase = LoadPhase::BindMemory { image, memory: handle };
                },
                LoadPhase::CreateView { image, memory } => {
                    let texture: Texture = Texture {
                        image,
                        memory,
                        view: handle,
                        width: self.width,
                        height: self.height,
                    };
                    self.phase = LoadPhase::Bind { texture };
                },
                _ => {},
            },
            LoadReply::Done => self.step(store),
        }
    }

    fn step(&mut self, store: &mut TextureStore)
        requires
            old(self).expects(LoadReply::Done),
            old(self).fits(old(store)@),
        ensures
            (*final(self), final(store)@) == load_next(*old(self), old(store)@, LoadReply::Done),
            final(self).fits(final(store)@),
    {
        match self.phase {
            LoadPhase::WaitIdle => {
                self.phase = if self.size > store.staging.size {
                    LoadPhase::DropBuffer
                } else {
                    LoadPhase::Fill { staging: store.staging }
                };
            },
            LoadPhase::DropBuffer => {
                self.phase = LoadPhase::DropMemory;
            },
            LoadPhase::DropMemory => {
                self.phase = LoadPhase::CreateStaging;
            },
            LoadPhase::Fill { staging } => {
                store.staging = staging;
                self.phase = LoadPhase::CreateImage;
            },
            LoadPhase::BindMemory { image, memory } => {
                self.phase = LoadPhase::Copy { image, memory };
            },
            LoadPhase::Copy { image, memory } => {
                self.phase = LoadPhase::CreateView { image, memory };
            },
            LoadPhase::Bind { texture } => {
                self.phase = match store.cache.insert(self.key, texture) {
                    Some(old_texture) => LoadPhase::ReleaseView { texture: old_texture },
                    None => LoadPhase::Finished,
                };
            },
            LoadPhase::ReleaseView { texture } => {
                self.phase = LoadPhase::ReleaseImage { texture };
            },
            LoadPhase::ReleaseImage { texture } => {
                self.phase = LoadPhase::ReleaseMemory { texture };
            },
            LoadPhase::ReleaseMemory { texture: _ } => {
                self.phase = LoadPhase::Finished;
            },
            LoadPhase::Cached { texture: _ } => {
                self.phase = LoadPhase::Finished;
            },
            _ => {},
        }
    }
}

impl Load {
    /// The GPU objects that the load itself has in hand: those of an image that is not in the
    /// cache yet, and what is left of one that has left it.
    pub open spec fn held(self) -> Seq<Resource> {
        match self.phase {
            LoadPhase::Allocate { image } => seq![Resource::Image(image)],
            LoadPhase::BindMemory { image, memory } => seq![
                Resource::Image(image),
                Resource::Memory(memory),
            ],
            LoadPhase::Copy { image, memory } => seq![
                Resource::Image(image),
                Resource::Memory(memory),
            ],
            LoadPhase::CreateView { image, memory } => seq![
                Resource::Image(image),
                Resource::Memory(memory),
            ],
            LoadPhase::Bind { texture } => texture_parts(texture),
            LoadPhase::ReleaseView { texture } => texture_parts(texture),
            LoadPhase::ReleaseImage { texture } => seq![
                Resource::Image(texture.image),
                Resource::Memory(texture.memory),
            ],
            LoadPhase::ReleaseMemory { texture } => seq![Resource::Memory(texture.memory)],
            _ => Seq::empty(),
        }
    }

    /// The GPU objects of the staging buffer that exist: those that the store names, without those
    /// that have been destroyed and not replaced, and those of a new buffer.
    pub open spec fn live_staging(self, store: StoreView) -> Seq<Resource> {
        match self.phase {
            LoadPhase::DropMemory => seq![Resource::Memory(store.staging.memory)],
            LoadPhase::CreateStaging => Seq::empty(),
            LoadPhase::Fill { staging } => staging_parts(staging),
            _ => staging_parts(store.staging),
        }
    }

    /// All GPU objects of the load and the store that exist.
    pub open spec fn live(self, store: StoreView) -> Multiset<Resource> {
        self.held().to_multiset().add(self.live_staging(store).to_multiset()).add(
            all_texture_parts(store.cache.in_order()).to_multiset(),
        )
    }

    /// The GPU objects that the step of this phase made.
    pub open spec fn made(self, reply: LoadReply) -> Seq<Resource> {
        match reply {
            LoadReply::Buffer { buffer, memory } => seq![
                Resource::Buffer(buffer),
                Resource::Memory(memory),
            ],
            LoadReply::Handle(handle) => match self.phase {
                LoadPhase::CreateImage => seq![Resource::Image(handle)],
                LoadPhase::Allocate { .. } => seq![Resource::Memory(handle)],
                LoadPhase::CreateView { .. } => seq![Resource::ImageView(handle)],
                _ => Seq::empty(),
            },
            _ => Seq::empty(),
        }
    }

    /// The GPU object that the step of this phase destroyed, if it did.
    pub open spec fn destroyed(self, store: StoreView) -> Seq<Resource> {
        match load_action(self, store) {
            LoadAction::Destroy(resource) => seq![resource],
            _ => Seq::empty(),
        }
    }
}

/// No step of a load loses a GPU object or destroys one twice: what exists afterwards, and what the
/// step destroyed, is what existed before and what the step made. At its start and at its end a load
/// leaves the objects that the store names, and no others.
#[verifier::spinoff_prover]
#[verifier::rlimit(40)]
pub proof fn law_load_keeps_account(load: Load, store: StoreView, reply: LoadReply)
    requires
        load.expects(reply),
        load.fits(store),
    ensures
        ({
            let (load2, store2) = load_next(load, store, reply);
            &&& load2.live(store2).add(load.destroyed(store).to_multiset()) == load.live(
                store,
            ).add(load.made(reply).to_multiset())
            &&& load2.phase == LoadPhase::Finished ==> load2.live(store2) == store2.owned()
        }),
        load.phase == LoadPhase::Decode || load.phase is Cached ==> load.live(store)
            == store.owned(),
{
    let (load2, store2) = load_next(load, store, reply);
    let after = load2.held() + load2.live_staging(store2) + load.destroyed(store);
    let before = load.held() + load.live_staging(store) + load.made(reply);
    assert(Seq::<Resource>::empty().to_multiset() =~= Multiset::empty()) by {
        broadcast use vstd::seq_lib::group_to_multiset_ensures;

    }
    lemma_joined(load2.held(), load2.live_staging(store2));
    lemma_joined(load2.held() + load2.live_staging(store2), load.destroyed(store));
    lemma_joined(load.held(), load.live_staging(store));
    lemma_joined(load.held() + load.live_staging(store), load.made(reply));
    match load.phase {
        LoadPhase::Bind { texture } if reply is Done => {
            lemma_insertion_account(store.cache, load.key, texture);
            let came = all_texture_parts(store2.cache.in_order()).to_multiset();
            let went = all_texture_parts(store.cache.in_order()).to_multiset();
            assert forall|r: Resource|
                came.count(r) + load2.held().to_multiset().count(r) == #[trigger] went.count(r)
                    + load.held().to_multiset().count(r) by {
                assert(came.add(load2.held().to_multiset()).count(r) == went.add(
                    load.held().to_multiset(),
                ).count(r));
            }
        },
        LoadPhase::DropBuffer => {
            lemma_joined(load.destroyed(store), load2.live_staging(store2));
            assert(load.live_staging(store) =~= load.destroyed(store) + load2.live_staging(
                store2,
            ));
        },
        LoadPhase::Allocate { .. } if reply is Handle => {
            lemma_joined(load.held(), load.made(reply));
            assert(load2.held() =~= load.held() + load.made(reply));
        },
        LoadPhase::CreateView { .. } if reply is Handle => {
            lemma_joined(load.made(reply), load.held());
            assert(load2.held() =~= load.made(reply) + load.held());
        },
        LoadPhase::ReleaseView { .. } => {
            lemma_joined(load.destroyed(store), load2.held());
            assert(load.held() =~= load.destroyed(store) + load2.held());
        },
        LoadPhase::ReleaseImage { .. } => {
            lemma_joined(load.destroyed(store), load2.held());
            assert(load.held() =~= load.destroyed(store) + load2.held());
        },
        _ => {},
    }
    assert(load2.live(store2).add(load.destroyed(store).to_multiset()) =~= load.live(store).add(
        load.made(reply).to_multiset(),
    ));
    assert(load2.phase == LoadPhase::Finished ==> load2.live(store2) =~= store2.owned());
    assert(load.phase == LoadPhase::Decode || load.phase is Cached ==> load.live(store)
        =~= store.owned());
}

/// The objects of the cache after an insertion, with those of the texture that left, are its
/// objects before and those of the texture that came.
proof fn lemma_insertion_account(cache: CacheView, key: usize, texture: Texture)
    requires
        cache.wf(),
        !cache.contains(key),
    ensures
        all_texture_parts(cache.inserted(key, texture).in_order()).to_multiset().add(
            (match cache.evicted() {
                Some(old_texture) => texture_parts(old_texture),
                None => Seq::empty(),
            }).to_multiset(),
        ) == all_texture_parts(cache.in_order()).to_multiset().add(
            texture_parts(texture).to_multiset(),
        ),
{
    let after = cache.inserted(key, texture);
    let old_textures = cache.in_order();
    assert forall|i: int| 0 <= i < cache.order.len() implies cache.order[i] != key by {
        if cache.order[i] == key {
            assert(cache.order.to_set().contains(key));
        }
    }
    lemma_parts_of_one(texture);
    if cache.is_full() {
        let kept = old_textures.drop_first();
        assert(after.in_order() =~= kept + seq![texture]);
        assert(old_textures =~= seq![old_textures[0]] + kept);
        lemma_parts_of_one(old_textures[0]);
        lemma_parts_joined(kept, seq![texture]);
        lemma_parts_joined(seq![old_textures[0]], kept);
        lemma_joined(all_texture_parts(kept), texture_parts(texture));
        lemma_joined(texture_parts(old_textures[0]), all_texture_parts(kept));
    } else {
        assert(after.in_order() =~= old_textures + seq![texture]);
        lemma_parts_joined(old_textures, seq![texture]);
        lemma_joined(all_texture_parts(old_textures), texture_parts(texture));
        assert(Seq::<Resource>::empty().to_multiset() =~= Multiset::empty()) by {
            broadcast use vstd::seq_lib::group_to_multiset_ensures;

        }
    }
    assert(all_texture_parts(after.in_order()).to_multiset().add(
        (match cache.evicted() {
            Some(old_texture) => texture_parts(old_texture),
            None => Seq::empty(),
        }).to_multiset(),
    ) =~= all_texture_parts(old_textures).to_multiset().add(texture_parts(texture).to_multiset()));
}

/// Using a cached image again changes nothing in what the store holds.
pub proof fn law_reuse_keeps_account(store: StoreView, key: usize)
    requires
        store.cache.wf(),
        store.cache.contains(key),
    ensures
        (StoreView { cache: store.cache.touched(key), ..store }).owned() == store.owned(),
{
    let cache = store.cache;
    let after = cache.touched(key);
    assert(cache.order.contains(key)) by {
        assert(cache.order.to_set().contains(key));
    }
    cache.order.index_of_first_ensures(key);
    let pos = cache.order.index_of_first(key)->0;
    let textures = cache.in_order();
    let front = textures.take(pos);
    let back = textures.skip(pos + 1);
    let one = seq![textures[pos]];
    assert(textures =~= front + one + back);
    assert(after.in_order() =~= front + back + one);
    lemma_parts_joined(front + one, back);
    lemma_parts_joined(front, one);
    lemma_parts_joined(front + back, one);
    lemma_parts_joined(front, back);
    lemma_joined(all_texture_parts(front) + all_texture_parts(one), all_texture_parts(back));
    lemma_joined(all_texture_parts(front), all_texture_parts(one));
    lemma_joined(all_texture_parts(front) + all_texture_parts(back), all_texture_parts(one));
    lemma_joined(all_texture_parts(front), all_texture_parts(back));
    assert(all_texture_parts(after.in_order()).to_multiset() =~= all_texture_parts(
        textures,
    ).to_multiset());
}

impl LoadPhase {
    /// How many steps a load at this phase needs at most.
    pub open spec fn steps_left(self) -> nat {
        match self {
            LoadPhase::Decode => 15,
            LoadPhase::WaitIdle => 14,
            LoadPhase::DropBuffer => 13,
            LoadPhase::DropMemory => 12,
            LoadPhase::CreateStaging => 11,
            LoadPhase::Fill { .. } => 10,
            LoadPhase::CreateImage => 9,
            LoadPhase::Allocate { .. } => 8,
            LoadPhase::BindMemory { .. } => 7,
            LoadPhase::Copy { .. } => 6,
            LoadPhase::CreateView { .. } => 5,
            LoadPhase::Bind { .. } => 4,
            LoadPhase::ReleaseView { .. } => 3,
            LoadPhase::ReleaseImage { .. } => 2,
            LoadPhase::ReleaseMemory { .. } => 1,
            LoadPhase::Cached { .. } => 1,
            LoadPhase::Finished => 0,
        }
    }
}

/// Every load ends: each step fails or brings it closer to its end, and only a finished load has
/// no step left.
pub proof fn law_load_ends(load: Load, store: StoreView, reply: LoadReply)
    requires
        load.expects(reply),
        load.fits(store),
    ensures
        ({
            let next = load_next(load, store, reply).0;
            next.failed || next.phase.steps_left() < load.phase.steps_left()
        }),
        load.phase.steps_left() == 0 <==> load.phase == LoadPhase::Finished,
{
}

/// The pixels are written to and copied from a staging buffer that has room for all of them: where a
/// load fills the buffer or copies an image from it, four bytes for each pixel fit.
pub proof fn law_pixels_fit_the_staging_buffer(load: Load, store: StoreView)
    requires
        load.fits(store),
        !load.failed,
    ensures
        match load_action(load, store) {
            LoadAction::Fill { memory, size } => {
                &&& load.phase matches LoadPhase::Fill { staging }
                &&& memory == staging.memory
                &&& size == 4 * load.width * load.height
                &&& size <= staging.size
            },
            LoadAction::Copy { buffer, width, height, .. } => {
                &&& buffer == store.staging.buffer
                &&& 4 * width * height <= store.staging.size
            },
            _ => true,
        },
{
}

/// An image that has been uploaded and bound is in the cache with its size, as the one used last,
/// and it stays there while the texture that it displaced is released.
pub proof fn law_loaded_image_is_cached(load: Load, store: StoreView, texture: Texture)
    requires
        load.fits(store),
        load.phase == (LoadPhase::Bind { texture }),
    ensures
        ({
            let (next, after) = load_next(load, store, LoadReply::Done);
            &&& after.cache.contains(load.key)
            &&& after.cache.textures[load.key] == texture
            &&& texture.width == load.width
            &&& texture.height == load.height
            &&& after.cache.order.last() == load.key
            &&& next.phase is ReleaseView || next.phase is Finished
            &&& forall|released: Load, reply: LoadReply|
                #![trigger load_next(released, after, reply)]
                (released.phase is ReleaseView || released.phase is ReleaseImage
                    || released.phase is ReleaseMemory) && released.expects(reply)
                    ==> load_next(released, after, reply).1 == after
        }),
{
}

/// A load takes over the size of the decoded picture as it is, width for width and height for height,
/// and no other step changes it, nor the number of the image.
pub proof fn law_load_keeps_the_size(load: Load, store: StoreView, reply: LoadReply)
    ensures
        ({
            let next = load_next(load, store, reply).0;
            &&& next.key == load.key
            &&& match reply {
                LoadReply::Decoded { width, height, size } => {
                    &&& next.width == width
                    &&& next.height == height
                    &&& next.size == size
                },
                _ => {
                    &&& next.width == load.width
                    &&& next.height == load.height
                    &&& next.size == load.size
                },
            }
        }),
{
}

/// The load and the store after a series of replies.
pub open spec fn after_replies(load: Load, store: StoreView, replies: Seq<LoadReply>) -> (
    Load,
    StoreView,
)
    decreases replies.len(),
{
    if replies.len() == 0 {
        (load, store)
    } else {
        let (before, kept) = after_replies(load, store, replies.drop_last());
        load_next(before, kept, replies.last())
    }
}

/// Each of the replies is one that the load can have at that point.
pub open spec fn can_have(load: Load, store: StoreView, replies: Seq<LoadReply>) -> bool
    decreases replies.len(),
{
    replies.len() > 0 ==> {
        &&& can_have(load, store, replies.drop_last())
        &&& after_replies(load, store, replies.drop_last()).0.expects(replies.last())
    }
}

/// From the decoded picture to the end of a load nothing turns or stretches it: the image on the GPU,
/// the copy and what the load reports at its end have the width and the height that were decoded, and
/// so has the texture that is bound and the one that is then in the cache under the number of the
/// image. Just as many bytes as were decoded are staged.
pub proof fn law_picture_arrives_as_it_was_decoded(
    load: Load,
    store: StoreView,
    width: u32,
    height: u32,
    size: u64,
    replies: Seq<LoadReply>,
)
    requires
        load.phase == LoadPhase::Decode,
        load.fits(store),
        load.expects(LoadReply::Decoded { width, height, size }),
        can_have(
            load_next(load, store, LoadReply::Decoded { width, height, size }).0,
            load_next(load, store, LoadReply::Decoded { width, height, size }).1,
            replies,
        ),
    ensures
        ({
            let (decoded, kept) = load_next(load, store, LoadReply::Decoded { width, height, size });
            let (later, after) = after_replies(decoded, kept, replies);
            &&& later.key == load.key
            &&& later.width == width
            &&& later.height == height
            &&& match load_action(later, after) {
                LoadAction::CreateStaging { staging } => staging.size == size,
                LoadAction::Fill { size: filled, .. } => filled == size,
                LoadAction::CreateImage { texture } => {
                    &&& texture.width == width
                    &&& texture.height == height
                },
                LoadAction::Copy { width: w, height: h, .. } => w == width && h == height,
                LoadAction::Bind { view } => {
                    &&& later.phase matches LoadPhase::Bind { texture }
                    &&& texture.view == view
                    &&& texture.width == width
                    &&& texture.height == height
                },
                LoadAction::Finished { width: w, height: h } => {
                    &&& w == width
                    &&& h == height
                    &&& after.cache.contains(load.key)
                    &&& after.cache.textures[load.key].width == width
                    &&& after.cache.textures[load.key].height == height
                },
                _ => true,
            }
        }),
{
    lemma_picture_arrives(load, store, width, height, size, replies);
}

/// What holds of a load from the decoded picture on.
spec fn carries(load: Load, store: StoreView, key: usize, width: u32, height: u32, size: u64) -> bool {
    &&& load.fits(store)
    &&& load.key == key
    &&& load.width == width
    &&& load.height == height
    &&& load.size == size
    &&& match load.phase {
        LoadPhase::Cached { .. } => false,
        LoadPhase::Decode => false,
        LoadPhase::ReleaseView { .. } => holds(store, key, width, height),
        LoadPhase::ReleaseImage { .. } => holds(store, key, width, height),
        LoadPhase::ReleaseMemory { .. } => holds(store, key, width, height),
        LoadPhase::Finished => holds(store, key, width, height),
        _ => true,
    }
}

spec fn holds(store: StoreView, key: usize, width: u32, height: u32) -> bool {
    &&& store.cache.contains(key)
    &&& store.cache.textures[key].width == width
    &&& store.cache.textures[key].height == height
}

proof fn lemma_picture_arrives(
    load: Load,
    store: StoreView,
    width: u32,
    height: u32,
    size: u64,
    replies: Seq<LoadReply>,
)
    requires
        load.phase == LoadPhase::Decode,
        load.fits(store),
        load.expects(LoadReply::Decoded { width, height, size }),
        can_have(
            load_next(load, store, LoadReply::Decoded { width, height, size }).0,
            load_next(load, store, LoadReply::Decoded { width, height, size }).1,
            replies,
        ),
    ensures
        ({
            let (decoded, kept) = load_next(load, store, LoadReply::Decoded { width, height, size });
            let (later, after) = after_replies(decoded, kept, replies);
            carries(later, after, load.key, width, height, size)
        }),
    decreases replies.len(),
{
    let (decoded, kept) = load_next(load, store, LoadReply::Decoded { width, height, size });
    if replies.len() > 0 {
        lemma_picture_arrives(load, store, width, height, size, replies.drop_last());
        let (before, held) = after_replies(decoded, kept, replies.drop_last());
        lemma_inserted_cache(held.cache, before);
        if let LoadPhase::Bind { texture } = before.phase {
            law_cache_gives_back(held.cache, before.key, texture);
        }
    }
}

/// The cache stays well formed when a bound texture comes into it.
proof fn lemma_inserted_cache(cache: CacheView, load: Load)
    requires
        cache.wf(),
        load.phase is Bind ==> !cache.contains(load.key),
    ensures
        load.phase matches LoadPhase::Bind { texture } ==> cache.inserted(load.key, texture).wf(),
{
    if let LoadPhase::Bind { texture } = load.phase {
        assert(!cache.order.contains(load.key)) by {
            if cache.order.contains(load.key) {
                assert(cache.order.to_set().contains(load.key));
            }
        }
        lemma_inserted(cache, load.key, texture);
    }
}

/// What a load asks for, seen from outside: every request follows from the one before and the reply
/// to it. The pixels go through the staging buffer of the store if that has room for them, and
/// otherwise through a new one of just their size, after the old one is gone. The image that was made
/// is the one that gets the memory, the pixels and the view, and that view is bound. A texture goes
/// only if the cache is full, and then it is the one used longest ago, whose view, image and memory
/// are destroyed in this order. After a failure nothing more is asked for.
pub proof fn law_load_step_by_step(load: Load, store: StoreView, reply: LoadReply)
    requires
        load.expects(reply),
        load.fits(store),
    ensures
        ({
            let (next, after) = load_next(load, store, reply);
            let request = load_action(next, after);
            match (load_action(load, store), reply) {
                (_, LoadReply::Failed) => request == LoadAction::Failed && after == store,
                (LoadAction::Decode, _) => request == LoadAction::WaitIdle && after == store,
                (LoadAction::WaitIdle, _) => {
                    &&& after == store
                    &&& load.size > store.staging.size ==> request == LoadAction::Destroy(
                        Resource::Buffer(store.staging.buffer),
                    )
                    &&& load.size <= store.staging.size ==> request == LoadAction::Fill {
                        memory: store.staging.memory,
                        size: load.size,
                    }
                },
                (LoadAction::Destroy(Resource::Buffer(buffer)), _) => {
                    &&& after == store
                    &&& buffer == store.staging.buffer
                    &&& request == LoadAction::Destroy(Resource::Memory(store.staging.memory))
                },
                (LoadAction::CreateStaging { staging }, LoadReply::Buffer { buffer, memory }) => {
                    &&& after == store
                    &&& staging.size == load.size
                    &&& staging == staging_buffer(load.size)
                    &&& request == LoadAction::Fill { memory, size: load.size }
                    &&& next.phase == LoadPhase::Fill {
                        staging: Staging { buffer, memory, size: load.size },
                    }
                },
                (LoadAction::Fill { memory, size }, _) => {
                    &&& request is CreateImage
                    &&& after.cache == store.cache
                    &&& after.staging.memory == memory
                    &&& load.phase == LoadPhase::Fill { staging: after.staging }
                },
                (LoadAction::CreateImage { texture }, LoadReply::Handle(image)) => {
                    &&& after == store
                    &&& texture.width == load.width
                    &&& texture.height == load.height
                    &&& texture == texture_image(load.width, load.height)
                    &&& request == LoadAction::Allocate { image, properties: 1 }
                },
                (LoadAction::Allocate { image, .. }, LoadReply::Handle(memory)) => {
                    &&& after == store
                    &&& request == LoadAction::BindMemory { image, memory }
                },
                (LoadAction::BindMemory { image, .. }, _) => {
                    &&& after == store
                    &&& request == LoadAction::Copy {
                        buffer: store.staging.buffer,
                        image,
                        width: load.width,
                        height: load.height,
                    }
                },
                (LoadAction::Copy { image, .. }, _) => {
                    &&& after == store
                    &&& request is CreateView
                    &&& request->CreateView_image == image
                    &&& request->CreateView_description == (ViewConfig {
                        kind: 1,
                        format: 43,
                        range: ImageRange {
                            aspect: 1,
                            first_level: 0,
                            levels: 1,
                            first_layer: 0,
                            layers: 1,
                        },
                    })
                },
                (LoadAction::CreateView { image, .. }, LoadReply::Handle(view)) => {
                    &&& after == store
                    &&& request == LoadAction::Bind { view }
                    &&& next.phase matches LoadPhase::Bind { texture }
                    &&& texture.image == image
                    &&& texture.view == view
                    &&& load.phase == LoadPhase::CreateView { image, memory: texture.memory }
                },
                (LoadAction::Bind { .. }, _) => {
                    let cached = load.phase is Cached;
                    let full = store.cache.order.len() >= store.cache.capacity;
                    &&& after.staging == store.staging
                    &&& cached ==> after == store
                    &&& cached || !full ==> request == LoadAction::Finished {
                        width: load.width,
                        height: load.height,
                    }
                    &&& !cached && full ==> {
                        let oldest = store.cache.textures[store.cache.order[0]];
                        &&& request == LoadAction::Destroy(Resource::ImageView(oldest.view))
                        &&& next.phase == LoadPhase::ReleaseView { texture: oldest }
                    }
                },
                (LoadAction::Destroy(Resource::ImageView(_)), _) => {
                    &&& after == store
                    &&& load.phase matches LoadPhase::ReleaseView { texture }
                    &&& next.phase == LoadPhase::ReleaseImage { texture }
                    &&& request == LoadAction::Destroy(Resource::Image(texture.image))
                },
                (LoadAction::Destroy(Resource::Image(_)), _) => {
                    &&& after == store
                    &&& load.phase matches LoadPhase::ReleaseImage { texture }
                    &&& next.phase == LoadPhase::ReleaseMemory { texture }
                    &&& request == LoadAction::Destroy(Resource::Memory(texture.memory))
                },
                (LoadAction::Destroy(_), _) => {
                    &&& after == store
                    &&& request is CreateStaging || request == LoadAction::Finished {
                        width: load.width,
                        height: load.height,
                    }
                    &&& request is CreateStaging <==> load.phase is DropMemory
                },
                _ => false,
            }
        }),
{
}

/// An image that is found in the cache is bound by its own view, and nothing else is done.
pub proof fn law_cached_image_is_bound(load: Load, store: StoreView, texture: Texture)
    requires
        !load.failed,
        load.phase == (LoadPhase::Cached { texture }),
    ensures
        load_action(load, store) == (LoadAction::Bind { view: texture.view }),
        load_next(load, store, LoadReply::Done).1 == store,
        load_action(
            load_next(load, store, LoadReply::Done).0,
            store,
        ) == (LoadAction::Finished { width: load.width, height: load.height }),
{
}

} // verus!
