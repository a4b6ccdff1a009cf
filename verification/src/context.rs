//! The GPU objects that the viewer holds, and the order in which it gives them back.

use vstd::multiset::Multiset;
use vstd::prelude::*;

use crate::cache::{CacheView, Texture, TextureCache};
use crate::surface::Extent;

verus! {

/// A GPU object that has to be destroyed, with its handle.
#[derive(Clone, Copy, Debug, PartialEq, Eq, Structural)]
pub enum Resource {
    ImageView(u64),
    Image(u64),
    Memory(u64),
    Buffer(u64),
    Semaphore(u64),
    Fence(u64),
    CommandPool(u64),
    Pipeline(u64),
    PipelineLayout(u64),
    Swapchain(u64),
    Sampler(u64),
    DescriptorPool(u64),
    DescriptorSetLayout(u64),
    Device,
    Surface,
    Instance,
}

/// One step of giving everything back.
#[derive(Clone, Copy, Debug, PartialEq, Eq, Structural)]
pub enum TeardownStep {
    /// The GPU finishes what it does. Whether that succeeds does not matter.
    WaitIdle,
    Destroy(Resource),
}

/// The images that are shown in the window, with the views through which they are drawn to.
pub struct Swapchain {
    pub handle: u64,
    pub images: Vec<u64>,
    pub views: Vec<u64>,
    pub format: i32,
    pub extent: Extent,
}

/// The mathematical value of a swapchain.
#[verifier::ext_equal]
pub struct SwapchainView {
    pub handle: u64,
    pub images: Seq<u64>,
    pub views: Seq<u64>,
    pub format: i32,
    pub extent: Extent,
}

impl View for Swapchain {
    type V = SwapchainView;

    open spec fn view(&self) -> SwapchainView {
        SwapchainView {
            handle: self.handle,
            images: self.images@,
            views: self.views@,
            format: self.format,
            extent: self.extent,
        }
    }
}

/// The buffer through which pixels go to the GPU, and how many bytes fit into it.
#[derive(Clone, Copy, Debug, PartialEq, Eq, Structural)]
pub struct Staging {
    pub buffer: u64,
    pub memory: u64,
    pub size: u64,
}

/// What has to be made again when the window changes its size. It names an object until another one
/// has taken its place.
pub struct Presentation {
    pub swapchain: Swapchain,
    pub pipeline: u64,
}

/// The uploaded images and the staging buffer. It names a staging buffer until another one has taken
/// its place.
pub struct TextureStore {
    pub staging: Staging,
    pub cache: TextureCache,
}

/// All GPU objects of a running viewer.
pub struct Context {
    pub present: Presentation,
    pub textures: TextureStore,
    pub descriptor_layout: u64,
    pub pipeline_layout: u64,
    pub command_pool: u64,
    pub command_buffers: Vec<u64>,
    pub descriptor_pool: u64,
    pub descriptor_sets: Vec<u64>,
    pub image_available: u64,
    pub render_done: u64,
    pub fence: u64,
    pub sampler: u64,
}

/// The image views with these handles.
pub open spec fn image_views(handles: Seq<u64>) -> Seq<Resource> {
    Seq::new(handles.len(), |i: int| Resource::ImageView(handles[i]))
}

/// The three objects of a texture, in the order in which they are destroyed.
pub open spec fn texture_parts(texture: Texture) -> Seq<Resource> {
    seq![
        Resource::ImageView(texture.view),
        Resource::Image(texture.image),
        Resource::Memory(texture.memory),
    ]
}

/// The objects of a series of textures.
pub open spec fn all_texture_parts(textures: Seq<Texture>) -> Seq<Resource>
    decreases textures.len(),
{
    if textures.len() == 0 {
        Seq::empty()
    } else {
        all_texture_parts(textures.drop_last()) + texture_parts(textures.last())
    }
}

/// The objects of a staging buffer.
pub open spec fn staging_parts(staging: Staging) -> Seq<Resource> {
    seq![Resource::Buffer(staging.buffer), Resource::Memory(staging.memory)]
}

/// The views of a swapchain and the swapchain. Its images go with it.
pub open spec fn swapchain_parts(swapchain: SwapchainView) -> Seq<Resource> {
    image_views(swapchain.views).push(Resource::Swapchain(swapchain.handle))
}

/// The steps that destroy these objects one after the other.
pub open spec fn destructions(order: Seq<Resource>) -> Seq<TeardownStep> {
    Seq::new(order.len(), |i: int| TeardownStep::Destroy(order[i]))
}

/// What a texture store holds, by its mathematical value.
#[verifier::ext_equal]
pub struct StoreView {
    pub staging: Staging,
    pub cache: CacheView,
}

impl StoreView {
    /// The objects that the store has to give back.
    pub open spec fn owned(self) -> Multiset<Resource> {
        staging_parts(self.staging).to_multiset().add(
            all_texture_parts(self.cache.in_order()).to_multiset(),
        )
    }
}

impl View for TextureStore {
    type V = StoreView;

    open spec fn view(&self) -> StoreView {
        StoreView { staging: self.staging, cache: self.cache@ }
    }
}

/// The mathematical value of what depends on the size of the window.
#[verifier::ext_equal]
pub struct PresentationView {
    pub swapchain: SwapchainView,
    pub pipeline: u64,
}

impl PresentationView {
    /// There is a view for each image of the swapchain.
    pub open spec fn complete(self) -> bool {
        self.swapchain.views.len() == self.swapchain.images.len()
    }

    /// The objects that have to be given back.
    pub open spec fn owned(self) -> Multiset<Resource> {
        swapchain_parts(self.swapchain).to_multiset().insert(Resource::Pipeline(self.pipeline))
    }
}

impl View for Presentation {
    type V = PresentationView;

    open spec fn view(&self) -> PresentationView {
        PresentationView { swapchain: self.swapchain@, pipeline: self.pipeline }
    }
}

impl Context {
    /// The objects that live as long as the viewer.
    pub open spec fn lasting_parts(self) -> Seq<Resource> {
        seq![
            Resource::DescriptorSetLayout(self.descriptor_layout),
            Resource::PipelineLayout(self.pipeline_layout),
            Resource::CommandPool(self.command_pool),
            Resource::DescriptorPool(self.descriptor_pool),
            Resource::Semaphore(self.image_available),
            Resource::Semaphore(self.render_done),
            Resource::Fence(self.fence),
            Resource::Sampler(self.sampler),
            Resource::Device,
            Resource::Surface,
            Resource::Instance,
        ]
    }

    /// All objects that the viewer names and has to give back.
    pub open spec fn owned(self) -> Multiset<Resource> {
        self.lasting_parts().to_multiset().add(self.present@.owned()).add(self.textures@.owned())
    }

    /// The order in which everything is destroyed at the end.
    pub open spec fn teardown_order(self) -> Seq<Resource> {
        all_texture_parts(self.textures@.cache.in_order()) + seq![
            Resource::Semaphore(self.image_available),
            Resource::Semaphore(self.render_done),
            Resource::Fence(self.fence),
            Resource::CommandPool(self.command_pool),
            Resource::Pipeline(self.present.pipeline),
            Resource::PipelineLayout(self.pipeline_layout),
        ] + swapchain_parts(self.present@.swapchain) + seq![Resource::Sampler(self.sampler)]
            + staging_parts(self.textures.staging) + seq![
            Resource::DescriptorPool(self.descriptor_pool),
            Resource::DescriptorSetLayout(self.descriptor_layout),
            Resource::Device,
            Resource::Surface,
            Resource::Instance,
        ]
    }

    /// What is done at the end: the GPU comes to rest, and then everything is destroyed.
    pub open spec fn teardown_plan(self) -> Seq<TeardownStep> {
        seq![TeardownStep::WaitIdle] + destructions(self.teardown_order())
    }

    /// What to do when the viewer ends, in this order.
    pub fn teardown(self) -> (plan: Vec<TeardownStep>)
        requires
            self.textures.cache@.wf(),
        ensures
            plan@ == self.teardown_plan(),
    {
        let order: Vec<Resource> = self.destruction_order();
        let mut plan: Vec<TeardownStep> = vec![TeardownStep::WaitIdle];
        let mut i: usize = 0;
        while i < order.len()
            invariant
                i <= order@.len(),
                plan@ =~= seq![TeardownStep::WaitIdle] + destructions(order@).take(i as int),
            decreases order@.len() - i,
        {
            plan.push(TeardownStep::Destroy(order[i]));
            i = i + 1;
        }
        assert(destructions(order@).take(i as int) =~= destructions(order@));
        plan
    }

    #[verifier::spinoff_prover]
    #[verifier::rlimit(40)]
    fn destruction_order(self) -> (order: Vec<Resource>)
        requires
            self.textures.cache@.wf(),
        ensures
            order@ == self.teardown_order(),
    {
        let mut store: TextureStore = self.textures;
        let mut order: Vec<Resource> = Vec::new();
        let textures: Vec<Texture> = store.cache.drain();
        let mut i: usize = 0;
        while i < textures.len()
            invariant
                i <= textures@.len(),
                order@ == all_texture_parts(textures@.take(i as int)),
            decreases textures@.len() - i,
        {
            order.push(Resource::ImageView(textures[i].view));
            order.push(Resource::Image(textures[i].image));
            order.push(Resource::Memory(textures[i].memory));
            i = i + 1;
            proof {
                assert(textures@.take(i as int).drop_last() =~= textures@.take(i - 1));
                assert(order@ =~= all_texture_parts(textures@.take(i as int)));
            }
        }
        let ghost first = all_texture_parts(self.textures@.cache.in_order());
        proof {
            assert(textures@.take(i as int) =~= textures@);
        }
        order.push(Resource::Semaphore(self.image_available));
        order.push(Resource::Semaphore(self.render_done));
        order.push(Resource::Fence(self.fence));
        order.push(Resource::CommandPool(self.command_pool));
        order.push(Resource::Pipeline(self.present.pipeline));
        order.push(Resource::PipelineLayout(self.pipeline_layout));
        let ghost second = first + seq![
            Resource::Semaphore(self.image_available),
            Resource::Semaphore(self.render_done),
            Resource::Fence(self.fence),
            Resource::CommandPool(self.command_pool),
            Resource::Pipeline(self.present.pipeline),
            Resource::PipelineLayout(self.pipeline_layout),
        ];
        assert(order@ =~= second);
        push_image_views(&mut order, &self.present.swapchain.views);
        order.push(Resource::Swapchain(self.present.swapchain.handle));
        order.push(Resource::Sampler(self.sampler));
        let ghost third = second + swapchain_parts(self.present@.swapchain) + seq![
            Resource::Sampler(self.sampler),
        ];
        assert(order@ =~= third);
        order.push(Resource::Buffer(store.staging.buffer));
        order.push(Resource::Memory(store.staging.memory));
        assert(order@ =~= third + staging_parts(self.textures.staging));
        order.push(Resource::DescriptorPool(self.descriptor_pool));
        order.push(Resource::DescriptorSetLayout(self.descriptor_layout));
        order.push(Resource::Device);
        order.push(Resource::Surface);
        order.push(Resource::Instance);
        proof {
            assert(order@ =~= self.teardown_order());
        }
        order
    }
}

fn push_image_views(order: &mut Vec<Resource>, handles: &Vec<u64>)
    ensures
        final(order)@ == old(order)@ + image_views(handles@),
{
    let mut i: usize = 0;
    while i < handles.len()
        invariant
            i <= handles@.len(),
            order@ =~= old(order)@ + image_views(handles@).take(i as int),
        decreases handles@.len() - i,
    {
        order.push(Resource::ImageView(handles[i]));
        i = i + 1;
    }
    proof {
        assert(order@ =~= old(order)@ + image_views(handles@));
    }
}

/// The multiset of two sequences one after the other.
pub(crate) proof fn lemma_joined<A>(a: Seq<A>, b: Seq<A>)
    ensures
        (a + b).to_multiset() == a.to_multiset().add(b.to_multiset()),
{
    vstd::seq_lib::lemma_multiset_commutative(a, b);
}

/// The parts of two series of textures one after the other.
pub(crate) proof fn lemma_parts_joined(a: Seq<Texture>, b: Seq<Texture>)
    ensures
        all_texture_parts(a + b) == all_texture_parts(a) + all_texture_parts(b),
    decreases b.len(),
{
    if b.len() == 0 {
        assert(a + b =~= a);
        assert(all_texture_parts(a) + all_texture_parts(b) =~= all_texture_parts(a));
    } else {
        lemma_parts_joined(a, b.drop_last());
        assert((a + b).drop_last() =~= a + b.drop_last());
        assert(all_texture_parts(a + b) =~= all_texture_parts(a) + all_texture_parts(b));
    }
}

/// The parts of one texture.
pub(crate) proof fn lemma_parts_of_one(texture: Texture)
    ensures
        all_texture_parts(seq![texture]) == texture_parts(texture),
{
    assert(seq![texture].drop_last() =~= Seq::empty());
    assert(all_texture_parts(Seq::empty()) =~= Seq::empty());
    assert(all_texture_parts(seq![texture]) =~= texture_parts(texture));
}

/// The end of the viewer destroys everything that it names, each object once, after the GPU has come
/// to rest: the textures first, and the device, the surface and the instance last. After a rebuild
/// or a load that failed halfway it still names what that has destroyed already.
#[verifier::spinoff_prover]
#[verifier::rlimit(40)]
pub proof fn law_teardown_destroys_everything_once(context: Context)
    ensures
        context.teardown_plan().first() == TeardownStep::WaitIdle,
        context.teardown_plan().drop_first() == destructions(context.teardown_order()),
        context.teardown_order().to_multiset() == context.owned(),
        all_texture_parts(context.textures@.cache.in_order()).is_prefix_of(
            context.teardown_order(),
        ),
        seq![Resource::Device, Resource::Surface, Resource::Instance].is_suffix_of(
            context.teardown_order(),
        ),
{
    let textures = all_texture_parts(context.textures@.cache.in_order());
    let sync = seq![
        Resource::Semaphore(context.image_available),
        Resource::Semaphore(context.render_done),
        Resource::Fence(context.fence),
        Resource::CommandPool(context.command_pool),
        Resource::Pipeline(context.present.pipeline),
        Resource::PipelineLayout(context.pipeline_layout),
    ];
    let swapchain = swapchain_parts(context.present@.swapchain);
    let sampler = seq![Resource::Sampler(context.sampler)];
    let staging = staging_parts(context.textures.staging);
    let rest = seq![
        Resource::DescriptorPool(context.descriptor_pool),
        Resource::DescriptorSetLayout(context.descriptor_layout),
        Resource::Device,
        Resource::Surface,
        Resource::Instance,
    ];
    lemma_joined(textures, sync);
    lemma_joined(textures + sync, swapchain);
    lemma_joined(textures + sync + swapchain, sampler);
    lemma_joined(textures + sync + swapchain + sampler, staging);
    lemma_joined(textures + sync + swapchain + sampler + staging, rest);
    assert(context.lasting_parts().to_multiset().insert(sync[4]) =~= sync.to_multiset().add(
        sampler.to_multiset(),
    ).add(rest.to_multiset())) by {
        broadcast use vstd::seq_lib::group_to_multiset_ensures;

        let none = Seq::<Resource>::empty();
        assert(none.to_multiset() =~= Multiset::empty());
        assert(sync =~= none.push(sync[0]).push(sync[1]).push(sync[2]).push(sync[3]).push(
            sync[4],
        ).push(sync[5]));
        assert(sampler =~= none.push(sampler[0]));
        assert(rest =~= none.push(rest[0]).push(rest[1]).push(rest[2]).push(rest[3]).push(rest[4]));
        assert(context.lasting_parts() =~= none.push(rest[1]).push(sync[5]).push(sync[3]).push(
            rest[0],
        ).push(sync[0]).push(sync[1]).push(sync[2]).push(sampler[0]).push(rest[2]).push(
            rest[3],
        ).push(rest[4]));
    }
    assert(context.owned() =~= context.lasting_parts().to_multiset().insert(sync[4]).add(
        swapchain.to_multiset(),
    ).add(context.textures@.owned()));
    assert(context.teardown_order().to_multiset() =~= context.owned());
    assert(context.teardown_plan().drop_first() =~= destructions(context.teardown_order()));
}

/// The parts of textures come texture by texture, and of each the view, the image and the memory, in
/// this order.
pub proof fn law_texture_parts(textures: Seq<Texture>, i: int)
    requires
        0 <= i < textures.len(),
    ensures
        all_texture_parts(textures).len() == 3 * textures.len(),
        all_texture_parts(textures)[3 * i] == Resource::ImageView(textures[i].view),
        all_texture_parts(textures)[3 * i + 1] == Resource::Image(textures[i].image),
        all_texture_parts(textures)[3 * i + 2] == Resource::Memory(textures[i].memory),
    decreases textures.len(),
{
    let before = textures.drop_last();
    if before.len() > 0 {
        law_texture_parts(before, if i < before.len() {
            i
        } else {
            0
        });
    } else {
        assert(all_texture_parts(before).len() == 0);
    }
}

/// What each object of the viewer is destroyed as, and where it stands at the end: first all parts of
/// the textures, then what frames are drawn with, then the views of the swapchain and the swapchain,
/// then the staging buffer and what descriptors need, and last the device, the surface and the
/// instance. A step that is not listed here does not exist.
#[verifier::spinoff_prover]
pub proof fn law_teardown_in_order(context: Context, i: int)
    ensures
        ({
            let plan = context.teardown_plan();
            let sync = 1 + 3 * context.textures@.cache.order.len() as int;
            let rest = sync + 6 + context.present.swapchain.views@.len() as int;
            &&& plan.len() == rest + 9
            &&& plan[0] == TeardownStep::WaitIdle
            &&& plan[sync] == TeardownStep::Destroy(Resource::Semaphore(context.image_available))
            &&& plan[sync + 1] == TeardownStep::Destroy(Resource::Semaphore(context.render_done))
            &&& plan[sync + 2] == TeardownStep::Destroy(Resource::Fence(context.fence))
            &&& plan[sync + 3] == TeardownStep::Destroy(Resource::CommandPool(context.command_pool))
            &&& plan[sync + 4] == TeardownStep::Destroy(
                Resource::Pipeline(context.present.pipeline),
            )
            &&& plan[sync + 5] == TeardownStep::Destroy(
                Resource::PipelineLayout(context.pipeline_layout),
            )
            &&& 0 <= i < context.present.swapchain.views@.len() ==> plan[sync + 6 + i]
                == TeardownStep::Destroy(
                Resource::ImageView(context.present.swapchain.views@[i]),
            )
            &&& plan[rest] == TeardownStep::Destroy(
                Resource::Swapchain(context.present.swapchain.handle),
            )
            &&& plan[rest + 1] == TeardownStep::Destroy(Resource::Sampler(context.sampler))
            &&& plan[rest + 2] == TeardownStep::Destroy(
                Resource::Buffer(context.textures.staging.buffer),
            )
            &&& plan[rest + 3] == TeardownStep::Destroy(
                Resource::Memory(context.textures.staging.memory),
            )
            &&& plan[rest + 4] == TeardownStep::Destroy(
                Resource::DescriptorPool(context.descriptor_pool),
            )
            &&& plan[rest + 5] == TeardownStep::Destroy(
                Resource::DescriptorSetLayout(context.descriptor_layout),
            )
            &&& plan[rest + 6] == TeardownStep::Destroy(Resource::Device)
            &&& plan[rest + 7] == TeardownStep::Destroy(Resource::Surface)
            &&& plan[rest + 8] == TeardownStep::Destroy(Resource::Instance)
        }),
{
    let textures = context.textures@.cache.in_order();
    if textures.len() > 0 {
        law_texture_parts(textures, 0);
    } else {
        assert(all_texture_parts(textures).len() == 0);
    }
}

/// Each cached texture is destroyed with its own view, image and memory, in this order, before
/// anything else.
pub proof fn law_textures_go_first(context: Context, i: int)
    requires
        0 <= i < context.textures@.cache.order.len(),
    ensures
        ({
            let plan = context.teardown_plan();
            let cache = context.textures@.cache;
            let texture = cache.textures[cache.order[i]];
            &&& plan[1 + 3 * i] == TeardownStep::Destroy(Resource::ImageView(texture.view))
            &&& plan[2 + 3 * i] == TeardownStep::Destroy(Resource::Image(texture.image))
            &&& plan[3 + 3 * i] == TeardownStep::Destroy(Resource::Memory(texture.memory))
        }),
{
    law_texture_parts(context.textures@.cache.in_order(), i);
}

} // verus!
