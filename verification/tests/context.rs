use rviv::cache::{Texture, TextureCache};
use rviv::context::{
    Context, Presentation, Resource, Staging, Swapchain, TeardownStep, TextureStore,
};
use rviv::surface::Extent;

fn context() -> Context {
    let mut cache = TextureCache::new();
    cache.insert(8, Texture { image: 81, memory: 82, view: 83, width: 1, height: 1 });
    cache.insert(9, Texture { image: 91, memory: 92, view: 93, width: 1, height: 1 });
    cache.lookup(8);
    Context {
        present: Presentation {
            swapchain: Swapchain {
                handle: 1,
                images: vec![11, 12],
                views: vec![21, 22],
                format: 50,
                extent: Extent { width: 800, height: 600 },
            },
            pipeline: 40,
        },
        textures: TextureStore {
            staging: Staging { buffer: 71, memory: 72, size: 4 },
            cache,
        },
        descriptor_layout: 42,
        pipeline_layout: 43,
        command_pool: 44,
        command_buffers: vec![51, 52],
        descriptor_pool: 45,
        descriptor_sets: vec![61, 62],
        image_available: 46,
        render_done: 47,
        fence: 48,
        sampler: 49,
    }
}

/// What the plan destroys, once it has waited.
fn destroyed(context: Context) -> Vec<Resource> {
    let plan = context.teardown();
    assert_eq!(plan[0], TeardownStep::WaitIdle);
    plan[1..]
        .iter()
        .map(|step| match step {
            TeardownStep::Destroy(resource) => *resource,
            TeardownStep::WaitIdle => panic!("the GPU comes to rest once"),
        })
        .collect()
}

#[test]
fn everything_is_destroyed_in_order() {
    assert_eq!(
        destroyed(context()),
        vec![
            Resource::ImageView(93),
            Resource::Image(91),
            Resource::Memory(92),
            Resource::ImageView(83),
            Resource::Image(81),
            Resource::Memory(82),
            Resource::Semaphore(46),
            Resource::Semaphore(47),
            Resource::Fence(48),
            Resource::CommandPool(44),
            Resource::Pipeline(40),
            Resource::PipelineLayout(43),
            Resource::ImageView(21),
            Resource::ImageView(22),
            Resource::Swapchain(1),
            Resource::Sampler(49),
            Resource::Buffer(71),
            Resource::Memory(72),
            Resource::DescriptorPool(45),
            Resource::DescriptorSetLayout(42),
            Resource::Device,
            Resource::Surface,
            Resource::Instance,
        ]
    );
}
