use rviv::cache::TextureCache;
use rviv::context::{Context, Presentation, Staging, Swapchain, TextureStore};
use rviv::rebuild::{Rebuild, RebuildAction, RebuildReply};
use rviv::surface::Extent;

fn swapchain(handle: u64, count: u64, extent: Extent) -> Swapchain {
    Swapchain {
        handle,
        images: (0..count).map(|i| 10 * handle + i).collect(),
        views: (0..count).map(|i| 100 * handle + i).collect(),
        format: 50,
        extent,
    }
}

fn context() -> Context {
    Context {
        present: Presentation {
            swapchain: swapchain(1, 3, Extent { width: 800, height: 600 }),
            pipeline: 51,
        },
        textures: TextureStore {
            staging: Staging { buffer: 71, memory: 72, size: 4 },
            cache: TextureCache::new(),
        },
        descriptor_layout: 42,
        pipeline_layout: 43,
        command_pool: 44,
        command_buffers: vec![51, 52, 53],
        descriptor_pool: 45,
        descriptor_sets: vec![61, 62, 63],
        image_available: 46,
        render_done: 47,
        fence: 48,
        sampler: 49,
    }
}

#[test]
fn a_rebuild_replaces_everything_in_order() {
    let mut context = context();
    let mut rebuild = Rebuild::start(&context, 1024, 768);
    let present = &mut context.present;
    assert_eq!(rebuild.action(present), RebuildAction::WaitIdle);
    rebuild.advance(present, RebuildReply::Done);
    assert_eq!(rebuild.action(present), RebuildAction::DestroyViews);
    rebuild.advance(present, RebuildReply::Done);
    assert_eq!(rebuild.action(present), RebuildAction::DestroySwapchain { handle: 1 });
    rebuild.advance(present, RebuildReply::Done);
    assert_eq!(present.swapchain.handle, 1);
    assert_eq!(
        rebuild.action(present),
        RebuildAction::CreateSwapchain { width: 1024, height: 768 }
    );
    let extent = Extent { width: 1024, height: 768 };
    rebuild.advance(present, RebuildReply::Swapchain(swapchain(2, 2, extent)));
    assert_eq!(rebuild.action(present), RebuildAction::DestroyPipeline { handle: 51 });
    rebuild.advance(present, RebuildReply::Done);
    assert_eq!(present.pipeline, 51);
    assert_eq!(
        rebuild.action(present),
        RebuildAction::CreatePipeline { format: 50, extent, layout: 43 }
    );
    rebuild.advance(present, RebuildReply::Pipeline(71));
    assert_eq!(rebuild.action(present), RebuildAction::Finished);
    assert_eq!(present.swapchain.handle, 2);
    assert_eq!(present.swapchain.views, vec![200, 201]);
    assert_eq!(present.pipeline, 71);
}

#[test]
fn a_rebuild_that_fails_keeps_the_names() {
    let mut context = context();
    let mut rebuild = Rebuild::start(&context, 1, 1);
    rebuild.advance(&mut context.present, RebuildReply::Failed);
    assert_eq!(rebuild.action(&context.present), RebuildAction::Failed);
    assert_eq!(context.present.swapchain.views.len(), 3);
    assert_eq!(context.present.pipeline, 51);

    let mut later = Rebuild::start(&context, 1, 1);
    for _ in 0..3 {
        later.advance(&mut context.present, RebuildReply::Done);
    }
    later.advance(&mut context.present, RebuildReply::Failed);
    assert_eq!(later.action(&context.present), RebuildAction::Failed);
    assert_eq!(context.present.swapchain.handle, 1);
    assert_eq!(context.present.swapchain.views, vec![100, 101, 102]);
    assert_eq!(context.present.pipeline, 51);
}
