use rviv::config::view_config;
use rviv::surface::{Capabilities, Extent, SurfaceFormat, SwapchainConfig};
use rviv::swapchain::{ChainAction, ChainBuild, ChainReply};

fn caps() -> Capabilities {
    Capabilities {
        min_image_count: 2,
        max_image_count: 0,
        current_extent: Extent { width: 640, height: 480 },
        min_image_extent: Extent { width: 1, height: 1 },
        max_image_extent: Extent { width: 4096, height: 4096 },
        current_transform: 1,
    }
}

fn formats() -> Vec<SurfaceFormat> {
    vec![SurfaceFormat { format: 44, color_space: 0 }, SurfaceFormat { format: 50, color_space: 0 }]
}

/// A swapchain that has been created and not listed its images yet.
fn created() -> ChainBuild {
    let mut chain = ChainBuild::start(800, 600);
    assert_eq!(chain.action(), ChainAction::AskCapabilities);
    chain.advance(ChainReply::Capabilities(caps()));
    assert_eq!(chain.action(), ChainAction::AskFormats);
    chain.advance(ChainReply::Formats(formats()));
    let config = SwapchainConfig {
        format: SurfaceFormat { format: 50, color_space: 0 },
        extent: Extent { width: 640, height: 480 },
        image_count: 3,
        transform: 1,
        array_layers: 1,
        usage: 0x10,
        sharing: 0,
        composite_alpha: 1,
        present_mode: 2,
        clipped: true,
    };
    assert_eq!(chain.action(), ChainAction::Create { config });
    chain.advance(ChainReply::Handle(7));
    chain
}

#[test]
fn a_swapchain_gets_a_view_for_each_image() {
    let mut chain = created();
    assert_eq!(chain.action(), ChainAction::ListImages { handle: 7 });
    chain.advance(ChainReply::Images(vec![11, 12]));
    let description = view_config(50);
    assert_eq!(chain.action(), ChainAction::CreateView { image: 11, description });
    chain.advance(ChainReply::Handle(21));
    assert_eq!(chain.action(), ChainAction::CreateView { image: 12, description });
    chain.advance(ChainReply::Handle(22));
    assert_eq!(chain.action(), ChainAction::Finished);
    let swapchain = chain.finish().unwrap();
    assert_eq!(swapchain.handle, 7);
    assert_eq!(swapchain.images, vec![11, 12]);
    assert_eq!(swapchain.views, vec![21, 22]);
    assert_eq!(swapchain.format, 50);
    assert_eq!(swapchain.extent, Extent { width: 640, height: 480 });
}

#[test]
fn a_swapchain_without_images_is_finished() {
    let mut chain = created();
    chain.advance(ChainReply::Images(Vec::new()));
    assert_eq!(chain.action(), ChainAction::Finished);
    assert!(chain.finish().unwrap().views.is_empty());
}

#[test]
fn a_swapchain_ends_where_a_step_fails() {
    let mut chain = created();
    chain.advance(ChainReply::Failed);
    assert_eq!(chain.action(), ChainAction::Failed);
    assert!(chain.finish().is_none());
    let mut early = ChainBuild::start(1, 1);
    early.advance(ChainReply::Failed);
    assert_eq!(early.action(), ChainAction::Failed);
}
