use ash::vk;
use rviv::cache::TextureCache;
use rviv::context::{Context, Presentation, Staging, Swapchain, TextureStore};
use rviv::frame::{Frame, FrameAction, FramePhase, FrameReply, ERROR_OUT_OF_DATE};
use rviv::surface::Extent;

fn context() -> Context {
    Context {
        present: Presentation {
            swapchain: Swapchain {
                handle: 1,
                images: vec![11, 12],
                views: vec![21, 22],
                format: 50,
                extent: Extent { width: 800, height: 600 },
            },
            pipeline: 40,
        },
        textures: TextureStore {
            staging: Staging { buffer: 71, memory: 72, size: 4 },
            cache: TextureCache::new(),
        },
        descriptor_layout: 42,
        pipeline_layout: 43,
        command_pool: 44,
        command_buffers: vec![51, 52],
        descriptor_pool: 45,
        descriptor_sets: vec![61, 62],
        image_available: 46,
        render_done: 47,
        fence: 48,
        sampler: 49,
    }
}

#[test]
fn the_error_has_the_number_of_vulkan() {
    assert_eq!(ERROR_OUT_OF_DATE, vk::Result::ERROR_OUT_OF_DATE_KHR.as_raw());
}

#[test]
fn a_frame_is_drawn_to_the_image_that_was_acquired() {
    let context = context();
    let mut frame = Frame::start(&context);
    assert_eq!(frame.action(&context), FrameAction::WaitFence { fence: 48, timeout: u64::MAX });
    frame.advance(&context, FrameReply::Done);
    assert_eq!(
        frame.action(&context),
        FrameAction::Acquire { swapchain: 1, timeout: u64::MAX, signal: 46 }
    );
    frame.advance(&context, FrameReply::Acquired { index: 1 });
    assert_eq!(frame.action(&context), FrameAction::ResetFence { fence: 48 });
    frame.advance(&context, FrameReply::Done);
    assert_eq!(frame.action(&context), FrameAction::ResetCommands { commands: 52 });
    frame.advance(&context, FrameReply::Done);
    assert_eq!(frame.action(&context), FrameAction::BeginCommands { commands: 52 });
    frame.advance(&context, FrameReply::Done);
    assert_eq!(
        frame.action(&context),
        FrameAction::Record {
            commands: 52,
            image: 12,
            view: 22,
            extent: Extent { width: 800, height: 600 },
            pipeline: 40,
            layout: 43,
            descriptor_set: 62,
        }
    );
    frame.advance(&context, FrameReply::Done);
    assert_eq!(frame.action(&context), FrameAction::EndCommands { commands: 52 });
    frame.advance(&context, FrameReply::Done);
    assert_eq!(
        frame.action(&context),
        FrameAction::Submit {
            commands: 52,
            wait: 46,
            wait_stage: vk::PipelineStageFlags::COLOR_ATTACHMENT_OUTPUT.as_raw(),
            signal: 47,
            fence: 48,
        }
    );
    frame.advance(&context, FrameReply::Done);
    assert_eq!(
        frame.action(&context),
        FrameAction::Present { swapchain: 1, index: 1, wait: 47 }
    );
    frame.advance(&context, FrameReply::Done);
    assert_eq!(frame.action(&context), FrameAction::Finished);
}

#[test]
fn a_frame_is_left_out_while_the_window_changes() {
    let context = context();
    let mut frame = Frame::start(&context);
    frame.advance(&context, FrameReply::Done);
    frame.advance(&context, FrameReply::Failed { code: ERROR_OUT_OF_DATE });
    assert_eq!(frame.action(&context), FrameAction::Skipped);
}

#[test]
fn another_error_ends_the_frame() {
    let context = context();
    let mut frame = Frame::start(&context);
    frame.advance(&context, FrameReply::Done);
    frame.advance(&context, FrameReply::Failed { code: -4 });
    assert_eq!(frame.action(&context), FrameAction::Failed { code: -4 });
    let mut early = Frame::start(&context);
    early.advance(&context, FrameReply::Failed { code: ERROR_OUT_OF_DATE });
    assert_eq!(early.action(&context), FrameAction::Failed { code: ERROR_OUT_OF_DATE });
}

#[test]
fn a_frame_that_is_not_presented_is_still_finished() {
    let context = context();
    let mut frame = Frame { phase: FramePhase::Present { index: 0 } };
    frame.advance(&context, FrameReply::Failed { code: ERROR_OUT_OF_DATE });
    assert_eq!(frame.action(&context), FrameAction::Finished);
}
