use ash::vk;
use rviv::config::{push_range, whole_image};
use rviv::drawing::{draw_commands, DrawCommand, CORNERS, LOAD_CLEAR, STORE};
use rviv::layout::{
    Transition, ACCESS_COLOR_WRITE, ACCESS_NONE, LAYOUT_COLOR_ATTACHMENT, LAYOUT_PRESENT,
    LAYOUT_UNDEFINED, STAGE_BOTTOM_OF_PIPE, STAGE_COLOR_OUTPUT,
};
use rviv::surface::Extent;

const EXTENT: Extent = Extent { width: 800, height: 600 };

#[test]
fn a_frame_is_rendered_to_the_view_of_its_image() {
    assert_eq!(CORNERS, 4);
    let expected = vec![
        DrawCommand::Transition(Transition {
            image: 1,
            range: whole_image(),
            old_layout: LAYOUT_UNDEFINED,
            new_layout: LAYOUT_COLOR_ATTACHMENT,
            src_stage: STAGE_COLOR_OUTPUT,
            dst_stage: STAGE_COLOR_OUTPUT,
            src_access: ACCESS_NONE,
            dst_access: ACCESS_COLOR_WRITE,
        }),
        DrawCommand::BeginRendering {
            view: 2,
            image_layout: LAYOUT_COLOR_ATTACHMENT,
            extent: EXTENT,
            layers: 1,
            load: LOAD_CLEAR,
            store: STORE,
        },
        DrawCommand::BindPipeline { pipeline: 3 },
        DrawCommand::BindDescriptorSet { layout: 4, set: 5 },
        DrawCommand::PushConstants { layout: 4, range: push_range() },
        DrawCommand::Draw { vertices: 4, instances: 1 },
        DrawCommand::EndRendering,
        DrawCommand::Transition(Transition {
            image: 1,
            range: whole_image(),
            old_layout: LAYOUT_COLOR_ATTACHMENT,
            new_layout: LAYOUT_PRESENT,
            src_stage: STAGE_COLOR_OUTPUT,
            dst_stage: STAGE_BOTTOM_OF_PIPE,
            src_access: ACCESS_COLOR_WRITE,
            dst_access: ACCESS_NONE,
        }),
    ];
    assert_eq!(draw_commands(1, 2, EXTENT, 3, 4, 5), expected);
}

#[test]
fn an_image_is_drawn_to_only_while_rendering() {
    let mut layout = LAYOUT_UNDEFINED;
    let mut rendering = false;
    let mut draws = 0;
    for command in draw_commands(1, 2, EXTENT, 3, 4, 5) {
        match command {
            DrawCommand::Transition(transition) => {
                assert!(!rendering);
                assert_eq!(transition.old_layout, layout);
                layout = transition.new_layout;
            }
            DrawCommand::BeginRendering { image_layout: found, .. } => {
                assert!(!rendering);
                assert_eq!(found, layout);
                rendering = true;
            }
            DrawCommand::Draw { .. } => {
                assert!(rendering);
                draws += 1;
            }
            DrawCommand::EndRendering => {
                assert!(rendering);
                rendering = false;
            }
            _ => {}
        }
    }
    assert!(!rendering);
    assert_eq!(draws, 1);
    assert_eq!(layout, LAYOUT_PRESENT);
}

#[test]
fn clearing_and_keeping_have_the_numbers_of_vulkan() {
    assert_eq!(LOAD_CLEAR, vk::AttachmentLoadOp::CLEAR.as_raw());
    assert_eq!(STORE, vk::AttachmentStoreOp::STORE.as_raw());
}
