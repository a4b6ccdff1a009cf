use ash::vk;
use rviv::pipeline::{
    entry_point, pipeline_state, shader_words, Build, BuildAction, BuildReply, Shader,
};
use rviv::surface::Extent;

const EXTENT: Extent = Extent { width: 640, height: 480 };

#[test]
fn shader_code_is_read_in_native_words() {
    let code = vec![0x03, 0x02, 0x23, 0x07, 0x00, 0x00, 0x01, 0x00];
    let expected = vec![
        u32::from_ne_bytes([0x03, 0x02, 0x23, 0x07]),
        u32::from_ne_bytes([0x00, 0x00, 0x01, 0x00]),
    ];
    assert_eq!(shader_words(&code), expected);
    assert_eq!(shader_words(&Vec::new()), Vec::<u32>::new());
}

#[test]
fn a_build_ends_with_the_pipeline_and_without_modules() {
    let mut build = Build::start(50, EXTENT, 9);
    assert_eq!(build.action(), BuildAction::CreateModule { shader: Shader::Vertex });
    build.advance(BuildReply::Handle(11));
    assert_eq!(build.action(), BuildAction::CreateModule { shader: Shader::Fragment });
    build.advance(BuildReply::Handle(12));
    assert_eq!(
        build.action(),
        BuildAction::CreatePipeline {
            vertex: 11,
            fragment: 12,
            format: 50,
            extent: EXTENT,
            layout: 9,
            state: pipeline_state(),
        }
    );
    build.advance(BuildReply::Handle(13));
    assert_eq!(build.action(), BuildAction::DestroyModule { module: 11 });
    build.advance(BuildReply::Done);
    assert_eq!(build.action(), BuildAction::DestroyModule { module: 12 });
    build.advance(BuildReply::Done);
    assert_eq!(build.action(), BuildAction::Finished { pipeline: 13 });
}

#[test]
fn a_build_ends_where_a_step_fails() {
    for good in 0..3 {
        let mut build = Build::start(50, EXTENT, 9);
        for handle in 0..good {
            build.advance(BuildReply::Handle(handle));
        }
        build.advance(BuildReply::Failed);
        assert_eq!(build.action(), BuildAction::Failed);
    }
}

#[test]
fn the_pipeline_has_the_state_of_vulkan() {
    let state = pipeline_state();
    assert_eq!((state.vertex_bindings, state.vertex_attributes), (0, 0));
    assert_eq!(state.topology, vk::PrimitiveTopology::TRIANGLE_STRIP.as_raw());
    assert_eq!(state.polygon_mode, vk::PolygonMode::FILL.as_raw());
    assert_eq!(state.cull_mode, vk::CullModeFlags::NONE.as_raw());
    assert_eq!(state.front_face, vk::FrontFace::CLOCKWISE.as_raw());
    assert_eq!(state.samples, vk::SampleCountFlags::TYPE_1.as_raw());
    assert_eq!(state.write_mask, vk::ColorComponentFlags::RGBA.as_raw());
    assert!(state.blend);
    assert_eq!(state.src_color_factor, vk::BlendFactor::SRC_ALPHA.as_raw());
    assert_eq!(state.dst_color_factor, vk::BlendFactor::ONE_MINUS_SRC_ALPHA.as_raw());
    assert_eq!(state.color_op, vk::BlendOp::ADD.as_raw());
    assert_eq!(state.src_alpha_factor, vk::BlendFactor::ONE.as_raw());
    assert_eq!(state.dst_alpha_factor, vk::BlendFactor::ZERO.as_raw());
    assert_eq!(state.alpha_op, vk::BlendOp::ADD.as_raw());
    assert_eq!(entry_point(), "main");
}
