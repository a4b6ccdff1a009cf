use ash::vk;
use rviv::config::whole_image;
use rviv::layout::{
    ACCESS_COLOR_WRITE, ACCESS_NONE, ACCESS_SHADER_READ, ACCESS_TRANSFER_WRITE,
    LAYOUT_COLOR_ATTACHMENT, LAYOUT_PRESENT, LAYOUT_SHADER_READ, LAYOUT_TRANSFER_DST,
    LAYOUT_UNDEFINED, STAGE_BOTTOM_OF_PIPE, STAGE_COLOR_OUTPUT, STAGE_FRAGMENT_SHADER,
    STAGE_TOP_OF_PIPE, STAGE_TRANSFER,
};
use rviv::upload::{upload_commands, UploadCommand};

#[test]
fn layouts_stages_and_accesses_have_the_values_of_vulkan() {
    assert_eq!(LAYOUT_UNDEFINED, vk::ImageLayout::UNDEFINED.as_raw());
    assert_eq!(LAYOUT_TRANSFER_DST, vk::ImageLayout::TRANSFER_DST_OPTIMAL.as_raw());
    assert_eq!(LAYOUT_SHADER_READ, vk::ImageLayout::SHADER_READ_ONLY_OPTIMAL.as_raw());
    assert_eq!(STAGE_TOP_OF_PIPE, vk::PipelineStageFlags::TOP_OF_PIPE.as_raw());
    assert_eq!(STAGE_TRANSFER, vk::PipelineStageFlags::TRANSFER.as_raw());
    assert_eq!(STAGE_FRAGMENT_SHADER, vk::PipelineStageFlags::FRAGMENT_SHADER.as_raw());
    assert_eq!(LAYOUT_COLOR_ATTACHMENT, vk::ImageLayout::COLOR_ATTACHMENT_OPTIMAL.as_raw());
    assert_eq!(LAYOUT_PRESENT, vk::ImageLayout::PRESENT_SRC_KHR.as_raw());
    assert_eq!(STAGE_COLOR_OUTPUT, vk::PipelineStageFlags::COLOR_ATTACHMENT_OUTPUT.as_raw());
    assert_eq!(STAGE_BOTTOM_OF_PIPE, vk::PipelineStageFlags::BOTTOM_OF_PIPE.as_raw());
    assert_eq!(ACCESS_COLOR_WRITE, vk::AccessFlags::COLOR_ATTACHMENT_WRITE.as_raw());
    assert_eq!(ACCESS_NONE, vk::AccessFlags::empty().as_raw());
    assert_eq!(ACCESS_TRANSFER_WRITE, vk::AccessFlags::TRANSFER_WRITE.as_raw());
    assert_eq!(ACCESS_SHADER_READ, vk::AccessFlags::SHADER_READ.as_raw());
}

#[test]
fn an_upload_copies_between_two_transitions() {
    let commands = upload_commands(5, 6, 640, 480);
    assert_eq!(commands.len(), 3);
    let mut layout = LAYOUT_UNDEFINED;
    let mut copies = 0;
    for command in commands {
        match command {
            UploadCommand::Transition(transition) => {
                assert_eq!(transition.image, 6);
                assert_eq!(transition.range, whole_image());
                assert_eq!(transition.old_layout, layout);
                layout = transition.new_layout;
            }
            UploadCommand::Copy { buffer, image, range, layout: found, width, height } => {
                assert_eq!(range, whole_image());
                assert_eq!((buffer, image, width, height), (5, 6, 640, 480));
                assert_eq!(found, layout);
                assert_eq!(found, LAYOUT_TRANSFER_DST);
                copies += 1;
            }
        }
    }
    assert_eq!(copies, 1);
    assert_eq!(layout, LAYOUT_SHADER_READ);
}

#[test]
fn the_copy_is_over_before_shaders_read() {
    let commands = upload_commands(1, 2, 3, 4);
    match (commands[0], commands[2]) {
        (UploadCommand::Transition(first), UploadCommand::Transition(last)) => {
            assert_eq!(first.src_stage, STAGE_TOP_OF_PIPE);
            assert_eq!(first.dst_stage, STAGE_TRANSFER);
            assert_eq!(first.src_access, ACCESS_NONE);
            assert_eq!(first.dst_access, ACCESS_TRANSFER_WRITE);
            assert_eq!(last.src_stage, STAGE_TRANSFER);
            assert_eq!(last.dst_stage, STAGE_FRAGMENT_SHADER);
            assert_eq!(last.src_access, ACCESS_TRANSFER_WRITE);
            assert_eq!(last.dst_access, ACCESS_SHADER_READ);
        }
        _ => panic!("no transition"),
    }
}
