use ash::vk;
use rviv::config::{
    descriptor_binding, descriptor_writes, push_range, sampler_config, staging_config,
    texture_config, view_config, whole_image, LEVEL_PRIMARY, POOL_RESET_COMMAND_BUFFER,
};

#[test]
fn the_whole_image_has_one_level_and_one_layer() {
    let range = whole_image();
    assert_eq!(range.aspect, vk::ImageAspectFlags::COLOR.as_raw());
    assert_eq!((range.first_level, range.levels), (0, 1));
    assert_eq!((range.first_layer, range.layers), (0, 1));
}

#[test]
fn views_show_all_of_an_image() {
    let view = view_config(50);
    assert_eq!(view.kind, vk::ImageViewType::TYPE_2D.as_raw());
    assert_eq!(view.format, 50);
    assert_eq!(view.range, whole_image());
}

#[test]
fn textures_are_copied_to_and_read() {
    let config = texture_config(640, 480);
    assert_eq!(config.kind, vk::ImageType::TYPE_2D.as_raw());
    assert_eq!(config.format, vk::Format::R8G8B8A8_SRGB.as_raw());
    assert_eq!((config.width, config.height, config.depth), (640, 480, 1));
    assert_eq!((config.levels, config.layers), (1, 1));
    assert_eq!(config.samples, vk::SampleCountFlags::TYPE_1.as_raw());
    assert_eq!(config.tiling, vk::ImageTiling::OPTIMAL.as_raw());
    let usage = vk::ImageUsageFlags::TRANSFER_DST | vk::ImageUsageFlags::SAMPLED;
    assert_eq!(config.usage, usage.as_raw());
    assert_eq!(config.layout, vk::ImageLayout::UNDEFINED.as_raw());
}

#[test]
fn the_staging_buffer_is_visible_and_coherent() {
    let config = staging_config(24);
    assert_eq!(config.size, 24);
    assert_eq!(config.usage, vk::BufferUsageFlags::TRANSFER_SRC.as_raw());
    assert_eq!(config.sharing, vk::SharingMode::EXCLUSIVE.as_raw());
    let memory =
        vk::MemoryPropertyFlags::HOST_VISIBLE | vk::MemoryPropertyFlags::HOST_COHERENT;
    assert_eq!(config.properties, memory.as_raw());
}

#[test]
fn the_only_binding_is_the_picture() {
    let binding = descriptor_binding();
    assert_eq!((binding.binding, binding.count), (0, 1));
    assert_eq!(binding.kind, vk::DescriptorType::COMBINED_IMAGE_SAMPLER.as_raw());
    assert_eq!(binding.stages, vk::ShaderStageFlags::FRAGMENT.as_raw());
}

#[test]
fn zoom_and_offset_are_pushed_to_the_vertex_shader() {
    let range = push_range();
    assert_eq!(range.stages, vk::ShaderStageFlags::VERTEX.as_raw());
    assert_eq!((range.offset, range.size), (0, 16));
}

#[test]
fn the_sampler_is_smooth() {
    let config = sampler_config();
    assert_eq!(config.mag_filter, vk::Filter::LINEAR.as_raw());
    assert_eq!(config.min_filter, vk::Filter::LINEAR.as_raw());
    assert_eq!(config.mipmap_mode, vk::SamplerMipmapMode::LINEAR.as_raw());
    assert_eq!(config.address_mode_u, vk::SamplerAddressMode::CLAMP_TO_EDGE.as_raw());
    assert_eq!(config.address_mode_v, vk::SamplerAddressMode::CLAMP_TO_EDGE.as_raw());
}

#[test]
fn all_descriptor_sets_get_the_picture() {
    let writes = descriptor_writes(&vec![61, 62], 49, 22);
    assert_eq!(writes.len(), 2);
    for (write, set) in writes.iter().zip([61, 62]) {
        assert_eq!((write.set, write.sampler, write.view), (set, 49, 22));
        assert_eq!((write.binding, write.element), (0, 0));
        assert_eq!(write.kind, vk::DescriptorType::COMBINED_IMAGE_SAMPLER.as_raw());
        assert_eq!(write.layout, vk::ImageLayout::SHADER_READ_ONLY_OPTIMAL.as_raw());
    }
    assert!(descriptor_writes(&Vec::new(), 49, 22).is_empty());
}

#[test]
fn pools_and_levels_have_the_numbers_of_vulkan() {
    let reset = vk::CommandPoolCreateFlags::RESET_COMMAND_BUFFER;
    assert_eq!(POOL_RESET_COMMAND_BUFFER, reset.as_raw());
    assert_eq!(LEVEL_PRIMARY, vk::CommandBufferLevel::PRIMARY.as_raw());
}
