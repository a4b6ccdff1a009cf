use ash::vk;
use rviv::surface::{
    choose_format, configure_swapchain, Capabilities, Extent, SurfaceFormat, ANY_WIDTH,
    B8G8R8A8_SRGB,
};

fn extent(width: u32, height: u32) -> Extent {
    Extent { width, height }
}

fn format(format: i32, color_space: i32) -> SurfaceFormat {
    SurfaceFormat { format, color_space }
}

fn free(min_image_count: u32, max_image_count: u32) -> Capabilities {
    Capabilities {
        min_image_count,
        max_image_count,
        current_extent: extent(ANY_WIDTH, ANY_WIDTH),
        min_image_extent: extent(100, 50),
        max_image_extent: extent(2000, 1000),
        current_transform: 2,
    }
}

#[test]
fn the_preferred_format_has_the_number_of_vulkan() {
    assert_eq!(B8G8R8A8_SRGB, vk::Format::B8G8R8A8_SRGB.as_raw());
}

#[test]
fn the_first_preferred_format_is_chosen() {
    let formats = vec![format(44, 0), format(50, 7), format(50, 0)];
    assert_eq!(choose_format(&formats), format(50, 7));
}

#[test]
fn without_the_preferred_format_the_first_is_chosen() {
    let formats = vec![format(44, 1), format(37, 0)];
    assert_eq!(choose_format(&formats), format(44, 1));
}

#[test]
fn a_surface_with_a_size_decides_it() {
    let mut caps = free(2, 0);
    caps.current_extent = extent(640, 480);
    let config = configure_swapchain(&caps, &vec![format(50, 0)], 9999, 1);
    assert_eq!(config.extent, extent(640, 480));
    assert_eq!(config.image_count, 3);
    assert_eq!(config.format, format(50, 0));
    assert_eq!(config.transform, 2);
    assert_eq!(config.array_layers, 1);
    assert_eq!(config.usage, vk::ImageUsageFlags::COLOR_ATTACHMENT.as_raw());
    assert_eq!(config.sharing, vk::SharingMode::EXCLUSIVE.as_raw());
    assert_eq!(config.composite_alpha, vk::CompositeAlphaFlagsKHR::OPAQUE.as_raw());
    assert_eq!(config.present_mode, vk::PresentModeKHR::FIFO.as_raw());
    assert!(config.clipped);
}

#[test]
fn a_surface_without_a_size_limits_that_of_the_window() {
    let caps = free(2, 8);
    let formats = vec![format(50, 0)];
    assert_eq!(configure_swapchain(&caps, &formats, 800, 600).extent, extent(800, 600));
    assert_eq!(configure_swapchain(&caps, &formats, 10, 10).extent, extent(100, 50));
    assert_eq!(configure_swapchain(&caps, &formats, 5000, 5000).extent, extent(2000, 1000));
}

#[test]
fn there_is_one_image_more_than_needed_where_that_is_allowed() {
    let formats = vec![format(50, 0)];
    assert_eq!(configure_swapchain(&free(2, 0), &formats, 1, 1).image_count, 3);
    assert_eq!(configure_swapchain(&free(2, 3), &formats, 1, 1).image_count, 3);
    assert_eq!(configure_swapchain(&free(2, 2), &formats, 1, 1).image_count, 2);
    assert_eq!(configure_swapchain(&free(0, 1), &formats, 1, 1).image_count, 1);
    assert_eq!(configure_swapchain(&free(3, 2), &formats, 1, 1).image_count, 2);
}
