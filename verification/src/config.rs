//! What the GPU objects of the viewer are made with, as far as it never changes. The numbers are
//! those of Vulkan.

use vstd::prelude::*;

use crate::device::{HOST_COHERENT, HOST_VISIBLE};
use crate::layout::{LAYOUT_SHADER_READ, LAYOUT_UNDEFINED};

verus! {

/// The pixel format of a picture: one byte each of red, green, blue and alpha, sRGB encoded.
pub const R8G8B8A8_SRGB: i32 = 43;

/// An image with width and height.
pub const IMAGE_2D: i32 = 1;

/// A view of such an image.
pub const VIEW_2D: i32 = 1;

/// The colors of an image.
pub const ASPECT_COLOR: u32 = 1;

/// One sample for each pixel.
pub const ONE_SAMPLE: u32 = 1;

/// The GPU arranges the pixels as it likes.
pub const TILING_OPTIMAL: i32 = 0;

/// An image that copies write to.
pub const IMAGE_USE_TRANSFER_DST: u32 = 0x2;

/// An image that shaders read.
pub const IMAGE_USE_SAMPLED: u32 = 0x4;

/// An image that is drawn to.
pub const IMAGE_USE_COLOR_ATTACHMENT: u32 = 0x10;

/// A buffer that copies read from.
pub const BUFFER_USE_TRANSFER_SRC: u32 = 0x1;

/// Only one queue family uses the object.
pub const SHARING_EXCLUSIVE: i32 = 0;

/// The properties of the memory behind the staging buffer.
pub const STAGING_MEMORY: u32 = HOST_VISIBLE | HOST_COHERENT;

/// The vertex shader.
pub const SHADER_VERTEX: u32 = 0x1;

/// The fragment shader.
pub const SHADER_FRAGMENT: u32 = 0x10;

/// A descriptor of an image together with its sampler.
pub const COMBINED_IMAGE_SAMPLER: i32 = 1;

/// The bytes of zoom and offset: four numbers of four bytes each.
pub const PUSH_CONSTANT_SIZE: u32 = 16;

/// Colors between pixels are interpolated.
pub const FILTER_LINEAR: i32 = 1;

/// Sizes between those of an image are interpolated.
pub const MIPMAP_LINEAR: i32 = 1;

/// Beyond its border an image has the colors of the border.
pub const CLAMP_TO_EDGE: i32 = 2;

/// Command buffers of the pool can be reset one by one.
pub const POOL_RESET_COMMAND_BUFFER: u32 = 0x2;

/// Command buffers that are submitted themselves.
pub const LEVEL_PRIMARY: i32 = 0;

/// Part of an image: which of its aspects, levels and layers.
#[derive(Clone, Copy, Debug, PartialEq, Eq, Structural)]
pub struct ImageRange {
    pub aspect: u32,
    pub first_level: u32,
    pub levels: u32,
    pub first_layer: u32,
    pub layers: u32,
}

/// The colors of an image with one level and one layer, which is all of it.
pub open spec fn all_colors() -> ImageRange {
    ImageRange { aspect: ASPECT_COLOR, first_level: 0, levels: 1, first_layer: 0, layers: 1 }
}

/// The whole of an image with one level and one layer.
pub fn whole_image() -> (range: ImageRange)
    ensures
        range == all_colors(),
{
    ImageRange { aspect: ASPECT_COLOR, first_level: 0, levels: 1, first_layer: 0, layers: 1 }
}

/// A view of an image.
#[derive(Clone, Copy, Debug, PartialEq, Eq, Structural)]
pub struct ViewConfig {
    pub kind: i32,
    pub format: i32,
    pub range: ImageRange,
}

/// The view of a whole image in its format.
pub open spec fn full_view(format: i32) -> ViewConfig {
    ViewConfig { kind: VIEW_2D, format, range: all_colors() }
}

/// What the view of a whole image is made with.
pub fn view_config(format: i32) -> (config: ViewConfig)
    ensures
        config == full_view(format),
{
    ViewConfig { kind: VIEW_2D, format, range: whole_image() }
}

/// An image on the GPU.
#[derive(Clone, Copy, Debug, PartialEq, Eq, Structural)]
pub struct ImageConfig {
    pub kind: i32,
    pub format: i32,
    pub width: u32,
    pub height: u32,
    pub depth: u32,
    pub levels: u32,
    pub layers: u32,
    pub samples: u32,
    pub tiling: i32,
    pub usage: u32,
    pub layout: i32,
}

/// An image that a picture of this size is copied to, and that shaders read.
pub open spec fn texture_image(width: u32, height: u32) -> ImageConfig {
    ImageConfig {
        kind: IMAGE_2D,
        format: R8G8B8A8_SRGB,
        width,
        height,
        depth: 1,
        levels: 1,
        layers: 1,
        samples: ONE_SAMPLE,
        tiling: TILING_OPTIMAL,
        usage: IMAGE_USE_TRANSFER_DST | IMAGE_USE_SAMPLED,
        layout: LAYOUT_UNDEFINED,
    }
}

/// What the image for a picture of this size is made with.
pub fn texture_config(width: u32, height: u32) -> (config: ImageConfig)
    ensures
        config == texture_image(width, height),
{
    ImageConfig {
        kind: IMAGE_2D,
        format: R8G8B8A8_SRGB,
        width,
        height,
        depth: 1,
        levels: 1,
        layers: 1,
        samples: ONE_SAMPLE,
        tiling: TILING_OPTIMAL,
        usage: IMAGE_USE_TRANSFER_DST | IMAGE_USE_SAMPLED,
        layout: LAYOUT_UNDEFINED,
    }
}

/// A buffer, with the properties of the memory behind it.
#[derive(Clone, Copy, Debug, PartialEq, Eq, Structural)]
pub struct BufferConfig {
    pub size: u64,
    pub usage: u32,
    pub sharing: i32,
    pub properties: u32,
}

/// A buffer of this size that the CPU writes and copies read.
pub open spec fn staging_buffer(size: u64) -> BufferConfig {
    BufferConfig {
        size,
        usage: BUFFER_USE_TRANSFER_SRC,
        sharing: SHARING_EXCLUSIVE,
        properties: STAGING_MEMORY,
    }
}

/// What a staging buffer of this size is made with.
pub fn staging_config(size: u64) -> (config: BufferConfig)
    ensures
        config == staging_buffer(size),
{
    BufferConfig {
        size,
        usage: BUFFER_USE_TRANSFER_SRC,
        sharing: SHARING_EXCLUSIVE,
        properties: STAGING_MEMORY,
    }
}

/// What descriptor sets hold under one number.
#[derive(Clone, Copy, Debug, PartialEq, Eq, Structural)]
pub struct DescriptorBinding {
    pub binding: u32,
    pub kind: i32,
    pub count: u32,
    pub stages: u32,
}

/// The only binding: the picture, for the fragment shader.
pub open spec fn picture_binding() -> DescriptorBinding {
    DescriptorBinding {
        binding: 0,
        kind: COMBINED_IMAGE_SAMPLER,
        count: 1,
        stages: SHADER_FRAGMENT,
    }
}

/// What the layout of the descriptor sets is made with.
pub fn descriptor_binding() -> (binding: DescriptorBinding)
    ensures
        binding == picture_binding(),
{
    DescriptorBinding {
        binding: 0,
        kind: COMBINED_IMAGE_SAMPLER,
        count: 1,
        stages: SHADER_FRAGMENT,
    }
}

/// A range of the constants that are pushed to the shaders.
#[derive(Clone, Copy, Debug, PartialEq, Eq, Structural)]
pub struct PushRange {
    pub stages: u32,
    pub offset: u32,
    pub size: u32,
}

/// The only range: zoom and offset, for the vertex shader.
pub open spec fn view_range() -> PushRange {
    PushRange { stages: SHADER_VERTEX, offset: 0, size: PUSH_CONSTANT_SIZE }
}

/// What is pushed for each frame.
pub fn push_range() -> (range: PushRange)
    ensures
        range == view_range(),
{
    PushRange { stages: SHADER_VERTEX, offset: 0, size: PUSH_CONSTANT_SIZE }
}

/// How a shader reads an image.
#[derive(Clone, Copy, Debug, PartialEq, Eq, Structural)]
pub struct SamplerConfig {
    pub mag_filter: i32,
    pub min_filter: i32,
    pub mipmap_mode: i32,
    pub address_mode_u: i32,
    pub address_mode_v: i32,
}

/// Smoothly, and not beyond the border.
pub open spec fn smooth_sampler() -> SamplerConfig {
    SamplerConfig {
        mag_filter: FILTER_LINEAR,
        min_filter: FILTER_LINEAR,
        mipmap_mode: MIPMAP_LINEAR,
        address_mode_u: CLAMP_TO_EDGE,
        address_mode_v: CLAMP_TO_EDGE,
    }
}

/// What the sampler is made with.
pub fn sampler_config() -> (config: SamplerConfig)
    ensures
        config == smooth_sampler(),
{
    SamplerConfig {
        mag_filter: FILTER_LINEAR,
        min_filter: FILTER_LINEAR,
        mipmap_mode: MIPMAP_LINEAR,
        address_mode_u: CLAMP_TO_EDGE,
        address_mode_v: CLAMP_TO_EDGE,
    }
}

/// What is written to a descriptor set.
#[derive(Clone, Copy, Debug, PartialEq, Eq, Structural)]
pub struct DescriptorWrite {
    pub set: u64,
    pub binding: u32,
    pub element: u32,
    pub kind: i32,
    pub sampler: u64,
    pub view: u64,
    pub layout: i32,
}

/// The picture behind the view becomes the one that a descriptor set holds.
pub open spec fn picture_write(set: u64, sampler: u64, view: u64) -> DescriptorWrite {
    DescriptorWrite {
        set,
        binding: picture_binding().binding,
        element: 0,
        kind: picture_binding().kind,
        sampler,
        view,
        layout: LAYOUT_SHADER_READ,
    }
}

/// What makes the picture behind the view the one that is drawn: all descriptor sets hold it.
pub fn descriptor_writes(sets: &Vec<u64>, sampler: u64, view: u64) -> (writes: Vec<DescriptorWrite>)
    ensures
        writes@ == sets@.map_values(|set: u64| picture_write(set, sampler, view)),
{
    let mut writes: Vec<DescriptorWrite> = Vec::new();
    let mut i: usize = 0;
    while i < sets.len()
        invariant
            i <= sets@.len(),
            writes@ =~= sets@.take(i as int).map_values(
                |set: u64| picture_write(set, sampler, view),
            ),
        decreases sets@.len() - i,
    {
        let binding: DescriptorBinding = descriptor_binding();
        writes.push(
            DescriptorWrite {
                set: sets[i],
                binding: binding.binding,
                element: 0,
                kind: binding.kind,
                sampler,
                view,
                layout: LAYOUT_SHADER_READ,
            },
        );
        i = i + 1;
    }
    assert(sets@.take(i as int) =~= sets@);
    writes
}

/// The image for a picture has the picture's width and height, in this order, one level and one
/// layer. By the numbers of Vulkan it is a flat one with one sample for each pixel, in the format of
/// the pixels, which copies write and shaders read, and nothing else is done with it.
pub proof fn law_texture_has_the_size_of_the_picture(width: u32, height: u32)
    ensures
        ({
            let config = texture_image(width, height);
            &&& config.width == width
            &&& config.height == height
            &&& config.depth == 1
            &&& config.levels == 1
            &&& config.layers == 1
            &&& config.samples == 1
            &&& config.kind == 1
            &&& config.format == 43
            &&& config.tiling == 0
            &&& config.usage == 6
            &&& config.layout == 0
        }),
{
    assert(0x2u32 | 0x4u32 == 6u32) by (bit_vector);
}

/// A staging buffer has just the size that is wanted. Copies read from it, one queue family uses it,
/// and the CPU writes to it without a flush.
pub proof fn law_staging_buffer_has_the_wanted_size(size: u64)
    ensures
        staging_buffer(size).size == size,
        staging_buffer(size).usage == 1,
        staging_buffer(size).sharing == 0,
        staging_buffer(size).properties == 6,
{
    assert(2u32 | 4u32 == 6u32) by (bit_vector);
}

/// A view shows all colors of an image, in the format that is given.
pub proof fn law_view_shows_the_whole_image(format: i32)
    ensures
        full_view(format).format == format,
        full_view(format).kind == 1,
        full_view(format).range == (ImageRange {
            aspect: 1,
            first_level: 0,
            levels: 1,
            first_layer: 0,
            layers: 1,
        }),
{
}

/// What is written to a descriptor set goes to that set, and is that view with that sampler, in the
/// layout in which shaders read, at the place and of the kind that the layout of the sets has.
pub proof fn law_descriptor_set_gets_the_picture(set_handle: u64, sampler: u64, view: u64)
    ensures
        ({
            let write = picture_write(set_handle, sampler, view);
            &&& write.set == set_handle
            &&& write.sampler == sampler
            &&& write.view == view
            &&& write.element == 0
            &&& write.layout == 5
            &&& write.binding == picture_binding().binding
            &&& write.kind == picture_binding().kind
        }),
{
}

/// The shaders see what the viewer gives them: the fragment shader one image with its sampler under
/// number zero, the vertex shader sixteen bytes from the start of the pushed constants.
pub proof fn law_shaders_see_picture_and_view()
    ensures
        picture_binding() == (DescriptorBinding { binding: 0, kind: 1, count: 1, stages: 0x10 }),
        view_range() == (PushRange { stages: 1, offset: 0, size: 16 }),
{
}

/// A picture is smoothed in every direction, and at its border it goes on with its own colors.
pub proof fn law_sampler_is_smooth()
    ensures
        smooth_sampler() == (SamplerConfig {
            mag_filter: 1,
            min_filter: 1,
            mipmap_mode: 1,
            address_mode_u: 2,
            address_mode_v: 2,
        }),
{
}

} // verus!
