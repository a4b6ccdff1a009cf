//! What the swapchain is made with: its pixel format, its size and the number of its images.

use vstd::prelude::*;

use crate::config::{IMAGE_USE_COLOR_ATTACHMENT, SHARING_EXCLUSIVE};

verus! {

/// The number of the pixel format with one byte each of blue, green, red and alpha, sRGB encoded.
pub const B8G8R8A8_SRGB: i32 = 50;

/// What is behind the window does not shine through.
pub const COMPOSITE_OPAQUE: u32 = 1;

/// Images are shown one after the other, each with the next refresh of the screen.
pub const PRESENT_FIFO: i32 = 2;

/// A surface whose current width is this number takes whatever size the swapchain has.
pub const ANY_WIDTH: u32 = 0xffff_ffff;

/// A size in pixels.
#[derive(Clone, Copy, Debug, PartialEq, Eq, Structural)]
pub struct Extent {
    pub width: u32,
    pub height: u32,
}

/// A pixel format and a colour space, by their numbers.
#[derive(Clone, Copy, Debug, PartialEq, Eq, Structural)]
pub struct SurfaceFormat {
    pub format: i32,
    pub color_space: i32,
}

/// What a surface allows, and how it is turned at present. A `max_image_count` of zero sets no
/// limit.
#[derive(Clone, Copy, Debug, PartialEq, Eq, Structural)]
pub struct Capabilities {
    pub min_image_count: u32,
    pub max_image_count: u32,
    pub current_extent: Extent,
    pub min_image_extent: Extent,
    pub max_image_extent: Extent,
    pub current_transform: u32,
}

/// What the swapchain is made with.
#[derive(Clone, Copy, Debug, PartialEq, Eq, Structural)]
pub struct SwapchainConfig {
    pub format: SurfaceFormat,
    pub extent: Extent,
    pub image_count: u32,
    pub transform: u32,
    pub array_layers: u32,
    pub usage: u32,
    pub sharing: i32,
    pub composite_alpha: u32,
    pub present_mode: i32,
    /// What is hidden behind other windows need not be drawn.
    pub clipped: bool,
}

impl SwapchainConfig {
    /// What is the same for every swapchain: one layer that is drawn to, used by one queue family,
    /// opaque, shown in order.
    pub open spec fn has_fixed_part(self) -> bool {
        &&& self.array_layers == 1
        &&& self.usage == IMAGE_USE_COLOR_ATTACHMENT
        &&& self.sharing == SHARING_EXCLUSIVE
        &&& self.composite_alpha == COMPOSITE_OPAQUE
        &&& self.present_mode == PRESENT_FIFO
        &&& self.clipped
    }
}

/// `value`, or the nearest number between `low` and `high`.
pub open spec fn clamped(value: u32, low: u32, high: u32) -> u32 {
    if value < low {
        low
    } else if value > high {
        high
    } else {
        value
    }
}

fn clamp(value: u32, low: u32, high: u32) -> (r: u32)
    requires
        low <= high,
    ensures
        r == clamped(value, low, high),
        low <= r <= high,
{
    if value < low {
        low
    } else if value > high {
        high
    } else {
        value
    }
}

impl Capabilities {
    /// The window decides its size, and the swapchain has to follow.
    pub open spec fn has_fixed_size(self) -> bool {
        self.current_extent.width != ANY_WIDTH
    }

    /// The limits do not contradict each other.
    pub open spec fn wf(self) -> bool {
        &&& self.min_image_count < u32::MAX
        &&& !self.has_fixed_size() ==> {
            &&& self.min_image_extent.width <= self.max_image_extent.width
            &&& self.min_image_extent.height <= self.max_image_extent.height
        }
    }

    /// The size of the swapchain for a window of the given size.
    pub open spec fn extent_for(self, window: Extent) -> Extent {
        if self.has_fixed_size() {
            self.current_extent
        } else {
            Extent {
                width: clamped(
                    window.width,
                    self.min_image_extent.width,
                    self.max_image_extent.width,
                ),
                height: clamped(
                    window.height,
                    self.min_image_extent.height,
                    self.max_image_extent.height,
                ),
            }
        }
    }

    /// One image more than the least number, unless that is too many.
    pub open spec fn image_count(self) -> int {
        if 0 < self.max_image_count <= self.min_image_count {
            self.max_image_count as int
        } else {
            self.min_image_count + 1
        }
    }
}

/// The place of the preferred format, or else the first one.
pub open spec fn is_preferred(formats: Seq<SurfaceFormat>, i: int) -> bool {
    &&& 0 <= i < formats.len()
    &&& forall|j: int| 0 <= j < i ==> formats[j].format != B8G8R8A8_SRGB
    &&& {
        ||| formats[i].format == B8G8R8A8_SRGB
        ||| i == 0 && forall|j: int|
            0 <= j < formats.len() ==> formats[j].format != B8G8R8A8_SRGB
    }
}

/// The first format that stores sRGB colours in the order blue, green, red, alpha; where there is
/// none, the first format.
pub fn choose_format(formats: &Vec<SurfaceFormat>) -> (chosen: SurfaceFormat)
    requires
        formats@.len() > 0,
    ensures
        exists|i: int| #[trigger] is_preferred(formats@, i) && chosen == formats@[i],
{
    let mut i: usize = 0;
    while i < formats.len()
        invariant
            i <= formats@.len(),
            formats@.len() > 0,
            forall|j: int| 0 <= j < i ==> formats@[j].format != B8G8R8A8_SRGB,
        decreases formats@.len() - i,
    {
        if formats[i].format == B8G8R8A8_SRGB {
            assert(is_preferred(formats@, i as int));
            return formats[i];
        }
        i = i + 1;
    }
    assert(is_preferred(formats@, 0));
    formats[0]
}

/// What to make the swapchain of a window with.
pub fn configure_swapchain(
    caps: &Capabilities,
    formats: &Vec<SurfaceFormat>,
    width: u32,
    height: u32,
) -> (config: SwapchainConfig)
    requires
        caps.wf(),
        formats@.len() > 0,
    ensures
        exists|i: int| #[trigger] is_preferred(formats@, i) && config.format == formats@[i],
        config.extent == caps.extent_for(Extent { width, height }),
        config.image_count == caps.image_count(),
        config.transform == caps.current_transform,
        config.has_fixed_part(),
{
    let extent: Extent = if caps.current_extent.width != ANY_WIDTH {
        caps.current_extent
    } else {
        Extent {
            width: clamp(width, caps.min_image_extent.width, caps.max_image_extent.width),
            height: clamp(height, caps.min_image_extent.height, caps.max_image_extent.height),
        }
    };
    let wanted: u32 = caps.min_image_count + 1;
    let image_count: u32 = if caps.max_image_count > 0 && caps.max_image_count < wanted {
        caps.max_image_count
    } else {
        wanted
    };
    SwapchainConfig {
        format: choose_format(formats),
        extent,
        image_count,
        transform: caps.current_transform,
        array_layers: 1,
        usage: IMAGE_USE_COLOR_ATTACHMENT,
        sharing: SHARING_EXCLUSIVE,
        composite_alpha: COMPOSITE_OPAQUE,
        present_mode: PRESENT_FIFO,
        clipped: true,
    }
}

/// At most one place is that of the preferred format.
pub proof fn law_preferred_format_is_unique(formats: Seq<SurfaceFormat>, i: int, j: int)
    requires
        is_preferred(formats, i),
        is_preferred(formats, j),
    ensures
        i == j,
{
}

/// A swapchain stays within what the surface allows: its images are at least as many as the
/// surface needs and no more than it takes, and where the size is free it lies between the
/// smallest and the largest one.
pub proof fn law_config_is_allowed(caps: Capabilities, window: Extent)
    requires
        caps.wf(),
        caps.max_image_count == 0 || caps.min_image_count <= caps.max_image_count,
    ensures
        caps.min_image_count <= caps.image_count(),
        caps.max_image_count > 0 ==> caps.image_count() <= caps.max_image_count,
        !caps.has_fixed_size() ==> {
            let extent = caps.extent_for(window);
            &&& caps.min_image_extent.width <= extent.width <= caps.max_image_extent.width
            &&& caps.min_image_extent.height <= extent.height <= caps.max_image_extent.height
        },
{
}

/// The size of the swapchain. Where the surface has a size of its own, it is that one. Otherwise each
/// side is that of the window, or the nearest one that the surface allows.
pub proof fn law_extent_follows_the_window(caps: Capabilities, window: Extent)
    requires
        caps.wf(),
    ensures
        ({
            let extent = caps.extent_for(window);
            let (least, most) = (caps.min_image_extent, caps.max_image_extent);
            &&& caps.current_extent.width != 0xffff_ffff ==> extent == caps.current_extent
            &&& caps.current_extent.width == 0xffff_ffff ==> {
                &&& least.width <= window.width <= most.width ==> extent.width == window.width
                &&& window.width < least.width ==> extent.width == least.width
                &&& window.width > most.width ==> extent.width == most.width
                &&& least.height <= window.height <= most.height ==> extent.height == window.height
                &&& window.height < least.height ==> extent.height == least.height
                &&& window.height > most.height ==> extent.height == most.height
            }
        }),
{
}

/// There is one image more than the surface needs, unless it limits their number to fewer.
pub proof fn law_one_image_to_spare(caps: Capabilities)
    ensures
        caps.max_image_count == 0 ==> caps.image_count() == caps.min_image_count + 1,
        caps.max_image_count > caps.min_image_count ==> caps.image_count() == caps.min_image_count
            + 1,
        0 < caps.max_image_count <= caps.min_image_count ==> caps.image_count()
            == caps.max_image_count,
{
}

/// The preferred format is the first one with the number 50. Where there is none, it is the first
/// one of all.
pub proof fn law_preferred_format(formats: Seq<SurfaceFormat>, i: int, j: int)
    requires
        is_preferred(formats, i),
        0 <= j < formats.len(),
    ensures
        formats[j].format == 50 ==> formats[i].format == 50 && i <= j,
        formats[i].format != 50 ==> i == 0,
{
}

/// There always is a preferred format, if there is any.
pub proof fn law_some_format_is_preferred(formats: Seq<SurfaceFormat>)
    requires
        formats.len() > 0,
    ensures
        exists|i: int| is_preferred(formats, i),
{
    lemma_some_format_is_preferred(formats, 0);
}

proof fn lemma_some_format_is_preferred(formats: Seq<SurfaceFormat>, from: int)
    requires
        0 <= from <= formats.len(),
        0 < formats.len(),
        forall|j: int| 0 <= j < from ==> formats[j].format != B8G8R8A8_SRGB,
    ensures
        exists|i: int| is_preferred(formats, i),
    decreases formats.len() - from,
{
    if from == formats.len() {
        assert(is_preferred(formats, 0));
    } else if formats[from].format == B8G8R8A8_SRGB {
        assert(is_preferred(formats, from));
    } else {
        lemma_some_format_is_preferred(formats, from + 1);
    }
}

/// What every swapchain has in common, by the numbers of Vulkan: one layer, drawn to, for one queue
/// family, opaque, shown in order, and clipped.
pub proof fn law_fixed_part(config: SwapchainConfig)
    ensures
        config.has_fixed_part() <==> {
            &&& config.array_layers == 1
            &&& config.usage == 0x10
            &&& config.sharing == 0
            &&& config.composite_alpha == 1
            &&& config.present_mode == 2
            &&& config.clipped
        },
{
}

} // verus!
