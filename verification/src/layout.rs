//! The layouts of images on the GPU, and how one layout follows another.

use vstd::prelude::*;

use crate::config::ImageRange;

verus! {

/// The layout of an image whose content does not matter.
pub const LAYOUT_UNDEFINED: i32 = 0;

/// The layout of an image that is drawn to.
pub const LAYOUT_COLOR_ATTACHMENT: i32 = 2;

/// The layout of an image that shaders read.
pub const LAYOUT_SHADER_READ: i32 = 5;

/// The layout of an image that is copied to.
pub const LAYOUT_TRANSFER_DST: i32 = 7;

/// The layout of an image that the window shows.
pub const LAYOUT_PRESENT: i32 = 1000001002;

/// The stage before everything else.
pub const STAGE_TOP_OF_PIPE: u32 = 0x1;

/// The stage in which the color of a pixel is computed.
pub const STAGE_FRAGMENT_SHADER: u32 = 0x80;

/// The stage in which colors are written.
pub const STAGE_COLOR_OUTPUT: u32 = 0x400;

/// The stage of copies.
pub const STAGE_TRANSFER: u32 = 0x1000;

/// The stage after everything else.
pub const STAGE_BOTTOM_OF_PIPE: u32 = 0x2000;

/// No access at all.
pub const ACCESS_NONE: u32 = 0;

/// The access of a shader to what it reads.
pub const ACCESS_SHADER_READ: u32 = 0x20;

/// The access of drawing to the image that it writes.
pub const ACCESS_COLOR_WRITE: u32 = 0x100;

/// The access of a copy to what it writes.
pub const ACCESS_TRANSFER_WRITE: u32 = 0x1000;

/// A change of the layout of a part of an image. What happens at the first stage, with the first access, is
/// over before the second stage begins with the second access.
#[derive(Clone, Copy, Debug, PartialEq, Eq, Structural)]
pub struct Transition {
    pub image: u64,
    pub range: ImageRange,
    pub old_layout: i32,
    pub new_layout: i32,
    pub src_stage: u32,
    pub dst_stage: u32,
    pub src_access: u32,
    pub dst_access: u32,
}

} // verus!
