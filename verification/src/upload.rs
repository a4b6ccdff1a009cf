//! The commands that bring the pixels of an image from the staging buffer to the GPU.

use vstd::prelude::*;

use crate::config::{all_colors, whole_image, ImageRange};
use crate::layout::{
    Transition, ACCESS_NONE, ACCESS_SHADER_READ, ACCESS_TRANSFER_WRITE, LAYOUT_SHADER_READ,
    LAYOUT_TRANSFER_DST, LAYOUT_UNDEFINED, STAGE_FRAGMENT_SHADER, STAGE_TOP_OF_PIPE,
    STAGE_TRANSFER,
};

verus! {

/// One command of an upload.
#[derive(Clone, Copy, Debug, PartialEq, Eq, Structural)]
pub enum UploadCommand {
    Transition(Transition),
    /// This part of the image, which has this layout and size, is filled from the start of the
    /// buffer, row by row.
    Copy { buffer: u64, image: u64, range: ImageRange, layout: i32, width: u32, height: u32 },
}

/// The image becomes one that can be copied to.
pub open spec fn opening(image: u64) -> Transition {
    Transition {
        image,
        range: all_colors(),
        old_layout: LAYOUT_UNDEFINED,
        new_layout: LAYOUT_TRANSFER_DST,
        src_stage: STAGE_TOP_OF_PIPE,
        dst_stage: STAGE_TRANSFER,
        src_access: ACCESS_NONE,
        dst_access: ACCESS_TRANSFER_WRITE,
    }
}

/// The image becomes one that shaders can read.
pub open spec fn closing(image: u64) -> Transition {
    Transition {
        image,
        range: all_colors(),
        old_layout: LAYOUT_TRANSFER_DST,
        new_layout: LAYOUT_SHADER_READ,
        src_stage: STAGE_TRANSFER,
        dst_stage: STAGE_FRAGMENT_SHADER,
        src_access: ACCESS_TRANSFER_WRITE,
        dst_access: ACCESS_SHADER_READ,
    }
}

/// The commands that fill a new image from the buffer.
pub open spec fn upload_plan(buffer: u64, image: u64, width: u32, height: u32) -> Seq<
    UploadCommand,
> {
    seq![
        UploadCommand::Transition(opening(image)),
        UploadCommand::Copy {
            buffer,
            image,
            range: all_colors(),
            layout: LAYOUT_TRANSFER_DST,
            width,
            height,
        },
        UploadCommand::Transition(closing(image)),
    ]
}

/// The commands that fill a new image from the buffer, in the order in which they are recorded.
pub fn upload_commands(buffer: u64, image: u64, width: u32, height: u32) -> (commands: Vec<
    UploadCommand,
>)
    ensures
        commands@ == upload_plan(buffer, image, width, height),
{
    let mut commands: Vec<UploadCommand> = Vec::new();
    commands.push(
        UploadCommand::Transition(
            Transition {
                image,
                range: whole_image(),
                old_layout: LAYOUT_UNDEFINED,
                new_layout: LAYOUT_TRANSFER_DST,
                src_stage: STAGE_TOP_OF_PIPE,
                dst_stage: STAGE_TRANSFER,
                src_access: ACCESS_NONE,
                dst_access: ACCESS_TRANSFER_WRITE,
            },
        ),
    );
    commands.push(
        UploadCommand::Copy {
            buffer,
            image,
            range: whole_image(),
            layout: LAYOUT_TRANSFER_DST,
            width,
            height,
        },
    );
    commands.push(
        UploadCommand::Transition(
            Transition {
                image,
                range: whole_image(),
                old_layout: LAYOUT_TRANSFER_DST,
                new_layout: LAYOUT_SHADER_READ,
                src_stage: STAGE_TRANSFER,
                dst_stage: STAGE_FRAGMENT_SHADER,
                src_access: ACCESS_TRANSFER_WRITE,
                dst_access: ACCESS_SHADER_READ,
            },
        ),
    );
    commands
}

/// The layout of an image, new at first, after the commands.
pub open spec fn layout_after(image: u64, commands: Seq<UploadCommand>) -> i32
    decreases commands.len(),
{
    if commands.len() == 0 {
        LAYOUT_UNDEFINED
    } else {
        match commands.last() {
            UploadCommand::Transition(transition) if transition.image == image => {
                transition.new_layout
            },
            _ => layout_after(image, commands.drop_last()),
        }
    }
}

/// Each command finds the image in the layout that it counts on, and waits for what the last
/// transition let begin. In the end, shaders can read the image.
pub proof fn law_upload_leaves_the_image_readable(
    buffer: u64,
    image: u64,
    width: u32,
    height: u32,
)
    ensures
        ({
            let plan = upload_plan(buffer, image, width, height);
            &&& forall|i: int|
                0 <= i < plan.len() ==> match #[trigger] plan[i] {
                    UploadCommand::Transition(transition) => {
                        &&& transition.image == image
                        &&& transition.old_layout == layout_after(image, plan.take(i))
                    },
                    UploadCommand::Copy { image: target, layout, .. } => {
                        &&& target == image
                        &&& layout == layout_after(image, plan.take(i))
                        &&& layout == LAYOUT_TRANSFER_DST
                    },
                }
            &&& layout_after(image, plan) == LAYOUT_SHADER_READ
        }),
        opening(image).dst_stage == closing(image).src_stage,
        opening(image).dst_access == closing(image).src_access,
{
    let plan = upload_plan(buffer, image, width, height);
    assert(plan.take(0).len() == 0);
    assert(plan.take(1).last() == UploadCommand::Transition(opening(image)));
    assert(plan.take(2).drop_last() =~= plan.take(1));
    assert(plan.take(2).last() == plan[1]);
    assert(plan.last() == UploadCommand::Transition(closing(image)));
    assert(layout_after(image, plan.take(2)) == layout_after(image, plan.take(1)));
}

/// An upload is one copy of the whole picture, as wide and as high as it is, from the given buffer to
/// all colors of the given image, between two changes of that image's layout. The copy waits for the
/// first change, and shaders wait for the copy.
pub proof fn law_upload_copies_the_whole_picture(
    buffer: u64,
    image: u64,
    width: u32,
    height: u32,
)
    ensures
        ({
            let plan = upload_plan(buffer, image, width, height);
            let whole = ImageRange {
                aspect: 1,
                first_level: 0,
                levels: 1,
                first_layer: 0,
                layers: 1,
            };
            &&& plan.len() == 3
            &&& plan[1] == (UploadCommand::Copy {
                buffer,
                image,
                range: whole,
                layout: 7,
                width,
                height,
            })
            &&& plan[0] == UploadCommand::Transition(
                Transition {
                    image,
                    range: whole,
                    old_layout: 0,
                    new_layout: 7,
                    src_stage: 0x1,
                    dst_stage: 0x1000,
                    src_access: 0,
                    dst_access: 0x1000,
                },
            )
            &&& plan[2] == UploadCommand::Transition(
                Transition {
                    image,
                    range: whole,
                    old_layout: 7,
                    new_layout: 5,
                    src_stage: 0x1000,
                    dst_stage: 0x80,
                    src_access: 0x1000,
                    dst_access: 0x20,
                },
            )
        }),
{
}

} // verus!
