//! The commands that draw an image to the window, without a render pass: the picture is rendered
//! dynamically, straight to a view of the image that the window shows next.

use vstd::prelude::*;

use crate::config::{all_colors, push_range, view_range, whole_image, ImageRange, PushRange};
use crate::layout::{
    Transition, ACCESS_COLOR_WRITE, ACCESS_NONE, LAYOUT_COLOR_ATTACHMENT, LAYOUT_PRESENT,
    LAYOUT_UNDEFINED, STAGE_BOTTOM_OF_PIPE, STAGE_COLOR_OUTPUT,
};
use crate::surface::Extent;

verus! {

/// The corners of the strip of two triangles that the picture is drawn on.
pub const CORNERS: u32 = 4;

/// An image is cleared before it is drawn to.
pub const LOAD_CLEAR: i32 = 1;

/// What is drawn is kept.
pub const STORE: i32 = 0;

/// One command of a frame.
#[derive(Clone, Copy, Debug, PartialEq, Eq, Structural)]
pub enum DrawCommand {
    Transition(Transition),
    /// Rendering begins on the view of an image, which has this layout, over all of the extent.
    BeginRendering {
        view: u64,
        image_layout: i32,
        extent: Extent,
        layers: u32,
        load: i32,
        store: i32,
    },
    BindPipeline { pipeline: u64 },
    BindDescriptorSet { layout: u64, set: u64 },
    /// Zoom and offset go to the vertex shader.
    PushConstants { layout: u64, range: PushRange },
    Draw { vertices: u32, instances: u32 },
    EndRendering,
}

/// The image becomes one that can be drawn to. What it held does not matter.
pub open spec fn to_attachment(image: u64) -> Transition {
    Transition {
        image,
        range: all_colors(),
        old_layout: LAYOUT_UNDEFINED,
        new_layout: LAYOUT_COLOR_ATTACHMENT,
        src_stage: STAGE_COLOR_OUTPUT,
        dst_stage: STAGE_COLOR_OUTPUT,
        src_access: ACCESS_NONE,
        dst_access: ACCESS_COLOR_WRITE,
    }
}

/// The image becomes one that the window can show.
pub open spec fn to_window(image: u64) -> Transition {
    Transition {
        image,
        range: all_colors(),
        old_layout: LAYOUT_COLOR_ATTACHMENT,
        new_layout: LAYOUT_PRESENT,
        src_stage: STAGE_COLOR_OUTPUT,
        dst_stage: STAGE_BOTTOM_OF_PIPE,
        src_access: ACCESS_COLOR_WRITE,
        dst_access: ACCESS_NONE,
    }
}

/// The commands that draw the picture to an image through its view.
pub open spec fn draw_plan(
    image: u64,
    view: u64,
    extent: Extent,
    pipeline: u64,
    layout: u64,
    descriptor_set: u64,
) -> Seq<DrawCommand> {
    seq![
        DrawCommand::Transition(to_attachment(image)),
        DrawCommand::BeginRendering {
            view,
            image_layout: LAYOUT_COLOR_ATTACHMENT,
            extent,
            layers: 1,
            load: LOAD_CLEAR,
            store: STORE,
        },
        DrawCommand::BindPipeline { pipeline },
        DrawCommand::BindDescriptorSet { layout, set: descriptor_set },
        DrawCommand::PushConstants { layout, range: view_range() },
        DrawCommand::Draw { vertices: CORNERS, instances: 1 },
        DrawCommand::EndRendering,
        DrawCommand::Transition(to_window(image)),
    ]
}

/// The commands that draw the picture to an image through its view, in the order in which they are
/// recorded.
pub fn draw_commands(
    image: u64,
    view: u64,
    extent: Extent,
    pipeline: u64,
    layout: u64,
    descriptor_set: u64,
) -> (commands: Vec<DrawCommand>)
    ensures
        commands@ == draw_plan(image, view, extent, pipeline, layout, descriptor_set),
{
    let first: Transition = Transition {
        image,
        range: whole_image(),
        old_layout: LAYOUT_UNDEFINED,
        new_layout: LAYOUT_COLOR_ATTACHMENT,
        src_stage: STAGE_COLOR_OUTPUT,
        dst_stage: STAGE_COLOR_OUTPUT,
        src_access: ACCESS_NONE,
        dst_access: ACCESS_COLOR_WRITE,
    };
    let last: Transition = Transition {
        image,
        range: whole_image(),
        old_layout: LAYOUT_COLOR_ATTACHMENT,
        new_layout: LAYOUT_PRESENT,
        src_stage: STAGE_COLOR_OUTPUT,
        dst_stage: STAGE_BOTTOM_OF_PIPE,
        src_access: ACCESS_COLOR_WRITE,
        dst_access: ACCESS_NONE,
    };
    let mut commands: Vec<DrawCommand> = Vec::new();
    commands.push(DrawCommand::Transition(first));
    commands.push(
        DrawCommand::BeginRendering {
            view,
            image_layout: LAYOUT_COLOR_ATTACHMENT,
            extent,
            layers: 1,
            load: LOAD_CLEAR,
            store: STORE,
        },
    );
    commands.push(DrawCommand::BindPipeline { pipeline });
    commands.push(DrawCommand::BindDescriptorSet { layout, set: descriptor_set });
    commands.push(DrawCommand::PushConstants { layout, range: push_range() });
    commands.push(DrawCommand::Draw { vertices: CORNERS, instances: 1 });
    commands.push(DrawCommand::EndRendering);
    commands.push(DrawCommand::Transition(last));
    commands
}

/// What recording has come to: the layout of the image that is drawn to, whether rendering is going
/// on, and what is bound.
pub struct Recording {
    pub layout: i32,
    pub rendering: bool,
    pub pipeline: Option<u64>,
    pub set: Option<u64>,
    pub pushed: bool,
    pub draws: nat,
}

/// The start of a recording. The image may be in any layout: what it holds does not matter.
pub open spec fn blank() -> Recording {
    Recording {
        layout: LAYOUT_UNDEFINED,
        rendering: false,
        pipeline: None,
        set: None,
        pushed: false,
        draws: 0,
    }
}

impl Recording {
    /// The command may come now: the image changes its layout outside of rendering and from the
    /// layout that it has, rendering begins on an image that can be drawn to, and only what is
    /// bound completely is drawn, while rendering is going on.
    pub open spec fn allows(self, image: u64, command: DrawCommand) -> bool {
        match command {
            DrawCommand::Transition(transition) => {
                &&& transition.image == image
                &&& transition.old_layout == self.layout
                &&& !self.rendering
            },
            DrawCommand::BeginRendering { image_layout, .. } => {
                &&& image_layout == self.layout
                &&& image_layout == LAYOUT_COLOR_ATTACHMENT
                &&& !self.rendering
            },
            DrawCommand::Draw { .. } => {
                &&& self.rendering
                &&& self.pipeline is Some
                &&& self.set is Some
                &&& self.pushed
            },
            DrawCommand::EndRendering => self.rendering,
            _ => true,
        }
    }

    /// The recording after a command.
    pub open spec fn after(self, command: DrawCommand) -> Recording {
        match command {
            DrawCommand::Transition(transition) => Recording {
                layout: transition.new_layout,
                ..self
            },
            DrawCommand::BeginRendering { .. } => Recording { rendering: true, ..self },
            DrawCommand::BindPipeline { pipeline } => Recording {
                pipeline: Some(pipeline),
                ..self
            },
            DrawCommand::BindDescriptorSet { set, .. } => Recording { set: Some(set), ..self },
            DrawCommand::PushConstants { .. } => Recording { pushed: true, ..self },
            DrawCommand::Draw { .. } => Recording { draws: self.draws + 1, ..self },
            DrawCommand::EndRendering => Recording { rendering: false, ..self },
        }
    }
}

/// The recording after the first `count` of the commands.
pub open spec fn recorded(commands: Seq<DrawCommand>, count: int) -> Recording
    decreases count,
{
    if count <= 0 {
        blank()
    } else {
        recorded(commands, count - 1).after(commands[count - 1])
    }
}

/// Every command of a frame comes when it may, the picture is drawn once, with the pipeline and the
/// descriptor set that were given, and in the end the window can show the image.
pub proof fn law_frame_is_drawn_without_a_render_pass(
    image: u64,
    view: u64,
    extent: Extent,
    pipeline: u64,
    layout: u64,
    descriptor_set: u64,
)
    ensures
        ({
            let plan = draw_plan(image, view, extent, pipeline, layout, descriptor_set);
            &&& forall|i: int|
                0 <= i < plan.len() ==> #[trigger] recorded(plan, i).allows(image, plan[i])
            &&& recorded(plan, plan.len() as int) == (Recording {
                layout: LAYOUT_PRESENT,
                rendering: false,
                pipeline: Some(pipeline),
                set: Some(descriptor_set),
                pushed: true,
                draws: 1,
            })
        }),
{
    let plan = draw_plan(image, view, extent, pipeline, layout, descriptor_set);
    reveal_with_fuel(recorded, 9);
    assert forall|i: int| 0 <= i < plan.len() implies #[trigger] recorded(plan, i).allows(
        image,
        plan[i],
    ) by {
        assert(i == 0 || i == 1 || i == 2 || i == 3 || i == 4 || i == 5 || i == 6 || i == 7);
    }
}

/// Rendering goes to the given view over all of the given extent, which is cleared first and kept
/// afterwards. The picture is four corners, drawn once. What is bound and pushed goes with the given
/// layout.
pub proof fn law_frame_is_drawn_to_the_view(
    image: u64,
    view: u64,
    extent: Extent,
    pipeline: u64,
    layout: u64,
    descriptor_set: u64,
    i: int,
)
    requires
        0 <= i < draw_plan(image, view, extent, pipeline, layout, descriptor_set).len(),
    ensures
        match draw_plan(image, view, extent, pipeline, layout, descriptor_set)[i] {
            DrawCommand::Transition(change) => {
                &&& change.image == image
                &&& change.range == (ImageRange {
                    aspect: 1,
                    first_level: 0,
                    levels: 1,
                    first_layer: 0,
                    layers: 1,
                })
                &&& change.old_layout == 0 ==> {
                    &&& i == 0
                    &&& change.new_layout == 2
                    &&& change.src_stage == 0x400
                    &&& change.dst_stage == 0x400
                    &&& change.src_access == 0
                    &&& change.dst_access == 0x100
                }
                &&& change.old_layout != 0 ==> {
                    &&& change.old_layout == 2
                    &&& change.new_layout == 1000001002
                    &&& change.src_stage == 0x400
                    &&& change.dst_stage == 0x2000
                    &&& change.src_access == 0x100
                    &&& change.dst_access == 0
                }
            },
            DrawCommand::BeginRendering {
                view: v,
                image_layout,
                extent: e,
                layers,
                load,
                store,
            } => {
                &&& v == view
                &&& e == extent
                &&& image_layout == 2
                &&& layers == 1
                &&& load == 1
                &&& store == 0
            },
            DrawCommand::BindPipeline { pipeline: p } => p == pipeline,
            DrawCommand::BindDescriptorSet { layout: l, set: s } => l == layout && s
                == descriptor_set,
            DrawCommand::PushConstants { layout: l, range } => {
                &&& l == layout
                &&& range == (PushRange { stages: 1, offset: 0, size: 16 })
            },
            DrawCommand::Draw { vertices, instances } => vertices == 4 && instances == 1,
            DrawCommand::EndRendering => true,
        },
{
}

} // verus!
