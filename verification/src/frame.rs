//! Drawing one frame: what to do next, given what has been done.

use vstd::prelude::*;

use crate::context::Context;
use crate::layout::STAGE_COLOR_OUTPUT;
use crate::setup::{setup_action, SetupAction, SetupStage, SetupView};
use crate::surface::Extent;

verus! {

/// The error of a swapchain that no longer goes with its window.
pub const ERROR_OUT_OF_DATE: i32 = -1000001004;

/// A wait without an end.
pub const FOREVER: u64 = 0xffff_ffff_ffff_ffff;

/// How far a frame has come. From `ResetFence` on, `index` is the image that is drawn to.
#[derive(Clone, Copy, Debug, PartialEq, Eq, Structural)]
pub enum FramePhase {
    WaitFence,
    Acquire,
    ResetFence { index: usize },
    ResetCommands { index: usize },
    BeginCommands { index: usize },
    Record { index: usize },
    EndCommands { index: usize },
    Submit { index: usize },
    Present { index: usize },
    /// The frame is drawn.
    Finished,
    /// The window is about to change its size, and there is nothing to draw to.
    Skipped,
    /// A step went wrong, with this error.
    Failed { code: i32 },
}

/// One frame.
#[derive(Clone, Copy, Debug, PartialEq, Eq, Structural)]
pub struct Frame {
    pub phase: FramePhase,
}

/// What a frame asks for.
#[derive(Clone, Copy, Debug, PartialEq, Eq, Structural)]
pub enum FrameAction {
    WaitFence { fence: u64, timeout: u64 },
    Acquire { swapchain: u64, timeout: u64, signal: u64 },
    ResetFence { fence: u64 },
    ResetCommands { commands: u64 },
    BeginCommands { commands: u64 },
    Record {
        commands: u64,
        image: u64,
        view: u64,
        extent: Extent,
        pipeline: u64,
        layout: u64,
        descriptor_set: u64,
    },
    EndCommands { commands: u64 },
    /// The commands write colors once `wait` is signaled, and signal the others when they are done.
    Submit { commands: u64, wait: u64, wait_stage: u32, signal: u64, fence: u64 },
    Present { swapchain: u64, index: u32, wait: u64 },
    Finished,
    Skipped,
    Failed { code: i32 },
}

/// What came of it.
#[derive(Clone, Copy, Debug, PartialEq, Eq, Structural)]
pub enum FrameReply {
    Done,
    Acquired { index: u32 },
    Failed { code: i32 },
}

impl Context {
    /// Nothing is missing for a frame.
    pub open spec fn can_draw(self) -> bool {
        self.present@.complete()
    }

    /// The swapchain has this image, and there are a command buffer and a descriptor set for it.
    pub open spec fn has_image(self, index: int) -> bool {
        &&& 0 <= index < self.command_buffers@.len()
        &&& index < self.present.swapchain.images@.len()
        &&& index < self.descriptor_sets@.len()
        &&& index <= u32::MAX
    }
}

impl Frame {
    /// The frame goes with the context: the image that it draws to is there.
    pub open spec fn fits(self, context: Context) -> bool {
        &&& context.can_draw()
        &&& match self.phase {
            FramePhase::ResetFence { index } => context.has_image(index as int),
            FramePhase::ResetCommands { index } => context.has_image(index as int),
            FramePhase::BeginCommands { index } => context.has_image(index as int),
            FramePhase::Record { index } => context.has_image(index as int),
            FramePhase::EndCommands { index } => context.has_image(index as int),
            FramePhase::Submit { index } => context.has_image(index as int),
            FramePhase::Present { index } => context.has_image(index as int),
            _ => true,
        }
    }

    /// The replies that the step of this phase can have. Recording commands cannot fail.
    pub open spec fn expects(self, context: Context, reply: FrameReply) -> bool {
        match self.phase {
            FramePhase::Acquire => match reply {
                FrameReply::Acquired { index } => context.has_image(index as int),
                FrameReply::Failed { .. } => true,
                FrameReply::Done => false,
            },
            FramePhase::Record { .. } => reply is Done,
            FramePhase::Finished => false,
            FramePhase::Skipped => false,
            FramePhase::Failed { .. } => false,
            _ => reply is Done || reply is Failed,
        }
    }
}

/// What a frame asks for at each phase.
pub open spec fn frame_action(frame: Frame, context: Context) -> FrameAction {
    let sc = context.present.swapchain;
    match frame.phase {
        FramePhase::WaitFence => FrameAction::WaitFence {
            fence: context.fence,
            timeout: FOREVER,
        },
        FramePhase::Acquire => FrameAction::Acquire {
            swapchain: sc.handle,
            timeout: FOREVER,
            signal: context.image_available,
        },
        FramePhase::ResetFence { .. } => FrameAction::ResetFence { fence: context.fence },
        FramePhase::ResetCommands { index } => FrameAction::ResetCommands {
            commands: context.command_buffers@[index as int],
        },
        FramePhase::BeginCommands { index } => FrameAction::BeginCommands {
            commands: context.command_buffers@[index as int],
        },
        FramePhase::Record { index } => FrameAction::Record {
            commands: context.command_buffers@[index as int],
            image: sc.images@[index as int],
            view: sc.views@[index as int],
            extent: sc.extent,
            pipeline: context.present.pipeline,
            layout: context.pipeline_layout,
            descriptor_set: context.descriptor_sets@[index as int],
        },
        FramePhase::EndCommands { index } => FrameAction::EndCommands {
            commands: context.command_buffers@[index as int],
        },
        FramePhase::Submit { index } => FrameAction::Submit {
            commands: context.command_buffers@[index as int],
            wait: context.image_available,
            wait_stage: STAGE_COLOR_OUTPUT,
            signal: context.render_done,
            fence: context.fence,
        },
        FramePhase::Present { index } => FrameAction::Present {
            swapchain: sc.handle,
            index: index as u32,
            wait: context.render_done,
        },
        FramePhase::Finished => FrameAction::Finished,
        FramePhase::Skipped => FrameAction::Skipped,
        FramePhase::Failed { code } => FrameAction::Failed { code },
    }
}

/// The phase after a reply. A frame for which no image can be had because the window changes is
/// left out; whether the window system takes the finished image does not matter.
pub open spec fn frame_next(phase: FramePhase, reply: FrameReply) -> FramePhase {
    match reply {
        FrameReply::Acquired { index } => FramePhase::ResetFence { index: index as usize },
        FrameReply::Failed { code } => match phase {
            FramePhase::Acquire => if code == ERROR_OUT_OF_DATE {
                FramePhase::Skipped
            } else {
                FramePhase::Failed { code }
            },
            FramePhase::Present { .. } => FramePhase::Finished,
            _ => FramePhase::Failed { code },
        },
        FrameReply::Done => match phase {
            FramePhase::WaitFence => FramePhase::Acquire,
            FramePhase::ResetFence { index } => FramePhase::ResetCommands { index },
            FramePhase::ResetCommands { index } => FramePhase::BeginCommands { index },
            FramePhase::BeginCommands { index } => FramePhase::Record { index },
            FramePhase::Record { index } => FramePhase::EndCommands { index },
            FramePhase::EndCommands { index } => FramePhase::Submit { index },
            FramePhase::Submit { index } => FramePhase::Present { index },
            FramePhase::Present { .. } => FramePhase::Finished,
            _ => phase,
        },
    }
}

impl Frame {
    /// Starts a frame.
    pub fn start(context: &Context) -> (frame: Frame)
        requires
            context.can_draw(),
        ensures
            frame.phase == FramePhase::WaitFence,
            frame.fits(*context),
    {
        Frame { phase: FramePhase::WaitFence }
    }

    /// What the frame needs next.
    pub fn action(&self, context: &Context) -> (action: FrameAction)
        requires
            self.fits(*context),
        ensures
            action == frame_action(*self, *context),
    {
        match self.phase {
            FramePhase::WaitFence => FrameAction::WaitFence {
            fence: context.fence,
            timeout: FOREVER,
        },
            FramePhase::Acquire => FrameAction::Acquire {
                swapchain: context.present.swapchain.handle,
                timeout: FOREVER,
                signal: context.image_available,
            },
            FramePhase::ResetFence { index: _ } => FrameAction::ResetFence {
                fence: context.fence,
            },
            FramePhase::ResetCommands { index } => FrameAction::ResetCommands {
                commands: context.command_buffers[index],
            },
            FramePhase::BeginCommands { index } => FrameAction::BeginCommands {
                commands: context.command_buffers[index],
            },
            FramePhase::Record { index } => FrameAction::Record {
                commands: context.command_buffers[index],
                image: context.present.swapchain.images[index],
                view: context.present.swapchain.views[index],
                extent: context.present.swapchain.extent,
                pipeline: context.present.pipeline,
                layout: context.pipeline_layout,
                descriptor_set: context.descriptor_sets[index],
            },
            FramePhase::EndCommands { index } => FrameAction::EndCommands {
                commands: context.command_buffers[index],
            },
            FramePhase::Submit { index } => FrameAction::Submit {
                commands: context.command_buffers[index],
                wait: context.image_available,
                wait_stage: STAGE_COLOR_OUTPUT,
                signal: context.render_done,
                fence: context.fence,
            },
            FramePhase::Present { index } => FrameAction::Present {
                swapchain: context.present.swapchain.handle,
                index: index as u32,
                wait: context.render_done,
            },
            FramePhase::Finished => FrameAction::Finished,
            FramePhase::Skipped => FrameAction::Skipped,
            FramePhase::Failed { code } => FrameAction::Failed { code },
        }
    }

    /// Goes on after the reply to what the frame asked for.
    pub fn advance(&mut self, context: &Context, reply: FrameReply)
        requires
            old(self).fits(*context),
            old(self).expects(*context, reply),
        ensures
            final(self).phase == frame_next(old(self).phase, reply),
            final(self).fits(*context),
    {
        self.phase = match reply {
            FrameReply::Acquired { index } => FramePhase::ResetFence { index: index as usize },
            FrameReply::Failed { code } => match self.phase {
                FramePhase::Acquire => if code == ERROR_OUT_OF_DATE {
                    FramePhase::Skipped
                } else {
                    FramePhase::Failed { code }
                },
                FramePhase::Present { index: _ } => FramePhase::Finished,
                _ => FramePhase::Failed { code },
            },
            FrameReply::Done => match self.phase {
                FramePhase::WaitFence => FramePhase::Acquire,
                FramePhase::ResetFence { index } => FramePhase::ResetCommands { index },
                FramePhase::ResetCommands { index } => FramePhase::BeginCommands { index },
                FramePhase::BeginCommands { index } => FramePhase::Record { index },
                FramePhase::Record { index } => FramePhase::EndCommands { index },
                FramePhase::EndCommands { index } => FramePhase::Submit { index },
                FramePhase::Submit { index } => FramePhase::Present { index },
                FramePhase::Present { index: _ } => FramePhase::Finished,
                other => other,
            },
        };
    }
}

impl FramePhase {
    /// The fence has been reset, and no work has been submitted yet that signals it.
    pub open spec fn fence_is_down(self) -> bool {
        ||| self is ResetCommands
        ||| self is BeginCommands
        ||| self is Record
        ||| self is EndCommands
        ||| self is Submit
    }
}

/// A frame that is drawn or left out never leaves the fence down, so that the next frame does not
/// wait for ever: only the step that resets the fence takes it down, that step comes after an
/// image has been acquired, and before the frame ends the work that signals it is submitted. The
/// first frame finds the fence up: the set-up asks for one that is signaled.
pub proof fn law_fence_comes_up_again(frame: Frame, context: Context, reply: FrameReply)
    requires
        frame.fits(context),
        frame.expects(context, reply),
    ensures
        ({
            let next = frame_next(frame.phase, reply);
            &&& !frame.phase.fence_is_down() && next.fence_is_down() ==> frame_action(
                frame,
                context,
            ) == (FrameAction::ResetFence { fence: context.fence })
            &&& frame.phase.fence_is_down() && !next.fence_is_down() && !(next is Failed)
                ==> frame.phase is Submit && frame_action(frame, context)->Submit_fence
                == context.fence
            &&& next is Finished || next is Skipped ==> !frame.phase.fence_is_down()
        }),
        !FramePhase::WaitFence.fence_is_down(),
        !FramePhase::Finished.fence_is_down(),
        !FramePhase::Skipped.fence_is_down(),
        forall|s: SetupView|
            #![trigger setup_action(s)]
            s.stage == SetupStage::CreateFence && !s.failed ==> setup_action(s)
                == (SetupAction::CreateFence { signaled: true }),
{
}

/// How many steps a frame at this phase needs at most.
pub open spec fn frame_steps_left(phase: FramePhase) -> nat {
    match phase {
        FramePhase::WaitFence => 9,
        FramePhase::Acquire => 8,
        FramePhase::ResetFence { .. } => 7,
        FramePhase::ResetCommands { .. } => 6,
        FramePhase::BeginCommands { .. } => 5,
        FramePhase::Record { .. } => 4,
        FramePhase::EndCommands { .. } => 3,
        FramePhase::Submit { .. } => 2,
        FramePhase::Present { .. } => 1,
        _ => 0,
    }
}

/// Every frame ends: each step brings it closer to its end.
pub proof fn law_frame_ends(frame: Frame, context: Context, reply: FrameReply)
    requires
        frame.expects(context, reply),
    ensures
        frame_steps_left(frame_next(frame.phase, reply)) < frame_steps_left(frame.phase),
{
}

/// A frame asks for one thing after the other, each time with the objects of the context. It waits
/// for the last frame, acquires an image, and from there on stays with that image: its own commands
/// are recorded, drawing to it through its view, and submitted, and it is presented. Drawing waits
/// for the image, and presenting for the drawing; the end of the drawing lets the next frame begin.
pub proof fn law_frame_step_by_step(frame: Frame, context: Context, reply: FrameReply)
    requires
        frame.fits(context),
        frame.expects(context, reply),
    ensures
        ({
            let next = Frame { phase: frame_next(frame.phase, reply) };
            let request = frame_action(next, context);
            let chain = context.present.swapchain;
            let index = frame.image();
            match (frame_action(frame, context), reply) {
                (FrameAction::WaitFence { fence, timeout }, FrameReply::Done) => {
                    &&& fence == context.fence
                    &&& timeout == 0xffff_ffff_ffff_ffff
                    &&& request == (FrameAction::Acquire {
                        swapchain: chain.handle,
                        timeout: 0xffff_ffff_ffff_ffff,
                        signal: context.image_available,
                    })
                },
                (FrameAction::Acquire { .. }, FrameReply::Acquired { index: acquired }) => {
                    &&& request == (FrameAction::ResetFence { fence: context.fence })
                    &&& next.image() == acquired
                },
                (FrameAction::ResetFence { .. }, FrameReply::Done) => {
                    &&& request == (FrameAction::ResetCommands {
                        commands: context.command_buffers@[index],
                    })
                    &&& next.image() == index
                },
                (FrameAction::ResetCommands { .. }, FrameReply::Done) => {
                    &&& request == (FrameAction::BeginCommands {
                        commands: context.command_buffers@[index],
                    })
                    &&& next.image() == index
                },
                (FrameAction::BeginCommands { .. }, FrameReply::Done) => {
                    &&& request == (FrameAction::Record {
                        commands: context.command_buffers@[index],
                        image: chain.images@[index],
                        view: chain.views@[index],
                        extent: chain.extent,
                        pipeline: context.present.pipeline,
                        layout: context.pipeline_layout,
                        descriptor_set: context.descriptor_sets@[index],
                    })
                    &&& next.image() == index
                },
                (FrameAction::Record { .. }, FrameReply::Done) => {
                    &&& request == (FrameAction::EndCommands {
                        commands: context.command_buffers@[index],
                    })
                    &&& next.image() == index
                },
                (FrameAction::EndCommands { .. }, FrameReply::Done) => {
                    &&& request == (FrameAction::Submit {
                        commands: context.command_buffers@[index],
                        wait: context.image_available,
                        wait_stage: 0x400,
                        signal: context.render_done,
                        fence: context.fence,
                    })
                    &&& next.image() == index
                },
                (FrameAction::Submit { .. }, FrameReply::Done) => {
                    &&& request is Present
                    &&& request->Present_swapchain == chain.handle
                    &&& request->Present_index == index
                    &&& request->Present_wait == context.render_done
                },
                (FrameAction::Present { .. }, _) => request == FrameAction::Finished,
                (FrameAction::Acquire { .. }, FrameReply::Failed { code }) => {
                    &&& code + 1000001004 == 0 ==> request == FrameAction::Skipped
                    &&& code + 1000001004 != 0 ==> request == (FrameAction::Failed { code })
                },
                (_, FrameReply::Failed { code }) => request == (FrameAction::Failed { code }),
                _ => false,
            }
        }),
{
}

impl Frame {
    /// The number of the image that is drawn to, once there is one.
    pub open spec fn image(self) -> int {
        match self.phase {
            FramePhase::ResetFence { index } => index as int,
            FramePhase::ResetCommands { index } => index as int,
            FramePhase::BeginCommands { index } => index as int,
            FramePhase::Record { index } => index as int,
            FramePhase::EndCommands { index } => index as int,
            FramePhase::Submit { index } => index as int,
            FramePhase::Present { index } => index as int,
            _ => -1,
        }
    }
}

} // verus!
