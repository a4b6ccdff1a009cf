//! Making the swapchain again when the window changes its size.

use vstd::multiset::Multiset;
use vstd::prelude::*;

use crate::context::{
    image_views, lemma_joined, swapchain_parts, Context, Presentation, PresentationView, Resource,
    Swapchain,
};
use crate::surface::Extent;

verus! {

/// How far a rebuild has come.
#[derive(Clone, Copy, Debug, PartialEq, Eq, Structural)]
pub enum RebuildPhase {
    WaitIdle,
    DestroyViews,
    DestroySwapchain,
    CreateSwapchain,
    DestroyPipeline,
    CreatePipeline,
    Finished,
}

/// A rebuild for a window of the given size, with the layout of the pipeline.
#[derive(Clone, Copy, Debug, PartialEq, Eq, Structural)]
pub struct Rebuild {
    pub width: u32,
    pub height: u32,
    pub layout: u64,
    pub phase: RebuildPhase,
    /// The step of this phase went wrong, and the rebuild ends there. The presentation still names
    /// what the rebuild has destroyed and not replaced.
    pub failed: bool,
}

/// What a rebuild asks for. The handles that it does not name are those of the presentation.
#[derive(Clone, Copy, Debug, PartialEq, Eq, Structural)]
pub enum RebuildAction {
    WaitIdle,
    DestroyViews,
    DestroySwapchain { handle: u64 },
    CreateSwapchain { width: u32, height: u32 },
    DestroyPipeline { handle: u64 },
    /// A pipeline that draws to images of this format and size.
    CreatePipeline { format: i32, extent: Extent, layout: u64 },
    Finished,
    Failed,
}

/// What came of it.
pub enum RebuildReply {
    Done,
    Swapchain(Swapchain),
    Pipeline(u64),
    Failed,
}

/// What a rebuild asks for at each phase.
pub open spec fn rebuild_action(rebuild: Rebuild, present: PresentationView) -> RebuildAction {
    if rebuild.failed {
        RebuildAction::Failed
    } else {
        match rebuild.phase {
            RebuildPhase::WaitIdle => RebuildAction::WaitIdle,
            RebuildPhase::DestroyViews => RebuildAction::DestroyViews,
            RebuildPhase::DestroySwapchain => RebuildAction::DestroySwapchain {
                handle: present.swapchain.handle,
            },
            RebuildPhase::CreateSwapchain => RebuildAction::CreateSwapchain {
                width: rebuild.width,
                height: rebuild.height,
            },
            RebuildPhase::DestroyPipeline => RebuildAction::DestroyPipeline {
                handle: present.pipeline,
            },
            RebuildPhase::CreatePipeline => RebuildAction::CreatePipeline {
                format: present.swapchain.format,
                extent: present.swapchain.extent,
                layout: rebuild.layout,
            },
            RebuildPhase::Finished => RebuildAction::Finished,
        }
    }
}

impl Rebuild {
    pub open spec fn at(self, phase: RebuildPhase) -> Rebuild {
        Rebuild { phase, ..self }
    }

    /// There is a view for each image of the swapchain that the presentation names.
    pub open spec fn fits(self, present: PresentationView) -> bool {
        present.complete()
    }

    /// The replies that the step of this phase can have: a new swapchain has one view for each
    /// image.
    pub open spec fn expects(self, present: PresentationView, reply: RebuildReply) -> bool {
        &&& !self.failed
        &&& match self.phase {
            RebuildPhase::WaitIdle => reply is Done || reply is Failed,
            RebuildPhase::CreateSwapchain => match reply {
                RebuildReply::Swapchain(sc) => sc.views@.len() == sc.images@.len(),
                RebuildReply::Failed => true,
                _ => false,
            },
            RebuildPhase::CreatePipeline => reply is Pipeline || reply is Failed,
            RebuildPhase::Finished => false,
            _ => reply is Done,
        }
    }
}

/// The rebuild and the presentation after a reply.
pub open spec fn rebuild_next(
    rebuild: Rebuild,
    present: PresentationView,
    reply: RebuildReply,
) -> (Rebuild, PresentationView) {
    match reply {
        RebuildReply::Failed => (Rebuild { failed: true, ..rebuild }, present),
        RebuildReply::Swapchain(sc) => (
            rebuild.at(RebuildPhase::DestroyPipeline),
            PresentationView { swapchain: sc@, ..present },
        ),
        RebuildReply::Pipeline(handle) => (
            rebuild.at(RebuildPhase::Finished),
            PresentationView { pipeline: handle, ..present },
        ),
        RebuildReply::Done => (
            match rebuild.phase {
                RebuildPhase::WaitIdle => rebuild.at(RebuildPhase::DestroyViews),
                RebuildPhase::DestroyViews => rebuild.at(RebuildPhase::DestroySwapchain),
                RebuildPhase::DestroySwapchain => rebuild.at(RebuildPhase::CreateSwapchain),
                RebuildPhase::DestroyPipeline => rebuild.at(RebuildPhase::CreatePipeline),
                _ => rebuild,
            },
            present,
        ),
    }
}

impl Rebuild {
    /// Starts a rebuild for a window of the given size.
    pub fn start(context: &Context, width: u32, height: u32) -> (rebuild: Rebuild)
        requires
            context.present@.complete(),
        ensures
            rebuild == (Rebuild {
                width,
                height,
                layout: context.pipeline_layout,
                phase: RebuildPhase::WaitIdle,
                failed: false,
            }),
            rebuild.fits(context.present@),
    {
        Rebuild {
            width,
            height,
            layout: context.pipeline_layout,
            phase: RebuildPhase::WaitIdle,
            failed: false,
        }
    }

    /// What the rebuild needs next.
    pub fn action(&self, present: &Presentation) -> (action: RebuildAction)
        requires
            self.fits(present@),
        ensures
            action == rebuild_action(*self, present@),
    {
        if self.failed {
            return RebuildAction::Failed;
        }
        match self.phase {
            RebuildPhase::WaitIdle => RebuildAction::WaitIdle,
            RebuildPhase::DestroyViews => RebuildAction::DestroyViews,
            RebuildPhase::DestroySwapchain => RebuildAction::DestroySwapchain {
                handle: present.swapchain.handle,
            },
            RebuildPhase::CreateSwapchain => RebuildAction::CreateSwapchain {
                width: self.width,
                height: self.height,
            },
            RebuildPhase::DestroyPipeline => RebuildAction::DestroyPipeline {
                handle: present.pipeline,
            },
            RebuildPhase::CreatePipeline => RebuildAction::CreatePipeline {
                format: present.swapchain.format,
                extent: present.swapchain.extent,
                layout: self.layout,
            },
            RebuildPhase::Finished => RebuildAction::Finished,
        }
    }

    /// Goes on after the reply to what the rebuild asked for.
    pub fn advance(&mut self, present: &mut Presentation, reply: RebuildReply)
        requires
            old(self).fits(old(present)@),
            old(self).expects(old(present)@, reply),
        ensures
            (*final(self), final(present)@) == rebuild_next(*old(self), old(present)@, reply),
            final(self).fits(final(present)@),
    {
        match reply {
            RebuildReply::Failed => {
                self.failed = true;
            },
            RebuildReply::Swapchain(sc) => {
                present.swapchain = sc;
                self.phase = RebuildPhase::DestroyPipeline;
            },
            RebuildReply::Pipeline(handle) => {
                present.pipeline = handle;
                self.phase = RebuildPhase::Finished;
            },
            RebuildReply::Done => {
                self.phase = match self.phase {
                    RebuildPhase::WaitIdle => RebuildPhase::DestroyViews,
                    RebuildPhase::DestroyViews => RebuildPhase::DestroySwapchain,
                    RebuildPhase::DestroySwapchain => RebuildPhase::CreateSwapchain,
                    RebuildPhase::DestroyPipeline => RebuildPhase::CreatePipeline,
                    other => other,
                };
            },
        }
    }

    /// The GPU objects of the presentation that exist: those that it names, without those that have
    /// been destroyed and not replaced.
    pub open spec fn live(self, present: PresentationView) -> Multiset<Resource> {
        let chain = swapchain_parts(present.swapchain).to_multiset();
        let pipeline = Multiset::singleton(Resource::Pipeline(present.pipeline));
        match self.phase {
            RebuildPhase::DestroySwapchain => pipeline.insert(
                Resource::Swapchain(present.swapchain.handle),
            ),
            RebuildPhase::CreateSwapchain => pipeline,
            RebuildPhase::CreatePipeline => chain,
            _ => chain.add(pipeline),
        }
    }

    /// The GPU objects that the step of this phase made.
    pub open spec fn made(self, reply: RebuildReply) -> Seq<Resource> {
        match reply {
            RebuildReply::Swapchain(sc) => swapchain_parts(sc@),
            RebuildReply::Pipeline(handle) => seq![Resource::Pipeline(handle)],
            _ => Seq::empty(),
        }
    }

    /// The GPU objects that the step of this phase destroyed.
    pub open spec fn destroyed(self, present: PresentationView) -> Seq<Resource> {
        match rebuild_action(self, present) {
            RebuildAction::DestroyViews => image_views(present.swapchain.views),
            RebuildAction::DestroySwapchain { handle } => seq![Resource::Swapchain(handle)],
            RebuildAction::DestroyPipeline { handle } => seq![Resource::Pipeline(handle)],
            _ => Seq::empty(),
        }
    }
}

/// No step of a rebuild loses a GPU object or destroys one twice: what exists afterwards, and what
/// the step destroyed, is what existed before and what the step made. At its start and at its end a
/// rebuild leaves all objects that the presentation names.
#[verifier::spinoff_prover]
#[verifier::rlimit(40)]
pub proof fn law_rebuild_keeps_account(
    rebuild: Rebuild,
    present: PresentationView,
    reply: RebuildReply,
)
    requires
        rebuild.fits(present),
        rebuild.expects(present, reply),
    ensures
        ({
            let (next, after) = rebuild_next(rebuild, present, reply);
            &&& next.live(after).add(rebuild.destroyed(present).to_multiset()) == rebuild.live(
                present,
            ).add(rebuild.made(reply).to_multiset())
            &&& next.phase == RebuildPhase::Finished ==> next.live(after) == after.owned()
        }),
        rebuild.phase == RebuildPhase::WaitIdle ==> rebuild.live(present) == present.owned(),
{
    broadcast use vstd::seq_lib::group_to_multiset_ensures;

    let (next, after) = rebuild_next(rebuild, present, reply);
    let none = Seq::<Resource>::empty();
    assert(none.to_multiset() =~= Multiset::empty());
    let sc = present.swapchain;
    let chain = none.push(Resource::Swapchain(sc.handle));
    assert(swapchain_parts(sc) =~= image_views(sc.views) + chain);
    lemma_joined(image_views(sc.views), chain);
    assert(chain =~= seq![Resource::Swapchain(sc.handle)]);
    assert(none.push(Resource::Pipeline(present.pipeline)) =~= seq![
        Resource::Pipeline(present.pipeline),
    ]);
    assert(none.push(Resource::Pipeline(after.pipeline)) =~= seq![
        Resource::Pipeline(after.pipeline),
    ]);
    assert(next.live(after).add(rebuild.destroyed(present).to_multiset()) =~= rebuild.live(
        present,
    ).add(rebuild.made(reply).to_multiset()));
    assert(next.phase == RebuildPhase::Finished ==> next.live(after) =~= after.owned());
    assert(rebuild.phase == RebuildPhase::WaitIdle ==> rebuild.live(present) =~= present.owned());
}

impl Rebuild {
    /// How many steps are left.
    pub open spec fn steps_left(self) -> nat {
        if self.failed {
            0
        } else {
            match self.phase {
                RebuildPhase::WaitIdle => 6,
                RebuildPhase::DestroyViews => 5,
                RebuildPhase::DestroySwapchain => 4,
                RebuildPhase::CreateSwapchain => 3,
                RebuildPhase::DestroyPipeline => 2,
                RebuildPhase::CreatePipeline => 1,
                RebuildPhase::Finished => 0,
            }
        }
    }
}

/// Every step brings a rebuild closer to its end.
pub proof fn law_rebuild_ends(rebuild: Rebuild, present: PresentationView, reply: RebuildReply)
    requires
        rebuild.fits(present),
        rebuild.expects(present, reply),
    ensures
        rebuild_next(rebuild, present, reply).0.steps_left() < rebuild.steps_left(),
{
}

/// A rebuild that fails changes nothing in what the presentation names, and the objects that it has
/// destroyed are named further on.
pub proof fn law_failed_rebuild_keeps_the_names(rebuild: Rebuild, present: PresentationView)
    requires
        rebuild.fits(present),
        rebuild.expects(present, RebuildReply::Failed),
    ensures
        rebuild_next(rebuild, present, RebuildReply::Failed).1 == present,
        rebuild_next(rebuild, present, RebuildReply::Failed).0.live(present) == rebuild.live(
            present,
        ),
{
}

/// The rest of a rebuild once there is a new swapchain: the old pipeline goes, a new one is asked for
/// that draws to images of the new format and size, and in the end nothing is missing.
pub proof fn law_rebuild_completes(
    rebuild: Rebuild,
    present: PresentationView,
    swapchain: Swapchain,
    pipeline: u64,
)
    requires
        rebuild.phase == RebuildPhase::CreateSwapchain,
        rebuild.fits(present),
        rebuild.expects(present, RebuildReply::Swapchain(swapchain)),
    ensures
        rebuild_action(rebuild, present) == (RebuildAction::CreateSwapchain {
            width: rebuild.width,
            height: rebuild.height,
        }),
        ({
            let (r1, p1) = rebuild_next(rebuild, present, RebuildReply::Swapchain(swapchain));
            let (r2, p2) = rebuild_next(r1, p1, RebuildReply::Done);
            let (r3, p3) = rebuild_next(r2, p2, RebuildReply::Pipeline(pipeline));
            &&& rebuild_action(r1, p1) == (RebuildAction::DestroyPipeline {
                handle: present.pipeline,
            })
            &&& rebuild_action(r2, p2) == (RebuildAction::CreatePipeline {
                format: swapchain.format,
                extent: swapchain.extent,
                layout: rebuild.layout,
            })
            &&& rebuild_action(r3, p3) == RebuildAction::Finished
            &&& p3.complete()
            &&& p3 == (PresentationView { swapchain: swapchain@, pipeline })
        }),
{
}

/// What a rebuild asks for, seen from outside: the GPU comes to rest, the views go, then the
/// swapchain, then there is a new swapchain of the size that the rebuild was started with, then the
/// old pipeline goes and a new one comes, for the format and the size of the new swapchain. Nothing
/// that the presentation names changes on the way but the swapchain and the pipeline, each for the
/// new one. After a failure nothing more is asked for.
pub proof fn law_rebuild_step_by_step(
    rebuild: Rebuild,
    present: PresentationView,
    reply: RebuildReply,
)
    requires
        rebuild.fits(present),
        rebuild.expects(present, reply),
    ensures
        ({
            let (next, after) = rebuild_next(rebuild, present, reply);
            let request = rebuild_action(next, after);
            &&& next.width == rebuild.width
            &&& next.height == rebuild.height
            &&& next.layout == rebuild.layout
            &&& match (rebuild_action(rebuild, present), reply) {
                (_, RebuildReply::Failed) => request == RebuildAction::Failed && after == present
                    && next.phase == rebuild.phase,
                (RebuildAction::WaitIdle, RebuildReply::Done) => {
                    &&& after == present
                    &&& request == RebuildAction::DestroyViews
                },
                (RebuildAction::DestroyViews, RebuildReply::Done) => {
                    &&& after == present
                    &&& request == (RebuildAction::DestroySwapchain {
                        handle: present.swapchain.handle,
                    })
                },
                (RebuildAction::DestroySwapchain { .. }, RebuildReply::Done) => {
                    &&& after == present
                    &&& request == (RebuildAction::CreateSwapchain {
                        width: rebuild.width,
                        height: rebuild.height,
                    })
                },
                (RebuildAction::CreateSwapchain { .. }, RebuildReply::Swapchain(swapchain)) => {
                    &&& after.swapchain == swapchain@
                    &&& after.pipeline == present.pipeline
                    &&& request == (RebuildAction::DestroyPipeline { handle: present.pipeline })
                },
                (RebuildAction::DestroyPipeline { .. }, RebuildReply::Done) => {
                    &&& after == present
                    &&& request == (RebuildAction::CreatePipeline {
                        format: present.swapchain.format,
                        extent: present.swapchain.extent,
                        layout: rebuild.layout,
                    })
                },
                (RebuildAction::CreatePipeline { .. }, RebuildReply::Pipeline(pipeline)) => {
                    &&& after.swapchain == present.swapchain
                    &&& after.pipeline == pipeline
                    &&& request == RebuildAction::Finished
                },
                _ => false,
            }
        }),
{
}

} // verus!
