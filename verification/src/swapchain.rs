//! Making a swapchain, with a view for each of its images.

use vstd::multiset::Multiset;
use vstd::prelude::*;

use crate::config::{full_view, view_config, ViewConfig};
use crate::context::{image_views, PresentationView, Resource, Swapchain, SwapchainView};
use crate::rebuild::{Rebuild, RebuildPhase, RebuildReply};
use crate::surface::{
    configure_swapchain, is_preferred, law_preferred_format, Capabilities, Extent, SurfaceFormat,
    SwapchainConfig,
};

verus! {

/// How far a swapchain has come.
#[derive(Clone, Copy, Debug, PartialEq, Eq, Structural)]
pub enum ChainPhase {
    AskCapabilities,
    AskFormats { caps: Capabilities },
    Create { config: SwapchainConfig },
    ListImages { config: SwapchainConfig, handle: u64 },
    /// There are fewer views than images.
    CreateViews { config: SwapchainConfig, handle: u64 },
    Finished { config: SwapchainConfig, handle: u64 },
}

/// A swapchain that is being made for a window of the given size.
#[derive(Debug)]
pub struct ChainBuild {
    pub width: u32,
    pub height: u32,
    pub phase: ChainPhase,
    /// The images of the swapchain, once they are listed.
    pub images: Vec<u64>,
    /// The views of the first images.
    pub views: Vec<u64>,
    /// The step of this phase went wrong, and the build ends there. What it has made stays.
    pub failed: bool,
}

/// What the build of a swapchain asks for.
#[derive(Clone, Copy, Debug, PartialEq, Eq, Structural)]
pub enum ChainAction {
    AskCapabilities,
    AskFormats,
    Create { config: SwapchainConfig },
    ListImages { handle: u64 },
    CreateView { image: u64, description: ViewConfig },
    Finished,
    Failed,
}

/// What came of it.
#[derive(Debug)]
pub enum ChainReply {
    Capabilities(Capabilities),
    Formats(Vec<SurfaceFormat>),
    Images(Vec<u64>),
    Handle(u64),
    Failed,
}

/// The mathematical value of a swapchain that is being made.
#[verifier::ext_equal]
pub struct ChainView {
    pub width: u32,
    pub height: u32,
    pub phase: ChainPhase,
    pub images: Seq<u64>,
    pub views: Seq<u64>,
    pub failed: bool,
}

impl View for ChainBuild {
    type V = ChainView;

    open spec fn view(&self) -> ChainView {
        ChainView {
            width: self.width,
            height: self.height,
            phase: self.phase,
            images: self.images@,
            views: self.views@,
            failed: self.failed,
        }
    }
}

/// What the build of a swapchain asks for at each phase.
pub open spec fn chain_action(chain: ChainView) -> ChainAction {
    if chain.failed {
        ChainAction::Failed
    } else {
        match chain.phase {
            ChainPhase::AskCapabilities => ChainAction::AskCapabilities,
            ChainPhase::AskFormats { .. } => ChainAction::AskFormats,
            ChainPhase::Create { config } => ChainAction::Create { config },
            ChainPhase::ListImages { handle, .. } => ChainAction::ListImages { handle },
            ChainPhase::CreateViews { config, .. } => ChainAction::CreateView {
                image: chain.images[chain.views.len() as int],
                description: full_view(config.format.format),
            },
            ChainPhase::Finished { .. } => ChainAction::Finished,
        }
    }
}

/// The swapchain is made in accordance with what the surface allows and offers.
pub open spec fn is_configured(
    config: SwapchainConfig,
    caps: Capabilities,
    formats: Seq<SurfaceFormat>,
    window: Extent,
) -> bool {
    &&& exists|i: int| #[trigger] is_preferred(formats, i) && config.format == formats[i]
    &&& config.extent == caps.extent_for(window)
    &&& config.image_count == caps.image_count()
    &&& config.transform == caps.current_transform
    &&& config.has_fixed_part()
}

impl ChainView {
    /// What is there at each phase.
    pub open spec fn wf(self) -> bool {
        match self.phase {
            ChainPhase::AskFormats { caps } => {
                &&& caps.wf()
                &&& self.images.len() == 0
                &&& self.views.len() == 0
            },
            ChainPhase::CreateViews { .. } => self.views.len() < self.images.len(),
            ChainPhase::Finished { .. } => self.views.len() == self.images.len(),
            _ => {
                &&& self.images.len() == 0
                &&& self.views.len() == 0
            },
        }
    }

    /// The replies that the step of this phase can have. A surface has at least one format.
    pub open spec fn expects(self, reply: ChainReply) -> bool {
        &&& !self.failed
        &&& match self.phase {
            ChainPhase::AskCapabilities => match reply {
                ChainReply::Capabilities(caps) => caps.wf(),
                ChainReply::Failed => true,
                _ => false,
            },
            ChainPhase::AskFormats { .. } => match reply {
                ChainReply::Formats(formats) => formats@.len() > 0,
                ChainReply::Failed => true,
                _ => false,
            },
            ChainPhase::Create { .. } => reply is Handle || reply is Failed,
            ChainPhase::ListImages { .. } => reply is Images || reply is Failed,
            ChainPhase::CreateViews { .. } => reply is Handle || reply is Failed,
            ChainPhase::Finished { .. } => false,
        }
    }

    /// The build can stand at `next` after a reply. Of the formats that are offered, which one is
    /// taken is settled by `is_preferred`.
    pub open spec fn leads_to(self, reply: ChainReply, next: ChainView) -> bool {
        match reply {
            ChainReply::Failed => next == (ChainView { failed: true, ..self }),
            ChainReply::Capabilities(caps) => next == (ChainView {
                phase: ChainPhase::AskFormats { caps },
                ..self
            }),
            ChainReply::Formats(formats) => {
                &&& next.phase matches ChainPhase::Create { config }
                &&& is_configured(
                    config,
                    self.phase->AskFormats_caps,
                    formats@,
                    Extent { width: self.width, height: self.height },
                )
                &&& next == (ChainView { phase: next.phase, ..self })
            },
            ChainReply::Images(images) => match self.phase {
                ChainPhase::ListImages { config, handle } => next == (ChainView {
                    images: images@,
                    phase: if images@.len() == 0 {
                        ChainPhase::Finished { config, handle }
                    } else {
                        ChainPhase::CreateViews { config, handle }
                    },
                    ..self
                }),
                _ => next == self,
            },
            ChainReply::Handle(made) => match self.phase {
                ChainPhase::Create { config } => next == (ChainView {
                    phase: ChainPhase::ListImages { config, handle: made },
                    ..self
                }),
                ChainPhase::CreateViews { config, handle } => next == (ChainView {
                    views: self.views.push(made),
                    phase: if self.views.len() + 1 == self.images.len() {
                        ChainPhase::Finished { config, handle }
                    } else {
                        self.phase
                    },
                    ..self
                }),
                _ => next == self,
            },
        }
    }

    /// The GPU objects that the build has made.
    pub open spec fn held(self) -> Multiset<Resource> {
        match self.phase {
            ChainPhase::ListImages { handle, .. } => Multiset::singleton(
                Resource::Swapchain(handle),
            ),
            ChainPhase::CreateViews { handle, .. } => image_views(self.views).push(
                Resource::Swapchain(handle),
            ).to_multiset(),
            ChainPhase::Finished { handle, .. } => image_views(self.views).push(
                Resource::Swapchain(handle),
            ).to_multiset(),
            _ => Multiset::empty(),
        }
    }

    /// The GPU objects that the step of this phase made.
    pub open spec fn made(self, reply: ChainReply) -> Multiset<Resource> {
        match reply {
            ChainReply::Handle(handle) => if self.phase is Create {
                Multiset::singleton(Resource::Swapchain(handle))
            } else {
                Multiset::singleton(Resource::ImageView(handle))
            },
            _ => Multiset::empty(),
        }
    }
}

impl ChainBuild {
    /// Starts to make a swapchain for a window of the given size.
    pub fn start(width: u32, height: u32) -> (chain: ChainBuild)
        ensures
            chain@.wf(),
            chain@ == (ChainView {
                width,
                height,
                phase: ChainPhase::AskCapabilities,
                images: Seq::empty(),
                views: Seq::empty(),
                failed: false,
            }),
    {
        ChainBuild {
            width,
            height,
            phase: ChainPhase::AskCapabilities,
            images: Vec::new(),
            views: Vec::new(),
            failed: false,
        }
    }

    /// What the build needs next.
    pub fn action(&self) -> (action: ChainAction)
        requires
            self@.wf(),
        ensures
            action == chain_action(self@),
    {
        if self.failed {
            return ChainAction::Failed;
        }
        match self.phase {
            ChainPhase::AskCapabilities => ChainAction::AskCapabilities,
            ChainPhase::AskFormats { caps: _ } => ChainAction::AskFormats,
            ChainPhase::Create { config } => ChainAction::Create { config },
            ChainPhase::ListImages { config: _, handle } => ChainAction::ListImages { handle },
            ChainPhase::CreateViews { config, handle: _ } => ChainAction::CreateView {
                image: self.images[self.views.len()],
                description: view_config(config.format.format),
            },
            ChainPhase::Finished { config: _, handle: _ } => ChainAction::Finished,
        }
    }

    /// Goes on after the reply to what the build asked for.
    pub fn advance(&mut self, reply: ChainReply)
        requires
            old(self)@.wf(),
            old(self)@.expects(reply),
        ensures
            final(self)@.wf(),
            old(self)@.leads_to(reply, final(self)@),
    {
        match reply {
            ChainReply::Failed => {
                self.failed = true;
            },
            ChainReply::Capabilities(caps) => {
                self.phase = ChainPhase::AskFormats { caps };
            },
            ChainReply::Formats(formats) => {
                if let ChainPhase::AskFormats { caps } = self.phase {
                    let config: SwapchainConfig = configure_swapchain(
                        &caps,
                        &formats,
                        self.width,
                        self.height,
                    );
                    self.phase = ChainPhase::Create { config };
                }
            },
            ChainReply::Images(images) => {
                if let ChainPhase::ListImages { config, handle } = self.phase {
                    self.phase = if images.is_empty() {
                        ChainPhase::Finished { config, handle }
                    } else {
                        ChainPhase::CreateViews { config, handle }
                    };
                    self.images = images;
                }
            },
            ChainReply::Handle(made) => match self.phase {
                ChainPhase::Create { config } => {
                    self.phase = ChainPhase::ListImages { config, handle: made };
                },
                ChainPhase::CreateViews { config, handle } => {
                    self.views.push(made);
                    if self.views.len() == self.images.len() {
                        self.phase = ChainPhase::Finished { config, handle };
                    }
                },
                _ => {},
            },
        }
    }

    /// The swapchain that has been made, with a view for each image.
    pub fn finish(self) -> (swapchain: Option<Swapchain>)
        requires
            self@.wf(),
        ensures
            match self.phase {
                ChainPhase::Finished { config, handle } => {
                    &&& swapchain matches Some(sc)
                    &&& sc@ == (SwapchainView {
                        handle,
                        images: self.images@,
                        views: self.views@,
                        format: config.format.format,
                        extent: config.extent,
                    })
                    &&& sc.views@.len() == sc.images@.len()
                },
                _ => swapchain is None,
            },
    {
        match self.phase {
            ChainPhase::Finished { config, handle } => Some(
                Swapchain {
                    handle,
                    images: self.images,
                    views: self.views,
                    format: config.format.format,
                    extent: config.extent,
                },
            ),
            _ => None,
        }
    }
}

/// No step of making a swapchain loses a GPU object: what the build holds afterwards is what it held
/// before and what the step made. What it holds when it fails stays with it.
pub proof fn law_chain_keeps_account(chain: ChainView, reply: ChainReply, next: ChainView)
    requires
        chain.wf(),
        chain.expects(reply),
        chain.leads_to(reply, next),
    ensures
        next.held() == chain.held().add(chain.made(reply)),
{
    broadcast use vstd::seq_lib::group_to_multiset_ensures;

    match reply {
        ChainReply::Handle(made) => match chain.phase {
            ChainPhase::CreateViews { handle, .. } => {
                let before = image_views(chain.views);
                let after = image_views(next.views);
                let own = Resource::Swapchain(handle);
                assert(after =~= before.push(Resource::ImageView(made)));
                vstd::seq_lib::to_multiset_build(before, own);
                vstd::seq_lib::to_multiset_build(before, Resource::ImageView(made));
                vstd::seq_lib::to_multiset_build(after, own);
                assert(next.held() =~= chain.held().add(chain.made(reply)));
            },
            _ => {
                assert(next.held() =~= chain.held().add(chain.made(reply)));
            },
        },
        ChainReply::Images(images) => {
            if let ChainPhase::ListImages { handle, .. } = chain.phase {
                let own = Resource::Swapchain(handle);
                let none = Seq::<Resource>::empty();
                assert(image_views(next.views) =~= none);
                vstd::seq_lib::to_multiset_build(none, own);
                assert(none.to_multiset() =~= Multiset::empty());
                assert(next.held() =~= chain.held().add(chain.made(reply)));
            }
        },
        _ => {
            assert(next.held() =~= chain.held().add(chain.made(reply)));
        },
    }
}

impl ChainPhase {
    /// The place of a phase in the build.
    pub open spec fn rank(self) -> int {
        match self {
            ChainPhase::AskCapabilities => 0,
            ChainPhase::AskFormats { .. } => 1,
            ChainPhase::Create { .. } => 2,
            ChainPhase::ListImages { .. } => 3,
            ChainPhase::CreateViews { .. } => 4,
            ChainPhase::Finished { .. } => 5,
        }
    }
}

/// Every step that succeeds leads to a later phase, or adds a view where one is missing.
pub proof fn law_chain_ends(chain: ChainView, reply: ChainReply, next: ChainView)
    requires
        chain.wf(),
        chain.expects(reply),
        chain.leads_to(reply, next),
    ensures
        reply is Failed <==> next.failed,
        !next.failed ==> {
            ||| chain.phase.rank() < next.phase.rank()
            ||| next.phase == chain.phase && chain.views.len() < next.views.len()
                < next.images.len() == chain.images.len()
        },
{
}

/// What a build ends with is what a rebuild of the presentation expects: a swapchain with a view for
/// each image.
pub proof fn law_build_gives_what_a_rebuild_expects(
    rebuild: Rebuild,
    present: PresentationView,
    chain: ChainBuild,
    swapchain: Swapchain,
)
    requires
        !rebuild.failed,
        rebuild.phase == RebuildPhase::CreateSwapchain,
        chain@.wf(),
        chain.phase is Finished,
        swapchain.images@ == chain.images@,
        swapchain.views@ == chain.views@,
    ensures
        rebuild.expects(present, RebuildReply::Swapchain(swapchain)),
{
}

/// What the build of a swapchain asks for, seen from outside. The swapchain is made with the first
/// preferred format, in the size that the surface gives a window of this size, with as many images
/// and the transform that the surface says. The images of that swapchain are listed, and one after
/// the other gets a view in the format of the swapchain. The size of the window stays what it is.
pub proof fn law_chain_step_by_step(chain: ChainView, reply: ChainReply, next: ChainView)
    requires
        chain.wf(),
        chain.expects(reply),
        chain.leads_to(reply, next),
    ensures
        next.width == chain.width,
        next.height == chain.height,
        match (chain_action(chain), reply) {
            (_, ChainReply::Failed) => {
                &&& chain_action(next) == ChainAction::Failed
                &&& next.images == chain.images
                &&& next.views == chain.views
                &&& next.phase == chain.phase
            },
            (ChainAction::AskCapabilities, ChainReply::Capabilities(caps)) => {
                &&& chain_action(next) == ChainAction::AskFormats
                &&& next.phase == ChainPhase::AskFormats { caps }
            },
            (ChainAction::AskFormats, ChainReply::Formats(formats)) => {
                let caps = chain.phase->AskFormats_caps;
                &&& chain_action(next) matches ChainAction::Create { config }
                &&& formats@.contains(config.format)
                &&& forall|j: int|
                    0 <= j < formats@.len() && (#[trigger] formats@[j]).format == 50
                        ==> config.format.format == 50
                &&& config.extent == caps.extent_for(
                    Extent { width: chain.width, height: chain.height },
                )
                &&& config.image_count == caps.image_count()
                &&& config.transform == caps.current_transform
                &&& config.has_fixed_part()
            },
            (ChainAction::Create { config }, ChainReply::Handle(handle)) => {
                &&& chain_action(next) == (ChainAction::ListImages { handle })
                &&& next.phase == ChainPhase::ListImages { config, handle }
            },
            (ChainAction::ListImages { handle }, ChainReply::Images(images)) => {
                &&& next.images == images@
                &&& next.views.len() == 0
                &&& images@.len() == 0 ==> chain_action(next) == ChainAction::Finished
                &&& images@.len() > 0 ==> {
                    &&& chain_action(next) matches ChainAction::CreateView { image, description }
                    &&& image == images@[0]
                    &&& description == full_view(chain.phase->ListImages_config.format.format)
                    &&& description.format == chain.phase->ListImages_config.format.format
                }
                &&& next.phase == (if images@.len() == 0 {
                    ChainPhase::Finished { config: chain.phase->ListImages_config, handle }
                } else {
                    ChainPhase::CreateViews { config: chain.phase->ListImages_config, handle }
                })
            },
            (ChainAction::CreateView { image, description }, ChainReply::Handle(view)) => {
                let made = chain.views.len() as int;
                let config = chain.phase->CreateViews_config;
                &&& image == chain.images[made]
                &&& description == full_view(config.format.format)
                &&& description.format == config.format.format
                &&& next.images == chain.images
                &&& next.views == chain.views.push(view)
                &&& made + 1 == chain.images.len() ==> {
                    &&& chain_action(next) == ChainAction::Finished
                    &&& next.phase == ChainPhase::Finished {
                        config,
                        handle: chain.phase->CreateViews_handle,
                    }
                }
                &&& made + 1 < chain.images.len() ==> {
                    &&& chain_action(next) == (ChainAction::CreateView {
                        image: chain.images[made + 1],
                        description,
                    })
                    &&& next.phase == chain.phase
                }
            },
            _ => false,
        },
{
    if let ChainReply::Formats(formats) = reply {
        let config = next.phase->Create_config;
        let i = choose|i: int| #[trigger] is_preferred(formats@, i) && config.format == formats@[i];
        assert(formats@[i] == config.format);
        assert forall|j: int| 0 <= j < formats@.len() && (#[trigger] formats@[j]).format
            == 50 implies config.format.format == 50 by {
            law_preferred_format(formats@, i, j);
        }
    }
}

} // verus!
