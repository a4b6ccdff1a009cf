//! Setting up the GPU for a window: what to make next, given what has been made.

use vstd::multiset::Multiset;
use vstd::prelude::*;

use crate::cache::{CacheView, Texture, TextureCache, MAX_CACHED_TEXTURES};
use crate::config::{
    descriptor_binding, picture_binding, push_range, sampler_config, smooth_sampler,
    staging_buffer, staging_config, view_range, BufferConfig, DescriptorBinding, PushRange,
    SamplerConfig, COMBINED_IMAGE_SAMPLER, LEVEL_PRIMARY, POOL_RESET_COMMAND_BUFFER,
};
use crate::context::{
    staging_parts, swapchain_parts, Context, Presentation, PresentationView, Resource, Staging,
    Swapchain, SwapchainView, TextureStore,
};
use crate::device::{
    law_search_finds_first, lemma_next_graphics, search_from, DeviceSearch, Gpus, SearchState,
};
use crate::surface::Extent;

verus! {

/// The version of Vulkan that the viewer needs: 1.3, in which rendering does without a render pass.
/// The major version stands above bit 22, the minor one above bit 12.
pub const API_VERSION: u32 = 0x40_3000;

/// The size of the staging buffer before any image has been uploaded.
pub const FIRST_STAGING_SIZE: u64 = 4;

/// How far the set-up has come.
#[derive(Clone, Copy, Debug, PartialEq, Eq, Structural)]
pub enum SetupStage {
    LoadEntry,
    CreateInstance,
    CreateSurface,
    Search,
    CreateDevice,
    CreateSwapchain,
    CreateDescriptorLayout,
    CreatePipelineLayout,
    CreatePipeline,
    CreateCommandPool,
    AllocateCommandBuffers,
    CreateDescriptorPool,
    AllocateDescriptorSets,
    CreateImageAvailable,
    CreateRenderDone,
    CreateFence,
    CreateSampler,
    CreateStaging,
    Ready,
}

/// A set-up, with what it has made so far. A handle is zero until its stage is over.
pub struct Setup {
    pub stage: SetupStage,
    /// The step of this stage went wrong, and the set-up ends there. What it has made stays.
    pub failed: bool,
    pub search: DeviceSearch,
    pub swapchain: Option<Swapchain>,
    pub pipeline: u64,
    pub descriptor_layout: u64,
    pub pipeline_layout: u64,
    pub command_pool: u64,
    pub command_buffers: Vec<u64>,
    pub descriptor_pool: u64,
    pub descriptor_sets: Vec<u64>,
    pub image_available: u64,
    pub render_done: u64,
    pub fence: u64,
    pub sampler: u64,
    pub staging: Option<Staging>,
}

/// What a set-up asks for. The handles that it does not name are those that it has.
#[derive(Clone, Copy, Debug, PartialEq, Eq, Structural)]
pub enum SetupAction {
    LoadEntry,
    CreateInstance { api_version: u32 },
    CreateSurface,
    ListDevices,
    ListFamilies { device: usize },
    AskSupport { device: usize, family: usize },
    /// `dynamic_rendering` says whether the device has to render without a render pass.
    CreateDevice { device: usize, family: usize, dynamic_rendering: bool },
    CreateSwapchain,
    /// The layout of descriptor sets with one binding.
    CreateDescriptorLayout { binding: DescriptorBinding },
    /// The layout of pipelines with one descriptor set and one range of pushed constants.
    CreatePipelineLayout { descriptor_layout: u64, push: PushRange },
    /// A pipeline that draws to images of this format and size.
    CreatePipeline { format: i32, extent: Extent, layout: u64 },
    CreateCommandPool { family: usize, flags: u32 },
    AllocateCommandBuffers { pool: u64, level: i32, count: u32 },
    /// A pool for so many sets, with one descriptor of this kind each.
    CreateDescriptorPool { kind: i32, count: u32 },
    AllocateDescriptorSets { pool: u64, layout: u64, count: u32 },
    CreateSemaphore,
    CreateFence { signaled: bool },
    CreateSampler { sampler: SamplerConfig },
    CreateStaging { staging: BufferConfig },
    Ready,
    /// No device can draw to the window.
    NoGpu,
    /// A step went wrong.
    Failed,
}

/// What came of it.
pub enum SetupReply {
    Done,
    Devices(usize),
    Families(Vec<u32>),
    /// Whether the family presents to the window, where the query succeeded.
    Support(Option<bool>),
    Swapchain(Swapchain),
    Handle(u64),
    Handles(Vec<u64>),
    Buffer { buffer: u64, memory: u64 },
    Failed,
}

/// The mathematical value of a set-up.
#[verifier::ext_equal]
pub struct SetupView {
    pub stage: SetupStage,
    pub failed: bool,
    pub search: SearchState,
    pub device_count: usize,
    pub families: Seq<u32>,
    pub swapchain: Option<SwapchainView>,
    pub pipeline: u64,
    pub descriptor_layout: u64,
    pub pipeline_layout: u64,
    pub command_pool: u64,
    pub command_buffers: Seq<u64>,
    pub descriptor_pool: u64,
    pub descriptor_sets: Seq<u64>,
    pub image_available: u64,
    pub render_done: u64,
    pub fence: u64,
    pub sampler: u64,
    pub staging: Option<Staging>,
}

impl View for Setup {
    type V = SetupView;

    open spec fn view(&self) -> SetupView {
        SetupView {
            stage: self.stage,
            failed: self.failed,
            search: self.search.state,
            device_count: self.search.device_count,
            families: self.search.families@,
            swapchain: match self.swapchain {
                Some(sc) => Some(sc@),
                None => None,
            },
            pipeline: self.pipeline,
            descriptor_layout: self.descriptor_layout,
            pipeline_layout: self.pipeline_layout,
            command_pool: self.command_pool,
            command_buffers: self.command_buffers@,
            descriptor_pool: self.descriptor_pool,
            descriptor_sets: self.descriptor_sets@,
            image_available: self.image_available,
            render_done: self.render_done,
            fence: self.fence,
            sampler: self.sampler,
            staging: self.staging,
        }
    }
}

/// What a set-up asks for at each stage. There are as many command buffers and descriptor sets as
/// the swapchain has images.
pub open spec fn setup_action(s: SetupView) -> SetupAction {
    let count = s.swapchain->0.images.len() as u32;
    if s.failed {
        if s.search == SearchState::NoGpu {
            SetupAction::NoGpu
        } else {
            SetupAction::Failed
        }
    } else {
        match s.stage {
            SetupStage::LoadEntry => SetupAction::LoadEntry,
            SetupStage::CreateInstance => SetupAction::CreateInstance { api_version: API_VERSION },
            SetupStage::CreateSurface => SetupAction::CreateSurface,
            SetupStage::Search => match s.search {
                SearchState::ListFamilies { device } => SetupAction::ListFamilies { device },
                SearchState::AskSupport { device, family } => SetupAction::AskSupport {
                    device,
                    family,
                },
                _ => SetupAction::ListDevices,
            },
            SetupStage::CreateDevice => SetupAction::CreateDevice {
                device: s.search->Found_device,
                family: s.search->Found_family,
                dynamic_rendering: true,
            },
            SetupStage::CreateSwapchain => SetupAction::CreateSwapchain,
            SetupStage::CreateDescriptorLayout => SetupAction::CreateDescriptorLayout {
                binding: picture_binding(),
            },
            SetupStage::CreatePipelineLayout => SetupAction::CreatePipelineLayout {
                descriptor_layout: s.descriptor_layout,
                push: view_range(),
            },
            SetupStage::CreatePipeline => SetupAction::CreatePipeline {
                format: s.swapchain->0.format,
                extent: s.swapchain->0.extent,
                layout: s.pipeline_layout,
            },
            SetupStage::CreateCommandPool => SetupAction::CreateCommandPool {
                family: s.search->Found_family,
                flags: POOL_RESET_COMMAND_BUFFER,
            },
            SetupStage::AllocateCommandBuffers => SetupAction::AllocateCommandBuffers {
                pool: s.command_pool,
                level: LEVEL_PRIMARY,
                count,
            },
            SetupStage::CreateDescriptorPool => SetupAction::CreateDescriptorPool {
                kind: COMBINED_IMAGE_SAMPLER,
                count,
            },
            SetupStage::AllocateDescriptorSets => SetupAction::AllocateDescriptorSets {
                pool: s.descriptor_pool,
                layout: s.descriptor_layout,
                count,
            },
            SetupStage::CreateImageAvailable => SetupAction::CreateSemaphore,
            SetupStage::CreateRenderDone => SetupAction::CreateSemaphore,
            SetupStage::CreateFence => SetupAction::CreateFence { signaled: true },
            SetupStage::CreateSampler => SetupAction::CreateSampler { sampler: smooth_sampler() },
            SetupStage::CreateStaging => SetupAction::CreateStaging {
                staging: staging_buffer(FIRST_STAGING_SIZE),
            },
            SetupStage::Ready => SetupAction::Ready,
        }
    }
}

impl SetupStage {
    /// The place of a stage in the set-up.
    pub open spec fn rank(self) -> int {
        match self {
            SetupStage::LoadEntry => 0,
            SetupStage::CreateInstance => 1,
            SetupStage::CreateSurface => 2,
            SetupStage::Search => 3,
            SetupStage::CreateDevice => 4,
            SetupStage::CreateSwapchain => 5,
            SetupStage::CreateDescriptorLayout => 6,
            SetupStage::CreatePipelineLayout => 7,
            SetupStage::CreatePipeline => 8,
            SetupStage::CreateCommandPool => 9,
            SetupStage::AllocateCommandBuffers => 10,
            SetupStage::CreateDescriptorPool => 11,
            SetupStage::AllocateDescriptorSets => 12,
            SetupStage::CreateImageAvailable => 13,
            SetupStage::CreateRenderDone => 14,
            SetupStage::CreateFence => 15,
            SetupStage::CreateSampler => 16,
            SetupStage::CreateStaging => 17,
            SetupStage::Ready => 18,
        }
    }

    /// This stage is over.
    pub open spec fn before(self, later: SetupStage) -> bool {
        self.rank() < later.rank()
    }
}

impl SetupView {
    pub open spec fn at(self, stage: SetupStage) -> SetupView {
        SetupView { stage, ..self }
    }

    /// The number of images of the swapchain.
    pub open spec fn image_count(self) -> nat {
        self.swapchain->0.images.len()
    }

    /// What has been made at each stage.
    pub open spec fn wf(self) -> bool {
        &&& match self.search {
            SearchState::ListDevices => self.stage.before(SetupStage::CreateDevice),
            SearchState::ListFamilies { device } => {
                &&& self.stage == SetupStage::Search
                &&& device < self.device_count
            },
            SearchState::AskSupport { device, family } => {
                &&& self.stage == SetupStage::Search
                &&& device < self.device_count
                &&& family < self.families.len()
                &&& crate::device::has_flags(self.families[family as int], crate::device::GRAPHICS)
            },
            SearchState::Found { device, family } => {
                &&& SetupStage::Search.before(self.stage)
                &&& device < self.device_count
                &&& family < self.families.len()
            },
            SearchState::NoGpu => self.stage == SetupStage::Search && self.failed,
        }
        &&& self.stage == SetupStage::LoadEntry || self.stage == SetupStage::CreateInstance
            || self.stage == SetupStage::CreateSurface ==> self.search == SearchState::ListDevices
        &&& SetupStage::CreateSwapchain.before(self.stage) == (self.swapchain is Some)
        &&& self.swapchain matches Some(sc) ==> sc.views.len() == sc.images.len()
        &&& SetupStage::AllocateCommandBuffers.before(self.stage) ==> self.command_buffers.len()
            == self.image_count()
        &&& SetupStage::AllocateDescriptorSets.before(self.stage) ==> self.descriptor_sets.len()
            == self.image_count()
        &&& SetupStage::CreateStaging.before(self.stage) == (self.staging is Some)
    }

    /// The replies that the step of this stage can have: there is one view, one command buffer and
    /// one descriptor set for each image. Where the staging buffer cannot be
    /// made, the viewer gives up, and the set-up with it.
    pub open spec fn expects(self, reply: SetupReply) -> bool {
        &&& !self.failed
        &&& match self.stage {
            SetupStage::LoadEntry => reply is Done || reply is Failed,
            SetupStage::CreateInstance => reply is Done || reply is Failed,
            SetupStage::CreateSurface => reply is Done || reply is Failed,
            SetupStage::Search => match self.search {
                SearchState::ListDevices => reply is Devices || reply is Failed,
                SearchState::ListFamilies { .. } => reply is Families,
                SearchState::AskSupport { .. } => reply is Support,
                _ => false,
            },
            SetupStage::CreateDevice => reply is Done || reply is Failed,
            SetupStage::CreateSwapchain => match reply {
                SetupReply::Swapchain(sc) => sc.views@.len() == sc.images@.len(),
                SetupReply::Failed => true,
                _ => false,
            },
            SetupStage::AllocateCommandBuffers => match reply {
                SetupReply::Handles(handles) => handles@.len() == self.image_count(),
                SetupReply::Failed => true,
                _ => false,
            },
            SetupStage::AllocateDescriptorSets => match reply {
                SetupReply::Handles(handles) => handles@.len() == self.image_count(),
                SetupReply::Failed => true,
                _ => false,
            },
            SetupStage::CreateStaging => reply is Buffer,
            SetupStage::Ready => false,
            _ => reply is Handle || reply is Failed,
        }
    }

    /// The search stands at `state`: it goes on, has found a device, or has failed.
    pub open spec fn searched(self, state: SearchState) -> SetupView {
        SetupView {
            search: state,
            stage: if state is Found {
                SetupStage::CreateDevice
            } else {
                SetupStage::Search
            },
            failed: state == SearchState::NoGpu,
            ..self
        }
    }

    /// The set-up after the handle that its stage asked for.
    pub open spec fn given_handle(self, handle: u64) -> SetupView {
        match self.stage {
            SetupStage::CreateDescriptorLayout => SetupView {
                descriptor_layout: handle,
                stage: SetupStage::CreatePipelineLayout,
                ..self
            },
            SetupStage::CreatePipelineLayout => SetupView {
                pipeline_layout: handle,
                stage: SetupStage::CreatePipeline,
                ..self
            },
            SetupStage::CreatePipeline => SetupView {
                pipeline: handle,
                stage: SetupStage::CreateCommandPool,
                ..self
            },
            SetupStage::CreateCommandPool => SetupView {
                command_pool: handle,
                stage: SetupStage::AllocateCommandBuffers,
                ..self
            },
            SetupStage::CreateDescriptorPool => SetupView {
                descriptor_pool: handle,
                stage: SetupStage::AllocateDescriptorSets,
                ..self
            },
            SetupStage::CreateImageAvailable => SetupView {
                image_available: handle,
                stage: SetupStage::CreateRenderDone,
                ..self
            },
            SetupStage::CreateRenderDone => SetupView {
                render_done: handle,
                stage: SetupStage::CreateFence,
                ..self
            },
            SetupStage::CreateFence => SetupView {
                fence: handle,
                stage: SetupStage::CreateSampler,
                ..self
            },
            SetupStage::CreateSampler => SetupView {
                sampler: handle,
                stage: SetupStage::CreateStaging,
                ..self
            },
            _ => self,
        }
    }

    /// The set-up after the handles that its stage asked for.
    pub open spec fn given_handles(self, handles: Seq<u64>) -> SetupView {
        match self.stage {
            SetupStage::AllocateCommandBuffers => SetupView {
                command_buffers: handles,
                stage: SetupStage::CreateDescriptorPool,
                ..self
            },
            SetupStage::AllocateDescriptorSets => SetupView {
                descriptor_sets: handles,
                stage: SetupStage::CreateImageAvailable,
                ..self
            },
            _ => self,
        }
    }

    /// The set-up after a step that is over without a result.
    pub open spec fn done(self) -> SetupView {
        match self.stage {
            SetupStage::LoadEntry => self.at(SetupStage::CreateInstance),
            SetupStage::CreateInstance => self.at(SetupStage::CreateSurface),
            SetupStage::CreateSurface => self.at(SetupStage::Search),
            SetupStage::CreateDevice => self.at(SetupStage::CreateSwapchain),
            _ => self,
        }
    }
}

/// The set-up after a reply.
pub open spec fn setup_next(s: SetupView, reply: SetupReply) -> SetupView {
    match reply {
        SetupReply::Failed => SetupView { failed: true, ..s },
        SetupReply::Done => s.done(),
        SetupReply::Devices(count) => SetupView { device_count: count, ..s }.searched(
            if count == 0 {
                SearchState::NoGpu
            } else {
                SearchState::ListFamilies { device: 0 }
            },
        ),
        SetupReply::Families(families) => SetupView { families: families@, ..s }.searched(
            search_from(families@, s.device_count, s.search->ListFamilies_device, 0),
        ),
        SetupReply::Support(answer) => s.searched(
            if answer == Some(true) {
                SearchState::Found {
                    device: s.search->AskSupport_device,
                    family: s.search->AskSupport_family,
                }
            } else {
                search_from(
                    s.families,
                    s.device_count,
                    s.search->AskSupport_device,
                    s.search->AskSupport_family + 1,
                )
            },
        ),
        SetupReply::Swapchain(sc) => SetupView {
            swapchain: Some(sc@),
            stage: SetupStage::CreateDescriptorLayout,
            ..s
        },
        SetupReply::Handle(handle) => s.given_handle(handle),
        SetupReply::Handles(handles) => s.given_handles(handles@),
        SetupReply::Buffer { buffer, memory } => SetupView {
            staging: Some(Staging { buffer, memory, size: FIRST_STAGING_SIZE }),
            stage: SetupStage::Ready,
            ..s
        },
    }
}

/// The context holds what the set-up has made, and an empty cache.
pub open spec fn assembled(s: SetupView, context: Context) -> bool {
    &&& s.swapchain == Some(context.present@.swapchain)
    &&& context.present.pipeline == s.pipeline
    &&& s.staging == Some(context.textures.staging)
    &&& context.textures.cache@ == CacheView {
        order: Seq::empty(),
        textures: Map::empty(),
        capacity: MAX_CACHED_TEXTURES as nat,
    }
    &&& context.descriptor_layout == s.descriptor_layout
    &&& context.pipeline_layout == s.pipeline_layout
    &&& context.command_pool == s.command_pool
    &&& context.command_buffers@ == s.command_buffers
    &&& context.descriptor_pool == s.descriptor_pool
    &&& context.descriptor_sets@ == s.descriptor_sets
    &&& context.image_available == s.image_available
    &&& context.render_done == s.render_done
    &&& context.fence == s.fence
    &&& context.sampler == s.sampler
}

impl Setup {
    /// A set-up at its start.
    pub fn new() -> (setup: Setup)
        ensures
            setup@.wf(),
            setup@ == (SetupView {
                stage: SetupStage::LoadEntry,
                failed: false,
                search: SearchState::ListDevices,
                device_count: 0,
                families: Seq::empty(),
                swapchain: None,
                pipeline: 0,
                descriptor_layout: 0,
                pipeline_layout: 0,
                command_pool: 0,
                command_buffers: Seq::empty(),
                descriptor_pool: 0,
                descriptor_sets: Seq::empty(),
                image_available: 0,
                render_done: 0,
                fence: 0,
                sampler: 0,
                staging: None,
            }),
    {
        Setup {
            stage: SetupStage::LoadEntry,
            failed: false,
            search: DeviceSearch::new(),
            swapchain: None,
            pipeline: 0,
            descriptor_layout: 0,
            pipeline_layout: 0,
            command_pool: 0,
            command_buffers: Vec::new(),
            descriptor_pool: 0,
            descriptor_sets: Vec::new(),
            image_available: 0,
            render_done: 0,
            fence: 0,
            sampler: 0,
            staging: None,
        }
    }

    /// What the set-up needs next.
    pub fn action(&self) -> (action: SetupAction)
        requires
            self@.wf(),
        ensures
            action == setup_action(self@),
    {
        if self.failed {
            return if let SearchState::NoGpu = self.search.state {
                SetupAction::NoGpu
            } else {
                SetupAction::Failed
            };
        }
        let (format, extent, count): (i32, Extent, u32) = match &self.swapchain {
            Some(sc) => (sc.format, sc.extent, sc.images.len() as u32),
            None => (0, Extent { width: 0, height: 0 }, 0),
        };
        let (device, family): (usize, usize) = match self.search.state {
            SearchState::Found { device, family } => (device, family),
            _ => (0, 0),
        };
        match self.stage {
            SetupStage::LoadEntry => SetupAction::LoadEntry,
            SetupStage::CreateInstance => SetupAction::CreateInstance { api_version: API_VERSION },
            SetupStage::CreateSurface => SetupAction::CreateSurface,
            SetupStage::Search => match self.search.state {
                SearchState::ListFamilies { device } => SetupAction::ListFamilies { device },
                SearchState::AskSupport { device, family } => SetupAction::AskSupport {
                    device,
                    family,
                },
                _ => SetupAction::ListDevices,
            },
            SetupStage::CreateDevice => SetupAction::CreateDevice {
                device,
                family,
                dynamic_rendering: true,
            },
            SetupStage::CreateSwapchain => SetupAction::CreateSwapchain,
            SetupStage::CreateDescriptorLayout => SetupAction::CreateDescriptorLayout {
                binding: descriptor_binding(),
            },
            SetupStage::CreatePipelineLayout => SetupAction::CreatePipelineLayout {
                descriptor_layout: self.descriptor_layout,
                push: push_range(),
            },
            SetupStage::CreatePipeline => SetupAction::CreatePipeline {
                format,
                extent,
                layout: self.pipeline_layout,
            },
            SetupStage::CreateCommandPool => SetupAction::CreateCommandPool {
                family,
                flags: POOL_RESET_COMMAND_BUFFER,
            },
            SetupStage::AllocateCommandBuffers => SetupAction::AllocateCommandBuffers {
                pool: self.command_pool,
                level: LEVEL_PRIMARY,
                count,
            },
            SetupStage::CreateDescriptorPool => SetupAction::CreateDescriptorPool {
                kind: COMBINED_IMAGE_SAMPLER,
                count,
            },
            SetupStage::AllocateDescriptorSets => SetupAction::AllocateDescriptorSets {
                pool: self.descriptor_pool,
                layout: self.descriptor_layout,
                count,
            },
            SetupStage::CreateImageAvailable => SetupAction::CreateSemaphore,
            SetupStage::CreateRenderDone => SetupAction::CreateSemaphore,
            SetupStage::CreateFence => SetupAction::CreateFence { signaled: true },
            SetupStage::CreateSampler => SetupAction::CreateSampler { sampler: sampler_config() },
            SetupStage::CreateStaging => SetupAction::CreateStaging {
                staging: staging_config(FIRST_STAGING_SIZE),
            },
            SetupStage::Ready => SetupAction::Ready,
        }
    }

    /// Goes on after the reply to what the set-up asked for.
    pub fn advance(&mut self, reply: SetupReply)
        requires
            old(self)@.wf(),
            old(self)@.expects(reply),
        ensures
            final(self)@ == setup_next(old(self)@, reply),
            final(self)@.wf(),
    {
        match reply {
            SetupReply::Failed => {
                self.failed = true;
            },
            SetupReply::Done => {
                self.stage = match self.stage {
                    SetupStage::LoadEntry => SetupStage::CreateInstance,
                    SetupStage::CreateInstance => SetupStage::CreateSurface,
                    SetupStage::CreateSurface => SetupStage::Search,
                    SetupStage::CreateDevice => SetupStage::CreateSwapchain,
                    other => other,
                };
            },
            SetupReply::Devices(count) => {
                self.search.devices(count);
                self.follow_search();
            },
            SetupReply::Families(families) => {
                self.search.device_families(families);
                self.follow_search();
            },
            SetupReply::Support(answer) => {
                self.search.support(answer);
                self.follow_search();
            },
            SetupReply::Swapchain(sc) => {
                self.swapchain = Some(sc);
                self.stage = SetupStage::CreateDescriptorLayout;
            },
            SetupReply::Handle(handle) => self.take_handle(handle),
            SetupReply::Handles(handles) => match self.stage {
                SetupStage::AllocateCommandBuffers => {
                    self.command_buffers = handles;
                    self.stage = SetupStage::CreateDescriptorPool;
                },
                SetupStage::AllocateDescriptorSets => {
                    self.descriptor_sets = handles;
                    self.stage = SetupStage::CreateImageAvailable;
                },
                _ => {},
            },
            SetupReply::Buffer { buffer, memory } => {
                self.staging = Some(Staging { buffer, memory, size: FIRST_STAGING_SIZE });
                self.stage = SetupStage::Ready;
            },
        }
    }

    fn follow_search(&mut self)
        ensures
            final(self)@ == old(self)@.searched(old(self)@.search),
    {
        self.failed = false;
        self.stage = match self.search.state {
            SearchState::Found { device: _, family: _ } => SetupStage::CreateDevice,
            SearchState::NoGpu => {
                self.failed = true;
                SetupStage::Search
            },
            _ => SetupStage::Search,
        };
    }

    fn take_handle(&mut self, handle: u64)
        requires
            old(self)@.wf(),
            old(self)@.expects(SetupReply::Handle(handle)),
        ensures
            final(self)@ == old(self)@.given_handle(handle),
            final(self)@.wf(),
    {
        match self.stage {
            SetupStage::CreateDescriptorLayout => {
                self.descriptor_layout = handle;
                self.stage = SetupStage::CreatePipelineLayout;
            },
            SetupStage::CreatePipelineLayout => {
                self.pipeline_layout = handle;
                self.stage = SetupStage::CreatePipeline;
            },
            SetupStage::CreatePipeline => {
                self.pipeline = handle;
                self.stage = SetupStage::CreateCommandPool;
            },
            SetupStage::CreateCommandPool => {
                self.command_pool = handle;
                self.stage = SetupStage::AllocateCommandBuffers;
            },
            SetupStage::CreateDescriptorPool => {
                self.descriptor_pool = handle;
                self.stage = SetupStage::AllocateDescriptorSets;
            },
            SetupStage::CreateImageAvailable => {
                self.image_available = handle;
                self.stage = SetupStage::CreateRenderDone;
            },
            SetupStage::CreateRenderDone => {
                self.render_done = handle;
                self.stage = SetupStage::CreateFence;
            },
            SetupStage::CreateFence => {
                self.fence = handle;
                self.stage = SetupStage::CreateSampler;
            },
            SetupStage::CreateSampler => {
                self.sampler = handle;
                self.stage = SetupStage::CreateStaging;
            },
            _ => {},
        }
    }

    /// The context that the set-up has made, with an empty cache.
    pub fn finish(self) -> (context: Context)
        requires
            self@.wf(),
            self.stage == SetupStage::Ready,
        ensures
            context.can_draw(),
            context.textures.cache@.wf(),
            assembled(self@, context),
    {
        Context {
            present: Presentation {
                swapchain: self.swapchain.unwrap(),
                pipeline: self.pipeline,
            },
            textures: TextureStore {
                staging: self.staging.unwrap(),
                cache: TextureCache::new(),
            },
            descriptor_layout: self.descriptor_layout,
            pipeline_layout: self.pipeline_layout,
            command_pool: self.command_pool,
            command_buffers: self.command_buffers,
            descriptor_pool: self.descriptor_pool,
            descriptor_sets: self.descriptor_sets,
            image_available: self.image_available,
            render_done: self.render_done,
            fence: self.fence,
            sampler: self.sampler,
        }
    }
}

/// One object, if it is there.
pub open spec fn one(there: bool, resource: Resource) -> Multiset<Resource> {
    if there {
        Multiset::singleton(resource)
    } else {
        Multiset::empty()
    }
}

impl SetupView {
    /// The GPU objects that the set-up has made so far.
    pub open spec fn owned(self) -> Multiset<Resource> {
        let stage = self.stage;
        one(SetupStage::CreateInstance.before(stage), Resource::Instance).add(
            one(SetupStage::CreateSurface.before(stage), Resource::Surface),
        ).add(one(SetupStage::CreateDevice.before(stage), Resource::Device)).add(
            match self.swapchain {
                Some(sc) => swapchain_parts(sc).to_multiset(),
                None => Multiset::empty(),
            },
        ).add(
            one(SetupStage::CreatePipeline.before(stage), Resource::Pipeline(self.pipeline)),
        ).add(
            one(
                SetupStage::CreateDescriptorLayout.before(stage),
                Resource::DescriptorSetLayout(self.descriptor_layout),
            ),
        ).add(
            one(
                SetupStage::CreatePipelineLayout.before(stage),
                Resource::PipelineLayout(self.pipeline_layout),
            ),
        ).add(
            one(
                SetupStage::CreateCommandPool.before(stage),
                Resource::CommandPool(self.command_pool),
            ),
        ).add(
            one(
                SetupStage::CreateDescriptorPool.before(stage),
                Resource::DescriptorPool(self.descriptor_pool),
            ),
        ).add(
            one(
                SetupStage::CreateImageAvailable.before(stage),
                Resource::Semaphore(self.image_available),
            ),
        ).add(
            one(
                SetupStage::CreateRenderDone.before(stage),
                Resource::Semaphore(self.render_done),
            ),
        ).add(one(SetupStage::CreateFence.before(stage), Resource::Fence(self.fence))).add(
            one(SetupStage::CreateSampler.before(stage), Resource::Sampler(self.sampler)),
        ).add(
            match self.staging {
                Some(staging) => staging_parts(staging).to_multiset(),
                None => Multiset::empty(),
            },
        )
    }

    /// The GPU objects that the step of this stage made. Command buffers and descriptor sets go
    /// with their pools.
    pub open spec fn made(self, reply: SetupReply) -> Multiset<Resource> {
        match reply {
            SetupReply::Done => match self.stage {
                SetupStage::CreateInstance => Multiset::singleton(Resource::Instance),
                SetupStage::CreateSurface => Multiset::singleton(Resource::Surface),
                SetupStage::CreateDevice => Multiset::singleton(Resource::Device),
                _ => Multiset::empty(),
            },
            SetupReply::Swapchain(sc) => swapchain_parts(sc@).to_multiset(),
            SetupReply::Handle(handle) => match self.stage {
                SetupStage::CreateDescriptorLayout => Multiset::singleton(
                    Resource::DescriptorSetLayout(handle),
                ),
                SetupStage::CreatePipelineLayout => Multiset::singleton(
                    Resource::PipelineLayout(handle),
                ),
                SetupStage::CreatePipeline => Multiset::singleton(Resource::Pipeline(handle)),
                SetupStage::CreateCommandPool => Multiset::singleton(Resource::CommandPool(handle)),
                SetupStage::CreateDescriptorPool => Multiset::singleton(
                    Resource::DescriptorPool(handle),
                ),
                SetupStage::CreateImageAvailable => Multiset::singleton(
                    Resource::Semaphore(handle),
                ),
                SetupStage::CreateRenderDone => Multiset::singleton(Resource::Semaphore(handle)),
                SetupStage::CreateFence => Multiset::singleton(Resource::Fence(handle)),
                SetupStage::CreateSampler => Multiset::singleton(Resource::Sampler(handle)),
                _ => Multiset::empty(),
            },
            SetupReply::Buffer { buffer, memory } => staging_parts(
                Staging { buffer, memory, size: FIRST_STAGING_SIZE },
            ).to_multiset(),
            _ => Multiset::empty(),
        }
    }
}

/// A set-up keeps account of what it makes: after each step it holds what it held before and what
/// the step made, and at its start it holds nothing.
#[verifier::spinoff_prover]
#[verifier::rlimit(40)]
pub proof fn law_setup_keeps_account(s: SetupView, reply: SetupReply)
    requires
        s.wf(),
        s.expects(reply),
    ensures
        setup_next(s, reply).owned() == s.owned().add(s.made(reply)),
        s.stage == SetupStage::LoadEntry ==> s.owned() == Multiset::<Resource>::empty(),
{
    let next = setup_next(s, reply);
    assert(next.owned() =~= s.owned().add(s.made(reply)));
    if s.stage == SetupStage::LoadEntry {
        assert(s.owned() =~= Multiset::<Resource>::empty());
    }
}

/// A finished set-up hands over everything that it has made, and nothing else: what the viewer
/// destroys at its end is what the set-up made and what the viewer has made since.
#[verifier::spinoff_prover]
#[verifier::rlimit(40)]
pub proof fn law_setup_hands_over_everything(s: SetupView, context: Context)
    requires
        s.wf(),
        s.stage == SetupStage::Ready,
        assembled(s, context),
    ensures
        context.owned() == s.owned(),
{
    broadcast use vstd::seq_lib::group_to_multiset_ensures;

    let none = Seq::<Resource>::empty();
    assert(none.to_multiset() =~= Multiset::empty());
    assert(context.textures@.cache.in_order() =~= Seq::empty());
    assert(context.lasting_parts() =~= none.push(
        Resource::DescriptorSetLayout(s.descriptor_layout),
    ).push(Resource::PipelineLayout(s.pipeline_layout)).push(
        Resource::CommandPool(s.command_pool),
    ).push(Resource::DescriptorPool(s.descriptor_pool)).push(
        Resource::Semaphore(s.image_available),
    ).push(Resource::Semaphore(s.render_done)).push(Resource::Fence(s.fence)).push(
        Resource::Sampler(s.sampler),
    ).push(Resource::Device).push(Resource::Surface).push(Resource::Instance));
    assert(context.owned() =~= s.owned());
}

/// Every step that succeeds leads to the next stage, except that the search for a device takes as
/// many steps as it needs; a step that fails leads nowhere.
pub proof fn law_setup_goes_stage_by_stage(s: SetupView, reply: SetupReply)
    requires
        s.wf(),
        s.expects(reply),
    ensures
        ({
            let next = setup_next(s, reply);
            &&& reply is Failed <==> next.failed && next.search != SearchState::NoGpu
            &&& !next.failed && s.stage != SetupStage::Search ==> next.stage.rank()
                == s.stage.rank() + 1
            &&& !next.failed && s.stage == SetupStage::Search ==> {
                ||| next.stage == SetupStage::Search
                ||| next.stage == SetupStage::CreateDevice
            }
            &&& next.failed ==> next.stage == s.stage
        }),
{
}

/// The reply says what the driver answers.
pub open spec fn is_truthful(gpus: Gpus, s: SetupView, reply: SetupReply) -> bool {
    match s.search {
        SearchState::ListDevices => {
            &&& reply matches SetupReply::Devices(count)
            &&& count == gpus.families.len()
        },
        SearchState::ListFamilies { device } => {
            &&& reply matches SetupReply::Families(families)
            &&& families@ == gpus.families[device as int]
        },
        SearchState::AskSupport { device, family } => {
            &&& reply matches SetupReply::Support(answer)
            &&& answer == gpus.presents[device as int][family as int]
        },
        _ => false,
    }
}

/// What the set-up knows of the devices is true.
pub open spec fn knows(gpus: Gpus, s: SetupView) -> bool {
    &&& gpus.in_range(s.search)
    &&& s.search is ListFamilies || s.search is AskSupport ==> s.device_count
        == gpus.families.len()
    &&& s.search matches SearchState::AskSupport { device, .. } ==> s.families
        == gpus.families[device as int]
    &&& s.stage == (if s.search is Found {
        SetupStage::CreateDevice
    } else {
        SetupStage::Search
    })
    &&& s.failed == (s.search == SearchState::NoGpu)
}

/// Set-up number `i` is followed by the one that a true reply leads to.
pub open spec fn goes_on(
    gpus: Gpus,
    setups: Seq<SetupView>,
    replies: Seq<SetupReply>,
    i: int,
) -> bool {
    &&& is_truthful(gpus, setups[i], replies[i])
    &&& setups[i + 1] == setup_next(setups[i], replies[i])
}

/// The set-ups from the beginning of a search on, each after a true reply to the one before.
pub open spec fn is_search(gpus: Gpus, setups: Seq<SetupView>, replies: Seq<SetupReply>) -> bool {
    &&& setups.len() == replies.len() + 1
    &&& setups[0].stage == SetupStage::Search
    &&& setups[0].search == SearchState::ListDevices
    &&& !setups[0].failed
    &&& forall|i: int| 0 <= i < replies.len() ==> #[trigger] goes_on(gpus, setups, replies, i)
}

/// One true reply leaves the end of the search where it is, and brings the search closer to it.
proof fn lemma_search_step(gpus: Gpus, s: SetupView, reply: SetupReply)
    requires
        gpus.countable(),
        knows(gpus, s),
        is_truthful(gpus, s, reply),
    ensures
        ({
            let next = setup_next(s, reply);
            &&& knows(gpus, next)
            &&& gpus.outcome(next.search) == gpus.outcome(s.search)
            &&& search_is_closer(gpus, next.search, s.search)
        }),
{
    match s.search {
        SearchState::ListFamilies { device } => {
            lemma_next_graphics(gpus.families[device as int], 0);
        },
        SearchState::AskSupport { device, family } => {
            lemma_next_graphics(gpus.families[device as int], family + 1);
        },
        _ => {},
    }
}

/// A search at `next` has fewer devices to look at than one at `state`, or as many and fewer
/// questions about the one that it looks at.
pub open spec fn search_is_closer(gpus: Gpus, next: SearchState, state: SearchState) -> bool {
    ||| 0 <= gpus.devices_left(next) < gpus.devices_left(state)
    ||| gpus.devices_left(next) == gpus.devices_left(state) && 0 <= gpus.families_left(next)
        < gpus.families_left(state)
}

/// All true replies of a search leave its end where it is.
proof fn lemma_search(gpus: Gpus, setups: Seq<SetupView>, replies: Seq<SetupReply>)
    requires
        gpus.countable(),
        is_search(gpus, setups, replies),
    ensures
        knows(gpus, setups.last()),
        gpus.outcome(setups.last().search) == gpus.outcome(SearchState::ListDevices),
    decreases replies.len(),
{
    if replies.len() > 0 {
        let last = replies.len() - 1;
        lemma_search_before_last(gpus, setups, replies);
        lemma_search(gpus, setups.drop_last(), replies.drop_last());
        assert(goes_on(gpus, setups, replies, last));
        lemma_search_step(gpus, setups[last], replies[last]);
    }
}

proof fn lemma_search_before_last(gpus: Gpus, setups: Seq<SetupView>, replies: Seq<SetupReply>)
    requires
        is_search(gpus, setups, replies),
        replies.len() > 0,
    ensures
        is_search(gpus, setups.drop_last(), replies.drop_last()),
{
    let before = setups.drop_last();
    let answers = replies.drop_last();
    assert forall|i: int| 0 <= i < answers.len() implies #[trigger] goes_on(
        gpus,
        before,
        answers,
        i,
    ) by {
        assert(goes_on(gpus, setups, replies, i));
    }
}

/// A set-up that is answered from a list of GPUs goes on with the first queue family, by device and
/// then by number, that draws and presents, and gives up exactly if there is none. Every answer
/// brings it closer to that.
pub proof fn law_setup_finds_the_first_gpu(
    gpus: Gpus,
    setups: Seq<SetupView>,
    replies: Seq<SetupReply>,
)
    requires
        gpus.countable(),
        is_search(gpus, setups, replies),
    ensures
        gpus.outcome(setups.last().search) == gpus.outcome(SearchState::ListDevices),
        match setups.last().search {
            SearchState::Found { device, family } => {
                &&& gpus.suitable(device as int, family as int)
                &&& gpus.none_before(device as int, family as int)
                &&& setup_action(setups.last()) == (SetupAction::CreateDevice {
                    device,
                    family,
                    dynamic_rendering: true,
                })
            },
            SearchState::NoGpu => {
                &&& forall|d: int, f: int| !gpus.suitable(d, f)
                &&& setup_action(setups.last()) == SetupAction::NoGpu
            },
            _ => setups.last().stage == SetupStage::Search && !setups.last().failed,
        },
        replies.len() > 0 ==> search_is_closer(
            gpus,
            setups.last().search,
            setups[setups.len() - 2].search,
        ),
{
    lemma_search(gpus, setups, replies);
    law_search_finds_first(gpus);
    if replies.len() > 0 {
        let last = replies.len() - 1;
        lemma_search_before_last(gpus, setups, replies);
        lemma_search(gpus, setups.drop_last(), replies.drop_last());
        assert(goes_on(gpus, setups, replies, last));
        lemma_search_step(gpus, setups[last], replies[last]);
    }
}

/// The beginning of a set-up: the library is loaded, an instance of version 1.3 or later is made, then
/// the surface, and then the devices are listed.
pub proof fn law_setup_begins_with_the_instance(s: SetupView)
    requires
        s.stage == SetupStage::LoadEntry,
        !s.failed,
        s.wf(),
    ensures
        ({
            let s1 = setup_next(s, SetupReply::Done);
            let s2 = setup_next(s1, SetupReply::Done);
            let s3 = setup_next(s2, SetupReply::Done);
            &&& setup_action(s) == SetupAction::LoadEntry
            &&& setup_action(s1) matches SetupAction::CreateInstance { api_version }
            &&& api_version >> 22 == 1
            &&& (api_version >> 12) & 0x3ff == 3
            &&& setup_action(s2) == SetupAction::CreateSurface
            &&& setup_action(s3) == SetupAction::ListDevices
        }),
{
    assert(0x40_3000u32 >> 22 == 1) by (bit_vector);
    assert((0x40_3000u32 >> 12) & 0x3ff == 3) by (bit_vector);
}

/// What a set-up asks for once it has found a GPU, seen from outside. Every request names what the
/// earlier ones gave: the queue family that was found, the layouts, the format and the size of the
/// swapchain, the pools, and the number of its images, each under its own name. The context that
/// comes out at the end has each object in its own place.
pub proof fn law_setup_uses_what_it_made(
    s: SetupView,
    device: usize,
    family: usize,
    swapchain: Swapchain,
    descriptor_layout: u64,
    pipeline_layout: u64,
    pipeline: u64,
    command_pool: u64,
    command_buffers: Vec<u64>,
    descriptor_pool: u64,
    descriptor_sets: Vec<u64>,
    image_available: u64,
    render_done: u64,
    fence: u64,
    sampler: u64,
    buffer: u64,
    memory: u64,
    context: Context,
)
    requires
        s.wf(),
        !s.failed,
        s.stage == SetupStage::CreateDevice,
        s.search == (SearchState::Found { device, family }),
        swapchain.images@.len() == swapchain.views@.len(),
        swapchain.images@.len() <= u32::MAX,
        command_buffers@.len() == swapchain.images@.len(),
        descriptor_sets@.len() == swapchain.images@.len(),
    ensures
        ({
            let count = swapchain.images@.len();
            let s1 = setup_next(s, SetupReply::Done);
            let s2 = setup_next(s1, SetupReply::Swapchain(swapchain));
            let s3 = setup_next(s2, SetupReply::Handle(descriptor_layout));
            let s4 = setup_next(s3, SetupReply::Handle(pipeline_layout));
            let s5 = setup_next(s4, SetupReply::Handle(pipeline));
            let s6 = setup_next(s5, SetupReply::Handle(command_pool));
            let s7 = setup_next(s6, SetupReply::Handles(command_buffers));
            let s8 = setup_next(s7, SetupReply::Handle(descriptor_pool));
            let s9 = setup_next(s8, SetupReply::Handles(descriptor_sets));
            let s10 = setup_next(s9, SetupReply::Handle(image_available));
            let s11 = setup_next(s10, SetupReply::Handle(render_done));
            let s12 = setup_next(s11, SetupReply::Handle(fence));
            let s13 = setup_next(s12, SetupReply::Handle(sampler));
            let s14 = setup_next(s13, SetupReply::Buffer { buffer, memory });
            &&& setup_action(s) == (SetupAction::CreateDevice {
                device,
                family,
                dynamic_rendering: true,
            })
            &&& setup_action(s1) == SetupAction::CreateSwapchain
            &&& setup_action(s2) == (SetupAction::CreateDescriptorLayout {
                binding: DescriptorBinding { binding: 0, kind: 1, count: 1, stages: 0x10 },
            })
            &&& setup_action(s3) == (SetupAction::CreatePipelineLayout {
                descriptor_layout,
                push: PushRange { stages: 1, offset: 0, size: 16 },
            })
            &&& setup_action(s4) == (SetupAction::CreatePipeline {
                format: swapchain.format,
                extent: swapchain.extent,
                layout: pipeline_layout,
            })
            &&& setup_action(s5) == (SetupAction::CreateCommandPool { family, flags: 2 })
            &&& setup_action(s6) == (SetupAction::AllocateCommandBuffers {
                pool: command_pool,
                level: 0,
                count: count as u32,
            })
            &&& setup_action(s7) == (SetupAction::CreateDescriptorPool {
                kind: 1,
                count: count as u32,
            })
            &&& setup_action(s8) == (SetupAction::AllocateDescriptorSets {
                pool: descriptor_pool,
                layout: descriptor_layout,
                count: count as u32,
            })
            &&& setup_action(s9) == SetupAction::CreateSemaphore
            &&& setup_action(s10) == SetupAction::CreateSemaphore
            &&& setup_action(s11) == (SetupAction::CreateFence { signaled: true })
            &&& setup_action(s12) == (SetupAction::CreateSampler { sampler: smooth_sampler() })
            &&& setup_action(s13) == (SetupAction::CreateStaging { staging: staging_buffer(4) })
            &&& setup_action(s14) == SetupAction::Ready
            &&& assembled(s14, context) <==> {
                &&& context.present.swapchain@ == swapchain@
                &&& context.present.pipeline == pipeline
                &&& context.textures.staging == (Staging { buffer, memory, size: 4 })
                &&& context.textures.cache@.order.len() == 0
                &&& context.textures.cache@.textures == Map::<usize, Texture>::empty()
                &&& context.textures.cache@.capacity == 10
                &&& context.descriptor_layout == descriptor_layout
                &&& context.pipeline_layout == pipeline_layout
                &&& context.command_pool == command_pool
                &&& context.command_buffers@ == command_buffers@
                &&& context.descriptor_pool == descriptor_pool
                &&& context.descriptor_sets@ == descriptor_sets@
                &&& context.image_available == image_available
                &&& context.render_done == render_done
                &&& context.fence == fence
                &&& context.sampler == sampler
            }
        }),
{
    let cache = context.textures.cache@;
    if cache.order.len() == 0 {
        assert(cache.order =~= Seq::empty());
    }
}

/// A step that fails changes nothing in what has been made, and after it nothing more is asked for.
pub proof fn law_failed_setup_stands_still(s: SetupView)
    requires
        s.wf(),
        s.expects(SetupReply::Failed),
    ensures
        setup_action(setup_next(s, SetupReply::Failed)) == SetupAction::Failed,
        setup_next(s, SetupReply::Failed) == (SetupView { failed: true, ..s }),
{
}

} // verus!
