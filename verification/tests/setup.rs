use ash::vk;
use rviv::config::{
    descriptor_binding, push_range, sampler_config, staging_config, COMBINED_IMAGE_SAMPLER,
    LEVEL_PRIMARY, POOL_RESET_COMMAND_BUFFER,
};
use rviv::context::{Context, Resource, Staging, Swapchain, TeardownStep};
use rviv::device::GRAPHICS;
use rviv::setup::{Setup, SetupAction, SetupReply, API_VERSION};
use rviv::surface::Extent;

fn swapchain() -> Swapchain {
    Swapchain {
        handle: 1,
        images: vec![11, 12],
        views: vec![21, 22],
        format: 50,
        extent: Extent { width: 800, height: 600 },
    }
}

fn step(setup: &mut Setup, action: SetupAction, reply: SetupReply) {
    assert_eq!(setup.action(), action);
    setup.advance(reply);
}

/// Runs a set-up up to the device, with the second family of the only device.
fn with_device() -> Setup {
    let mut setup = Setup::new();
    step(&mut setup, SetupAction::LoadEntry, SetupReply::Done);
    step(
        &mut setup,
        SetupAction::CreateInstance { api_version: vk::API_VERSION_1_3 },
        SetupReply::Done,
    );
    step(&mut setup, SetupAction::CreateSurface, SetupReply::Done);
    step(&mut setup, SetupAction::ListDevices, SetupReply::Devices(1));
    step(
        &mut setup,
        SetupAction::ListFamilies { device: 0 },
        SetupReply::Families(vec![4, GRAPHICS]),
    );
    step(
        &mut setup,
        SetupAction::AskSupport { device: 0, family: 1 },
        SetupReply::Support(Some(true)),
    );
    step(
        &mut setup,
        SetupAction::CreateDevice { device: 0, family: 1, dynamic_rendering: true },
        SetupReply::Done,
    );
    setup
}

fn finished() -> Context {
    let mut setup = with_device();
    let s = &mut setup;
    step(s, SetupAction::CreateSwapchain, SetupReply::Swapchain(swapchain()));
    step(
        s,
        SetupAction::CreateDescriptorLayout { binding: descriptor_binding() },
        SetupReply::Handle(42),
    );
    step(
        s,
        SetupAction::CreatePipelineLayout { descriptor_layout: 42, push: push_range() },
        SetupReply::Handle(43),
    );
    step(
        s,
        SetupAction::CreatePipeline {
            format: 50,
            extent: Extent { width: 800, height: 600 },
            layout: 43,
        },
        SetupReply::Handle(40),
    );
    step(
        s,
        SetupAction::CreateCommandPool { family: 1, flags: POOL_RESET_COMMAND_BUFFER },
        SetupReply::Handle(44),
    );
    step(
        s,
        SetupAction::AllocateCommandBuffers { pool: 44, level: LEVEL_PRIMARY, count: 2 },
        SetupReply::Handles(vec![51, 52]),
    );
    step(
        s,
        SetupAction::CreateDescriptorPool { kind: COMBINED_IMAGE_SAMPLER, count: 2 },
        SetupReply::Handle(45),
    );
    step(
        s,
        SetupAction::AllocateDescriptorSets { pool: 45, layout: 42, count: 2 },
        SetupReply::Handles(vec![61, 62]),
    );
    step(s, SetupAction::CreateSemaphore, SetupReply::Handle(46));
    step(s, SetupAction::CreateSemaphore, SetupReply::Handle(47));
    step(s, SetupAction::CreateFence { signaled: true }, SetupReply::Handle(48));
    step(s, SetupAction::CreateSampler { sampler: sampler_config() }, SetupReply::Handle(49));
    step(
        s,
        SetupAction::CreateStaging { staging: staging_config(4) },
        SetupReply::Buffer { buffer: 71, memory: 72 },
    );
    assert_eq!(setup.action(), SetupAction::Ready);
    setup.finish()
}

#[test]
fn a_set_up_makes_everything_in_order() {
    let context = finished();
    assert_eq!(context.present.swapchain.handle, 1);
    assert_eq!(context.present.pipeline, 40);
    assert_eq!(context.descriptor_layout, 42);
    assert_eq!(context.pipeline_layout, 43);
    assert_eq!(context.command_pool, 44);
    assert_eq!(context.command_buffers, vec![51, 52]);
    assert_eq!(context.descriptor_pool, 45);
    assert_eq!(context.descriptor_sets, vec![61, 62]);
    assert_eq!(context.image_available, 46);
    assert_eq!(context.render_done, 47);
    assert_eq!(context.fence, 48);
    assert_eq!(context.sampler, 49);
    assert_eq!(context.textures.staging, Staging { buffer: 71, memory: 72, size: 4 });
    assert_eq!(context.textures.cache.len(), 0);
}

#[test]
fn what_was_set_up_is_taken_down_once() {
    let mut destroyed = finished().teardown();
    assert_eq!(destroyed.len(), 18);
    assert_eq!(destroyed[0], TeardownStep::WaitIdle);
    assert_eq!(destroyed.pop(), Some(TeardownStep::Destroy(Resource::Instance)));
    assert_eq!(destroyed.pop(), Some(TeardownStep::Destroy(Resource::Surface)));
    assert_eq!(destroyed.pop(), Some(TeardownStep::Destroy(Resource::Device)));
    for (i, resource) in destroyed.iter().enumerate() {
        assert!(!destroyed[i + 1..].contains(resource));
    }
}

#[test]
fn without_a_gpu_the_set_up_fails() {
    let mut setup = Setup::new();
    for _ in 0..3 {
        setup.advance(SetupReply::Done);
    }
    step(&mut setup, SetupAction::ListDevices, SetupReply::Devices(1));
    step(&mut setup, SetupAction::ListFamilies { device: 0 }, SetupReply::Families(vec![2]));
    assert_eq!(setup.action(), SetupAction::NoGpu);
    let mut empty = Setup::new();
    for _ in 0..3 {
        empty.advance(SetupReply::Done);
    }
    empty.advance(SetupReply::Devices(0));
    assert_eq!(empty.action(), SetupAction::NoGpu);
}

#[test]
fn a_step_that_fails_ends_the_set_up() {
    let mut early = Setup::new();
    early.advance(SetupReply::Failed);
    assert_eq!(early.action(), SetupAction::Failed);
    let mut late = with_device();
    late.advance(SetupReply::Swapchain(swapchain()));
    late.advance(SetupReply::Failed);
    assert_eq!(late.action(), SetupAction::Failed);
}

#[test]
fn the_version_is_that_of_vulkan() {
    assert_eq!(API_VERSION, vk::API_VERSION_1_3);
}
