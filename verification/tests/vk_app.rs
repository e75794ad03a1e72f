use vulkan_quad::graphics::buffers::{update_uniform_buffer, Buffer};
use vulkan_quad::graphics::commands::{record_command_buffer, SyncObjects};
use vulkan_quad::graphics::constants::ERROR_OUT_OF_DATE_KHR;
use vulkan_quad::graphics::device::SupportedPhysicalDevice;
use vulkan_quad::graphics::errors::VkAppError;
use vulkan_quad::graphics::pipeline::Pipeline;
use vulkan_quad::graphics::presentation::{
    color_image_view, Extent2D, FramebufferRequest, Surface, SurfaceCapabilities, SurfaceDetails,
    SurfaceFormat, Swapchain, SwapchainSettings,
};
use vulkan_quad::graphics::release::{ObjectKind, Release};
use vulkan_quad::graphics::vk_app::{
    out_of_date, startup, Action, After, Event, Phase, Presentation, Resources, StartupStep,
    Submission, VkApp,
};

const FIFO: i32 = 2;
const MAILBOX: i32 = 1;
const BGRA_SRGB: SurfaceFormat = SurfaceFormat { format: 50, color_space: 0 };

fn capabilities(width: u32, height: u32) -> SurfaceCapabilities {
    SurfaceCapabilities {
        min_image_count: 2,
        max_image_count: 8,
        current_extent: Extent2D { width, height },
        min_image_extent: Extent2D { width: 1, height: 1 },
        max_image_extent: Extent2D { width: 4096, height: 4096 },
        current_transform: 1,
    }
}

fn details(width: u32, height: u32, present_modes: Vec<i32>) -> SurfaceDetails {
    SurfaceDetails { capabilities: capabilities(width, height), formats: vec![BGRA_SRGB], present_modes }
}

fn settings(width: u32, height: u32, present_mode: i32) -> SwapchainSettings {
    SwapchainSettings { extent: Extent2D { width, height }, format: BGRA_SRGB, present_mode }
}

fn resources() -> Resources {
    Resources {
        instance: 1,
        debug_callback: 2,
        physical_device: SupportedPhysicalDevice {
            vk_physical_device: 3,
            device_name: String::from("Mock"),
            graphics_family_index: 0,
            present_family_index: 0,
            sampler_anisotropy: true,
        },
        device: 4,
        graphics_queue: 5,
        present_queue: 6,
        pipeline: Pipeline {
            render_pass: 10,
            descriptor_set_layout: 11,
            pipeline_layout: 12,
            graphics_pipeline: 13,
        },
        command_pool: 20,
        texture_image: 30,
        texture_image_memory: 31,
        texture_image_view: 32,
        texture_sampler: 33,
        vertex_buffer: Buffer { buffer: 40, buffer_memory: 41 },
        index_buffer: Buffer { buffer: 42, buffer_memory: 43 },
        uniform_buffers: vec![
            Buffer { buffer: 50, buffer_memory: 51 },
            Buffer { buffer: 52, buffer_memory: 53 },
        ],
        descriptor_pool: 60,
        descriptor_sets: vec![61, 62],
        command_buffers: vec![71, 72],
        sync_objects: SyncObjects {
            image_available_semaphores: vec![81, 82],
            render_finished_semaphores: vec![83, 84],
            in_flight_fences: vec![85, 86],
        },
    }
}

fn swapchain() -> Swapchain {
    Swapchain {
        vk_swapchain: 100,
        settings: settings(640, 480, FIFO),
        images: vec![101, 102, 103],
        image_views: vec![111, 112, 113],
        framebuffers: vec![121, 122, 123],
    }
}

fn app() -> VkApp {
    VkApp::new(
        resources(),
        Surface { vk_surface: 7, details: details(640, 480, vec![FIFO]) },
        swapchain(),
        640,
        480,
    )
}

fn ok() -> Event {
    Event::Done(Ok(()))
}

fn out_of_date_error() -> VkAppError {
    VkAppError::VkError(ERROR_OUT_OF_DATE_KHR)
}

fn resume(app: &mut VkApp, event: Event) -> Action {
    assert!(app.consistent());
    assert!(app.accepts(&event));
    let action = app.resume(event);
    assert!(app.consistent());
    action
}

fn expect_finished(action: Action) {
    match action {
        Action::Finish(Ok(())) => {}
        _ => panic!("expected the end of the frame"),
    }
}

fn expect_failed(action: Action, expected: i32) {
    match action {
        Action::Finish(Err(VkAppError::VkError(code))) => assert_eq!(code, expected),
        _ => panic!("expected a failure"),
    }
}

/// Runs the frame up to the point where the renderer asks to present.
fn draw_until_present(app: &mut VkApp, image_index: u32, suboptimal: bool) {
    let frame = app.current_frame;
    let resources = resources();
    let fence = resources.sync_objects.in_flight_fences[frame];
    let available = resources.sync_objects.image_available_semaphores[frame];
    let finished = resources.sync_objects.render_finished_semaphores[frame];
    let command_buffer = resources.command_buffers[frame];
    assert!(app.is_idle());
    assert!(app.fences_armed[frame]);
    match app.draw_frame() {
        Action::WaitForFence { fence: waited, timeout } => {
            assert_eq!(waited, fence);
            assert_eq!(timeout, u64::MAX);
        }
        _ => panic!("a frame starts with the wait for its fence"),
    }
    match resume(app, ok()) {
        Action::AcquireImage { swapchain, semaphore, timeout } => {
            assert_eq!(swapchain, app.swapchain.vk_swapchain);
            assert_eq!(semaphore, available);
            assert_eq!(timeout, u64::MAX);
        }
        _ => panic!("expected the acquisition"),
    }
    assert_eq!(app.fences_armed, vec![true, true]);
    match resume(app, Event::Acquired(Ok((image_index, suboptimal)))) {
        Action::UpdateUniformBuffer { frame: updated, scene } => {
            assert_eq!(updated, frame);
            assert_eq!(scene, update_uniform_buffer());
        }
        _ => panic!("expected the uniform update"),
    }
    match resume(app, ok()) {
        Action::ResetFence { fence: reset } => assert_eq!(reset, fence),
        _ => panic!("expected the fence reset"),
    }
    assert_eq!(app.fences_armed, vec![true, true]);
    match resume(app, ok()) {
        Action::ResetCommandBuffer { command_buffer: reset } => assert_eq!(reset, command_buffer),
        _ => panic!("expected the command buffer reset"),
    }
    assert!(!app.fences_armed[frame]);
    assert!(app.fences_armed[1 - frame]);
    match resume(app, ok()) {
        Action::Record { command_buffer: recorded, commands } => {
            assert_eq!(recorded, command_buffer);
            assert_eq!(
                commands,
                record_command_buffer(
                    image_index,
                    &resources.pipeline,
                    &app.swapchain,
                    40,
                    42,
                    resources.descriptor_sets[frame]
                )
            );
        }
        _ => panic!("expected the recording"),
    }
    match resume(app, ok()) {
        Action::Submit(submission) => assert_eq!(
            submission,
            Submission {
                queue: 5,
                wait_semaphore: available,
                wait_stage: 0x400,
                command_buffer,
                signal_semaphore: finished,
                fence,
            }
        ),
        _ => panic!("expected the submission"),
    }
    assert!(!app.fences_armed[frame]);
    match resume(app, ok()) {
        Action::Present(presentation) => assert_eq!(
            presentation,
            Presentation {
                queue: 6,
                wait_semaphore: finished,
                swapchain: app.swapchain.vk_swapchain,
                image_index,
            }
        ),
        _ => panic!("expected the presentation"),
    }
    assert_eq!(app.fences_armed, vec![true, true]);
}

/// Runs a rebuild from the wait for the device to the end, with the given surface.
fn rebuild(app: &mut VkApp, first: Action, new_details: SurfaceDetails, handle: u64, images: Vec<u64>) {
    let old = app.swapchain.clone();
    match first {
        Action::WaitIdle => {}
        _ => panic!("a rebuild starts with the wait for the device"),
    }
    match resume(app, ok()) {
        Action::QuerySurface { physical_device, surface } => {
            assert_eq!(physical_device, 3);
            assert_eq!(surface, 7);
        }
        _ => panic!("expected the surface query"),
    }
    assert_eq!(app.swapchain.vk_swapchain, old.vk_swapchain);
    let format = new_details.formats[0].format;
    match resume(app, Event::SurfaceQueried(Ok(new_details))) {
        Action::Release(releases) => assert_eq!(releases, old.cleanup()),
        _ => panic!("expected the release of the old swapchain"),
    }
    let mut action = match resume(app, ok()) {
        Action::CreateSwapchain(request) => {
            assert_eq!(request.surface, 7);
            assert_eq!(request.old_swapchain, 0);
            assert_eq!(app.swapchain.vk_swapchain, 0);
            assert!(app.swapchain.images.is_empty());
            assert!(app.swapchain.image_views.is_empty());
            assert!(app.swapchain.framebuffers.is_empty());
            resume(app, Event::SwapchainCreated(Ok((handle, images.clone()))))
        }
        _ => panic!("expected the creation of the swapchain"),
    };
    let mut views = 0usize;
    let mut framebuffers = 0usize;
    loop {
        match action {
            Action::CreateImageView(request) => {
                assert_eq!(framebuffers, 0);
                assert_eq!(request, color_image_view(images[views], format));
                views += 1;
                action = resume(app, Event::Created(Ok(handle + 10 + views as u64)));
            }
            Action::CreateFramebuffer(request) => {
                assert_eq!(views, images.len());
                assert_eq!(
                    request,
                    FramebufferRequest {
                        render_pass: 10,
                        attachment: handle + 10 + framebuffers as u64 + 1,
                        width: app.swapchain.settings.extent.width,
                        height: app.swapchain.settings.extent.height,
                        layers: 1,
                    }
                );
                framebuffers += 1;
                action = resume(app, Event::Created(Ok(handle + 20 + framebuffers as u64)));
            }
            other => {
                expect_finished(other);
                break;
            }
        }
    }
    assert_eq!(views, images.len());
    assert_eq!(framebuffers, images.len());
    assert!(app.is_idle());
    assert!(app.swapchain.complete());
    assert_eq!(app.swapchain.vk_swapchain, handle);
    assert_eq!(app.swapchain.images, images);
    assert_eq!(app.swapchain.image_views.len(), images.len());
    assert_eq!(app.swapchain.framebuffers.len(), images.len());
}

#[test]
fn the_renderer_starts_at_rest_in_the_first_slot() {
    let app = app();
    assert!(app.is_idle());
    assert_eq!(app.current_frame, 0);
    assert_eq!(app.fences_armed, vec![true, true]);
    assert_eq!(app.window_width, 640);
    assert_eq!(app.window_height, 480);
}

#[test]
fn resources_must_be_one_per_frame() {
    assert!(resources().complete());
    let mut short = resources();
    short.command_buffers.pop();
    assert!(!short.complete());
    let mut long = resources();
    long.descriptor_sets.push(63);
    assert!(!long.complete());
    let mut unsynced = resources();
    unsynced.sync_objects.in_flight_fences.pop();
    assert!(!unsynced.complete());
}

#[test]
fn a_frame_runs_through_and_moves_to_the_next_slot() {
    let mut app = app();
    draw_until_present(&mut app, 1, false);
    expect_finished(resume(&mut app, Event::Presented(Ok(false))));
    assert!(app.is_idle());
    assert_eq!(app.current_frame, 1);
}

#[test]
fn the_slots_take_turns() {
    let mut app = app();
    let mut visited: Vec<usize> = Vec::new();
    for image in [0u32, 1, 2, 0, 1] {
        visited.push(app.current_frame);
        draw_until_present(&mut app, image, false);
        expect_finished(resume(&mut app, Event::Presented(Ok(false))));
    }
    assert_eq!(visited, vec![0, 1, 0, 1, 0]);
    assert_eq!(app.current_frame, 1);
}

#[test]
fn a_hint_from_presenting_alone_changes_nothing() {
    let mut app = app();
    draw_until_present(&mut app, 0, false);
    expect_finished(resume(&mut app, Event::Presented(Ok(true))));
    assert_eq!(app.current_frame, 1);
    assert_eq!(app.swapchain.vk_swapchain, 100);
}

#[test]
fn out_of_date_on_acquire_rebuilds_and_costs_no_frame() {
    let mut app = app();
    match app.draw_frame() {
        Action::WaitForFence { fence, .. } => assert_eq!(fence, 85),
        _ => panic!("a frame starts with the wait for its fence"),
    }
    resume(&mut app, ok());
    let first = resume(&mut app, Event::Acquired(Err(out_of_date_error())));
    assert_eq!(app.phase, Phase::WaitingForIdle);
    assert_eq!(app.after, After::SameFrame);
    assert_eq!(app.fences_armed, vec![true, true]);
    rebuild(&mut app, first, details(800, 600, vec![FIFO]), 200, vec![201, 202]);
    assert_eq!(app.current_frame, 0);
    assert_eq!(app.fences_armed, vec![true, true]);
    assert_eq!(app.swapchain.settings, settings(800, 600, FIFO));
    draw_until_present(&mut app, 1, false);
    expect_finished(resume(&mut app, Event::Presented(Ok(false))));
    assert_eq!(app.current_frame, 1);
}

#[test]
fn suboptimal_on_acquire_rebuilds_after_presenting() {
    let mut app = app();
    draw_until_present(&mut app, 2, true);
    let first = resume(&mut app, Event::Presented(Ok(false)));
    assert_eq!(app.after, After::NextFrame);
    assert_eq!(app.current_frame, 0);
    rebuild(&mut app, first, details(1024, 768, vec![FIFO, MAILBOX]), 300, vec![301]);
    assert_eq!(app.current_frame, 1);
    assert_eq!(app.swapchain.settings, settings(1024, 768, MAILBOX));
}

#[test]
fn out_of_date_on_present_rebuilds_after_presenting() {
    let mut app = app();
    draw_until_present(&mut app, 0, false);
    let first = resume(&mut app, Event::Presented(Err(out_of_date_error())));
    rebuild(&mut app, first, details(640, 480, vec![FIFO]), 300, vec![301, 302, 303]);
    assert_eq!(app.current_frame, 1);
}

#[test]
fn an_explicit_rebuild_keeps_the_slot() {
    let mut app = app();
    draw_until_present(&mut app, 0, false);
    expect_finished(resume(&mut app, Event::Presented(Ok(false))));
    assert_eq!(app.current_frame, 1);
    let first = app.recreate_swapchain();
    rebuild(&mut app, first, details(320, 240, vec![FIFO]), 400, vec![401, 402]);
    assert_eq!(app.current_frame, 1);
    assert_eq!(app.swapchain.settings.extent, Extent2D { width: 320, height: 240 });
}

#[test]
fn rebuilding_twice_gives_what_rebuilding_once_gives() {
    let mut once = app();
    let first = once.recreate_swapchain();
    rebuild(&mut once, first, details(800, 600, vec![FIFO]), 200, vec![201, 202]);

    let mut twice = app();
    let first = twice.recreate_swapchain();
    rebuild(&mut twice, first, details(800, 600, vec![FIFO]), 200, vec![201, 202]);
    let built = twice.swapchain.clone();
    assert_eq!(built.cleanup().len(), 5);
    let second = twice.recreate_swapchain();
    rebuild(&mut twice, second, details(800, 600, vec![FIFO]), 500, vec![501, 502, 503]);
    assert_eq!(twice.swapchain.settings, once.swapchain.settings);
    assert_eq!(twice.current_frame, once.current_frame);
    for handle in [200u64, 201, 202, 211, 212, 221, 222] {
        assert_ne!(twice.swapchain.vk_swapchain, handle);
        assert!(!twice.swapchain.image_views.contains(&handle));
        assert!(!twice.swapchain.framebuffers.contains(&handle));
    }
}

#[test]
fn the_window_size_counts_where_the_surface_leaves_the_extent_open() {
    let mut app = app();
    app.resize(1000, 5000);
    assert_eq!(app.window_width, 1000);
    assert_eq!(app.window_height, 5000);
    let first = app.recreate_swapchain();
    rebuild(&mut app, first, details(u32::MAX, u32::MAX, vec![FIFO]), 200, vec![201]);
    assert_eq!(app.swapchain.settings.extent, Extent2D { width: 1000, height: 4096 });
}

#[test]
fn a_failed_wait_ends_the_renderer() {
    let mut app = app();
    app.draw_frame();
    expect_failed(resume(&mut app, Event::Done(Err(VkAppError::VkError(-4)))), -4);
    assert_eq!(app.phase, Phase::Failed);
    assert!(!app.is_idle());
    assert!(!app.accepts(&ok()));
    assert_eq!(app.current_frame, 0);
}

#[test]
fn another_acquire_error_ends_the_renderer() {
    let mut app = app();
    app.draw_frame();
    resume(&mut app, ok());
    expect_failed(resume(&mut app, Event::Acquired(Err(VkAppError::VkError(-4)))), -4);
    assert_eq!(app.phase, Phase::Failed);
    assert_eq!(app.fences_armed, vec![true, true]);
}

#[test]
fn a_failed_submission_ends_the_renderer_with_the_fence_unarmed() {
    let mut app = app();
    app.draw_frame();
    resume(&mut app, ok());
    resume(&mut app, Event::Acquired(Ok((0, false))));
    resume(&mut app, ok());
    resume(&mut app, ok());
    resume(&mut app, ok());
    resume(&mut app, ok());
    expect_failed(resume(&mut app, Event::Done(Err(VkAppError::VkError(-4)))), -4);
    assert_eq!(app.phase, Phase::Failed);
    assert_eq!(app.fences_armed, vec![false, true]);
    assert_eq!(app.current_frame, 0);
}

#[test]
fn another_present_error_ends_the_renderer() {
    let mut app = app();
    draw_until_present(&mut app, 0, false);
    expect_failed(resume(&mut app, Event::Presented(Err(VkAppError::VkError(-4)))), -4);
    assert_eq!(app.current_frame, 0);
}

#[test]
fn a_rebuild_fails_where_the_surface_cannot_be_asked() {
    let mut app = app();
    let first = app.recreate_swapchain();
    match first {
        Action::WaitIdle => {}
        _ => panic!("a rebuild starts with the wait for the device"),
    }
    resume(&mut app, ok());
    expect_failed(resume(&mut app, Event::SurfaceQueried(Err(VkAppError::VkError(-2)))), -2);
    assert_eq!(app.phase, Phase::Failed);
    assert_eq!(app.swapchain.vk_swapchain, 100);
    assert_eq!(app.teardown().releases[6], Release { kind: ObjectKind::Swapchain, handle: 100 });
}

#[test]
fn a_rebuild_fails_where_the_surface_has_no_usable_present_mode() {
    let mut app = app();
    app.recreate_swapchain();
    resume(&mut app, ok());
    resume(&mut app, Event::SurfaceQueried(Ok(details(640, 480, vec![0]))));
    match resume(&mut app, ok()) {
        Action::Finish(Err(VkAppError::DeviceError(text))) => {
            assert_eq!(text, "Failed to find acceptable supported present mode")
        }
        _ => panic!("expected a device error"),
    }
    assert_eq!(app.phase, Phase::Failed);
    assert_eq!(app.teardown().releases[0], Release { kind: ObjectKind::Swapchain, handle: 0 });
}

#[test]
fn a_rebuild_fails_where_an_image_view_cannot_be_created() {
    let mut app = app();
    app.recreate_swapchain();
    resume(&mut app, ok());
    resume(&mut app, Event::SurfaceQueried(Ok(details(640, 480, vec![FIFO]))));
    resume(&mut app, ok());
    resume(&mut app, Event::SwapchainCreated(Ok((200, vec![201, 202]))));
    resume(&mut app, Event::Created(Ok(211)));
    expect_failed(resume(&mut app, Event::Created(Err(VkAppError::VkError(-1)))), -1);
    assert_eq!(app.swapchain.image_views, vec![211]);
    let teardown = app.teardown();
    assert_eq!(
        teardown.releases[..2].to_vec(),
        vec![
            Release { kind: ObjectKind::ImageView, handle: 211 },
            Release { kind: ObjectKind::Swapchain, handle: 200 },
        ]
    );
}

#[test]
fn events_must_fit_the_phase() {
    let mut app = app();
    assert!(!app.accepts(&ok()));
    app.draw_frame();
    assert!(app.accepts(&ok()));
    assert!(!app.accepts(&Event::Acquired(Ok((0, false)))));
    resume(&mut app, ok());
    assert!(!app.accepts(&ok()));
    assert!(app.accepts(&Event::Acquired(Ok((2, false)))));
    assert!(!app.accepts(&Event::Acquired(Ok((3, false)))));
    assert!(app.accepts(&Event::Acquired(Err(VkAppError::VkError(-1)))));
    resume(&mut app, Event::Acquired(Err(out_of_date_error())));
    resume(&mut app, ok());
    assert!(!app.accepts(&Event::SurfaceQueried(Ok(SurfaceDetails {
        capabilities: capabilities(1, 1),
        formats: Vec::new(),
        present_modes: vec![FIFO],
    }))));
    assert!(app.accepts(&Event::SurfaceQueried(Ok(details(1, 1, vec![FIFO])))));
}

#[test]
fn only_the_out_of_date_code_is_out_of_date() {
    assert!(out_of_date(&out_of_date_error()));
    assert!(!out_of_date(&VkAppError::VkError(1_000_001_003)));
    assert!(!out_of_date(&VkAppError::VkError(-4)));
    assert!(!out_of_date(&VkAppError::DeviceError(String::from("-1000001004"))));
}

#[test]
fn teardown_waits_and_releases_children_before_parents() {
    let teardown = app().teardown();
    assert!(teardown.wait_for_idle);
    let release = |kind: ObjectKind, handle: u64| Release { kind, handle };
    assert_eq!(
        teardown.releases,
        vec![
            release(ObjectKind::Framebuffer, 121),
            release(ObjectKind::Framebuffer, 122),
            release(ObjectKind::Framebuffer, 123),
            release(ObjectKind::ImageView, 111),
            release(ObjectKind::ImageView, 112),
            release(ObjectKind::ImageView, 113),
            release(ObjectKind::Swapchain, 100),
            release(ObjectKind::Sampler, 33),
            release(ObjectKind::ImageView, 32),
            release(ObjectKind::Image, 30),
            release(ObjectKind::Memory, 31),
            release(ObjectKind::Buffer, 50),
            release(ObjectKind::Memory, 51),
            release(ObjectKind::Buffer, 52),
            release(ObjectKind::Memory, 53),
            release(ObjectKind::DescriptorPool, 60),
            release(ObjectKind::Buffer, 40),
            release(ObjectKind::Memory, 41),
            release(ObjectKind::Buffer, 42),
            release(ObjectKind::Memory, 43),
            release(ObjectKind::DescriptorSetLayout, 11),
            release(ObjectKind::PipelineLayout, 12),
            release(ObjectKind::RenderPass, 10),
            release(ObjectKind::Pipeline, 13),
            release(ObjectKind::Semaphore, 81),
            release(ObjectKind::Semaphore, 82),
            release(ObjectKind::Semaphore, 83),
            release(ObjectKind::Semaphore, 84),
            release(ObjectKind::Fence, 85),
            release(ObjectKind::Fence, 86),
            release(ObjectKind::CommandPool, 20),
            release(ObjectKind::Device, 4),
            release(ObjectKind::Surface, 7),
            release(ObjectKind::DebugMessenger, 2),
            release(ObjectKind::Instance, 1),
        ]
    );
}

#[test]
fn teardown_without_a_device_does_not_wait() {
    let mut bare = resources();
    bare.device = 0;
    let app = VkApp::new(
        bare,
        Surface { vk_surface: 7, details: details(640, 480, vec![FIFO]) },
        swapchain(),
        640,
        480,
    );
    assert!(!app.teardown().wait_for_idle);
}

#[test]
fn consistency_is_looked_after() {
    let mut app = app();
    assert!(app.consistent());
    app.fences_armed[1] = false;
    assert!(!app.consistent());
    app.fences_armed[1] = true;
    app.current_frame = 2;
    assert!(!app.consistent());
    app.current_frame = 1;
    assert!(app.consistent());
    app.swapchain.framebuffers.pop();
    assert!(!app.consistent());
    app.phase = Phase::CreatingFramebuffers;
    assert!(app.consistent());
    app.phase = Phase::Presenting;
    assert!(!app.consistent());
    app.phase = Phase::Failed;
    assert!(app.consistent());
    app.resources.command_buffers.clear();
    assert!(!app.consistent());
}

#[test]
fn startup_goes_from_the_instance_to_the_sync_objects() {
    let steps = startup();
    assert_eq!(steps.len(), 20);
    assert_eq!(steps[0], StartupStep::CreateInstance);
    assert_eq!(steps[19], StartupStep::CreateSyncObjects);
    let place = |step: StartupStep| steps.iter().position(|other| *other == step).unwrap();
    assert!(place(StartupStep::CreateSurface) < place(StartupStep::SelectPhysicalDevice));
    assert!(place(StartupStep::SelectPhysicalDevice) < place(StartupStep::CreateLogicalDevice));
    assert!(place(StartupStep::CreateSwapchain) < place(StartupStep::CreatePipeline));
    assert!(place(StartupStep::CreatePipeline) < place(StartupStep::CreateFramebuffers));
    assert!(place(StartupStep::CreateCommandPool) < place(StartupStep::CreateTextureImage));
    assert!(place(StartupStep::CreateTextureSampler) < place(StartupStep::CreateDescriptorSets));
    assert!(place(StartupStep::CreateUniformBuffers) < place(StartupStep::CreateDescriptorSets));
}
