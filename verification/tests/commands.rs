use vulkan_quad::graphics::commands::{
    create_command_buffers, create_command_pool, create_sync_objects, record_command_buffer,
    ClearColor, CommandBufferRequest, CommandPoolRequest, FrameCommand, SyncObjects, SyncRequest,
    INDEX_COUNT, MAX_FRAMES_IN_FLIGHT,
};
use vulkan_quad::graphics::pipeline::Pipeline;
use vulkan_quad::graphics::presentation::{Extent2D, SurfaceFormat, Swapchain, SwapchainSettings};
use vulkan_quad::graphics::release::{ObjectKind, Release};
use vulkan_quad::graphics::vk_app::INDICES;

#[test]
fn two_frames_in_flight() {
    assert_eq!(MAX_FRAMES_IN_FLIGHT, 2);
}

#[test]
fn every_index_is_drawn() {
    assert_eq!(INDEX_COUNT as usize, INDICES.len());
    assert_eq!(INDICES, [0, 1, 2, 2, 3, 0]);
}

#[test]
fn command_pool_lets_buffers_be_reset_one_by_one() {
    assert_eq!(create_command_pool(3), CommandPoolRequest { flags: 0x2, queue_family_index: 3 });
}

#[test]
fn one_primary_command_buffer_per_frame() {
    assert_eq!(
        create_command_buffers(9),
        CommandBufferRequest { command_pool: 9, level: 0, command_buffer_count: 2 }
    );
}

#[test]
fn a_frame_is_recorded() {
    let pipeline = Pipeline {
        render_pass: 1,
        descriptor_set_layout: 2,
        pipeline_layout: 3,
        graphics_pipeline: 4,
    };
    let extent = Extent2D { width: 800, height: 600 };
    let swapchain = Swapchain {
        vk_swapchain: 100,
        settings: SwapchainSettings {
            extent,
            format: SurfaceFormat { format: 50, color_space: 0 },
            present_mode: 2,
        },
        images: vec![11, 12],
        image_views: vec![21, 22],
        framebuffers: vec![31, 32],
    };
    assert_eq!(
        record_command_buffer(1, &pipeline, &swapchain, 40, 41, 50),
        vec![
            FrameCommand::BeginCommandBuffer { flags: 0 },
            FrameCommand::BeginRenderPass {
                render_pass: 1,
                framebuffer: 32,
                render_area: extent,
                clear_color: ClearColor { red: 0, green: 0, blue: 0, alpha: 1 },
                contents: 0
            },
            FrameCommand::BindPipeline { bind_point: 0, pipeline: 4 },
            FrameCommand::BindVertexBuffer { first_binding: 0, buffer: 40, offset: 0 },
            FrameCommand::BindDescriptorSet { bind_point: 0, layout: 3, first_set: 0, descriptor_set: 50 },
            FrameCommand::BindIndexBuffer { buffer: 41, offset: 0, index_type: 0 },
            FrameCommand::SetViewport { width: 800, height: 600, min_depth: 0, max_depth: 1 },
            FrameCommand::SetScissor { extent },
            FrameCommand::DrawIndexed {
                index_count: 6,
                instance_count: 1,
                first_index: 0,
                vertex_offset: 0,
                first_instance: 0
            },
            FrameCommand::EndRenderPass,
            FrameCommand::EndCommandBuffer,
        ]
    );
    match record_command_buffer(0, &pipeline, &swapchain, 40, 41, 50)[1] {
        FrameCommand::BeginRenderPass { framebuffer, .. } => assert_eq!(framebuffer, 31),
        _ => panic!("the second command begins the render pass"),
    }
}

#[test]
fn sync_objects_are_created_frame_by_frame() {
    let mut objects = SyncObjects::new();
    assert!(!objects.complete());
    let mut requests: Vec<SyncRequest> = Vec::new();
    let mut handle = 0u64;
    while let Some(request) = create_sync_objects(&objects) {
        requests.push(request);
        handle += 1;
        objects.created(handle);
    }
    assert_eq!(
        requests,
        vec![
            SyncRequest::Semaphore,
            SyncRequest::Semaphore,
            SyncRequest::Fence { flags: 0x1 },
            SyncRequest::Semaphore,
            SyncRequest::Semaphore,
            SyncRequest::Fence { flags: 0x1 },
        ]
    );
    assert!(objects.complete());
    assert_eq!(objects.image_available_semaphores, vec![1, 4]);
    assert_eq!(objects.render_finished_semaphores, vec![2, 5]);
    assert_eq!(objects.in_flight_fences, vec![3, 6]);
}

#[test]
fn sync_objects_go_semaphores_first() {
    let objects = SyncObjects {
        image_available_semaphores: vec![1, 4],
        render_finished_semaphores: vec![2, 5],
        in_flight_fences: vec![3, 6],
    };
    assert_eq!(
        objects.cleanup(),
        vec![
            Release { kind: ObjectKind::Semaphore, handle: 1 },
            Release { kind: ObjectKind::Semaphore, handle: 4 },
            Release { kind: ObjectKind::Semaphore, handle: 2 },
            Release { kind: ObjectKind::Semaphore, handle: 5 },
            Release { kind: ObjectKind::Fence, handle: 3 },
            Release { kind: ObjectKind::Fence, handle: 6 },
        ]
    );
}

#[test]
fn half_created_sync_objects_release_what_they_have() {
    let mut objects = SyncObjects::new();
    objects.created(1);
    objects.created(2);
    assert_eq!(
        objects.cleanup(),
        vec![
            Release { kind: ObjectKind::Semaphore, handle: 1 },
            Release { kind: ObjectKind::Semaphore, handle: 2 },
        ]
    );
}
