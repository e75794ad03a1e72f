use vulkan_quad::graphics::buffers::{
    allocate_memory, begin_single_time_commands, copy_buffer, create_buffer,
    create_descriptor_pool, create_descriptor_sets, create_index_buffer, create_uniform_buffers,
    create_vertex_buffer, descriptor_set_layouts, end_single_time_commands, find_memory_type,
    run_once, update_uniform_buffer, Buffer, BufferRequest, DescriptorPoolSize, DescriptorResource, DescriptorWrite,
    MemoryAllocation, MemoryRequirements, OneShotStep, Scene, UploadStep,
};
use vulkan_quad::graphics::errors::VkAppError;
use vulkan_quad::graphics::release::{ObjectKind, Release};

const DEVICE_LOCAL: u32 = 0x1;
const HOST_VISIBLE: u32 = 0x2;
const HOST_COHERENT: u32 = 0x4;

fn expect_no_memory_type<T>(result: Result<T, VkAppError>) {
    match result {
        Err(VkAppError::DeviceError(text)) => assert_eq!(text, "Failed to find suitable memory type"),
        _ => panic!("expected a device error"),
    }
}

#[test]
fn buffer_goes_before_its_memory() {
    let buffer = Buffer { buffer: 5, buffer_memory: 6 };
    assert_eq!(
        buffer.cleanup(),
        vec![
            Release { kind: ObjectKind::Buffer, handle: 5 },
            Release { kind: ObjectKind::Memory, handle: 6 },
        ]
    );
}

#[test]
fn buffer_request_is_exclusive() {
    assert_eq!(
        create_buffer(128, 0x80, DEVICE_LOCAL),
        BufferRequest { size: 128, usage: 0x80, sharing_mode: 0, memory_properties: DEVICE_LOCAL }
    );
}

#[test]
fn first_suitable_memory_type_is_found() {
    let types = vec![DEVICE_LOCAL, HOST_VISIBLE, HOST_VISIBLE | HOST_COHERENT, HOST_VISIBLE | HOST_COHERENT | 0x8];
    assert_eq!(find_memory_type(&types, 0b1111, HOST_VISIBLE | HOST_COHERENT).unwrap(), 2);
    assert_eq!(find_memory_type(&types, 0b1000, HOST_VISIBLE | HOST_COHERENT).unwrap(), 3);
    assert_eq!(find_memory_type(&types, 0b1111, DEVICE_LOCAL).unwrap(), 0);
    assert_eq!(find_memory_type(&types, 0b1111, HOST_VISIBLE).unwrap(), 1);
    assert_eq!(find_memory_type(&types, 0b1111, 0).unwrap(), 0);
    assert_eq!(find_memory_type(&types, 0b1110, 0).unwrap(), 1);
}

#[test]
fn all_requested_properties_must_be_there() {
    let types = vec![HOST_VISIBLE, HOST_COHERENT];
    expect_no_memory_type(find_memory_type(&types, 0b11, HOST_VISIBLE | HOST_COHERENT));
}

#[test]
fn the_filter_must_allow_the_type() {
    let types = vec![DEVICE_LOCAL, DEVICE_LOCAL];
    expect_no_memory_type(find_memory_type(&types, 0b100, DEVICE_LOCAL));
    assert_eq!(find_memory_type(&types, 0b110, DEVICE_LOCAL).unwrap(), 1);
}

#[test]
fn an_empty_filter_finds_nothing() {
    let types = vec![DEVICE_LOCAL | HOST_VISIBLE | HOST_COHERENT; 32];
    expect_no_memory_type(find_memory_type(&types, 0, 0));
    expect_no_memory_type(find_memory_type(&types, 0, DEVICE_LOCAL));
    expect_no_memory_type(find_memory_type(&Vec::new(), 0, DEVICE_LOCAL));
}

#[test]
fn no_memory_types_means_nothing_is_found() {
    expect_no_memory_type(find_memory_type(&Vec::new(), u32::MAX, 0));
}

#[test]
fn the_last_of_thirty_two_types_can_be_found() {
    let mut types = vec![0u32; 32];
    types[31] = DEVICE_LOCAL;
    assert_eq!(find_memory_type(&types, u32::MAX, DEVICE_LOCAL).unwrap(), 31);
    assert_eq!(find_memory_type(&types, 0x8000_0000, DEVICE_LOCAL).unwrap(), 31);
    expect_no_memory_type(find_memory_type(&types, 0x7fff_ffff, DEVICE_LOCAL));
}

#[test]
fn memory_is_allocated_from_the_first_suitable_type() {
    let types = vec![HOST_VISIBLE, DEVICE_LOCAL, DEVICE_LOCAL];
    let requirements = MemoryRequirements { size: 4096, alignment: 256, memory_type_bits: 0b110 };
    assert_eq!(
        allocate_memory(&types, requirements, DEVICE_LOCAL).unwrap(),
        MemoryAllocation { allocation_size: 4096, memory_type_index: 1 }
    );
    expect_no_memory_type(allocate_memory(&types, requirements, HOST_VISIBLE));
}

fn opening(pool: u64) -> Vec<OneShotStep> {
    vec![
        OneShotStep::AllocateCommandBuffer { command_pool: pool, level: 0, count: 1 },
        OneShotStep::BeginCommandBuffer { flags: 0x1 },
    ]
}

fn closing(pool: u64, queue: u64) -> Vec<OneShotStep> {
    vec![
        OneShotStep::EndCommandBuffer,
        OneShotStep::Submit { queue, fence: 0 },
        OneShotStep::WaitIdle { queue },
        OneShotStep::FreeCommandBuffer { command_pool: pool },
    ]
}

#[test]
fn one_shot_work_is_opened_and_closed() {
    assert_eq!(begin_single_time_commands(7), opening(7));
    let mut steps = vec![OneShotStep::EndCommandBuffer];
    end_single_time_commands(&mut steps, 7, 8);
    let mut expected = vec![OneShotStep::EndCommandBuffer];
    expected.extend(closing(7, 8));
    assert_eq!(steps, expected);
}

#[test]
fn one_shot_work_waits_before_freeing() {
    let work = OneShotStep::CopyBuffer { src: 1, dst: 2, src_offset: 0, dst_offset: 0, size: 3 };
    let steps = run_once(7, 8, work);
    let mut expected = opening(7);
    expected.push(work);
    expected.extend(closing(7, 8));
    assert_eq!(steps, expected);
}

#[test]
fn buffer_copy_is_one_shot_work() {
    let mut expected = opening(7);
    expected.push(OneShotStep::CopyBuffer { src: 1, dst: 2, src_offset: 0, dst_offset: 0, size: 128 });
    expected.extend(closing(7, 8));
    assert_eq!(copy_buffer(1, 2, 128, 7, 8), expected);
}

#[test]
fn vertex_upload_stages_copies_and_releases() {
    assert_eq!(
        create_vertex_buffer(128),
        vec![
            UploadStep::CreateStaging(BufferRequest {
                size: 128,
                usage: 0x1,
                sharing_mode: 0,
                memory_properties: HOST_VISIBLE | HOST_COHERENT
            }),
            UploadStep::FillStaging { size: 128 },
            UploadStep::CreateDestination(BufferRequest {
                size: 128,
                usage: 0x2 | 0x80,
                sharing_mode: 0,
                memory_properties: DEVICE_LOCAL
            }),
            UploadStep::CopyToDestination { size: 128 },
            UploadStep::ReleaseStaging,
        ]
    );
}

#[test]
fn index_upload_targets_an_index_buffer() {
    let steps = create_index_buffer(12);
    assert_eq!(steps.len(), 5);
    assert_eq!(
        steps[2],
        UploadStep::CreateDestination(BufferRequest {
            size: 12,
            usage: 0x2 | 0x40,
            sharing_mode: 0,
            memory_properties: DEVICE_LOCAL
        })
    );
    assert_eq!(steps[1], UploadStep::FillStaging { size: 12 });
    assert_eq!(steps[3], UploadStep::CopyToDestination { size: 12 });
}

#[test]
fn uploaded_bytes_arrive_unchanged() {
    let payload: Vec<u8> = (0u8..12).collect();
    let mut staging: Vec<u8> = Vec::new();
    let mut destination: Vec<u8> = Vec::new();
    let mut staging_alive = false;
    for step in create_index_buffer(payload.len() as u64) {
        match step {
            UploadStep::CreateStaging(request) => {
                assert_eq!(request.memory_properties, HOST_VISIBLE | HOST_COHERENT);
                staging = vec![0; request.size as usize];
                staging_alive = true;
            }
            UploadStep::FillStaging { size } => {
                assert!(staging_alive);
                staging[..size as usize].copy_from_slice(&payload[..size as usize]);
            }
            UploadStep::CreateDestination(request) => destination = vec![0; request.size as usize],
            UploadStep::CopyToDestination { size } => {
                assert!(staging_alive);
                destination[..size as usize].copy_from_slice(&staging[..size as usize]);
            }
            UploadStep::ReleaseStaging => staging_alive = false,
        }
    }
    assert!(!staging_alive);
    assert_eq!(destination, payload);
}

#[test]
fn one_uniform_buffer_per_frame_in_flight() {
    let request = BufferRequest {
        size: 128,
        usage: 0x10,
        sharing_mode: 0,
        memory_properties: HOST_VISIBLE | HOST_COHERENT,
    };
    assert_eq!(create_uniform_buffers(128), vec![request, request]);
}

#[test]
fn descriptor_pool_has_room_for_every_frame() {
    let request = create_descriptor_pool();
    assert_eq!(request.max_sets, 2);
    assert_eq!(
        request.pool_sizes,
        vec![
            DescriptorPoolSize { descriptor_type: 6, descriptor_count: 2 },
            DescriptorPoolSize { descriptor_type: 1, descriptor_count: 2 },
        ]
    );
}

#[test]
fn one_layout_per_frame_in_flight() {
    assert_eq!(descriptor_set_layouts(9), vec![9, 9]);
}

fn uniform(set: u64, buffer: u64) -> DescriptorWrite {
    DescriptorWrite {
        dst_set: set,
        dst_binding: 0,
        dst_array_element: 0,
        descriptor_type: 6,
        descriptor_count: 1,
        resource: DescriptorResource::Buffer { buffer, offset: 0, range: 128 },
    }
}

fn texture(set: u64) -> DescriptorWrite {
    DescriptorWrite {
        dst_set: set,
        dst_binding: 1,
        dst_array_element: 0,
        descriptor_type: 1,
        descriptor_count: 1,
        resource: DescriptorResource::Image { image_layout: 5, image_view: 70, sampler: 80 },
    }
}

#[test]
fn each_set_points_at_its_buffer_and_the_texture() {
    let buffers = vec![
        Buffer { buffer: 11, buffer_memory: 12 },
        Buffer { buffer: 21, buffer_memory: 22 },
    ];
    assert_eq!(
        create_descriptor_sets(&vec![1, 2], &buffers, 128, 70, 80).unwrap(),
        vec![uniform(1, 11), texture(1), uniform(2, 21), texture(2)]
    );
}

#[test]
fn sets_are_written_as_far_as_both_lists_go() {
    let buffers = vec![
        Buffer { buffer: 11, buffer_memory: 12 },
        Buffer { buffer: 21, buffer_memory: 22 },
    ];
    assert_eq!(
        create_descriptor_sets(&vec![1], &buffers, 128, 70, 80).unwrap(),
        vec![uniform(1, 11), texture(1)]
    );
    assert_eq!(
        create_descriptor_sets(&vec![1, 2], &buffers[..1].to_vec(), 128, 70, 80).unwrap(),
        vec![uniform(1, 11), texture(1)]
    );
}

#[test]
fn wrong_numbers_of_sets_and_buffers_are_refused() {
    let buffers = vec![Buffer { buffer: 11, buffer_memory: 12 }];
    match create_descriptor_sets(&vec![1, 2, 3], &buffers, 128, 70, 80) {
        Err(VkAppError::DeviceError(text)) => assert_eq!(
            text,
            "Descriptor sets and uniform buffers must be same size as MAX_FRAMES_IN_FLIGHT"
        ),
        _ => panic!("expected a device error"),
    }
    assert!(create_descriptor_sets(&Vec::new(), &Vec::new(), 128, 70, 80).is_err());
}

#[test]
fn the_scene_of_a_frame() {
    assert_eq!(
        update_uniform_buffer(),
        Scene { translation_x: 0, translation_y: 0, translation_z: 5, vertical_fov: 60, horizontal_fov: 60 }
    );
}
