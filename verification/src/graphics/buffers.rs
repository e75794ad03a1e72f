//! Buffers and their memory: how to ask for them, where their memory comes from, how
//! data gets into memory that only the device can reach, and the descriptors that
//! point the shaders at them.

use crate::graphics::commands::MAX_FRAMES_IN_FLIGHT;
use crate::graphics::constants::{
    BUFFER_USAGE_INDEX_BUFFER, BUFFER_USAGE_TRANSFER_DST, BUFFER_USAGE_TRANSFER_SRC,
    BUFFER_USAGE_UNIFORM_BUFFER, BUFFER_USAGE_VERTEX_BUFFER, COMMAND_BUFFER_LEVEL_PRIMARY,
    COMMAND_BUFFER_USAGE_ONE_TIME_SUBMIT, DESCRIPTOR_TYPE_COMBINED_IMAGE_SAMPLER,
    DESCRIPTOR_TYPE_UNIFORM_BUFFER, IMAGE_LAYOUT_SHADER_READ_ONLY_OPTIMAL,
    MEMORY_PROPERTY_DEVICE_LOCAL, MEMORY_PROPERTY_HOST_COHERENT, MEMORY_PROPERTY_HOST_VISIBLE,
    SHARING_MODE_EXCLUSIVE,
};
use crate::graphics::errors::VkAppError;
use crate::graphics::release::{ObjectKind, Release};
use vstd::prelude::*;
use vstd::string::StringExecFns;

verus! {

/// A buffer and the memory behind it. Whoever created it releases it, once.
#[derive(Copy, Clone, Debug, PartialEq, Eq, Structural)]
pub struct Buffer {
    pub buffer: u64,
    pub buffer_memory: u64,
}

impl Buffer {
    /// What [`Buffer::cleanup`] releases, in order.
    pub open spec fn release_order(&self) -> Seq<Release> {
        seq![
            Release { kind: ObjectKind::Buffer, handle: self.buffer },
            Release { kind: ObjectKind::Memory, handle: self.buffer_memory },
        ]
    }

    /// Lists what to release to give the buffer up: the buffer, then its memory.
    pub fn cleanup(&self) -> (releases: Vec<Release>)
        ensures
            releases@ == self.release_order(),
    {
        let mut releases: Vec<Release> = Vec::new();
        releases.push(Release { kind: ObjectKind::Buffer, handle: self.buffer });
        releases.push(Release { kind: ObjectKind::Memory, handle: self.buffer_memory });
        assert(releases@ =~= self.release_order());
        releases
    }
}

/// A buffer to create, and the properties its memory must have.
#[derive(Copy, Clone, Debug, PartialEq, Eq, Structural)]
pub struct BufferRequest {
    pub size: u64,
    pub usage: u32,
    pub sharing_mode: i32,
    pub memory_properties: u32,
}

/// Describes a buffer of `size` bytes for `usage`, used from one queue family only, on
/// memory with `properties`.
pub fn create_buffer(size: u64, usage: u32, properties: u32) -> (request: BufferRequest)
    ensures
        request == (BufferRequest {
            size,
            usage,
            sharing_mode: SHARING_MODE_EXCLUSIVE,
            memory_properties: properties,
        }),
{
    BufferRequest {
        size,
        usage,
        sharing_mode: SHARING_MODE_EXCLUSIVE,
        memory_properties: properties,
    }
}

/// Memory type `index` may be used under `type_filter` and has all of `properties`.
pub open spec fn memory_type_suits(
    memory_types: Seq<u32>,
    type_filter: u32,
    properties: u32,
    index: int,
) -> bool {
    &&& 0 <= index < memory_types.len()
    &&& index < 32
    &&& type_filter & (1u32 << (index as u32)) != 0
    &&& memory_types[index] & properties == properties
}

/// Text of the error for a device without a fitting memory type.
pub open spec fn no_memory_type_text() -> Seq<char> {
    "Failed to find suitable memory type"@
}

/// Finds the memory type to allocate from: the first one whose bit is set in
/// `type_filter` and whose property flags include every flag of `properties`.
///
/// `memory_types` holds the property flags of the device's memory types, in the
/// device's order.
pub fn find_memory_type(memory_types: &Vec<u32>, type_filter: u32, properties: u32) -> (result:
    Result<usize, VkAppError>)
    requires
        memory_types@.len() <= 32,
    ensures
        match result {
            Ok(index) => {
                &&& memory_type_suits(memory_types@, type_filter, properties, index as int)
                &&& forall|j: int|
                    0 <= j < index ==> !memory_type_suits(
                        memory_types@,
                        type_filter,
                        properties,
                        j,
                    )
            },
            Err(error) => {
                &&& error matches VkAppError::DeviceError(text) && text@ == no_memory_type_text()
                &&& forall|j: int|
                    !memory_type_suits(memory_types@, type_filter, properties, j)
            },
        },
        type_filter == 0 ==> result is Err,
{
    let mut i: usize = 0;
    while i < memory_types.len()
        invariant
            i <= memory_types.len(),
            memory_types@.len() <= 32,
            forall|j: int|
                0 <= j < i ==> !memory_type_suits(memory_types@, type_filter, properties, j),
        decreases memory_types.len() - i,
    {
        if type_filter & (1u32 << (i as u32)) != 0 && (memory_types[i] & properties) == properties {
            proof {
                lemma_empty_filter_suits_nothing(memory_types@, properties, i as int);
            }
            return Ok(i);
        }
        i += 1;
    }
    Err(VkAppError::DeviceError(String::from_str("Failed to find suitable memory type")))
}

/// With no bit set in the filter no memory type suits, whatever the device offers.
pub proof fn lemma_empty_filter_suits_nothing(memory_types: Seq<u32>, properties: u32, index: int)
    ensures
        !memory_type_suits(memory_types, 0, properties, index),
{
    if 0 <= index < 32 {
        let bit = 1u32 << (index as u32);
        assert(0u32 & bit == 0) by (bit_vector);
    }
}

/// What a buffer or an image needs of its memory.
#[derive(Copy, Clone, Debug, PartialEq, Eq, Structural)]
pub struct MemoryRequirements {
    pub size: u64,
    pub alignment: u64,
    pub memory_type_bits: u32,
}

/// An allocation of device memory.
#[derive(Copy, Clone, Debug, PartialEq, Eq, Structural)]
pub struct MemoryAllocation {
    pub allocation_size: u64,
    pub memory_type_index: u32,
}

/// Describes the allocation for an object with `requirements` on memory with
/// `properties`: all of the size the object needs, from the first memory type that
/// suits. The object is then bound at offset zero of an allocation of its own.
pub fn allocate_memory(
    memory_types: &Vec<u32>,
    requirements: MemoryRequirements,
    properties: u32,
) -> (result: Result<MemoryAllocation, VkAppError>)
    requires
        memory_types@.len() <= 32,
    ensures
        match result {
            Ok(allocation) => {
                &&& allocation.allocation_size == requirements.size
                &&& memory_type_suits(
                    memory_types@,
                    requirements.memory_type_bits,
                    properties,
                    allocation.memory_type_index as int,
                )
                &&& forall|j: int|
                    0 <= j < allocation.memory_type_index ==> !memory_type_suits(
                        memory_types@,
                        requirements.memory_type_bits,
                        properties,
                        j,
                    )
            },
            Err(error) => {
                &&& error matches VkAppError::DeviceError(text) && text@ == no_memory_type_text()
                &&& forall|j: int|
                    !memory_type_suits(
                        memory_types@,
                        requirements.memory_type_bits,
                        properties,
                        j,
                    )
            },
        },
{
    match find_memory_type(memory_types, requirements.memory_type_bits, properties) {
        Ok(index) => Ok(
            MemoryAllocation {
                allocation_size: requirements.size,
                memory_type_index: index as u32,
            },
        ),
        Err(error) => Err(error),
    }
}


/// An image layout change, with what must be over before it and what waits for it.
#[derive(Copy, Clone, Debug, PartialEq, Eq, Structural)]
pub struct ImageBarrier {
    pub image: u64,
    pub old_layout: i32,
    pub new_layout: i32,
    pub src_queue_family_index: u32,
    pub dst_queue_family_index: u32,
    pub src_access_mask: u32,
    pub dst_access_mask: u32,
    pub aspect_mask: u32,
    pub base_mip_level: u32,
    pub level_count: u32,
    pub base_array_layer: u32,
    pub layer_count: u32,
}

/// Which part of a buffer goes to which part of an image.
#[derive(Copy, Clone, Debug, PartialEq, Eq, Structural)]
pub struct BufferImageCopy {
    pub buffer_offset: u64,
    /// Zero where the rows lie packed.
    pub buffer_row_length: u32,
    /// Zero where the rows lie packed.
    pub buffer_image_height: u32,
    pub aspect_mask: u32,
    pub mip_level: u32,
    pub base_array_layer: u32,
    pub layer_count: u32,
    pub image_offset_x: i32,
    pub image_offset_y: i32,
    pub image_offset_z: i32,
    pub image_width: u32,
    pub image_height: u32,
    pub image_depth: u32,
}

/// One step of a piece of work that is recorded, run once, and waited for.
///
/// The steps from [`OneShotStep::BeginCommandBuffer`] to [`OneShotStep::FreeCommandBuffer`]
/// are about the command buffer that [`OneShotStep::AllocateCommandBuffer`] gave.
#[derive(Copy, Clone, Debug, PartialEq, Eq, Structural)]
pub enum OneShotStep {
    AllocateCommandBuffer { command_pool: u64, level: i32, count: u32 },
    BeginCommandBuffer { flags: u32 },
    CopyBuffer { src: u64, dst: u64, src_offset: u64, dst_offset: u64, size: u64 },
    PipelineBarrier { src_stage: u32, dst_stage: u32, barrier: ImageBarrier },
    CopyBufferToImage { buffer: u64, image: u64, image_layout: i32, region: BufferImageCopy },
    EndCommandBuffer,
    /// Hand the command buffer to `queue`; `fence` is zero for none.
    Submit { queue: u64, fence: u64 },
    WaitIdle { queue: u64 },
    FreeCommandBuffer { command_pool: u64 },
}

/// The steps that open a piece of one-shot work: get one primary command buffer from
/// `command_pool` and begin recording, telling the driver it will be submitted once.
pub open spec fn one_shot_opening(command_pool: u64) -> Seq<OneShotStep> {
    seq![
        OneShotStep::AllocateCommandBuffer {
            command_pool,
            level: COMMAND_BUFFER_LEVEL_PRIMARY,
            count: 1,
        },
        OneShotStep::BeginCommandBuffer { flags: COMMAND_BUFFER_USAGE_ONE_TIME_SUBMIT },
    ]
}

/// The steps that close a piece of one-shot work: end recording, submit to
/// `graphics_queue` without a fence, wait until that queue is idle, and only then hand
/// the command buffer back to `command_pool`.
pub open spec fn one_shot_closing(command_pool: u64, graphics_queue: u64) -> Seq<OneShotStep> {
    seq![
        OneShotStep::EndCommandBuffer,
        OneShotStep::Submit { queue: graphics_queue, fence: 0 },
        OneShotStep::WaitIdle { queue: graphics_queue },
        OneShotStep::FreeCommandBuffer { command_pool },
    ]
}

/// `work` done as one-shot work: opened, recorded, closed.
pub open spec fn one_shot(command_pool: u64, graphics_queue: u64, work: OneShotStep) -> Seq<
    OneShotStep,
> {
    one_shot_opening(command_pool) + seq![work] + one_shot_closing(command_pool, graphics_queue)
}

/// Lists the steps that open a piece of one-shot work.
pub fn begin_single_time_commands(command_pool: u64) -> (steps: Vec<OneShotStep>)
    ensures
        steps@ == one_shot_opening(command_pool),
{
    let mut steps: Vec<OneShotStep> = Vec::new();
    steps.push(
        OneShotStep::AllocateCommandBuffer {
            command_pool,
            level: COMMAND_BUFFER_LEVEL_PRIMARY,
            count: 1,
        },
    );
    steps.push(OneShotStep::BeginCommandBuffer { flags: COMMAND_BUFFER_USAGE_ONE_TIME_SUBMIT });
    assert(steps@ =~= one_shot_opening(command_pool));
    steps
}

/// Appends to `steps` the steps that close a piece of one-shot work.
pub fn end_single_time_commands(
    steps: &mut Vec<OneShotStep>,
    command_pool: u64,
    graphics_queue: u64,
)
    ensures
        final(steps)@ == old(steps)@ + one_shot_closing(command_pool, graphics_queue),
{
    steps.push(OneShotStep::EndCommandBuffer);
    steps.push(OneShotStep::Submit { queue: graphics_queue, fence: 0 });
    steps.push(OneShotStep::WaitIdle { queue: graphics_queue });
    steps.push(OneShotStep::FreeCommandBuffer { command_pool });
    assert(steps@ =~= old(steps)@ + one_shot_closing(command_pool, graphics_queue));
}

/// Lists the steps that do `work` as one-shot work.
pub fn run_once(command_pool: u64, graphics_queue: u64, work: OneShotStep) -> (steps: Vec<
    OneShotStep,
>)
    ensures
        steps@ == one_shot(command_pool, graphics_queue, work),
{
    let mut steps = begin_single_time_commands(command_pool);
    steps.push(work);
    end_single_time_commands(&mut steps, command_pool, graphics_queue);
    steps
}

/// Lists the steps that copy the first `size` bytes of `src_buffer` to the start of
/// `dst_buffer` and wait until that is done.
pub fn copy_buffer(
    src_buffer: u64,
    dst_buffer: u64,
    size: u64,
    command_pool: u64,
    graphics_queue: u64,
) -> (steps: Vec<OneShotStep>)
    ensures
        steps@ == one_shot(
            command_pool,
            graphics_queue,
            OneShotStep::CopyBuffer {
                src: src_buffer,
                dst: dst_buffer,
                src_offset: 0,
                dst_offset: 0,
                size,
            },
        ),
{
    run_once(
        command_pool,
        graphics_queue,
        OneShotStep::CopyBuffer {
            src: src_buffer,
            dst: dst_buffer,
            src_offset: 0,
            dst_offset: 0,
            size,
        },
    )
}

/// In one-shot work the command buffer is handed back only after the queue it was
/// submitted to has gone idle, and the wait comes after the submission: the work is
/// over before anything that follows.
pub proof fn lemma_one_shot_waits_before_freeing(
    command_pool: u64,
    graphics_queue: u64,
    work: OneShotStep,
)
    ensures
        one_shot(command_pool, graphics_queue, work).len() == 7,
        one_shot(command_pool, graphics_queue, work)[2] == work,
        one_shot(command_pool, graphics_queue, work)[4] == (OneShotStep::Submit {
            queue: graphics_queue,
            fence: 0,
        }),
        one_shot(command_pool, graphics_queue, work)[5] == (OneShotStep::WaitIdle {
            queue: graphics_queue,
        }),
        one_shot(command_pool, graphics_queue, work)[6] == (OneShotStep::FreeCommandBuffer {
            command_pool,
        }),
{
}

/// One step of bringing data into memory that only the device can reach.
#[derive(Copy, Clone, Debug, PartialEq, Eq, Structural)]
pub enum UploadStep {
    /// Create the staging buffer with its memory.
    CreateStaging(BufferRequest),
    /// Map the staging memory, copy the first `size` bytes of the data in, unmap.
    FillStaging { size: u64 },
    /// Create the buffer the data is for, with its memory.
    CreateDestination(BufferRequest),
    /// Copy `size` bytes from the staging buffer to the destination, as one-shot work.
    CopyToDestination { size: u64 },
    /// Release the staging buffer and its memory.
    ReleaseStaging,
}

/// The staging buffer for `size` bytes: a source of transfers on memory that the host
/// can map and that needs no flushing.
pub open spec fn staging_buffer(size: u64) -> BufferRequest {
    BufferRequest {
        size,
        usage: BUFFER_USAGE_TRANSFER_SRC,
        sharing_mode: SHARING_MODE_EXCLUSIVE,
        memory_properties: MEMORY_PROPERTY_HOST_VISIBLE | MEMORY_PROPERTY_HOST_COHERENT,
    }
}

/// The buffer that `size` bytes are uploaded to for `usage`: a destination of transfers
/// on memory local to the device.
pub open spec fn device_local_buffer(size: u64, usage: u32) -> BufferRequest {
    BufferRequest {
        size,
        usage: BUFFER_USAGE_TRANSFER_DST | usage,
        sharing_mode: SHARING_MODE_EXCLUSIVE,
        memory_properties: MEMORY_PROPERTY_DEVICE_LOCAL,
    }
}

/// The upload of `size` bytes into a new buffer for `usage`: stage, fill, create the
/// destination, copy, release the staging buffer.
pub open spec fn staged_upload(size: u64, usage: u32) -> Seq<UploadStep> {
    seq![
        UploadStep::CreateStaging(staging_buffer(size)),
        UploadStep::FillStaging { size },
        UploadStep::CreateDestination(device_local_buffer(size, usage)),
        UploadStep::CopyToDestination { size },
        UploadStep::ReleaseStaging,
    ]
}

fn plan_upload(size: u64, usage: u32) -> (steps: Vec<UploadStep>)
    ensures
        steps@ == staged_upload(size, usage),
{
    let staging = create_buffer(
        size,
        BUFFER_USAGE_TRANSFER_SRC,
        MEMORY_PROPERTY_HOST_VISIBLE | MEMORY_PROPERTY_HOST_COHERENT,
    );
    let destination = create_buffer(
        size,
        BUFFER_USAGE_TRANSFER_DST | usage,
        MEMORY_PROPERTY_DEVICE_LOCAL,
    );
    let mut steps: Vec<UploadStep> = Vec::new();
    steps.push(UploadStep::CreateStaging(staging));
    steps.push(UploadStep::FillStaging { size });
    steps.push(UploadStep::CreateDestination(destination));
    steps.push(UploadStep::CopyToDestination { size });
    steps.push(UploadStep::ReleaseStaging);
    assert(steps@ =~= staged_upload(size, usage));
    steps
}

/// Lists the steps that bring `buffer_size` bytes of vertices into a vertex buffer
/// local to the device.
pub fn create_vertex_buffer(buffer_size: u64) -> (steps: Vec<UploadStep>)
    ensures
        steps@ == staged_upload(buffer_size, BUFFER_USAGE_VERTEX_BUFFER),
{
    plan_upload(buffer_size, BUFFER_USAGE_VERTEX_BUFFER)
}

/// Lists the steps that bring `buffer_size` bytes of indices into an index buffer local
/// to the device.
pub fn create_index_buffer(buffer_size: u64) -> (steps: Vec<UploadStep>)
    ensures
        steps@ == staged_upload(buffer_size, BUFFER_USAGE_INDEX_BUFFER),
{
    plan_upload(buffer_size, BUFFER_USAGE_INDEX_BUFFER)
}

/// An upload writes and copies exactly as many bytes as both buffers hold; the staging
/// buffer is filled before the copy and released only after it.
pub proof fn lemma_upload_is_ordered(size: u64, usage: u32)
    ensures
        staged_upload(size, usage).len() == 5,
        staged_upload(size, usage)[0] matches UploadStep::CreateStaging(staging) && staging.size
            == size,
        staged_upload(size, usage)[1] == (UploadStep::FillStaging { size }),
        staged_upload(size, usage)[2] matches UploadStep::CreateDestination(destination)
            && destination.size == size,
        staged_upload(size, usage)[3] == (UploadStep::CopyToDestination { size }),
        staged_upload(size, usage)[4] == UploadStep::ReleaseStaging,
{
}

/// What the staging buffer and the destination hold while an upload goes on, where
/// they exist.
pub struct UploadMemory {
    pub staging: Option<Seq<u8>>,
    pub destination: Option<Seq<u8>>,
}

/// `count` bytes of `source` laid over the start of `target`.
pub open spec fn overwritten(target: Seq<u8>, source: Seq<u8>, count: int) -> Seq<u8> {
    source.take(count) + target.skip(count)
}

/// What the buffers hold after a step of uploading `payload`, given that the device and
/// the mapped memory do as they are told: a new buffer holds zeros, filling writes the
/// payload to the staging buffer, copying carries the staging buffer's bytes over to
/// the destination.
pub open spec fn effect_of(
    step: UploadStep,
    payload: Seq<u8>,
    memory: UploadMemory,
) -> UploadMemory {
    match step {
        UploadStep::CreateStaging(request) => UploadMemory {
            staging: Some(Seq::new(request.size as nat, |i: int| 0u8)),
            ..memory
        },
        UploadStep::FillStaging { size } => UploadMemory {
            staging: Some(overwritten(memory.staging->Some_0, payload, size as int)),
            ..memory
        },
        UploadStep::CreateDestination(request) => UploadMemory {
            destination: Some(Seq::new(request.size as nat, |i: int| 0u8)),
            ..memory
        },
        UploadStep::CopyToDestination { size } => UploadMemory {
            destination: Some(
                overwritten(memory.destination->Some_0, memory.staging->Some_0, size as int),
            ),
            ..memory
        },
        UploadStep::ReleaseStaging => UploadMemory { staging: None, ..memory },
    }
}

/// What the buffers hold after the first `count` of `steps`.
pub open spec fn effect_of_steps(
    steps: Seq<UploadStep>,
    count: nat,
    payload: Seq<u8>,
    memory: UploadMemory,
) -> UploadMemory
    decreases count,
{
    if count == 0 {
        memory
    } else {
        effect_of(
            steps[count - 1],
            payload,
            effect_of_steps(steps, (count - 1) as nat, payload, memory),
        )
    }
}

/// An upload brings the payload across unchanged: with a device that copies what it is
/// told to copy, the destination holds the payload byte for byte when the steps are
/// done, and the staging buffer is gone. Every step finds the buffers it works on.
pub proof fn lemma_upload_delivers_the_payload(payload: Seq<u8>, usage: u32, memory: UploadMemory)
    requires
        payload.len() <= u64::MAX,
    ensures
        effect_of_steps(staged_upload(payload.len() as u64, usage), 5, payload, memory)
            == (UploadMemory { staging: None, destination: Some(payload) }),
        effect_of_steps(staged_upload(payload.len() as u64, usage), 1, payload, memory).staging
            is Some,
        effect_of_steps(staged_upload(payload.len() as u64, usage), 3, payload, memory).staging
            is Some,
        effect_of_steps(
            staged_upload(payload.len() as u64, usage),
            3,
            payload,
            memory,
        ).destination is Some,
{
    let steps = staged_upload(payload.len() as u64, usage);
    let size = payload.len() as int;
    let zeros = Seq::new(payload.len(), |i: int| 0u8);
    reveal_with_fuel(effect_of_steps, 6);
    assert(overwritten(zeros, payload, size) =~= payload);
    assert(overwritten(zeros, payload, size) == payload);
    let m2 = effect_of_steps(steps, 2, payload, memory);
    assert(m2.staging == Some(payload));
    let m4 = effect_of_steps(steps, 4, payload, memory);
    assert(m4.destination == Some(overwritten(zeros, payload, size)));
}

/// The uniform buffer of one frame: `size` bytes on memory that the host can map and
/// that needs no flushing. It stays mapped for as long as the program runs.
pub open spec fn uniform_buffer(size: u64) -> BufferRequest {
    BufferRequest {
        size,
        usage: BUFFER_USAGE_UNIFORM_BUFFER,
        sharing_mode: SHARING_MODE_EXCLUSIVE,
        memory_properties: MEMORY_PROPERTY_HOST_VISIBLE | MEMORY_PROPERTY_HOST_COHERENT,
    }
}

/// Describes the uniform buffers: one of `buffer_size` bytes for each frame in flight,
/// so that no frame's data is overwritten while an earlier frame still reads it.
pub fn create_uniform_buffers(buffer_size: u64) -> (requests: Vec<BufferRequest>)
    ensures
        requests@ == Seq::new(MAX_FRAMES_IN_FLIGHT as nat, |i: int| uniform_buffer(buffer_size)),
{
    let mut requests: Vec<BufferRequest> = Vec::new();
    let mut i: u32 = 0;
    while i < MAX_FRAMES_IN_FLIGHT
        invariant
            i <= MAX_FRAMES_IN_FLIGHT,
            requests@ == Seq::new(i as nat, |i: int| uniform_buffer(buffer_size)),
        decreases MAX_FRAMES_IN_FLIGHT - i,
    {
        requests.push(
            create_buffer(
                buffer_size,
                BUFFER_USAGE_UNIFORM_BUFFER,
                MEMORY_PROPERTY_HOST_VISIBLE | MEMORY_PROPERTY_HOST_COHERENT,
            ),
        );
        i += 1;
        assert(requests@ =~= Seq::new(i as nat, |i: int| uniform_buffer(buffer_size)));
    }
    requests
}

/// What a frame shows, in whole numbers: how far the quad is moved along each axis,
/// and the vertical and horizontal field of view in degrees.
#[derive(Copy, Clone, Debug, PartialEq, Eq, Structural)]
pub struct Scene {
    pub translation_x: i32,
    pub translation_y: i32,
    pub translation_z: i32,
    pub vertical_fov: u32,
    pub horizontal_fov: u32,
}

/// The scene of every frame: the quad five units down the z axis, seen with a field of
/// view of sixty degrees both ways.
pub open spec fn scene() -> Scene {
    Scene {
        translation_x: 0,
        translation_y: 0,
        translation_z: 5,
        vertical_fov: 60,
        horizontal_fov: 60,
    }
}

/// Says what to write to the uniform buffer of a frame: the model matrix that moves the
/// quad as the scene says, and the projection matrix for the scene's field of view.
pub fn update_uniform_buffer() -> (update: Scene)
    ensures
        update == scene(),
{
    Scene {
        translation_x: 0,
        translation_y: 0,
        translation_z: 5,
        vertical_fov: 60,
        horizontal_fov: 60,
    }
}

/// How many descriptors of one type a pool holds.
#[derive(Copy, Clone, Debug, PartialEq, Eq, Structural)]
pub struct DescriptorPoolSize {
    pub descriptor_type: i32,
    pub descriptor_count: u32,
}

/// The create-info of the descriptor pool.
#[derive(Clone, Debug)]
pub struct DescriptorPoolRequest {
    pub pool_sizes: Vec<DescriptorPoolSize>,
    pub max_sets: u32,
}

/// Describes the descriptor pool: room for one set per frame in flight, each with one
/// uniform buffer and one sampled image. Sets are never freed one by one.
pub fn create_descriptor_pool() -> (request: DescriptorPoolRequest)
    ensures
        request.pool_sizes@ == seq![
            DescriptorPoolSize {
                descriptor_type: DESCRIPTOR_TYPE_UNIFORM_BUFFER,
                descriptor_count: MAX_FRAMES_IN_FLIGHT,
            },
            DescriptorPoolSize {
                descriptor_type: DESCRIPTOR_TYPE_COMBINED_IMAGE_SAMPLER,
                descriptor_count: MAX_FRAMES_IN_FLIGHT,
            },
        ],
        request.max_sets == MAX_FRAMES_IN_FLIGHT,
{
    let mut pool_sizes: Vec<DescriptorPoolSize> = Vec::new();
    pool_sizes.push(
        DescriptorPoolSize {
            descriptor_type: DESCRIPTOR_TYPE_UNIFORM_BUFFER,
            descriptor_count: MAX_FRAMES_IN_FLIGHT,
        },
    );
    pool_sizes.push(
        DescriptorPoolSize {
            descriptor_type: DESCRIPTOR_TYPE_COMBINED_IMAGE_SAMPLER,
            descriptor_count: MAX_FRAMES_IN_FLIGHT,
        },
    );
    DescriptorPoolRequest { pool_sizes, max_sets: MAX_FRAMES_IN_FLIGHT }
}

/// The layouts to allocate the descriptor sets with: the same layout once per frame in
/// flight.
pub fn descriptor_set_layouts(descriptor_set_layout: u64) -> (layouts: Vec<u64>)
    ensures
        layouts@ == Seq::new(MAX_FRAMES_IN_FLIGHT as nat, |i: int| descriptor_set_layout),
{
    let mut layouts: Vec<u64> = Vec::new();
    let mut i: u32 = 0;
    while i < MAX_FRAMES_IN_FLIGHT
        invariant
            i <= MAX_FRAMES_IN_FLIGHT,
            layouts@ == Seq::new(i as nat, |i: int| descriptor_set_layout),
        decreases MAX_FRAMES_IN_FLIGHT - i,
    {
        layouts.push(descriptor_set_layout);
        i += 1;
        assert(layouts@ =~= Seq::new(i as nat, |i: int| descriptor_set_layout));
    }
    layouts
}

/// What a descriptor points at.
#[derive(Copy, Clone, Debug, PartialEq, Eq, Structural)]
pub enum DescriptorResource {
    Buffer { buffer: u64, offset: u64, range: u64 },
    Image { image_layout: i32, image_view: u64, sampler: u64 },
}

/// One descriptor to write.
#[derive(Copy, Clone, Debug, PartialEq, Eq, Structural)]
pub struct DescriptorWrite {
    pub dst_set: u64,
    pub dst_binding: u32,
    pub dst_array_element: u32,
    pub descriptor_type: i32,
    pub descriptor_count: u32,
    pub resource: DescriptorResource,
}

/// Binding 0 of `set` points at the first `range` bytes of `buffer`.
pub open spec fn uniform_write(set: u64, buffer: u64, range: u64) -> DescriptorWrite {
    DescriptorWrite {
        dst_set: set,
        dst_binding: 0,
        dst_array_element: 0,
        descriptor_type: DESCRIPTOR_TYPE_UNIFORM_BUFFER,
        descriptor_count: 1,
        resource: DescriptorResource::Buffer { buffer, offset: 0, range },
    }
}

/// Binding 1 of `set` points at the texture, which shaders read through `sampler`.
pub open spec fn texture_write(set: u64, image_view: u64, sampler: u64) -> DescriptorWrite {
    DescriptorWrite {
        dst_set: set,
        dst_binding: 1,
        dst_array_element: 0,
        descriptor_type: DESCRIPTOR_TYPE_COMBINED_IMAGE_SAMPLER,
        descriptor_count: 1,
        resource: DescriptorResource::Image {
            image_layout: IMAGE_LAYOUT_SHADER_READ_ONLY_OPTIMAL,
            image_view,
            sampler,
        },
    }
}

/// How many sets are written: as many as there are both a set and a uniform buffer.
pub open spec fn written_sets(descriptor_sets: Seq<u64>, uniform_buffers: Seq<Buffer>) -> nat {
    if descriptor_sets.len() <= uniform_buffers.len() {
        descriptor_sets.len()
    } else {
        uniform_buffers.len()
    }
}

/// The writes that fill the descriptor sets: for each set in turn its uniform buffer,
/// then the texture.
pub open spec fn descriptor_writes(
    descriptor_sets: Seq<u64>,
    uniform_buffers: Seq<Buffer>,
    uniform_range: u64,
    texture_image_view: u64,
    texture_sampler: u64,
) -> Seq<DescriptorWrite> {
    Seq::new(
        2 * written_sets(descriptor_sets, uniform_buffers),
        |k: int|
            if k % 2 == 0 {
                uniform_write(descriptor_sets[k / 2], uniform_buffers[k / 2].buffer, uniform_range)
            } else {
                texture_write(descriptor_sets[k / 2], texture_image_view, texture_sampler)
            },
    )
}

/// Text of the error for descriptor sets and uniform buffers of the wrong number.
pub open spec fn descriptor_count_text() -> Seq<char> {
    "Descriptor sets and uniform buffers must be same size as MAX_FRAMES_IN_FLIGHT"@
}

/// Lists the writes that point each of the allocated `descriptor_sets` at its frame's
/// uniform buffer, of which the shaders see `uniform_range` bytes, and at the texture.
///
/// Fails where neither the sets nor the uniform buffers are one per frame in flight.
pub fn create_descriptor_sets(
    descriptor_sets: &Vec<u64>,
    uniform_buffers: &Vec<Buffer>,
    uniform_range: u64,
    texture_image_view: u64,
    texture_sampler: u64,
) -> (result: Result<Vec<DescriptorWrite>, VkAppError>)
    ensures
        (descriptor_sets@.len() != MAX_FRAMES_IN_FLIGHT && uniform_buffers@.len()
            != MAX_FRAMES_IN_FLIGHT) ==> (result matches Err(VkAppError::DeviceError(text))
            && text@ == descriptor_count_text()),
        !(descriptor_sets@.len() != MAX_FRAMES_IN_FLIGHT && uniform_buffers@.len()
            != MAX_FRAMES_IN_FLIGHT) ==> (result matches Ok(writes) && writes@
            == descriptor_writes(
            descriptor_sets@,
            uniform_buffers@,
            uniform_range,
            texture_image_view,
            texture_sampler,
        )),
{
    if descriptor_sets.len() != MAX_FRAMES_IN_FLIGHT as usize && uniform_buffers.len()
        != MAX_FRAMES_IN_FLIGHT as usize {
        return Err(
            VkAppError::DeviceError(
                String::from_str(
                    "Descriptor sets and uniform buffers must be same size as MAX_FRAMES_IN_FLIGHT",
                ),
            ),
        );
    }
    let count = if descriptor_sets.len() <= uniform_buffers.len() {
        descriptor_sets.len()
    } else {
        uniform_buffers.len()
    };
    let mut writes: Vec<DescriptorWrite> = Vec::new();
    let mut i: usize = 0;
    while i < count
        invariant
            i <= count,
            count == written_sets(descriptor_sets@, uniform_buffers@),
            writes@.len() == 2 * i,
            forall|k: int|
                0 <= k < 2 * i ==> writes@[k] == descriptor_writes(
                    descriptor_sets@,
                    uniform_buffers@,
                    uniform_range,
                    texture_image_view,
                    texture_sampler,
                )[k],
        decreases count - i,
    {
        writes.push(
            DescriptorWrite {
                dst_set: descriptor_sets[i],
                dst_binding: 0,
                dst_array_element: 0,
                descriptor_type: DESCRIPTOR_TYPE_UNIFORM_BUFFER,
                descriptor_count: 1,
                resource: DescriptorResource::Buffer {
                    buffer: uniform_buffers[i].buffer,
                    offset: 0,
                    range: uniform_range,
                },
            },
        );
        writes.push(
            DescriptorWrite {
                dst_set: descriptor_sets[i],
                dst_binding: 1,
                dst_array_element: 0,
                descriptor_type: DESCRIPTOR_TYPE_COMBINED_IMAGE_SAMPLER,
                descriptor_count: 1,
                resource: DescriptorResource::Image {
                    image_layout: IMAGE_LAYOUT_SHADER_READ_ONLY_OPTIMAL,
                    image_view: texture_image_view,
                    sampler: texture_sampler,
                },
            },
        );
        i += 1;
    }
    assert(writes@ =~= descriptor_writes(
        descriptor_sets@,
        uniform_buffers@,
        uniform_range,
        texture_image_view,
        texture_sampler,
    ));
    Ok(writes)
}

} // verus!
