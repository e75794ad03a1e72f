//! Command pool and command buffers, the commands of one frame, and the objects that
//! keep the frames in flight apart.

use crate::graphics::constants::{
    COMMAND_BUFFER_LEVEL_PRIMARY, COMMAND_POOL_CREATE_RESET_COMMAND_BUFFER, FENCE_CREATE_SIGNALED,
    INDEX_TYPE_UINT16, PIPELINE_BIND_POINT_GRAPHICS, SUBPASS_CONTENTS_INLINE,
};
use crate::graphics::pipeline::Pipeline;
use crate::graphics::presentation::{Extent2D, Swapchain};
use crate::graphics::release::{push_releases, releases_of, ObjectKind, Release};
use vstd::prelude::*;

verus! {

/// How many frames may be in flight at once: while one is drawn, the next can be
/// recorded, and the processor never gets further ahead than that.
pub const MAX_FRAMES_IN_FLIGHT: u32 = 2;

/// How many indices one frame draws: two triangles.
pub const INDEX_COUNT: u32 = 6;

/// The create-info of the command pool.
#[derive(Copy, Clone, Debug, PartialEq, Eq, Structural)]
pub struct CommandPoolRequest {
    pub flags: u32,
    pub queue_family_index: u32,
}

/// Describes the command pool for the given queue family. Its command buffers can be
/// reset one by one, as each frame does with its own.
pub fn create_command_pool(queue_family_index: u32) -> (request: CommandPoolRequest)
    ensures
        request == (CommandPoolRequest {
            flags: COMMAND_POOL_CREATE_RESET_COMMAND_BUFFER,
            queue_family_index,
        }),
{
    CommandPoolRequest { flags: COMMAND_POOL_CREATE_RESET_COMMAND_BUFFER, queue_family_index }
}

/// An allocation of command buffers.
#[derive(Copy, Clone, Debug, PartialEq, Eq, Structural)]
pub struct CommandBufferRequest {
    pub command_pool: u64,
    pub level: i32,
    pub command_buffer_count: u32,
}

/// Describes the command buffers of the frames: one primary command buffer per frame in
/// flight, so that one frame can be recorded while another is drawn.
pub fn create_command_buffers(command_pool: u64) -> (request: CommandBufferRequest)
    ensures
        request == (CommandBufferRequest {
            command_pool,
            level: COMMAND_BUFFER_LEVEL_PRIMARY,
            command_buffer_count: MAX_FRAMES_IN_FLIGHT,
        }),
{
    CommandBufferRequest {
        command_pool,
        level: COMMAND_BUFFER_LEVEL_PRIMARY,
        command_buffer_count: MAX_FRAMES_IN_FLIGHT,
    }
}

/// A colour in whole numbers: each component is 0 or 1.
#[derive(Copy, Clone, Debug, PartialEq, Eq, Structural)]
pub struct ClearColor {
    pub red: u32,
    pub green: u32,
    pub blue: u32,
    pub alpha: u32,
}

/// One command recorded into the command buffer of a frame. Offsets that are not named
/// are zero. The depths of the viewport are whole numbers.
#[derive(Copy, Clone, Debug, PartialEq, Eq, Structural)]
pub enum FrameCommand {
    BeginCommandBuffer { flags: u32 },
    /// Begin the render pass on all of `framebuffer`, clearing it to `clear_color`.
    BeginRenderPass {
        render_pass: u64,
        framebuffer: u64,
        render_area: Extent2D,
        clear_color: ClearColor,
        contents: i32,
    },
    BindPipeline { bind_point: i32, pipeline: u64 },
    BindVertexBuffer { first_binding: u32, buffer: u64, offset: u64 },
    /// Bind the one descriptor set of the frame as set `first_set`.
    BindDescriptorSet { bind_point: i32, layout: u64, first_set: u32, descriptor_set: u64 },
    BindIndexBuffer { buffer: u64, offset: u64, index_type: i32 },
    /// Set viewport 0 to all of the framebuffer.
    SetViewport { width: u32, height: u32, min_depth: u32, max_depth: u32 },
    /// Set scissor rectangle 0 to all of the framebuffer.
    SetScissor { extent: Extent2D },
    DrawIndexed {
        index_count: u32,
        instance_count: u32,
        first_index: u32,
        vertex_offset: i32,
        first_instance: u32,
    },
    EndRenderPass,
    EndCommandBuffer,
}

/// The colour every frame starts from: opaque black.
pub open spec fn clear_color() -> ClearColor {
    ClearColor { red: 0, green: 0, blue: 0, alpha: 1 }
}

/// The commands of one frame: begin; begin the render pass on `framebuffer`; bind the
/// pipeline, the vertex buffer, the frame's descriptor set and the index buffer of
/// 16-bit indices; set viewport and scissor, which the pipeline leaves open, to the
/// swapchain's extent, with depths from 0 to 1; draw the indices once; end the render
/// pass; end.
pub open spec fn frame_commands(
    pipeline: Pipeline,
    extent: Extent2D,
    framebuffer: u64,
    vertex_buffer: u64,
    index_buffer: u64,
    descriptor_set: u64,
) -> Seq<FrameCommand> {
    seq![
        FrameCommand::BeginCommandBuffer { flags: 0 },
        FrameCommand::BeginRenderPass {
            render_pass: pipeline.render_pass,
            framebuffer,
            render_area: extent,
            clear_color: clear_color(),
            contents: SUBPASS_CONTENTS_INLINE,
        },
        FrameCommand::BindPipeline {
            bind_point: PIPELINE_BIND_POINT_GRAPHICS,
            pipeline: pipeline.graphics_pipeline,
        },
        FrameCommand::BindVertexBuffer { first_binding: 0, buffer: vertex_buffer, offset: 0 },
        FrameCommand::BindDescriptorSet {
            bind_point: PIPELINE_BIND_POINT_GRAPHICS,
            layout: pipeline.pipeline_layout,
            first_set: 0,
            descriptor_set,
        },
        FrameCommand::BindIndexBuffer {
            buffer: index_buffer,
            offset: 0,
            index_type: INDEX_TYPE_UINT16,
        },
        FrameCommand::SetViewport {
            width: extent.width,
            height: extent.height,
            min_depth: 0,
            max_depth: 1,
        },
        FrameCommand::SetScissor { extent },
        FrameCommand::DrawIndexed {
            index_count: INDEX_COUNT,
            instance_count: 1,
            first_index: 0,
            vertex_offset: 0,
            first_instance: 0,
        },
        FrameCommand::EndRenderPass,
        FrameCommand::EndCommandBuffer,
    ]
}

/// Lists the commands that draw one frame into the swapchain image with the given
/// index.
pub fn record_command_buffer(
    image_index: u32,
    pipeline: &Pipeline,
    swapchain: &Swapchain,
    vertex_buffer: u64,
    index_buffer: u64,
    descriptor_set_current_frame: u64,
) -> (commands: Vec<FrameCommand>)
    requires
        image_index < swapchain.framebuffers@.len(),
    ensures
        commands@ == frame_commands(
            *pipeline,
            swapchain.settings.extent,
            swapchain.framebuffers@[image_index as int],
            vertex_buffer,
            index_buffer,
            descriptor_set_current_frame,
        ),
{
    let extent = swapchain.settings.extent;
    let mut commands: Vec<FrameCommand> = Vec::new();
    commands.push(FrameCommand::BeginCommandBuffer { flags: 0 });
    commands.push(
        FrameCommand::BeginRenderPass {
            render_pass: pipeline.render_pass,
            framebuffer: swapchain.framebuffers[image_index as usize],
            render_area: extent,
            clear_color: ClearColor { red: 0, green: 0, blue: 0, alpha: 1 },
            contents: SUBPASS_CONTENTS_INLINE,
        },
    );
    commands.push(
        FrameCommand::BindPipeline {
            bind_point: PIPELINE_BIND_POINT_GRAPHICS,
            pipeline: pipeline.graphics_pipeline,
        },
    );
    commands.push(
        FrameCommand::BindVertexBuffer { first_binding: 0, buffer: vertex_buffer, offset: 0 },
    );
    commands.push(
        FrameCommand::BindDescriptorSet {
            bind_point: PIPELINE_BIND_POINT_GRAPHICS,
            layout: pipeline.pipeline_layout,
            first_set: 0,
            descriptor_set: descriptor_set_current_frame,
        },
    );
    commands.push(
        FrameCommand::BindIndexBuffer {
            buffer: index_buffer,
            offset: 0,
            index_type: INDEX_TYPE_UINT16,
        },
    );
    commands.push(
        FrameCommand::SetViewport {
            width: extent.width,
            height: extent.height,
            min_depth: 0,
            max_depth: 1,
        },
    );
    commands.push(FrameCommand::SetScissor { extent });
    commands.push(
        FrameCommand::DrawIndexed {
            index_count: INDEX_COUNT,
            instance_count: 1,
            first_index: 0,
            vertex_offset: 0,
            first_instance: 0,
        },
    );
    commands.push(FrameCommand::EndRenderPass);
    commands.push(FrameCommand::EndCommandBuffer);
    assert(commands@ =~= frame_commands(
        *pipeline,
        swapchain.settings.extent,
        swapchain.framebuffers@[image_index as int],
        vertex_buffer,
        index_buffer,
        descriptor_set_current_frame,
    ));
    commands
}

/// The objects that order the work of the frames in flight, one of each per frame.
///
/// A frame's first semaphore tells the device that the image to draw to is free; its
/// second that drawing is over and the image can be shown. Its fence tells the host
/// that the frame's work is done.
#[derive(Clone, Debug)]
pub struct SyncObjects {
    pub image_available_semaphores: Vec<u64>,
    pub render_finished_semaphores: Vec<u64>,
    pub in_flight_fences: Vec<u64>,
}

/// An object to create for a frame.
#[derive(Copy, Clone, Debug, PartialEq, Eq, Structural)]
pub enum SyncRequest {
    Semaphore,
    Fence { flags: u32 },
}

impl SyncObjects {
    /// The objects were created frame by frame, in the order first semaphore, second
    /// semaphore, fence, and for no more frames than may be in flight.
    pub open spec fn wf(&self) -> bool {
        let first = self.image_available_semaphores@.len();
        let second = self.render_finished_semaphores@.len();
        let fences = self.in_flight_fences@.len();
        &&& fences <= second <= first
        &&& first <= fences + 1
        &&& first <= MAX_FRAMES_IN_FLIGHT
    }

    /// Every frame in flight has its two semaphores and its fence.
    pub open spec fn is_complete(&self) -> bool {
        &&& self.image_available_semaphores@.len() == MAX_FRAMES_IN_FLIGHT
        &&& self.render_finished_semaphores@.len() == MAX_FRAMES_IN_FLIGHT
        &&& self.in_flight_fences@.len() == MAX_FRAMES_IN_FLIGHT
    }

    /// What is to create next, if anything.
    pub open spec fn next_request(&self) -> Option<SyncRequest> {
        if self.render_finished_semaphores@.len() < self.image_available_semaphores@.len() {
            Some(SyncRequest::Semaphore)
        } else if self.in_flight_fences@.len() < self.render_finished_semaphores@.len() {
            Some(SyncRequest::Fence { flags: FENCE_CREATE_SIGNALED })
        } else if self.image_available_semaphores@.len() < MAX_FRAMES_IN_FLIGHT {
            Some(SyncRequest::Semaphore)
        } else {
            None
        }
    }

    /// What [`SyncObjects::cleanup`] releases, in order.
    pub open spec fn release_order(&self) -> Seq<Release> {
        releases_of(ObjectKind::Semaphore, self.image_available_semaphores@) + releases_of(
            ObjectKind::Semaphore,
            self.render_finished_semaphores@,
        ) + releases_of(ObjectKind::Fence, self.in_flight_fences@)
    }

    /// No objects yet.
    pub fn new() -> (objects: Self)
        ensures
            objects.wf(),
            objects.image_available_semaphores@.len() == 0,
            objects.render_finished_semaphores@.len() == 0,
            objects.in_flight_fences@.len() == 0,
    {
        SyncObjects {
            image_available_semaphores: Vec::new(),
            render_finished_semaphores: Vec::new(),
            in_flight_fences: Vec::new(),
        }
    }

    /// Records the object that was created for the request [`create_sync_objects`]
    /// last gave.
    pub fn created(&mut self, handle: u64)
        requires
            old(self).next_request() is Some,
        ensures
            old(self).wf() ==> final(self).wf(),
            old(self).render_finished_semaphores@.len() < old(
                self,
            ).image_available_semaphores@.len() ==> {
                &&& final(self).render_finished_semaphores@ == old(
                    self,
                ).render_finished_semaphores@.push(handle)
                &&& final(self).image_available_semaphores == old(self).image_available_semaphores
                &&& final(self).in_flight_fences == old(self).in_flight_fences
            },
            old(self).render_finished_semaphores@.len() >= old(
                self,
            ).image_available_semaphores@.len() && old(self).in_flight_fences@.len() < old(
                self,
            ).render_finished_semaphores@.len() ==> {
                &&& final(self).in_flight_fences@ == old(self).in_flight_fences@.push(handle)
                &&& final(self).image_available_semaphores == old(self).image_available_semaphores
                &&& final(self).render_finished_semaphores == old(self).render_finished_semaphores
            },
            old(self).render_finished_semaphores@.len() >= old(
                self,
            ).image_available_semaphores@.len() && old(self).in_flight_fences@.len() >= old(
                self,
            ).render_finished_semaphores@.len() ==> {
                &&& final(self).image_available_semaphores@ == old(
                    self,
                ).image_available_semaphores@.push(handle)
                &&& final(self).render_finished_semaphores == old(self).render_finished_semaphores
                &&& final(self).in_flight_fences == old(self).in_flight_fences
            },
    {
        if self.render_finished_semaphores.len() < self.image_available_semaphores.len() {
            self.render_finished_semaphores.push(handle);
        } else if self.in_flight_fences.len() < self.render_finished_semaphores.len() {
            self.in_flight_fences.push(handle);
        } else {
            self.image_available_semaphores.push(handle);
        }
    }

    /// Whether every frame in flight has its two semaphores and its fence.
    pub fn complete(&self) -> (done: bool)
        ensures
            done == self.is_complete(),
    {
        self.image_available_semaphores.len() == MAX_FRAMES_IN_FLIGHT as usize
            && self.render_finished_semaphores.len() == MAX_FRAMES_IN_FLIGHT as usize
            && self.in_flight_fences.len() == MAX_FRAMES_IN_FLIGHT as usize
    }

    /// Lists what to release to give the objects up: the first semaphores of the frames,
    /// their second semaphores, then their fences.
    pub fn cleanup(&self) -> (releases: Vec<Release>)
        ensures
            releases@ == self.release_order(),
    {
        let mut releases: Vec<Release> = Vec::new();
        push_releases(&mut releases, ObjectKind::Semaphore, &self.image_available_semaphores);
        push_releases(&mut releases, ObjectKind::Semaphore, &self.render_finished_semaphores);
        push_releases(&mut releases, ObjectKind::Fence, &self.in_flight_fences);
        releases
    }
}

/// Says which object to create next for the frames in flight: for each frame in turn
/// the semaphore for a free image, the semaphore for finished drawing, and the fence.
/// The fence starts signalled, so that the first wait on it returns at once although no
/// frame came before. `None` once every frame has its objects.
pub fn create_sync_objects(objects: &SyncObjects) -> (next: Option<SyncRequest>)
    ensures
        next == objects.next_request(),
        objects.wf() ==> (next is None <==> objects.is_complete()),
{
    if objects.render_finished_semaphores.len() < objects.image_available_semaphores.len() {
        Some(SyncRequest::Semaphore)
    } else if objects.in_flight_fences.len() < objects.render_finished_semaphores.len() {
        Some(SyncRequest::Fence { flags: FENCE_CREATE_SIGNALED })
    } else if objects.image_available_semaphores.len() < MAX_FRAMES_IN_FLIGHT as usize {
        Some(SyncRequest::Semaphore)
    } else {
        None
    }
}

} // verus!
