//! The renderer as a whole: what it owns, how a frame is drawn, how the swapchain is
//! rebuilt when the surface has changed, and in which order everything is given back.
//!
//! The renderer never calls the driver itself. It says what to do next as an
//! [`Action`], and is told how that went as an [`Event`].

use crate::graphics::buffers::{scene, update_uniform_buffer, Buffer, Scene};
use crate::graphics::commands::{
    frame_commands, record_command_buffer, FrameCommand, SyncObjects, MAX_FRAMES_IN_FLIGHT,
};
use crate::graphics::constants::{ERROR_OUT_OF_DATE_KHR, PIPELINE_STAGE_COLOR_ATTACHMENT_OUTPUT};
use crate::graphics::device::SupportedPhysicalDevice;
use crate::graphics::errors::VkAppError;
use crate::graphics::pipeline::Pipeline;
use crate::graphics::presentation::{
    chosen_settings, color_view_of, create_swapchain, is_swapchain_request,
    no_acceptable_present_mode_text, FramebufferRequest, ImageViewRequest, Surface, SurfaceDetails,
    Swapchain, SwapchainRequest, SwapchainSettings,
};
use crate::graphics::release::{ObjectKind, Release};
use vstd::prelude::*;

verus! {

/// The indices of the quad's two triangles into its four vertices.
pub const INDICES: [u16; 6] = [0, 1, 2, 2, 3, 0];

/// How many vertices the quad has.
pub const VERTEX_COUNT: u32 = 4;

/// Where the renderer stands.
#[derive(Copy, Clone, Debug, PartialEq, Eq, Structural)]
pub enum Phase {
    /// Between frames.
    Idle,
    WaitingForFence,
    AcquiringImage,
    UpdatingUniforms,
    ResettingFence,
    ResettingCommandBuffer,
    Recording,
    Submitting,
    Presenting,
    /// First step of rebuilding the swapchain: the device must have nothing in flight.
    WaitingForIdle,
    QueryingSurface,
    ReleasingSwapchain,
    CreatingSwapchain,
    CreatingImageViews,
    CreatingFramebuffers,
    /// An error has ended the renderer's work; only the teardown is left.
    Failed,
}

/// What follows once the swapchain is rebuilt.
#[derive(Copy, Clone, Debug, PartialEq, Eq, Structural)]
pub enum After {
    /// Nothing was drawn: the next frame uses the same slot again.
    SameFrame,
    /// A frame was presented: the next frame uses the next slot.
    NextFrame,
}

/// A batch of commands to hand to a queue.
#[derive(Copy, Clone, Debug, PartialEq, Eq, Structural)]
pub struct Submission {
    pub queue: u64,
    /// The batch starts the stage `wait_stage` only once this semaphore is signalled.
    pub wait_semaphore: u64,
    pub wait_stage: u32,
    pub command_buffer: u64,
    /// Signalled when the batch is done.
    pub signal_semaphore: u64,
    /// Signalled when the batch is done.
    pub fence: u64,
}

/// An image to show.
#[derive(Copy, Clone, Debug, PartialEq, Eq, Structural)]
pub struct Presentation {
    pub queue: u64,
    /// The image is shown only once this semaphore is signalled.
    pub wait_semaphore: u64,
    pub swapchain: u64,
    pub image_index: u32,
}

/// What the renderer wants done next.
pub enum Action {
    /// Wait until `fence` is signalled, for at most `timeout` nanoseconds.
    WaitForFence { fence: u64, timeout: u64 },
    /// Get the next image of `swapchain`, waiting for at most `timeout` nanoseconds;
    /// `semaphore` is signalled when the image can be drawn to.
    AcquireImage { swapchain: u64, semaphore: u64, timeout: u64 },
    /// Write the matrices of `scene` to the mapped uniform buffer of slot `frame`.
    UpdateUniformBuffer { frame: usize, scene: Scene },
    ResetFence { fence: u64 },
    ResetCommandBuffer { command_buffer: u64 },
    /// Record `commands` into `command_buffer`.
    Record { command_buffer: u64, commands: Vec<FrameCommand> },
    Submit(Submission),
    Present(Presentation),
    /// Wait until the device has nothing in flight.
    WaitIdle,
    /// Release the listed objects, in order.
    Release(Vec<Release>),
    /// Ask what the surface supports on the device.
    QuerySurface { physical_device: u64, surface: u64 },
    /// Create the swapchain and get its images.
    CreateSwapchain(SwapchainRequest),
    CreateImageView(ImageViewRequest),
    CreateFramebuffer(FramebufferRequest),
    /// The frame, or the rebuilding of the swapchain, is over, with this outcome.
    Finish(Result<(), VkAppError>),
}

/// How the last action went.
pub enum Event {
    /// The outcome of an action that yields nothing.
    Done(Result<(), VkAppError>),
    /// The outcome of [`Action::AcquireImage`]: the image's index, and whether the
    /// swapchain no longer matches the surface exactly.
    Acquired(Result<(u32, bool), VkAppError>),
    /// The outcome of [`Action::Present`], with the same hint.
    Presented(Result<bool, VkAppError>),
    /// The outcome of [`Action::QuerySurface`].
    SurfaceQueried(Result<SurfaceDetails, VkAppError>),
    /// The outcome of [`Action::CreateSwapchain`]: the swapchain and its images.
    SwapchainCreated(Result<(u64, Vec<u64>), VkAppError>),
    /// The outcome of [`Action::CreateImageView`] or [`Action::CreateFramebuffer`].
    Created(Result<u64, VkAppError>),
}

/// Everything the renderer creates once and keeps until the end.
pub struct Resources {
    pub instance: u64,
    pub debug_callback: u64,
    pub physical_device: SupportedPhysicalDevice,
    pub device: u64,
    pub graphics_queue: u64,
    pub present_queue: u64,
    pub pipeline: Pipeline,
    pub command_pool: u64,
    pub texture_image: u64,
    pub texture_image_memory: u64,
    pub texture_image_view: u64,
    pub texture_sampler: u64,
    pub vertex_buffer: Buffer,
    pub index_buffer: Buffer,
    /// One per frame in flight.
    pub uniform_buffers: Vec<Buffer>,
    pub descriptor_pool: u64,
    /// One per frame in flight.
    pub descriptor_sets: Vec<u64>,
    /// One per frame in flight.
    pub command_buffers: Vec<u64>,
    pub sync_objects: SyncObjects,
}

/// The renderer.
pub struct VkApp {
    pub resources: Resources,
    pub surface: Surface,
    pub swapchain: Swapchain,
    /// The slot whose command buffer, descriptor set and sync objects the frame uses.
    pub current_frame: usize,
    pub phase: Phase,
    /// Index of the swapchain image the frame draws to.
    pub image_index: u32,
    /// Whether the swapchain was found not to match the surface exactly when the
    /// frame's image was acquired.
    pub suboptimal: bool,
    /// What follows the rebuilding of the swapchain that is under way.
    pub after: After,
    /// The settings of the swapchain that is being created.
    pub pending_settings: SwapchainSettings,
    /// For each slot, whether its fence is signalled or will be by work that was
    /// submitted.
    pub fences_armed: Vec<bool>,
    /// Width of the window's client area, as last reported.
    pub window_width: i32,
    /// Height of the window's client area, as last reported.
    pub window_height: i32,
}

/// The timeout that stands for waiting without limit.
pub const NO_TIMEOUT: u64 = 0xFFFF_FFFF_FFFF_FFFF;

/// The slot after `frame`, going round.
pub open spec fn next_frame(frame: usize) -> usize {
    ((frame + 1) % (MAX_FRAMES_IN_FLIGHT as int)) as usize
}

/// `error` says that the swapchain no longer fits the surface.
pub open spec fn is_out_of_date(error: VkAppError) -> bool {
    error == VkAppError::VkError(ERROR_OUT_OF_DATE_KHR)
}

impl Resources {
    /// Every frame in flight has its uniform buffer, descriptor set, command buffer and
    /// sync objects.
    pub open spec fn is_complete(&self) -> bool {
        &&& self.sync_objects.is_complete()
        &&& self.uniform_buffers@.len() == MAX_FRAMES_IN_FLIGHT
        &&& self.descriptor_sets@.len() == MAX_FRAMES_IN_FLIGHT
        &&& self.command_buffers@.len() == MAX_FRAMES_IN_FLIGHT
    }

    /// Whether every frame in flight has what it needs.
    pub fn complete(&self) -> (done: bool)
        ensures
            done == self.is_complete(),
    {
        self.sync_objects.complete() && self.uniform_buffers.len() == MAX_FRAMES_IN_FLIGHT as usize
            && self.descriptor_sets.len() == MAX_FRAMES_IN_FLIGHT as usize
            && self.command_buffers.len() == MAX_FRAMES_IN_FLIGHT as usize
    }
}

impl VkApp {
    /// The current slot's fence was reset and the work that will signal it again is not
    /// submitted yet.
    pub open spec fn fence_is_pending(&self) -> bool {
        self.phase == Phase::ResettingCommandBuffer || self.phase == Phase::Recording || self.phase
            == Phase::Submitting
    }

    /// The frame has an image to draw to.
    pub open spec fn has_image(&self) -> bool {
        self.phase == Phase::UpdatingUniforms || self.phase == Phase::ResettingFence
            || self.phase == Phase::ResettingCommandBuffer || self.phase == Phase::Recording
            || self.phase == Phase::Submitting || self.phase == Phase::Presenting
    }

    /// The frame uses the swapchain.
    pub open spec fn uses_swapchain(&self) -> bool {
        self.phase == Phase::Idle || self.phase == Phase::WaitingForFence || self.phase
            == Phase::AcquiringImage || self.has_image()
    }

    /// The renderer's state is consistent.
    ///
    /// Every slot has its objects and the current slot is one of them. Between frames
    /// and while a frame is drawn the swapchain is complete; while it is rebuilt it
    /// grows in order. Unless the renderer has failed, every fence is armed but that of
    /// the current slot between its reset and the submission.
    pub open spec fn wf(&self) -> bool {
        &&& self.resources.is_complete()
        &&& self.current_frame < MAX_FRAMES_IN_FLIGHT
        &&& self.fences_armed@.len() == MAX_FRAMES_IN_FLIGHT
        &&& self.swapchain.wf()
        &&& self.uses_swapchain() ==> self.swapchain.is_complete()
        &&& self.has_image() ==> self.image_index < self.swapchain.framebuffers@.len()
        &&& self.phase == Phase::ReleasingSwapchain ==> self.surface.details.is_buildable()
        &&& self.phase == Phase::CreatingImageViews ==> self.swapchain.framebuffers@.len() == 0
            && self.swapchain.image_views@.len() < self.swapchain.images@.len()
        &&& self.phase == Phase::CreatingFramebuffers ==> self.swapchain.image_views@.len()
            == self.swapchain.images@.len() && self.swapchain.framebuffers@.len()
            < self.swapchain.image_views@.len()
        &&& self.phase != Phase::Failed ==> forall|slot: int|
            0 <= slot < MAX_FRAMES_IN_FLIGHT ==> #[trigger] self.fences_armed@[slot] == !(slot
                == self.current_frame && self.fence_is_pending())
    }

    /// The event is the outcome of the action the renderer asked for last, and it is
    /// one the renderer can go on from: an acquired image is one of the swapchain's,
    /// and a swapchain can be described for what the surface reports.
    pub open spec fn expects(&self, event: Event) -> bool {
        match self.phase {
            Phase::Idle | Phase::Failed => false,
            Phase::AcquiringImage => event matches Event::Acquired(outcome) && (
            outcome matches Ok((index, _)) ==> index < self.swapchain.framebuffers@.len()),
            Phase::Presenting => event is Presented,
            Phase::QueryingSurface => event matches Event::SurfaceQueried(outcome) && (
            outcome matches Ok(details) ==> details.is_buildable()),
            Phase::CreatingSwapchain => event is SwapchainCreated,
            Phase::CreatingImageViews | Phase::CreatingFramebuffers => event is Created,
            _ => event is Done,
        }
    }

    /// Whether `event` is one the renderer can go on from.
    pub fn accepts(&self, event: &Event) -> (yes: bool)
        ensures
            yes == self.expects(*event),
    {
        match self.phase {
            Phase::Idle | Phase::Failed => false,
            Phase::AcquiringImage => match event {
                Event::Acquired(Ok((index, _))) => (*index as usize)
                    < self.swapchain.framebuffers.len(),
                Event::Acquired(Err(_)) => true,
                _ => false,
            },
            Phase::Presenting => match event {
                Event::Presented(_) => true,
                _ => false,
            },
            Phase::QueryingSurface => match event {
                Event::SurfaceQueried(Ok(details)) => details.buildable(),
                Event::SurfaceQueried(Err(_)) => true,
                _ => false,
            },
            Phase::CreatingSwapchain => match event {
                Event::SwapchainCreated(_) => true,
                _ => false,
            },
            Phase::CreatingImageViews | Phase::CreatingFramebuffers => match event {
                Event::Created(_) => true,
                _ => false,
            },
            _ => match event {
                Event::Done(_) => true,
                _ => false,
            },
        }
    }

    /// Whether the renderer's state is consistent.
    pub fn consistent(&self) -> (yes: bool)
        ensures
            yes == self.wf(),
    {
        let slots = MAX_FRAMES_IN_FLIGHT as usize;
        let swapchain = &self.swapchain;
        if !self.resources.complete() || self.current_frame >= slots || self.fences_armed.len()
            != slots {
            return false;
        }
        if swapchain.image_views.len() > swapchain.images.len() || swapchain.framebuffers.len()
            > swapchain.image_views.len() {
            return false;
        }
        let complete = swapchain.complete();
        let (has_image, pending, uses_swapchain) = match self.phase {
            Phase::Idle | Phase::WaitingForFence | Phase::AcquiringImage => (false, false, true),
            Phase::UpdatingUniforms | Phase::ResettingFence | Phase::Presenting => (
                true,
                false,
                true,
            ),
            Phase::ResettingCommandBuffer | Phase::Recording | Phase::Submitting => (
                true,
                true,
                true,
            ),
            _ => (false, false, false),
        };
        if uses_swapchain && !complete {
            return false;
        }
        if has_image && self.image_index as usize >= swapchain.framebuffers.len() {
            return false;
        }
        match self.phase {
            Phase::ReleasingSwapchain => {
                if !self.surface.details.buildable() {
                    return false;
                }
            },
            Phase::CreatingImageViews => {
                if swapchain.framebuffers.len() != 0 || swapchain.image_views.len()
                    >= swapchain.images.len() {
                    return false;
                }
            },
            Phase::CreatingFramebuffers => {
                if swapchain.image_views.len() != swapchain.images.len()
                    || swapchain.framebuffers.len() >= swapchain.image_views.len() {
                    return false;
                }
            },
            Phase::Failed => {
                return true;
            },
            _ => {},
        }
        let mut slot: usize = 0;
        while slot < slots
            invariant
                slot <= slots,
                slots == MAX_FRAMES_IN_FLIGHT,
                self.fences_armed@.len() == slots,
                self.phase != Phase::Failed,
                pending == self.fence_is_pending(),
                forall|i: int|
                    0 <= i < slot ==> #[trigger] self.fences_armed@[i] == !(i == self.current_frame
                        && pending),
            decreases slots - slot,
        {
            if self.fences_armed[slot] == (slot == self.current_frame && pending) {
                assert(self.fences_armed@[slot as int] != !(slot == self.current_frame
                    && self.fence_is_pending()));
                return false;
            }
            slot += 1;
        }
        true
    }

    /// Whether the renderer is between frames.
    pub fn is_idle(&self) -> (yes: bool)
        ensures
            yes == (self.phase == Phase::Idle),
    {
        match self.phase {
            Phase::Idle => true,
            _ => false,
        }
    }

    /// The renderer, ready for its first frame: everything is created, the first
    /// slot is current, and every fence is armed because fences are created signalled.
    pub fn new(
        resources: Resources,
        surface: Surface,
        swapchain: Swapchain,
        window_width: i32,
        window_height: i32,
    ) -> (app: Self)
        requires
            resources.is_complete(),
            swapchain.is_complete(),
        ensures
            app.wf(),
            app.resources == resources,
            app.surface == surface,
            app.swapchain == swapchain,
            app.current_frame == 0,
            app.phase == Phase::Idle,
            app.window_width == window_width,
            app.window_height == window_height,
            forall|slot: int| 0 <= slot < MAX_FRAMES_IN_FLIGHT ==> app.fences_armed@[slot],
    {
        let mut fences_armed: Vec<bool> = Vec::new();
        let mut slot: u32 = 0;
        while slot < MAX_FRAMES_IN_FLIGHT
            invariant
                slot <= MAX_FRAMES_IN_FLIGHT,
                fences_armed@.len() == slot,
                forall|i: int| 0 <= i < slot ==> fences_armed@[i],
            decreases MAX_FRAMES_IN_FLIGHT - slot,
        {
            fences_armed.push(true);
            slot += 1;
        }
        let pending_settings = swapchain.settings;
        VkApp {
            resources,
            surface,
            swapchain,
            current_frame: 0,
            phase: Phase::Idle,
            image_index: 0,
            suboptimal: false,
            after: After::SameFrame,
            pending_settings,
            fences_armed,
            window_width,
            window_height,
        }
    }

    /// Takes note of the new size of the window's client area. The size counts the next
    /// time a swapchain is described for a surface that leaves the extent open.
    pub fn resize(&mut self, width: i32, height: i32)
        ensures
            *final(self) == (VkApp { window_width: width, window_height: height, ..*old(self) }),
            old(self).wf() ==> final(self).wf(),
    {
        self.window_width = width;
        self.window_height = height;
    }
}


/// The error an event brings, if it brings one.
pub open spec fn failure_of(event: Event) -> Option<VkAppError> {
    match event {
        Event::Done(Err(error)) => Some(error),
        Event::Acquired(Err(error)) => Some(error),
        Event::Presented(Err(error)) => Some(error),
        Event::SurfaceQueried(Err(error)) => Some(error),
        Event::SwapchainCreated(Err(error)) => Some(error),
        Event::Created(Err(error)) => Some(error),
        _ => None,
    }
}

/// The swapchain is gone: no handle, no images, no views, no framebuffers.
pub open spec fn is_released(swapchain: Swapchain) -> bool {
    &&& swapchain.vk_swapchain == 0
    &&& swapchain.images@.len() == 0
    &&& swapchain.image_views@.len() == 0
    &&& swapchain.framebuffers@.len() == 0
}

impl VkApp {
    /// The error that ends the renderer's work on `event`, if it does: every error but
    /// the report, on acquiring or presenting an image, that the swapchain is out of
    /// date.
    pub open spec fn fatal_error(&self, event: Event) -> Option<VkAppError> {
        match failure_of(event) {
            Some(error) => if (self.phase == Phase::AcquiringImage || self.phase
                == Phase::Presenting) && is_out_of_date(error) {
                None
            } else {
                Some(error)
            },
            None => None,
        }
    }

    /// The renderer stops with `error`.
    pub open spec fn fails(old: VkApp, new: VkApp, action: Action, error: VkAppError) -> bool {
        &&& new == (VkApp { phase: Phase::Failed, ..old })
        &&& action == Action::Finish(Err(error))
    }

    /// The renderer sets out to rebuild the swapchain, and waits for the device first.
    pub open spec fn rebuilds(old: VkApp, new: VkApp, action: Action, after: After) -> bool {
        &&& new == (VkApp { phase: Phase::WaitingForIdle, after, ..old })
        &&& action is WaitIdle
    }

    /// The renderer goes to `phase` and nothing else changes.
    pub open spec fn moves_to(old: VkApp, new: VkApp, phase: Phase) -> bool {
        new == (VkApp { phase, ..old })
    }

    /// The in-flight fence of the current slot.
    pub open spec fn current_fence(&self) -> u64 {
        self.resources.sync_objects.in_flight_fences@[self.current_frame as int]
    }

    /// The semaphore that tells when the current slot's image is free.
    pub open spec fn current_image_available(&self) -> u64 {
        self.resources.sync_objects.image_available_semaphores@[self.current_frame as int]
    }

    /// The semaphore that tells when the current slot's drawing is over.
    pub open spec fn current_render_finished(&self) -> u64 {
        self.resources.sync_objects.render_finished_semaphores@[self.current_frame as int]
    }

    /// The command buffer of the current slot.
    pub open spec fn current_command_buffer(&self) -> u64 {
        self.resources.command_buffers@[self.current_frame as int]
    }

    /// What the renderer does next while it builds the swapchain up: the view of the
    /// first image without one; then the framebuffer on the first view without one;
    /// and when nothing is missing it is between frames again, in the next slot if a
    /// frame was presented, else in the same.
    pub open spec fn builds_on(old: VkApp, new: VkApp, action: Action) -> bool {
        let swapchain = new.swapchain;
        &&& new == (VkApp {
            swapchain: new.swapchain,
            phase: new.phase,
            current_frame: new.current_frame,
            ..old
        })
        &&& if swapchain.image_views@.len() < swapchain.images@.len() {
            &&& new.phase == Phase::CreatingImageViews
            &&& new.current_frame == old.current_frame
            &&& action == Action::CreateImageView(
                color_view_of(
                    swapchain.images@[swapchain.image_views@.len() as int],
                    swapchain.settings.format.format,
                ),
            )
        } else if swapchain.framebuffers@.len() < swapchain.image_views@.len() {
            &&& new.phase == Phase::CreatingFramebuffers
            &&& new.current_frame == old.current_frame
            &&& action == Action::CreateFramebuffer(
                FramebufferRequest {
                    render_pass: old.resources.pipeline.render_pass,
                    attachment: swapchain.image_views@[swapchain.framebuffers@.len() as int],
                    width: swapchain.settings.extent.width,
                    height: swapchain.settings.extent.height,
                    layers: 1,
                },
            )
        } else {
            &&& new.phase == Phase::Idle
            &&& new.current_frame == (if old.after == After::NextFrame {
                next_frame(old.current_frame)
            } else {
                old.current_frame
            })
            &&& action == Action::Finish(Ok(()))
        }
    }

    /// How the renderer goes on from an event that brings no fatal error.
    pub open spec fn proceeds(old: VkApp, event: Event, new: VkApp, action: Action) -> bool {
        match old.phase {
            Phase::Idle | Phase::Failed => false,
            Phase::WaitingForFence => {
                &&& Self::moves_to(old, new, Phase::AcquiringImage)
                &&& action == (Action::AcquireImage {
                    swapchain: old.swapchain.vk_swapchain,
                    semaphore: old.current_image_available(),
                    timeout: NO_TIMEOUT,
                })
            },
            Phase::AcquiringImage => match event {
                Event::Acquired(Ok((index, suboptimal))) => {
                    &&& new == (VkApp {
                        phase: Phase::UpdatingUniforms,
                        image_index: index,
                        suboptimal,
                        ..old
                    })
                    &&& action == (Action::UpdateUniformBuffer {
                        frame: old.current_frame,
                        scene: scene(),
                    })
                },
                _ => Self::rebuilds(old, new, action, After::SameFrame),
            },
            Phase::UpdatingUniforms => {
                &&& Self::moves_to(old, new, Phase::ResettingFence)
                &&& action == (Action::ResetFence { fence: old.current_fence() })
            },
            Phase::ResettingFence => {
                &&& new == (VkApp {
                    phase: Phase::ResettingCommandBuffer,
                    fences_armed: new.fences_armed,
                    ..old
                })
                &&& new.fences_armed@ == old.fences_armed@.update(old.current_frame as int, false)
                &&& action == (Action::ResetCommandBuffer {
                    command_buffer: old.current_command_buffer(),
                })
            },
            Phase::ResettingCommandBuffer => {
                &&& Self::moves_to(old, new, Phase::Recording)
                &&& action matches Action::Record { command_buffer, commands }
                &&& command_buffer == old.current_command_buffer()
                &&& commands@ == frame_commands(
                    old.resources.pipeline,
                    old.swapchain.settings.extent,
                    old.swapchain.framebuffers@[old.image_index as int],
                    old.resources.vertex_buffer.buffer,
                    old.resources.index_buffer.buffer,
                    old.resources.descriptor_sets@[old.current_frame as int],
                )
            },
            Phase::Recording => {
                &&& Self::moves_to(old, new, Phase::Submitting)
                &&& action == Action::Submit(
                    Submission {
                        queue: old.resources.graphics_queue,
                        wait_semaphore: old.current_image_available(),
                        wait_stage: PIPELINE_STAGE_COLOR_ATTACHMENT_OUTPUT,
                        command_buffer: old.current_command_buffer(),
                        signal_semaphore: old.current_render_finished(),
                        fence: old.current_fence(),
                    },
                )
            },
            Phase::Submitting => {
                &&& new == (VkApp {
                    phase: Phase::Presenting,
                    fences_armed: new.fences_armed,
                    ..old
                })
                &&& new.fences_armed@ == old.fences_armed@.update(old.current_frame as int, true)
                &&& action == Action::Present(
                    Presentation {
                        queue: old.resources.present_queue,
                        wait_semaphore: old.current_render_finished(),
                        swapchain: old.swapchain.vk_swapchain,
                        image_index: old.image_index,
                    },
                )
            },
            Phase::Presenting => if event matches Event::Presented(Ok(_)) && !old.suboptimal {
                &&& new == (VkApp {
                    phase: Phase::Idle,
                    current_frame: next_frame(old.current_frame),
                    ..old
                })
                &&& action == Action::Finish(Ok(()))
            } else {
                Self::rebuilds(old, new, action, After::NextFrame)
            },
            Phase::WaitingForIdle => {
                &&& Self::moves_to(old, new, Phase::QueryingSurface)
                &&& action == (Action::QuerySurface {
                    physical_device: old.resources.physical_device.vk_physical_device,
                    surface: old.surface.vk_surface,
                })
            },
            Phase::QueryingSurface => {
                &&& event matches Event::SurfaceQueried(Ok(details))
                &&& new == (VkApp {
                    phase: Phase::ReleasingSwapchain,
                    surface: Surface { vk_surface: old.surface.vk_surface, details },
                    ..old
                })
                &&& action matches Action::Release(releases)
                &&& releases@ == old.swapchain.release_order()
            },
            Phase::ReleasingSwapchain => {
                &&& is_released(new.swapchain)
                &&& new.swapchain.settings == old.swapchain.settings
                &&& match chosen_settings(
                    old.surface.details,
                    old.window_width,
                    old.window_height,
                ) {
                    Some(settings) => {
                        &&& new == (VkApp {
                            phase: Phase::CreatingSwapchain,
                            swapchain: new.swapchain,
                            pending_settings: settings,
                            ..old
                        })
                        &&& action matches Action::CreateSwapchain(request)
                        &&& is_swapchain_request(
                            old.resources.physical_device,
                            old.surface,
                            settings,
                            request,
                        )
                    },
                    None => {
                        &&& new == (VkApp {
                            phase: Phase::Failed,
                            swapchain: new.swapchain,
                            ..old
                        })
                        &&& action matches Action::Finish(Err(VkAppError::DeviceError(text)))
                        &&& text@ == no_acceptable_present_mode_text()
                    },
                }
            },
            Phase::CreatingSwapchain => {
                &&& event matches Event::SwapchainCreated(Ok((handle, images)))
                &&& new.swapchain.vk_swapchain == handle
                &&& new.swapchain.settings == old.pending_settings
                &&& new.swapchain.images == images
                &&& new.swapchain.image_views@.len() == 0
                &&& new.swapchain.framebuffers@.len() == 0
                &&& Self::builds_on(old, new, action)
            },
            Phase::CreatingImageViews => {
                &&& event matches Event::Created(Ok(view))
                &&& new.swapchain == (Swapchain {
                    image_views: new.swapchain.image_views,
                    ..old.swapchain
                })
                &&& new.swapchain.image_views@ == old.swapchain.image_views@.push(view)
                &&& Self::builds_on(old, new, action)
            },
            Phase::CreatingFramebuffers => {
                &&& event matches Event::Created(Ok(framebuffer))
                &&& new.swapchain == (Swapchain {
                    framebuffers: new.swapchain.framebuffers,
                    ..old.swapchain
                })
                &&& new.swapchain.framebuffers@ == old.swapchain.framebuffers@.push(framebuffer)
                &&& Self::builds_on(old, new, action)
            },
        }
    }

    /// The renderer in state `old` answers `event` with `action` and is then in
    /// state `new`.
    pub open spec fn steps_to(old: VkApp, event: Event, new: VkApp, action: Action) -> bool {
        match old.fatal_error(event) {
            Some(error) => Self::fails(old, new, action, error),
            None => Self::proceeds(old, event, new, action),
        }
    }

    /// Starts a frame: the renderer waits, without limit, for the fence of the current
    /// slot, so that the slot's command buffer and uniform buffer are no longer in use.
    pub fn draw_frame(&mut self) -> (action: Action)
        requires
            old(self).wf(),
            old(self).phase == Phase::Idle,
        ensures
            final(self).wf(),
            *final(self) == (VkApp { phase: Phase::WaitingForFence, ..*old(self) }),
            action == (Action::WaitForFence {
                fence: old(self).current_fence(),
                timeout: NO_TIMEOUT,
            }),
            old(self).fences_armed@[old(self).current_frame as int],
    {
        self.phase = Phase::WaitingForFence;
        let fences = &self.resources.sync_objects.in_flight_fences;
        Action::WaitForFence { fence: fences[self.current_frame], timeout: NO_TIMEOUT }
    }

    /// Starts rebuilding the swapchain between frames, as after a resize: the renderer
    /// waits until the device has nothing in flight. The next frame uses the same slot.
    pub fn recreate_swapchain(&mut self) -> (action: Action)
        requires
            old(self).wf(),
            old(self).phase == Phase::Idle,
        ensures
            final(self).wf(),
            Self::rebuilds(*old(self), *final(self), action, After::SameFrame),
    {
        self.phase = Phase::WaitingForIdle;
        self.after = After::SameFrame;
        Action::WaitIdle
    }

    fn fail(&mut self, error: VkAppError) -> (action: Action)
        requires
            old(self).wf(),
        ensures
            final(self).wf(),
            Self::fails(*old(self), *final(self), action, error),
    {
        self.phase = Phase::Failed;
        Action::Finish(Err(error))
    }

    fn rebuild(&mut self, after: After) -> (action: Action)
        requires
            old(self).wf(),
            old(self).phase == Phase::AcquiringImage || old(self).phase == Phase::Presenting,
        ensures
            final(self).wf(),
            Self::rebuilds(*old(self), *final(self), action, after),
    {
        self.phase = Phase::WaitingForIdle;
        self.after = after;
        Action::WaitIdle
    }

    fn build_on(&mut self) -> (action: Action)
        requires
            old(self).wf(),
            old(self).phase == Phase::CreatingSwapchain || old(self).phase
                == Phase::CreatingImageViews || old(self).phase == Phase::CreatingFramebuffers,
            old(self).swapchain.image_views@.len() < old(self).swapchain.images@.len() ==> old(
                self,
            ).swapchain.framebuffers@.len() == 0,
        ensures
            final(self).wf(),
            final(self).swapchain == old(self).swapchain,
            Self::builds_on(*old(self), *final(self), action),
    {
        proof {
            assert(self.current_frame + 1 <= 2);
        }
        if self.swapchain.image_views.len() < self.swapchain.images.len() {
            self.phase = Phase::CreatingImageViews;
            match self.swapchain.create_swapchain_image_views() {
                Some(request) => Action::CreateImageView(request),
                None => Action::Finish(Ok(())),
            }
        } else if self.swapchain.framebuffers.len() < self.swapchain.image_views.len() {
            self.phase = Phase::CreatingFramebuffers;
            match self.swapchain.create_framebuffers(self.resources.pipeline.render_pass) {
                Some(request) => Action::CreateFramebuffer(request),
                None => Action::Finish(Ok(())),
            }
        } else {
            self.phase = Phase::Idle;
            match self.after {
                After::NextFrame => {
                    self.current_frame = (self.current_frame + 1) % (MAX_FRAMES_IN_FLIGHT as usize);
                },
                After::SameFrame => {},
            }
            Action::Finish(Ok(()))
        }
    }

    fn proceed(&mut self) -> (action: Action)
        requires
            old(self).wf(),
            old(self).expects(Event::Done(Ok(()))),
        ensures
            final(self).wf(),
            Self::proceeds(*old(self), Event::Done(Ok(())), *final(self), action),
    {
        let frame = self.current_frame;
        let image_available = self.resources.sync_objects.image_available_semaphores[frame];
        let render_finished = self.resources.sync_objects.render_finished_semaphores[frame];
        let fence = self.resources.sync_objects.in_flight_fences[frame];
        match self.phase {
            Phase::WaitingForFence => {
                self.phase = Phase::AcquiringImage;
                Action::AcquireImage {
                    swapchain: self.swapchain.vk_swapchain,
                    semaphore: image_available,
                    timeout: NO_TIMEOUT,
                }
            },
            Phase::UpdatingUniforms => {
                self.phase = Phase::ResettingFence;
                Action::ResetFence { fence }
            },
            Phase::ResettingFence => {
                self.phase = Phase::ResettingCommandBuffer;
                self.fences_armed[frame] = false;
                Action::ResetCommandBuffer { command_buffer: self.resources.command_buffers[frame] }
            },
            Phase::ResettingCommandBuffer => {
                self.phase = Phase::Recording;
                let commands = record_command_buffer(
                    self.image_index,
                    &self.resources.pipeline,
                    &self.swapchain,
                    self.resources.vertex_buffer.buffer,
                    self.resources.index_buffer.buffer,
                    self.resources.descriptor_sets[frame],
                );
                Action::Record { command_buffer: self.resources.command_buffers[frame], commands }
            },
            Phase::Recording => {
                self.phase = Phase::Submitting;
                Action::Submit(
                    Submission {
                        queue: self.resources.graphics_queue,
                        wait_semaphore: image_available,
                        wait_stage: PIPELINE_STAGE_COLOR_ATTACHMENT_OUTPUT,
                        command_buffer: self.resources.command_buffers[frame],
                        signal_semaphore: render_finished,
                        fence,
                    },
                )
            },
            Phase::Submitting => {
                self.phase = Phase::Presenting;
                self.fences_armed[frame] = true;
                Action::Present(
                    Presentation {
                        queue: self.resources.present_queue,
                        wait_semaphore: render_finished,
                        swapchain: self.swapchain.vk_swapchain,
                        image_index: self.image_index,
                    },
                )
            },
            Phase::WaitingForIdle => {
                self.phase = Phase::QueryingSurface;
                Action::QuerySurface {
                    physical_device: self.resources.physical_device.vk_physical_device,
                    surface: self.surface.vk_surface,
                }
            },
            _ => {
                self.swapchain = Swapchain::new(0, self.swapchain.settings, Vec::new());
                match create_swapchain(
                    &self.resources.physical_device,
                    &self.surface,
                    self.window_width,
                    self.window_height,
                ) {
                    Ok(request) => {
                        self.phase = Phase::CreatingSwapchain;
                        self.pending_settings = request.settings;
                        Action::CreateSwapchain(request)
                    },
                    Err(error) => {
                        self.phase = Phase::Failed;
                        Action::Finish(Err(error))
                    },
                }
            },
        }
    }

    /// Takes the outcome of the action the renderer asked for last and says what to do
    /// next.
    ///
    /// A frame goes: wait for the slot's fence; acquire an image, again without limit of
    /// time; update the uniform buffer; reset the fence, which happens only now that an
    /// image is there, so that no fence is left unsignalled without work that will
    /// signal it; reset and record the command buffer; submit; present; go on to the
    /// next slot. Where the image cannot be acquired because the swapchain is out of
    /// date, the swapchain is rebuilt and the frame ends without having touched the
    /// fence or moved to the next slot. Where it was acquired with the hint that the
    /// swapchain is not the best fit, or presenting reports the swapchain out of date,
    /// the swapchain is rebuilt after presenting. Every other error ends the renderer's
    /// work.
    ///
    /// Rebuilding goes: wait for the device to be idle; ask the surface anew what it
    /// supports; release the old framebuffers, views and chain; create the chain, a view
    /// per image, a framebuffer per view.
    pub fn resume(&mut self, event: Event) -> (action: Action)
        requires
            old(self).wf(),
            old(self).expects(event),
        ensures
            final(self).wf(),
            Self::steps_to(*old(self), event, *final(self), action),
    {
        match event {
            Event::Done(Ok(())) => self.proceed(),
            Event::Done(Err(error)) => self.fail(error),
            Event::Acquired(Ok((index, suboptimal))) => {
                self.phase = Phase::UpdatingUniforms;
                self.image_index = index;
                self.suboptimal = suboptimal;
                Action::UpdateUniformBuffer {
                    frame: self.current_frame,
                    scene: update_uniform_buffer(),
                }
            },
            Event::Acquired(Err(error)) => {
                if out_of_date(&error) {
                    self.rebuild(After::SameFrame)
                } else {
                    self.fail(error)
                }
            },
            Event::Presented(Ok(_)) => {
                if self.suboptimal {
                    self.rebuild(After::NextFrame)
                } else {
                    self.phase = Phase::Idle;
                    self.current_frame = (self.current_frame + 1) % (MAX_FRAMES_IN_FLIGHT as usize);
                    Action::Finish(Ok(()))
                }
            },
            Event::Presented(Err(error)) => {
                if out_of_date(&error) {
                    self.rebuild(After::NextFrame)
                } else {
                    self.fail(error)
                }
            },
            Event::SurfaceQueried(Ok(details)) => {
                self.surface.details = details;
                self.phase = Phase::ReleasingSwapchain;
                Action::Release(self.swapchain.cleanup())
            },
            Event::SurfaceQueried(Err(error)) => self.fail(error),
            Event::SwapchainCreated(Ok((handle, images))) => {
                self.swapchain = Swapchain::new(handle, self.pending_settings, images);
                self.build_on()
            },
            Event::SwapchainCreated(Err(error)) => self.fail(error),
            Event::Created(Ok(handle)) => {
                match self.phase {
                    Phase::CreatingImageViews => {
                        self.swapchain.image_view_created(handle);
                    },
                    _ => {
                        self.swapchain.framebuffer_created(handle);
                    },
                }
                self.phase = Phase::CreatingSwapchain;
                self.build_on()
            },
            Event::Created(Err(error)) => self.fail(error),
        }
    }
}

/// Whether `error` says that the swapchain no longer fits the surface.
pub fn out_of_date(error: &VkAppError) -> (yes: bool)
    ensures
        yes == is_out_of_date(*error),
{
    match error {
        VkAppError::VkError(code) => *code == ERROR_OUT_OF_DATE_KHR,
        _ => false,
    }
}


/// One step of bringing the renderer up.
#[derive(Copy, Clone, Debug, PartialEq, Eq, Structural)]
pub enum StartupStep {
    CreateInstance,
    CreateDebugMessenger,
    CreateSurface,
    SelectPhysicalDevice,
    CreateLogicalDevice,
    GetQueues,
    CreateSwapchain,
    CreatePipeline,
    CreateFramebuffers,
    CreateCommandPool,
    CreateTextureImage,
    CreateTextureImageView,
    CreateTextureSampler,
    CreateVertexBuffer,
    CreateIndexBuffer,
    CreateUniformBuffers,
    CreateDescriptorPool,
    CreateDescriptorSets,
    CreateCommandBuffers,
    CreateSyncObjects,
}

/// The steps that bring the renderer up, in order: the connection to Vulkan and the
/// device, the swapchain, the pipeline, the texture and the buffers with their
/// descriptors, and last what the frames need to be told apart.
pub open spec fn startup_order() -> Seq<StartupStep> {
    seq![
        StartupStep::CreateInstance,
        StartupStep::CreateDebugMessenger,
        StartupStep::CreateSurface,
        StartupStep::SelectPhysicalDevice,
        StartupStep::CreateLogicalDevice,
        StartupStep::GetQueues,
        StartupStep::CreateSwapchain,
        StartupStep::CreatePipeline,
        StartupStep::CreateFramebuffers,
        StartupStep::CreateCommandPool,
        StartupStep::CreateTextureImage,
        StartupStep::CreateTextureImageView,
        StartupStep::CreateTextureSampler,
        StartupStep::CreateVertexBuffer,
        StartupStep::CreateIndexBuffer,
        StartupStep::CreateUniformBuffers,
        StartupStep::CreateDescriptorPool,
        StartupStep::CreateDescriptorSets,
        StartupStep::CreateCommandBuffers,
        StartupStep::CreateSyncObjects,
    ]
}

/// `step` works on what `earlier` made.
pub open spec fn needs(step: StartupStep, earlier: StartupStep) -> bool {
    match step {
        StartupStep::CreateInstance => false,
        StartupStep::CreateDebugMessenger | StartupStep::CreateSurface => earlier
            == StartupStep::CreateInstance,
        StartupStep::SelectPhysicalDevice => earlier == StartupStep::CreateInstance || earlier
            == StartupStep::CreateSurface,
        StartupStep::CreateLogicalDevice => earlier == StartupStep::SelectPhysicalDevice,
        StartupStep::GetQueues | StartupStep::CreateTextureSampler
        | StartupStep::CreateUniformBuffers | StartupStep::CreateDescriptorPool
        | StartupStep::CreateSyncObjects | StartupStep::CreateCommandPool => earlier
            == StartupStep::CreateLogicalDevice,
        StartupStep::CreateSwapchain => earlier == StartupStep::CreateLogicalDevice || earlier
            == StartupStep::CreateSurface,
        StartupStep::CreatePipeline => earlier == StartupStep::CreateSwapchain,
        StartupStep::CreateFramebuffers => earlier == StartupStep::CreateSwapchain || earlier
            == StartupStep::CreatePipeline,
        StartupStep::CreateTextureImage | StartupStep::CreateVertexBuffer
        | StartupStep::CreateIndexBuffer => earlier == StartupStep::CreateCommandPool || earlier
            == StartupStep::GetQueues,
        StartupStep::CreateTextureImageView => earlier == StartupStep::CreateTextureImage,
        StartupStep::CreateDescriptorSets => earlier == StartupStep::CreateDescriptorPool
            || earlier == StartupStep::CreateUniformBuffers || earlier
            == StartupStep::CreatePipeline || earlier == StartupStep::CreateTextureImageView
            || earlier == StartupStep::CreateTextureSampler,
        StartupStep::CreateCommandBuffers => earlier == StartupStep::CreateCommandPool,
    }
}

/// Lists the steps that bring the renderer up.
pub fn startup() -> (steps: Vec<StartupStep>)
    ensures
        steps@ == startup_order(),
{
    let mut steps: Vec<StartupStep> = Vec::new();
    steps.push(StartupStep::CreateInstance);
    steps.push(StartupStep::CreateDebugMessenger);
    steps.push(StartupStep::CreateSurface);
    steps.push(StartupStep::SelectPhysicalDevice);
    steps.push(StartupStep::CreateLogicalDevice);
    steps.push(StartupStep::GetQueues);
    steps.push(StartupStep::CreateSwapchain);
    steps.push(StartupStep::CreatePipeline);
    steps.push(StartupStep::CreateFramebuffers);
    steps.push(StartupStep::CreateCommandPool);
    steps.push(StartupStep::CreateTextureImage);
    steps.push(StartupStep::CreateTextureImageView);
    steps.push(StartupStep::CreateTextureSampler);
    steps.push(StartupStep::CreateVertexBuffer);
    steps.push(StartupStep::CreateIndexBuffer);
    steps.push(StartupStep::CreateUniformBuffers);
    steps.push(StartupStep::CreateDescriptorPool);
    steps.push(StartupStep::CreateDescriptorSets);
    steps.push(StartupStep::CreateCommandBuffers);
    steps.push(StartupStep::CreateSyncObjects);
    assert(steps@ =~= startup_order());
    steps
}

/// Where a step stands in the startup order.
pub open spec fn place_of(step: StartupStep) -> int {
    match step {
        StartupStep::CreateInstance => 0,
        StartupStep::CreateDebugMessenger => 1,
        StartupStep::CreateSurface => 2,
        StartupStep::SelectPhysicalDevice => 3,
        StartupStep::CreateLogicalDevice => 4,
        StartupStep::GetQueues => 5,
        StartupStep::CreateSwapchain => 6,
        StartupStep::CreatePipeline => 7,
        StartupStep::CreateFramebuffers => 8,
        StartupStep::CreateCommandPool => 9,
        StartupStep::CreateTextureImage => 10,
        StartupStep::CreateTextureImageView => 11,
        StartupStep::CreateTextureSampler => 12,
        StartupStep::CreateVertexBuffer => 13,
        StartupStep::CreateIndexBuffer => 14,
        StartupStep::CreateUniformBuffers => 15,
        StartupStep::CreateDescriptorPool => 16,
        StartupStep::CreateDescriptorSets => 17,
        StartupStep::CreateCommandBuffers => 18,
        StartupStep::CreateSyncObjects => 19,
    }
}

/// The startup order has every step once, and no step comes before one whose work it
/// needs.
pub proof fn lemma_startup_makes_things_before_they_are_needed()
    ensures
        startup_order().len() == 20,
        forall|step: StartupStep| #[trigger] startup_order()[place_of(step)] == step,
        forall|step: StartupStep, earlier: StartupStep| #[trigger]
            needs(step, earlier) ==> place_of(earlier) < place_of(step),
{
}

/// How to take the renderer down.
pub struct Teardown {
    /// Whether to wait first until the device has nothing in flight: yes, unless there
    /// is no device.
    pub wait_for_idle: bool,
    /// What to release, in order.
    pub releases: Vec<Release>,
}

/// For each buffer in turn the buffer, then its memory.
pub open spec fn buffer_releases(buffers: Seq<Buffer>) -> Seq<Release> {
    Seq::new(
        2 * buffers.len(),
        |k: int|
            if k % 2 == 0 {
                Release { kind: ObjectKind::Buffer, handle: buffers[k / 2].buffer }
            } else {
                Release { kind: ObjectKind::Memory, handle: buffers[k / 2].buffer_memory }
            },
    )
}

/// The objects that do not hang on the device, in the order they go: the device
/// itself, the surface, the debug messenger, the instance.
pub open spec fn root_releases(resources: Resources, surface: u64) -> Seq<Release> {
    seq![
        Release { kind: ObjectKind::Device, handle: resources.device },
        Release { kind: ObjectKind::Surface, handle: surface },
        Release { kind: ObjectKind::DebugMessenger, handle: resources.debug_callback },
        Release { kind: ObjectKind::Instance, handle: resources.instance },
    ]
}

/// The objects of the texture, in the order they go.
pub open spec fn texture_releases(resources: Resources) -> Seq<Release> {
    seq![
        Release { kind: ObjectKind::Sampler, handle: resources.texture_sampler },
        Release { kind: ObjectKind::ImageView, handle: resources.texture_image_view },
        Release { kind: ObjectKind::Image, handle: resources.texture_image },
        Release { kind: ObjectKind::Memory, handle: resources.texture_image_memory },
    ]
}

/// An object of this kind was created from the device.
pub open spec fn hangs_on_device(kind: ObjectKind) -> bool {
    kind != ObjectKind::Device && kind != ObjectKind::Surface && kind
        != ObjectKind::DebugMessenger && kind != ObjectKind::Instance
}

impl VkApp {
    /// Everything that was created from the device, in the order it goes: the
    /// swapchain with its framebuffers and views, the texture, the uniform buffers, the
    /// descriptor pool, the vertex and the index buffer, the pipeline, the sync objects,
    /// the command pool.
    pub open spec fn device_releases(&self) -> Seq<Release> {
        self.swapchain.release_order() + texture_releases(self.resources) + buffer_releases(
            self.resources.uniform_buffers@,
        ) + seq![
            Release { kind: ObjectKind::DescriptorPool, handle: self.resources.descriptor_pool },
        ] + self.resources.vertex_buffer.release_order()
            + self.resources.index_buffer.release_order()
            + self.resources.pipeline.release_order()
            + self.resources.sync_objects.release_order() + seq![
            Release { kind: ObjectKind::CommandPool, handle: self.resources.command_pool },
        ]
    }

    /// Everything the renderer owns, in the order it goes.
    pub open spec fn release_order(&self) -> Seq<Release> {
        self.device_releases() + root_releases(self.resources, self.surface.vk_surface)
    }

    /// Says how to take the renderer down: wait for the device, then release what was
    /// created from it, then the device, the surface, the debug messenger and the
    /// instance.
    pub fn teardown(&self) -> (teardown: Teardown)
        ensures
            teardown.wait_for_idle == (self.resources.device != 0),
            teardown.releases@ == self.release_order(),
    {
        let resources = &self.resources;
        let mut releases = self.swapchain.cleanup();
        releases.push(Release { kind: ObjectKind::Sampler, handle: resources.texture_sampler });
        releases.push(
            Release { kind: ObjectKind::ImageView, handle: resources.texture_image_view },
        );
        releases.push(Release { kind: ObjectKind::Image, handle: resources.texture_image });
        releases.push(Release { kind: ObjectKind::Memory, handle: resources.texture_image_memory });
        let ghost before_buffers = releases@;
        assert(before_buffers =~= self.swapchain.release_order() + texture_releases(
            self.resources,
        ));
        let mut i: usize = 0;
        while i < resources.uniform_buffers.len()
            invariant
                i <= resources.uniform_buffers.len(),
                releases@ == before_buffers + buffer_releases(
                    resources.uniform_buffers@.take(i as int),
                ),
            decreases resources.uniform_buffers.len() - i,
        {
            let buffer = resources.uniform_buffers[i];
            releases.push(Release { kind: ObjectKind::Buffer, handle: buffer.buffer });
            releases.push(Release { kind: ObjectKind::Memory, handle: buffer.buffer_memory });
            i += 1;
            assert(releases@ =~= before_buffers + buffer_releases(
                resources.uniform_buffers@.take(i as int),
            ));
        }
        assert(resources.uniform_buffers@.take(resources.uniform_buffers.len() as int)
            =~= resources.uniform_buffers@);
        releases.push(
            Release { kind: ObjectKind::DescriptorPool, handle: resources.descriptor_pool },
        );
        let mut vertex = resources.vertex_buffer.cleanup();
        releases.append(&mut vertex);
        let mut index = resources.index_buffer.cleanup();
        releases.append(&mut index);
        let mut pipeline = resources.pipeline.cleanup();
        releases.append(&mut pipeline);
        let mut sync = resources.sync_objects.cleanup();
        releases.append(&mut sync);
        releases.push(Release { kind: ObjectKind::CommandPool, handle: resources.command_pool });
        assert(releases@ =~= self.device_releases());
        releases.push(Release { kind: ObjectKind::Device, handle: resources.device });
        releases.push(Release { kind: ObjectKind::Surface, handle: self.surface.vk_surface });
        releases.push(
            Release { kind: ObjectKind::DebugMessenger, handle: resources.debug_callback },
        );
        releases.push(Release { kind: ObjectKind::Instance, handle: resources.instance });
        assert(releases@ =~= self.release_order());
        Teardown { wait_for_idle: resources.device != 0, releases }
    }
}

/// In the teardown everything that was created from the device goes before the
/// device, and the device goes before the surface, the debug messenger and the
/// instance, which goes last.
pub proof fn lemma_teardown_releases_children_first(app: VkApp)
    ensures
        forall|k: int|
            0 <= k < app.device_releases().len() ==> hangs_on_device(
                (#[trigger] app.release_order()[k]).kind,
            ),
        app.release_order().len() == app.device_releases().len() + 4,
        app.release_order().subrange(
            app.device_releases().len() as int,
            app.release_order().len() as int,
        ) == root_releases(app.resources, app.surface.vk_surface),
{
    let children = app.device_releases();
    let all = app.release_order();
    assert forall|k: int| 0 <= k < children.len() implies hangs_on_device(
        (#[trigger] all[k]).kind,
    ) by {
        assert(all[k] == children[k]);
        lemma_children_hang_on_device(app, k);
    }
    assert(all.subrange(children.len() as int, all.len() as int) =~= root_releases(
        app.resources,
        app.surface.vk_surface,
    ));
}

proof fn lemma_children_hang_on_device(app: VkApp, k: int)
    requires
        0 <= k < app.device_releases().len(),
    ensures
        hangs_on_device(app.device_releases()[k].kind),
{
    let a = app.swapchain.release_order();
    let b = texture_releases(app.resources);
    let c = buffer_releases(app.resources.uniform_buffers@);
    let d = seq![
        Release { kind: ObjectKind::DescriptorPool, handle: app.resources.descriptor_pool },
    ];
    let e = app.resources.vertex_buffer.release_order();
    let f = app.resources.index_buffer.release_order();
    let g = app.resources.pipeline.release_order();
    let h = app.resources.sync_objects.release_order();
    let i = seq![Release { kind: ObjectKind::CommandPool, handle: app.resources.command_pool }];
    assert(app.device_releases() == a + b + c + d + e + f + g + h + i);
    assert forall|j: int| 0 <= j < a.len() implies hangs_on_device((#[trigger] a[j]).kind) by {}
    assert forall|j: int| 0 <= j < h.len() implies hangs_on_device((#[trigger] h[j]).kind) by {}
    assert forall|j: int| 0 <= j < c.len() implies hangs_on_device((#[trigger] c[j]).kind) by {}
}


/// Every step keeps the renderer's state consistent.
pub proof fn lemma_step_keeps_state_consistent(
    old: VkApp,
    event: Event,
    new: VkApp,
    action: Action,
)
    requires
        old.wf(),
        old.expects(event),
        VkApp::steps_to(old, event, new, action),
    ensures
        new.wf(),
{
    assert(old.current_frame + 1 <= 2);
}

/// The slots take turns: the slot after a slot is another one, and the slot after
/// that is the first again.
pub proof fn lemma_slots_take_turns(frame: usize)
    requires
        frame < MAX_FRAMES_IN_FLIGHT,
    ensures
        next_frame(frame) < MAX_FRAMES_IN_FLIGHT,
        next_frame(frame) != frame,
        next_frame(next_frame(frame)) == frame,
{
}

/// The renderer is rebuilding the swapchain.
pub open spec fn is_rebuilding(phase: Phase) -> bool {
    phase == Phase::WaitingForIdle || phase == Phase::ReleasingSwapchain || phase
        == Phase::QueryingSurface || phase == Phase::CreatingSwapchain || phase
        == Phase::CreatingImageViews || phase == Phase::CreatingFramebuffers
}

/// The current slot changes only when the renderer comes to rest after a frame was
/// presented, and then to the next slot.
pub proof fn lemma_slot_moves_on_only_after_presenting(
    old: VkApp,
    event: Event,
    new: VkApp,
    action: Action,
)
    requires
        old.wf(),
        old.expects(event),
        VkApp::steps_to(old, event, new, action),
    ensures
        new.current_frame == old.current_frame || {
            &&& new.current_frame == next_frame(old.current_frame)
            &&& new.phase == Phase::Idle
            &&& old.phase == Phase::Presenting || (is_rebuilding(old.phase) && old.after
                == After::NextFrame)
        },
        new.phase == Phase::Idle && (old.phase == Phase::Presenting || (is_rebuilding(old.phase)
            && old.after == After::NextFrame)) ==> new.current_frame == next_frame(
            old.current_frame,
        ),
{
}

/// A fence is only ever waited for while it is armed: between frames, when the wait
/// begins, every slot's fence is signalled or has work submitted that will signal it.
/// A step disarms the current slot's fence exactly when the fence was reset, and arms
/// it again exactly when the frame's work was submitted; no other step touches a fence.
/// In between only an error can end the frame, and then the renderer waits no more.
pub proof fn lemma_fences_are_armed_when_waited_for(
    old: VkApp,
    event: Event,
    new: VkApp,
    action: Action,
)
    requires
        old.wf(),
        old.expects(event),
        VkApp::steps_to(old, event, new, action),
    ensures
        !(action is WaitForFence),
        new.phase == Phase::Idle ==> forall|slot: int|
            0 <= slot < MAX_FRAMES_IN_FLIGHT ==> #[trigger] new.fences_armed@[slot],
        action is ResetCommandBuffer ==> old.phase == Phase::ResettingFence && new.fences_armed@
            == old.fences_armed@.update(old.current_frame as int, false),
        action is Present ==> old.phase == Phase::Submitting && new.fences_armed@
            == old.fences_armed@.update(old.current_frame as int, true),
        !(action is ResetCommandBuffer) && !(action is Present) ==> new.fences_armed
            == old.fences_armed,
        action is ResetFence ==> old.phase == Phase::UpdatingUniforms,
{
    lemma_step_keeps_state_consistent(old, event, new, action);
}

/// Where no image can be acquired because the swapchain is out of date, the renderer
/// sets out to rebuild the swapchain; it stays in the same slot and touches no fence.
/// And as long as it rebuilds it touches no fence, and after such a frame it ends in
/// the same slot.
pub proof fn lemma_out_of_date_image_costs_no_frame(
    old: VkApp,
    event: Event,
    new: VkApp,
    action: Action,
)
    requires
        old.wf(),
        old.expects(event),
        VkApp::steps_to(old, event, new, action),
    ensures
        old.phase == Phase::AcquiringImage && (event matches Event::Acquired(Err(error))
            && is_out_of_date(error)) ==> {
            &&& action is WaitIdle
            &&& new == (VkApp { phase: Phase::WaitingForIdle, after: After::SameFrame, ..old })
        },
        is_rebuilding(old.phase) ==> {
            &&& new.fences_armed == old.fences_armed
            &&& new.after == old.after
            &&& !(action is ResetFence) && !(action is WaitForFence) && !(action is Submit)
            &&& is_rebuilding(new.phase) || new.phase == Phase::Failed || new.phase
                == Phase::Idle
            &&& old.after == After::SameFrame ==> new.current_frame == old.current_frame
            &&& new.phase == Phase::Idle ==> action == Action::Finish(Ok(()))
        },
{
}

/// Whenever the renderer comes to rest after rebuilding the swapchain, the swapchain
/// has as many views as images and as many framebuffers as views.
pub proof fn lemma_rebuilt_swapchain_is_complete(
    old: VkApp,
    event: Event,
    new: VkApp,
    action: Action,
)
    requires
        old.wf(),
        old.expects(event),
        VkApp::steps_to(old, event, new, action),
        new.phase == Phase::Idle,
    ensures
        new.swapchain.image_views@.len() == new.swapchain.images@.len(),
        new.swapchain.framebuffers@.len() == new.swapchain.images@.len(),
{
    lemma_step_keeps_state_consistent(old, event, new, action);
}


/// The `i`-th step of a run: the renderer in the `i`-th state takes the `i`-th event,
/// answers with the `i`-th action and is then in the next state.
pub open spec fn is_step(
    states: Seq<VkApp>,
    events: Seq<Event>,
    actions: Seq<Action>,
    i: int,
) -> bool {
    &&& states[i].expects(events[i])
    &&& VkApp::steps_to(states[i], events[i], states[i + 1], actions[i])
}

/// A run of the renderer from a consistent state: each state comes from the one
/// before by a step.
pub open spec fn is_run(states: Seq<VkApp>, events: Seq<Event>, actions: Seq<Action>) -> bool {
    &&& states.len() == events.len() + 1
    &&& actions.len() == events.len()
    &&& states[0].wf()
    &&& forall|i: int| 0 <= i < events.len() ==> is_step(states, events, actions, i)
}

/// A run that rebuilds the swapchain: it starts with the wait for the device and ends
/// with the renderer at rest.
pub open spec fn is_rebuild(states: Seq<VkApp>, events: Seq<Event>, actions: Seq<Action>) -> bool {
    &&& is_run(states, events, actions)
    &&& states[0].phase == Phase::WaitingForIdle
    &&& states.last().phase == Phase::Idle
}

/// Every state of a run is consistent.
pub proof fn lemma_run_is_consistent(
    states: Seq<VkApp>,
    events: Seq<Event>,
    actions: Seq<Action>,
    k: int,
)
    requires
        is_run(states, events, actions),
        0 <= k < states.len(),
    ensures
        states[k].wf(),
    decreases k,
{
    if k > 0 {
        lemma_run_is_consistent(states, events, actions, k - 1);
        assert(is_step(states, events, actions, k - 1));
        lemma_step_keeps_state_consistent(
            states[k - 1],
            events[k - 1],
            states[k],
            actions[k - 1],
        );
    }
}

/// A state that a step of a run starts from is neither one of failure nor one of rest.
proof fn lemma_run_goes_on(states: Seq<VkApp>, events: Seq<Event>, actions: Seq<Action>, k: int)
    requires
        is_run(states, events, actions),
        0 <= k < states.len() - 1,
    ensures
        states[k].phase != Phase::Failed,
        states[k].phase != Phase::Idle,
{
    assert(is_step(states, events, actions, k));
}

/// From the creation of the chain on, a rebuild keeps the chain, its images and its
/// settings, and it ends with the swapchain complete.
proof fn lemma_building_keeps_the_chain(
    states: Seq<VkApp>,
    events: Seq<Event>,
    actions: Seq<Action>,
    k: int,
)
    requires
        is_rebuild(states, events, actions),
        4 <= k < states.len(),
        states[3].phase == Phase::CreatingSwapchain,
    ensures
        states[k].phase == Phase::CreatingImageViews || states[k].phase
            == Phase::CreatingFramebuffers || states[k].phase == Phase::Idle,
        states[k].swapchain.settings == states[3].pending_settings,
        states[k].swapchain.vk_swapchain == states[4].swapchain.vk_swapchain,
        states[k].swapchain.images == states[4].swapchain.images,
        states[k].window_width == states[3].window_width,
        states[k].window_height == states[3].window_height,
    decreases k,
{
    lemma_run_is_consistent(states, events, actions, k - 1);
    assert(is_step(states, events, actions, k - 1));
    if k == 4 {
        if states.len() > 5 {
            lemma_run_goes_on(states, events, actions, 4);
        }
    } else {
        lemma_building_keeps_the_chain(states, events, actions, k - 1);
        lemma_run_goes_on(states, events, actions, k - 1);
        if k < states.len() - 1 {
            lemma_run_goes_on(states, events, actions, k);
        }
    }
}

/// What a rebuild of the swapchain comes to.
///
/// It releases everything the old swapchain held: its framebuffers, its views, the
/// chain; after that the renderer holds none of it. The new swapchain has the settings
/// that were chosen for what the surface reported during the rebuild and for the
/// window's size, whatever the old swapchain was like. It is the chain that was created,
/// with the images that came with it, and it is complete.
pub proof fn lemma_rebuild_depends_on_the_surface_alone(
    states: Seq<VkApp>,
    events: Seq<Event>,
    actions: Seq<Action>,
)
    requires
        is_rebuild(states, events, actions),
    ensures
        events.len() >= 4,
        actions[1] matches Action::Release(releases) && releases@
            == states[0].swapchain.release_order(),
        is_released(states[3].swapchain),
        events[1] matches Event::SurfaceQueried(Ok(details)) && chosen_settings(
            details,
            states[0].window_width,
            states[0].window_height,
        ) == Some(states.last().swapchain.settings),
        events[3] matches Event::SwapchainCreated(Ok((handle, images)))
            && states.last().swapchain.vk_swapchain == handle && states.last().swapchain.images
            == images,
        states.last().swapchain.is_complete(),
        states.last().current_frame == (if states[0].after == After::NextFrame {
            next_frame(states[0].current_frame)
        } else {
            states[0].current_frame
        }),
{
    let last = states.len() - 1;
    assert(states.last() == states[last]);
    lemma_run_is_consistent(states, events, actions, last);
    assert(last >= 1);
    assert(is_step(states, events, actions, 0));
    if last > 1 {
        lemma_run_goes_on(states, events, actions, 1);
    }
    assert(last >= 2);
    lemma_run_is_consistent(states, events, actions, 1);
    assert(is_step(states, events, actions, 1));
    if last > 2 {
        lemma_run_goes_on(states, events, actions, 2);
    }
    assert(last >= 3);
    lemma_run_is_consistent(states, events, actions, 2);
    assert(is_step(states, events, actions, 2));
    if last > 3 {
        lemma_run_goes_on(states, events, actions, 3);
    }
    assert(last >= 4);
    lemma_run_is_consistent(states, events, actions, 3);
    assert(is_step(states, events, actions, 3));
    if last > 4 {
        lemma_run_goes_on(states, events, actions, 4);
    }
    lemma_building_keeps_the_chain(states, events, actions, last);
    lemma_slot_is_kept_while_rebuilding(states, events, actions, last);
}

/// While the swapchain is rebuilt the slot stays; at the end it moves on if a frame
/// was presented.
proof fn lemma_slot_is_kept_while_rebuilding(
    states: Seq<VkApp>,
    events: Seq<Event>,
    actions: Seq<Action>,
    k: int,
)
    requires
        is_rebuild(states, events, actions),
        0 <= k < states.len(),
    ensures
        states[k].after == states[0].after,
        k < states.len() - 1 ==> is_rebuilding(states[k].phase) && states[k].current_frame
            == states[0].current_frame,
        k == states.len() - 1 ==> states[k].current_frame == (if states[0].after
            == After::NextFrame {
            next_frame(states[0].current_frame)
        } else {
            states[0].current_frame
        }),
    decreases k,
{
    if k > 0 {
        lemma_slot_is_kept_while_rebuilding(states, events, actions, k - 1);
        lemma_run_is_consistent(states, events, actions, k - 1);
        assert(is_step(states, events, actions, k - 1));
        if k < states.len() - 1 {
            lemma_run_goes_on(states, events, actions, k);
        }
    } else {
        assert(states.len() >= 2) by {
            if states.len() == 1 {
                assert(states.last() == states[0]);
            }
        }
    }
}

/// Rebuilding the swapchain twice in a row comes to the same as rebuilding it once:
/// where the surface reports the same both times and the window keeps its size, the
/// second swapchain has the extent, the format and the present mode of the first. And
/// the second rebuild releases everything the first one built.
pub proof fn lemma_rebuilding_twice_is_rebuilding_once(
    first_states: Seq<VkApp>,
    first_events: Seq<Event>,
    first_actions: Seq<Action>,
    second_states: Seq<VkApp>,
    second_events: Seq<Event>,
    second_actions: Seq<Action>,
)
    requires
        is_rebuild(first_states, first_events, first_actions),
        is_rebuild(second_states, second_events, second_actions),
        second_states[0] == (VkApp {
            phase: Phase::WaitingForIdle,
            after: After::SameFrame,
            ..first_states.last()
        }),
        first_events.len() > 1 && second_events.len() > 1 ==> first_events[1] == second_events[1],
    ensures
        second_states.last().swapchain.settings == first_states.last().swapchain.settings,
        second_actions[1] matches Action::Release(releases) && releases@
            == first_states.last().swapchain.release_order(),
{
    lemma_rebuild_depends_on_the_surface_alone(first_states, first_events, first_actions);
    lemma_rebuild_depends_on_the_surface_alone(second_states, second_events, second_actions);
    let last = first_states.len() - 1;
    assert(first_states.last() == first_states[last]);
    lemma_window_is_kept(first_states, first_events, first_actions, last);
}

/// No step changes what the renderer knows of the window's size.
proof fn lemma_window_is_kept(
    states: Seq<VkApp>,
    events: Seq<Event>,
    actions: Seq<Action>,
    k: int,
)
    requires
        is_run(states, events, actions),
        0 <= k < states.len(),
    ensures
        states[k].window_width == states[0].window_width,
        states[k].window_height == states[0].window_height,
    decreases k,
{
    if k > 0 {
        lemma_window_is_kept(states, events, actions, k - 1);
        lemma_run_is_consistent(states, events, actions, k - 1);
        assert(is_step(states, events, actions, k - 1));
    }
}

} // verus!
