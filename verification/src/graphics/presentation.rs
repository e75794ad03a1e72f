//! The presentation surface and the swapchain built on it.

use crate::graphics::constants::{
    COLOR_SPACE_SRGB_NONLINEAR, COMPONENT_SWIZZLE_IDENTITY, COMPOSITE_ALPHA_OPAQUE,
    FORMAT_B8G8R8A8_SRGB, IMAGE_ASPECT_COLOR, IMAGE_USAGE_COLOR_ATTACHMENT, IMAGE_VIEW_TYPE_2D,
    PRESENT_MODE_FIFO, PRESENT_MODE_MAILBOX, SHARING_MODE_CONCURRENT, SHARING_MODE_EXCLUSIVE,
};
use crate::graphics::device::SupportedPhysicalDevice;
use crate::graphics::errors::VkAppError;
use crate::graphics::release::{push_releases, releases_of, ObjectKind, Release};
use vstd::prelude::*;
use vstd::string::StringExecFns;

verus! {

/// Width and height in pixels.
#[derive(Copy, Clone, Debug, PartialEq, Eq, Structural)]
pub struct Extent2D {
    pub width: u32,
    pub height: u32,
}

/// A pixel format together with the colour space it is shown in, both as raw Vulkan values.
#[derive(Copy, Clone, Debug, PartialEq, Eq, Structural)]
pub struct SurfaceFormat {
    pub format: i32,
    pub color_space: i32,
}

/// What a surface can do on one device.
#[derive(Copy, Clone, Debug, PartialEq, Eq, Structural)]
pub struct SurfaceCapabilities {
    pub min_image_count: u32,
    /// Zero when the surface sets no upper limit.
    pub max_image_count: u32,
    /// `u32::MAX` in either dimension when the surface leaves the size to the swapchain.
    pub current_extent: Extent2D,
    pub min_image_extent: Extent2D,
    pub max_image_extent: Extent2D,
    /// Raw `VkSurfaceTransformFlagBitsKHR` bit.
    pub current_transform: u32,
}

/// Everything the surface reports about itself. Queried anew whenever the swapchain
/// is built, because a resize or a move to another display changes it.
#[derive(Clone, Debug)]
pub struct SurfaceDetails {
    pub capabilities: SurfaceCapabilities,
    pub formats: Vec<SurfaceFormat>,
    pub present_modes: Vec<i32>,
}

/// The surface the renderer presents to, with what it last reported.
pub struct Surface {
    pub vk_surface: u64,
    pub details: SurfaceDetails,
}

/// The format the renderer would like best: 8-bit BGRA, sRGB encoded, shown as non-linear sRGB.
pub open spec fn preferred_format() -> SurfaceFormat {
    SurfaceFormat { format: FORMAT_B8G8R8A8_SRGB, color_space: COLOR_SPACE_SRGB_NONLINEAR }
}

impl SurfaceCapabilities {
    /// The surface did not fix the size of its images.
    pub open spec fn extent_is_undefined(&self) -> bool {
        self.current_extent.height == u32::MAX || self.current_extent.width == u32::MAX
    }

    /// The smallest allowed extent is no larger than the largest one.
    pub open spec fn extent_bounds_ordered(&self) -> bool {
        &&& self.min_image_extent.width <= self.max_image_extent.width
        &&& self.min_image_extent.height <= self.max_image_extent.height
    }
}

impl SurfaceDetails {
    /// At least one format and one present mode are on offer.
    pub open spec fn is_usable(&self) -> bool {
        self.formats@.len() > 0 && self.present_modes@.len() > 0
    }
}

/// Text of the error for a surface without formats.
pub open spec fn no_formats_text() -> Seq<char> {
    "Device does not have any supported surface formats"@
}

/// Text of the error for a surface without present modes.
pub open spec fn no_present_modes_text() -> Seq<char> {
    "Device does not have any supported surface present modes"@
}

/// What [`get_surface_details`] returns.
pub open spec fn surface_details_outcome(
    formats: Result<Vec<SurfaceFormat>, VkAppError>,
    present_modes: Result<Vec<i32>, VkAppError>,
    capabilities: Result<SurfaceCapabilities, VkAppError>,
    result: Result<SurfaceDetails, VkAppError>,
) -> bool {
    match formats {
        Err(error) => result == Err::<SurfaceDetails, VkAppError>(error),
        Ok(formats) => if formats@.len() == 0 {
            result matches Err(VkAppError::DeviceError(text)) && text@ == no_formats_text()
        } else {
            match present_modes {
                Err(error) => result == Err::<SurfaceDetails, VkAppError>(error),
                Ok(present_modes) => if present_modes@.len() == 0 {
                    result matches Err(VkAppError::DeviceError(text)) && text@
                        == no_present_modes_text()
                } else {
                    match capabilities {
                        Err(error) => result == Err::<SurfaceDetails, VkAppError>(error),
                        Ok(capabilities) => result == Ok::<SurfaceDetails, VkAppError>(
                            SurfaceDetails { capabilities, formats, present_modes },
                        ),
                    }
                },
            }
        },
    }
}

/// Puts together what a device reports about the surface, from the outcomes of the
/// three queries. They count in the order formats, present modes, capabilities: the
/// first failed query gives the error, and an empty list of formats or of present
/// modes is a device error that hides any later failure.
pub fn get_surface_details(
    formats: Result<Vec<SurfaceFormat>, VkAppError>,
    present_modes: Result<Vec<i32>, VkAppError>,
    capabilities: Result<SurfaceCapabilities, VkAppError>,
) -> (result: Result<SurfaceDetails, VkAppError>)
    ensures
        surface_details_outcome(formats, present_modes, capabilities, result),
        result matches Ok(details) ==> details.is_usable(),
{
    let formats = match formats {
        Ok(formats) => formats,
        Err(error) => {
            return Err(error);
        },
    };
    if formats.len() == 0 {
        return Err(
            VkAppError::DeviceError(
                String::from_str("Device does not have any supported surface formats"),
            ),
        );
    }
    let present_modes = match present_modes {
        Ok(present_modes) => present_modes,
        Err(error) => {
            return Err(error);
        },
    };
    if present_modes.len() == 0 {
        return Err(
            VkAppError::DeviceError(
                String::from_str("Device does not have any supported surface present modes"),
            ),
        );
    }
    match capabilities {
        Ok(capabilities) => Ok(SurfaceDetails { capabilities, formats, present_modes }),
        Err(error) => Err(error),
    }
}


/// The settings a swapchain is built with.
#[derive(Copy, Clone, Debug, PartialEq, Eq, Structural)]
pub struct SwapchainSettings {
    pub extent: Extent2D,
    pub format: SurfaceFormat,
    pub present_mode: i32,
}

/// A signed window dimension read as unsigned, as a cast does: values below zero wrap around.
pub open spec fn window_dimension(size: i32) -> u32 {
    if size >= 0 {
        size as u32
    } else {
        (size + 0x1_0000_0000) as u32
    }
}

/// `value` brought into `low ..= high`.
pub open spec fn clamped(value: u32, low: u32, high: u32) -> u32 {
    if value < low {
        low
    } else if value > high {
        high
    } else {
        value
    }
}

/// The extent of the swapchain's images: what the surface reports, or, where it leaves
/// the choice open, the window's size brought within the surface's limits.
pub open spec fn chosen_extent(
    capabilities: SurfaceCapabilities,
    window_width: i32,
    window_height: i32,
) -> Extent2D {
    if capabilities.extent_is_undefined() {
        Extent2D {
            width: clamped(
                window_dimension(window_width),
                capabilities.min_image_extent.width,
                capabilities.max_image_extent.width,
            ),
            height: clamped(
                window_dimension(window_height),
                capabilities.min_image_extent.height,
                capabilities.max_image_extent.height,
            ),
        }
    } else {
        capabilities.current_extent
    }
}

/// The preferred format where the surface offers it, else the first one it offers.
pub open spec fn chosen_format(formats: Seq<SurfaceFormat>) -> SurfaceFormat {
    if formats.contains(preferred_format()) {
        preferred_format()
    } else {
        formats[0]
    }
}

/// Mailbox where the surface offers it, else FIFO, else nothing.
pub open spec fn chosen_present_mode(present_modes: Seq<i32>) -> Option<i32> {
    if present_modes.contains(PRESENT_MODE_MAILBOX) {
        Some(PRESENT_MODE_MAILBOX)
    } else if present_modes.contains(PRESENT_MODE_FIFO) {
        Some(PRESENT_MODE_FIFO)
    } else {
        None
    }
}

/// Text of the error for a surface that offers neither mailbox nor FIFO.
pub open spec fn no_acceptable_present_mode_text() -> Seq<char> {
    "Failed to find acceptable supported present mode"@
}

fn window_dimension_of(size: i32) -> (dimension: u32)
    ensures
        dimension == window_dimension(size),
{
    if size >= 0 {
        size as u32
    } else {
        let wrapped: i64 = size as i64 + 0x1_0000_0000i64;
        wrapped as u32
    }
}

fn clamp(value: u32, low: u32, high: u32) -> (result: u32)
    ensures
        result == clamped(value, low, high),
{
    if value < low {
        low
    } else if value > high {
        high
    } else {
        value
    }
}

/// Whether `present_modes` holds `mode`.
fn offers_present_mode(present_modes: &Vec<i32>, mode: i32) -> (found: bool)
    ensures
        found == present_modes@.contains(mode),
{
    let mut i: usize = 0;
    while i < present_modes.len()
        invariant
            i <= present_modes.len(),
            forall|j: int| 0 <= j < i ==> present_modes@[j] != mode,
        decreases present_modes.len() - i,
    {
        if present_modes[i] == mode {
            return true;
        }
        i += 1;
    }
    false
}

/// Whether `formats` holds the preferred format.
fn offers_preferred_format(formats: &Vec<SurfaceFormat>) -> (found: bool)
    ensures
        found == formats@.contains(preferred_format()),
{
    let mut i: usize = 0;
    while i < formats.len()
        invariant
            i <= formats.len(),
            forall|j: int| 0 <= j < i ==> formats@[j] != preferred_format(),
        decreases formats.len() - i,
    {
        if formats[i].format == FORMAT_B8G8R8A8_SRGB && formats[i].color_space
            == COLOR_SPACE_SRGB_NONLINEAR {
            return true;
        }
        i += 1;
    }
    false
}

/// Chooses extent, format and present mode for a swapchain on a surface that reported
/// `surface_details`, in a window whose client area was last `window_width` by
/// `window_height`.
///
/// Fails only where the surface offers neither mailbox nor FIFO presentation.
pub fn get_swapchain_settings(
    surface_details: &SurfaceDetails,
    window_width: i32,
    window_height: i32,
) -> (result: Result<SwapchainSettings, VkAppError>)
    requires
        surface_details.formats@.len() > 0,
        surface_details.capabilities.extent_is_undefined()
            ==> surface_details.capabilities.extent_bounds_ordered(),
    ensures
        match chosen_settings(*surface_details, window_width, window_height) {
            Some(settings) => result == Ok::<SwapchainSettings, VkAppError>(settings),
            None => result matches Err(VkAppError::DeviceError(text)) && text@
                == no_acceptable_present_mode_text(),
        },
{
    let capabilities = &surface_details.capabilities;
    let mut extent = capabilities.current_extent;
    if extent.height == u32::MAX || extent.width == u32::MAX {
        extent.width =
        clamp(
            window_dimension_of(window_width),
            capabilities.min_image_extent.width,
            capabilities.max_image_extent.width,
        );
        extent.height =
        clamp(
            window_dimension_of(window_height),
            capabilities.min_image_extent.height,
            capabilities.max_image_extent.height,
        );
    }
    let format = if offers_preferred_format(&surface_details.formats) {
        SurfaceFormat { format: FORMAT_B8G8R8A8_SRGB, color_space: COLOR_SPACE_SRGB_NONLINEAR }
    } else {
        surface_details.formats[0]
    };
    let present_modes = &surface_details.present_modes;
    let present_mode = if offers_present_mode(present_modes, PRESENT_MODE_MAILBOX) {
        PRESENT_MODE_MAILBOX
    } else if offers_present_mode(present_modes, PRESENT_MODE_FIFO) {
        PRESENT_MODE_FIFO
    } else {
        return Err(
            VkAppError::DeviceError(
                String::from_str("Failed to find acceptable supported present mode"),
            ),
        );
    };
    Ok(SwapchainSettings { extent, format, present_mode })
}


/// The create-info of a swapchain.
#[derive(Clone, Debug)]
pub struct SwapchainRequest {
    pub settings: SwapchainSettings,
    pub surface: u64,
    pub min_image_count: u32,
    pub image_array_layers: u32,
    pub image_usage: u32,
    pub pre_transform: u32,
    pub composite_alpha: u32,
    pub clipped: bool,
    /// Handle of the swapchain this one replaces; zero for none.
    pub old_swapchain: u64,
    pub image_sharing_mode: i32,
    /// The families that share the images; empty where one family owns them.
    pub queue_family_indices: Vec<u32>,
}

/// One image more than the surface needs at least, so that the renderer need not wait
/// for the driver to hand an image back; but never more than the surface allows.
pub open spec fn requested_image_count(capabilities: SurfaceCapabilities) -> int {
    let wanted = capabilities.min_image_count + 1;
    if capabilities.max_image_count > 0 && wanted > capabilities.max_image_count {
        capabilities.max_image_count as int
    } else {
        wanted
    }
}

/// Exclusive where one family both draws and presents, else concurrent.
pub open spec fn chosen_sharing_mode(device: SupportedPhysicalDevice) -> i32 {
    if device.graphics_family_index == device.present_family_index {
        SHARING_MODE_EXCLUSIVE
    } else {
        SHARING_MODE_CONCURRENT
    }
}

/// The families named in the request: none for exclusive use, else graphics then present.
pub open spec fn sharing_families(device: SupportedPhysicalDevice) -> Seq<u32> {
    if device.graphics_family_index == device.present_family_index {
        Seq::empty()
    } else {
        seq![device.graphics_family_index, device.present_family_index]
    }
}

/// The settings [`get_swapchain_settings`] chooses where the surface offers mailbox or
/// FIFO presentation.
pub open spec fn chosen_settings(
    details: SurfaceDetails,
    window_width: i32,
    window_height: i32,
) -> Option<SwapchainSettings> {
    match chosen_present_mode(details.present_modes@) {
        Some(present_mode) => Some(
            SwapchainSettings {
                extent: chosen_extent(details.capabilities, window_width, window_height),
                format: chosen_format(details.formats@),
                present_mode,
            },
        ),
        None => None,
    }
}

/// `request` asks for the swapchain with `settings` on `surface` for `physical_device`.
///
/// The images are colour attachments with one layer, opaque, clipped, in the surface's
/// current transform; no earlier swapchain is handed over.
pub open spec fn is_swapchain_request(
    physical_device: SupportedPhysicalDevice,
    surface: Surface,
    settings: SwapchainSettings,
    request: SwapchainRequest,
) -> bool {
    &&& request.settings == settings
    &&& request.surface == surface.vk_surface
    &&& request.min_image_count == requested_image_count(surface.details.capabilities)
    &&& request.image_array_layers == 1
    &&& request.image_usage == IMAGE_USAGE_COLOR_ATTACHMENT
    &&& request.pre_transform == surface.details.capabilities.current_transform
    &&& request.composite_alpha == COMPOSITE_ALPHA_OPAQUE
    &&& request.clipped
    &&& request.old_swapchain == 0
    &&& request.image_sharing_mode == chosen_sharing_mode(physical_device)
    &&& request.queue_family_indices@ == sharing_families(physical_device)
}

impl SurfaceDetails {
    /// A swapchain can be described for the surface: it offers a format, leaves room
    /// for one image more than it needs, and, where it leaves the extent open, its
    /// smallest extent is no larger than its largest.
    pub open spec fn is_buildable(&self) -> bool {
        &&& self.formats@.len() > 0
        &&& self.capabilities.extent_is_undefined() ==> self.capabilities.extent_bounds_ordered()
        &&& self.capabilities.min_image_count < u32::MAX
    }

    /// Whether a swapchain can be described for the surface.
    pub fn buildable(&self) -> (yes: bool)
        ensures
            yes == self.is_buildable(),
    {
        let capabilities = &self.capabilities;
        let undefined = capabilities.current_extent.height == u32::MAX
            || capabilities.current_extent.width == u32::MAX;
        let ordered = capabilities.min_image_extent.width <= capabilities.max_image_extent.width
            && capabilities.min_image_extent.height <= capabilities.max_image_extent.height;
        self.formats.len() > 0 && (!undefined || ordered) && capabilities.min_image_count
            < u32::MAX
    }
}

/// Describes the swapchain to create for `surface` on `physical_device`, in a window
/// whose client area was last `window_width` by `window_height`.
///
/// Fails only where the surface offers neither mailbox nor FIFO presentation.
pub fn create_swapchain(
    physical_device: &SupportedPhysicalDevice,
    surface: &Surface,
    window_width: i32,
    window_height: i32,
) -> (result: Result<SwapchainRequest, VkAppError>)
    requires
        surface.details.is_buildable(),
    ensures
        match chosen_settings(surface.details, window_width, window_height) {
            Some(settings) => result matches Ok(request) && is_swapchain_request(
                *physical_device,
                *surface,
                settings,
                request,
            ),
            None => result matches Err(VkAppError::DeviceError(text)) && text@
                == no_acceptable_present_mode_text(),
        },
{
    let settings = match get_swapchain_settings(&surface.details, window_width, window_height) {
        Ok(settings) => settings,
        Err(error) => {
            return Err(error);
        },
    };
    let capabilities = &surface.details.capabilities;
    let mut image_count = capabilities.min_image_count + 1;
    if capabilities.max_image_count > 0 && image_count > capabilities.max_image_count {
        image_count = capabilities.max_image_count;
    }
    let mut image_sharing_mode = SHARING_MODE_EXCLUSIVE;
    let mut queue_family_indices: Vec<u32> = Vec::new();
    if physical_device.graphics_family_index != physical_device.present_family_index {
        image_sharing_mode = SHARING_MODE_CONCURRENT;
        queue_family_indices.push(physical_device.graphics_family_index);
        queue_family_indices.push(physical_device.present_family_index);
    }
    assert(queue_family_indices@ =~= sharing_families(*physical_device));
    Ok(
        SwapchainRequest {
            settings,
            surface: surface.vk_surface,
            min_image_count: image_count,
            image_array_layers: 1,
            image_usage: IMAGE_USAGE_COLOR_ATTACHMENT,
            pre_transform: capabilities.current_transform,
            composite_alpha: COMPOSITE_ALPHA_OPAQUE,
            clipped: true,
            old_swapchain: 0,
            image_sharing_mode,
            queue_family_indices,
        },
    )
}

/// The create-info of a view of one image.
#[derive(Copy, Clone, Debug, PartialEq, Eq, Structural)]
pub struct ImageViewRequest {
    pub image: u64,
    pub view_type: i32,
    pub format: i32,
    pub swizzle_r: i32,
    pub swizzle_g: i32,
    pub swizzle_b: i32,
    pub swizzle_a: i32,
    pub aspect_mask: u32,
    pub base_mip_level: u32,
    pub level_count: u32,
    pub base_array_layer: u32,
    pub layer_count: u32,
}

/// A two-dimensional view of the colour of `image` in `format`: every component where it
/// is, the first mip level and the first array layer only.
pub open spec fn color_view_of(image: u64, format: i32) -> ImageViewRequest {
    ImageViewRequest {
        image,
        view_type: IMAGE_VIEW_TYPE_2D,
        format,
        swizzle_r: COMPONENT_SWIZZLE_IDENTITY,
        swizzle_g: COMPONENT_SWIZZLE_IDENTITY,
        swizzle_b: COMPONENT_SWIZZLE_IDENTITY,
        swizzle_a: COMPONENT_SWIZZLE_IDENTITY,
        aspect_mask: IMAGE_ASPECT_COLOR,
        base_mip_level: 0,
        level_count: 1,
        base_array_layer: 0,
        layer_count: 1,
    }
}

/// Describes the plain colour view of `image` in `format`.
pub fn color_image_view(image: u64, format: i32) -> (request: ImageViewRequest)
    ensures
        request == color_view_of(image, format),
{
    ImageViewRequest {
        image,
        view_type: IMAGE_VIEW_TYPE_2D,
        format,
        swizzle_r: COMPONENT_SWIZZLE_IDENTITY,
        swizzle_g: COMPONENT_SWIZZLE_IDENTITY,
        swizzle_b: COMPONENT_SWIZZLE_IDENTITY,
        swizzle_a: COMPONENT_SWIZZLE_IDENTITY,
        aspect_mask: IMAGE_ASPECT_COLOR,
        base_mip_level: 0,
        level_count: 1,
        base_array_layer: 0,
        layer_count: 1,
    }
}

/// The create-info of a framebuffer with a single attachment.
#[derive(Copy, Clone, Debug, PartialEq, Eq, Structural)]
pub struct FramebufferRequest {
    pub render_pass: u64,
    pub attachment: u64,
    pub width: u32,
    pub height: u32,
    pub layers: u32,
}

/// A swapchain with the views of its images and the framebuffers on those views.
///
/// It is built in three stages: the chain with its images, then one view per image in
/// the order of the images, then one framebuffer per view in the order of the views.
#[derive(Clone, Debug)]
pub struct Swapchain {
    pub vk_swapchain: u64,
    pub settings: SwapchainSettings,
    pub images: Vec<u64>,
    pub image_views: Vec<u64>,
    pub framebuffers: Vec<u64>,
}

impl Swapchain {
    /// No more views than images, no more framebuffers than views.
    pub open spec fn wf(&self) -> bool {
        &&& self.image_views@.len() <= self.images@.len()
        &&& self.framebuffers@.len() <= self.image_views@.len()
    }

    /// Every image has its view and every view its framebuffer.
    pub open spec fn is_complete(&self) -> bool {
        &&& self.image_views@.len() == self.images@.len()
        &&& self.framebuffers@.len() == self.image_views@.len()
    }

    /// What [`Swapchain::cleanup`] releases, in order: the framebuffers, the image views,
    /// then the chain itself.
    pub open spec fn release_order(&self) -> Seq<Release> {
        releases_of(ObjectKind::Framebuffer, self.framebuffers@) + releases_of(
            ObjectKind::ImageView,
            self.image_views@,
        ) + seq![Release { kind: ObjectKind::Swapchain, handle: self.vk_swapchain }]
    }

    /// A swapchain that was just created with `settings` and owns `images`; it has no
    /// views and no framebuffers yet.
    pub fn new(vk_swapchain: u64, settings: SwapchainSettings, images: Vec<u64>) -> (swapchain:
        Self)
        ensures
            swapchain.vk_swapchain == vk_swapchain,
            swapchain.settings == settings,
            swapchain.images == images,
            swapchain.image_views@.len() == 0,
            swapchain.framebuffers@.len() == 0,
            swapchain.wf(),
    {
        Swapchain {
            vk_swapchain,
            settings,
            images,
            image_views: Vec::new(),
            framebuffers: Vec::new(),
        }
    }

    /// The view to create next: that of the first image without one, in the swapchain's
    /// format. `None` once every image has its view.
    pub fn create_swapchain_image_views(&self) -> (next: Option<ImageViewRequest>)
        ensures
            next == (if self.image_views@.len() < self.images@.len() {
                Some(
                    color_view_of(
                        self.images@[self.image_views@.len() as int],
                        self.settings.format.format,
                    ),
                )
            } else {
                None
            }),
    {
        if self.image_views.len() < self.images.len() {
            Some(
                color_image_view(self.images[self.image_views.len()], self.settings.format.format),
            )
        } else {
            None
        }
    }

    /// Records the view that was created for the request
    /// [`Swapchain::create_swapchain_image_views`] last gave.
    pub fn image_view_created(&mut self, view: u64)
        requires
            old(self).image_views@.len() < old(self).images@.len(),
        ensures
            old(self).wf() ==> final(self).wf(),
            final(self).image_views@ == old(self).image_views@.push(view),
            final(self).vk_swapchain == old(self).vk_swapchain,
            final(self).settings == old(self).settings,
            final(self).images == old(self).images,
            final(self).framebuffers == old(self).framebuffers,
    {
        self.image_views.push(view);
    }

    /// The framebuffer to create next for `render_pass`: one layer of the swapchain's
    /// extent on the first view without a framebuffer. `None` once every view has one.
    pub fn create_framebuffers(&self, render_pass: u64) -> (next: Option<FramebufferRequest>)
        ensures
            next == (if self.framebuffers@.len() < self.image_views@.len() {
                Some(
                    FramebufferRequest {
                        render_pass,
                        attachment: self.image_views@[self.framebuffers@.len() as int],
                        width: self.settings.extent.width,
                        height: self.settings.extent.height,
                        layers: 1,
                    },
                )
            } else {
                None
            }),
    {
        if self.framebuffers.len() < self.image_views.len() {
            Some(
                FramebufferRequest {
                    render_pass,
                    attachment: self.image_views[self.framebuffers.len()],
                    width: self.settings.extent.width,
                    height: self.settings.extent.height,
                    layers: 1,
                },
            )
        } else {
            None
        }
    }

    /// Records the framebuffer that was created for the request
    /// [`Swapchain::create_framebuffers`] last gave.
    pub fn framebuffer_created(&mut self, framebuffer: u64)
        requires
            old(self).framebuffers@.len() < old(self).image_views@.len(),
        ensures
            old(self).wf() ==> final(self).wf(),
            final(self).framebuffers@ == old(self).framebuffers@.push(framebuffer),
            final(self).vk_swapchain == old(self).vk_swapchain,
            final(self).settings == old(self).settings,
            final(self).images == old(self).images,
            final(self).image_views == old(self).image_views,
    {
        self.framebuffers.push(framebuffer);
    }

    /// Whether every image has its view and every view its framebuffer.
    pub fn complete(&self) -> (done: bool)
        ensures
            done == self.is_complete(),
    {
        self.image_views.len() == self.images.len() && self.framebuffers.len()
            == self.image_views.len()
    }

    /// Lists what to release to take the swapchain down: every framebuffer, then every
    /// image view, then the chain. The views go after the framebuffers built on them,
    /// and the chain, which owns the images, goes last.
    pub fn cleanup(&self) -> (releases: Vec<Release>)
        ensures
            releases@ == self.release_order(),
    {
        let mut releases: Vec<Release> = Vec::new();
        push_releases(&mut releases, ObjectKind::Framebuffer, &self.framebuffers);
        push_releases(&mut releases, ObjectKind::ImageView, &self.image_views);
        releases.push(Release { kind: ObjectKind::Swapchain, handle: self.vk_swapchain });
        assert(releases@ =~= self.release_order());
        releases
    }
}

/// A swapchain for which no view and no framebuffer is left to create has as many
/// views as images and as many framebuffers as views.
pub proof fn lemma_finished_swapchain_is_complete(swapchain: Swapchain)
    requires
        swapchain.wf(),
        !(swapchain.image_views@.len() < swapchain.images@.len()),
        !(swapchain.framebuffers@.len() < swapchain.image_views@.len()),
    ensures
        swapchain.is_complete(),
        swapchain.image_views@.len() == swapchain.images@.len(),
        swapchain.framebuffers@.len() == swapchain.images@.len(),
{
}

} // verus!
