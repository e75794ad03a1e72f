//! The texture: from the bytes of a PNG file to an image the fragment shader samples.

use crate::graphics::buffers::{
    run_once, staging_buffer, BufferImageCopy, BufferRequest, ImageBarrier, OneShotStep, one_shot,
};
use crate::graphics::constants::{
    ACCESS_SHADER_READ, ACCESS_TRANSFER_WRITE, BORDER_COLOR_INT_OPAQUE_BLACK,
    BUFFER_USAGE_TRANSFER_SRC, COMPARE_OP_ALWAYS, FILTER_LINEAR, FORMAT_R8G8B8A8_SRGB,
    IMAGE_ASPECT_COLOR, IMAGE_LAYOUT_SHADER_READ_ONLY_OPTIMAL, IMAGE_LAYOUT_TRANSFER_DST_OPTIMAL,
    IMAGE_LAYOUT_UNDEFINED, IMAGE_TILING_OPTIMAL, IMAGE_TYPE_2D, IMAGE_USAGE_SAMPLED,
    IMAGE_USAGE_TRANSFER_DST, MEMORY_PROPERTY_DEVICE_LOCAL, MEMORY_PROPERTY_HOST_COHERENT,
    MEMORY_PROPERTY_HOST_VISIBLE, PIPELINE_STAGE_FRAGMENT_SHADER, PIPELINE_STAGE_TOP_OF_PIPE,
    PIPELINE_STAGE_TRANSFER, QUEUE_FAMILY_IGNORED, SAMPLER_ADDRESS_MODE_REPEAT,
    SAMPLER_MIPMAP_MODE_LINEAR, SAMPLE_COUNT_1, SHARING_MODE_EXCLUSIVE,
};
use crate::graphics::errors::VkAppError;
use crate::graphics::presentation::{color_image_view, color_view_of, ImageViewRequest};
use vstd::prelude::*;
use vstd::string::StringExecFns;

verus! {

/// How the pixels of a decoded image are made up.
#[derive(Copy, Clone, Debug, PartialEq, Eq, Structural)]
pub enum ColorType {
    Grayscale,
    Rgb,
    Indexed,
    GrayscaleAlpha,
    Rgba,
}

/// A decoded image: its size, the make-up of its pixels, and the pixels row by row.
#[derive(Clone, Debug)]
pub struct DecodedImage {
    pub width: u32,
    pub height: u32,
    pub color_type: ColorType,
    pub data: Vec<u8>,
}

/// A decoded image as plain values.
pub struct Decoding {
    pub width: u32,
    pub height: u32,
    pub color_type: ColorType,
    pub data: Seq<u8>,
}

impl View for DecodedImage {
    type V = Decoding;

    open spec fn view(&self) -> Decoding {
        Decoding {
            width: self.width,
            height: self.height,
            color_type: self.color_type,
            data: self.data@,
        }
    }
}

/// What the `png` crate makes of `bytes` as a PNG file: the first frame, decoded without
/// any transformation and under the crate's default limits, or nothing where the crate
/// reports an error.
pub uninterp spec fn png_decoding(bytes: Seq<u8>) -> Option<Decoding>;

/// Decodes the first frame of a PNG file with `png::Decoder::new`, `read_info` and
/// `next_frame` of `png::Reader`, into a buffer of the size that
/// `output_buffer_size` asks for, cut down to the size of the frame. The outcome
/// depends on the bytes alone.
#[verifier::external_body]
fn decode_png(bytes: &[u8]) -> (image: Option<DecodedImage>)
    ensures
        match image {
            Some(image) => png_decoding(bytes@) == Some(image@),
            None => png_decoding(bytes@) is None,
        },
{
    let mut reader = png::Decoder::new(bytes).read_info().ok()?;
    let mut data = vec![0; reader.output_buffer_size()];
    let info = reader.next_frame(&mut data).ok()?;
    data.truncate(info.buffer_size());
    let color_type = match info.color_type {
        png::ColorType::Grayscale => ColorType::Grayscale,
        png::ColorType::Rgb => ColorType::Rgb,
        png::ColorType::Indexed => ColorType::Indexed,
        png::ColorType::GrayscaleAlpha => ColorType::GrayscaleAlpha,
        png::ColorType::Rgba => ColorType::Rgba,
    };
    Some(DecodedImage { width: info.width, height: info.height, color_type, data })
}

/// Decodes the texture from the bytes of its PNG file. `None` where the bytes are no
/// PNG file that can be decoded.
pub fn decode_texture(bytes: &[u8]) -> (image: Option<DecodedImage>)
    ensures
        match image {
            Some(image) => png_decoding(bytes@) == Some(image@),
            None => png_decoding(bytes@) is None,
        },
{
    decode_png(bytes)
}

/// An image to create, and the properties its memory must have.
#[derive(Copy, Clone, Debug, PartialEq, Eq, Structural)]
pub struct ImageRequest {
    pub image_type: i32,
    pub width: u32,
    pub height: u32,
    pub depth: u32,
    pub mip_levels: u32,
    pub array_layers: u32,
    pub format: i32,
    pub tiling: i32,
    pub initial_layout: i32,
    pub usage: u32,
    pub sharing_mode: i32,
    pub samples: u32,
    pub flags: u32,
    pub memory_properties: u32,
}

/// The texture image of the given size: two-dimensional, 8-bit RGBA in sRGB, laid out as
/// the device likes best, filled by a transfer and then sampled, used from one queue
/// family, one sample per texel, on memory local to the device.
pub open spec fn texture_image(width: u32, height: u32) -> ImageRequest {
    ImageRequest {
        image_type: IMAGE_TYPE_2D,
        width,
        height,
        depth: 1,
        mip_levels: 1,
        array_layers: 1,
        format: FORMAT_R8G8B8A8_SRGB,
        tiling: IMAGE_TILING_OPTIMAL,
        initial_layout: IMAGE_LAYOUT_UNDEFINED,
        usage: IMAGE_USAGE_TRANSFER_DST | IMAGE_USAGE_SAMPLED,
        sharing_mode: SHARING_MODE_EXCLUSIVE,
        samples: SAMPLE_COUNT_1,
        flags: 0,
        memory_properties: MEMORY_PROPERTY_DEVICE_LOCAL,
    }
}

/// Describes the texture image of the given size.
pub fn create_image(width: u32, height: u32) -> (request: ImageRequest)
    ensures
        request == texture_image(width, height),
{
    ImageRequest {
        image_type: IMAGE_TYPE_2D,
        width,
        height,
        depth: 1,
        mip_levels: 1,
        array_layers: 1,
        format: FORMAT_R8G8B8A8_SRGB,
        tiling: IMAGE_TILING_OPTIMAL,
        initial_layout: IMAGE_LAYOUT_UNDEFINED,
        usage: IMAGE_USAGE_TRANSFER_DST | IMAGE_USAGE_SAMPLED,
        sharing_mode: SHARING_MODE_EXCLUSIVE,
        samples: SAMPLE_COUNT_1,
        flags: 0,
        memory_properties: MEMORY_PROPERTY_DEVICE_LOCAL,
    }
}

/// What a layout change waits for and what waits for it.
#[derive(Copy, Clone, Debug, PartialEq, Eq, Structural)]
pub struct Transition {
    pub src_access_mask: u32,
    pub dst_access_mask: u32,
    pub src_stage: u32,
    pub dst_stage: u32,
}

/// The layout changes the renderer knows, and how each is fenced in.
///
/// From undefined to transfer destination nothing need be over, since what the image
/// held is thrown away, and transfer writes wait. From transfer destination to shader
/// read-only the transfer writes must be over, and reads in the fragment shader wait.
/// There is no other.
pub open spec fn layout_transition(old_layout: i32, new_layout: i32) -> Option<Transition> {
    if old_layout == IMAGE_LAYOUT_UNDEFINED && new_layout == IMAGE_LAYOUT_TRANSFER_DST_OPTIMAL {
        Some(
            Transition {
                src_access_mask: 0,
                dst_access_mask: ACCESS_TRANSFER_WRITE,
                src_stage: PIPELINE_STAGE_TOP_OF_PIPE,
                dst_stage: PIPELINE_STAGE_TRANSFER,
            },
        )
    } else if old_layout == IMAGE_LAYOUT_TRANSFER_DST_OPTIMAL && new_layout
        == IMAGE_LAYOUT_SHADER_READ_ONLY_OPTIMAL {
        Some(
            Transition {
                src_access_mask: ACCESS_TRANSFER_WRITE,
                dst_access_mask: ACCESS_SHADER_READ,
                src_stage: PIPELINE_STAGE_TRANSFER,
                dst_stage: PIPELINE_STAGE_FRAGMENT_SHADER,
            },
        )
    } else {
        None
    }
}

/// The barrier that changes the layout of all of `image`, which is its colour in one
/// mip level and one layer, without moving it to another queue family.
pub open spec fn layout_barrier(
    image: u64,
    old_layout: i32,
    new_layout: i32,
    transition: Transition,
) -> OneShotStep {
    OneShotStep::PipelineBarrier {
        src_stage: transition.src_stage,
        dst_stage: transition.dst_stage,
        barrier: ImageBarrier {
            image,
            old_layout,
            new_layout,
            src_queue_family_index: QUEUE_FAMILY_IGNORED,
            dst_queue_family_index: QUEUE_FAMILY_IGNORED,
            src_access_mask: transition.src_access_mask,
            dst_access_mask: transition.dst_access_mask,
            aspect_mask: IMAGE_ASPECT_COLOR,
            base_mip_level: 0,
            level_count: 1,
            base_array_layer: 0,
            layer_count: 1,
        },
    }
}

/// Text of the error for a layout change the renderer does not know.
pub open spec fn unsupported_transition_text() -> Seq<char> {
    "Unsupported layout transition"@
}

/// Lists the steps that change the layout of `image` from `old_layout` to `new_layout`
/// as one-shot work. Fails for every pair of layouts but the two the renderer knows.
pub fn transition_image_layout(
    command_pool: u64,
    graphics_queue: u64,
    image: u64,
    old_layout: i32,
    new_layout: i32,
) -> (result: Result<Vec<OneShotStep>, VkAppError>)
    ensures
        match layout_transition(old_layout, new_layout) {
            Some(transition) => result matches Ok(steps) && steps@ == one_shot(
                command_pool,
                graphics_queue,
                layout_barrier(image, old_layout, new_layout, transition),
            ),
            None => result matches Err(VkAppError::DeviceError(text)) && text@
                == unsupported_transition_text(),
        },
{
    let transition = if old_layout == IMAGE_LAYOUT_UNDEFINED && new_layout
        == IMAGE_LAYOUT_TRANSFER_DST_OPTIMAL {
        Transition {
            src_access_mask: 0,
            dst_access_mask: ACCESS_TRANSFER_WRITE,
            src_stage: PIPELINE_STAGE_TOP_OF_PIPE,
            dst_stage: PIPELINE_STAGE_TRANSFER,
        }
    } else if old_layout == IMAGE_LAYOUT_TRANSFER_DST_OPTIMAL && new_layout
        == IMAGE_LAYOUT_SHADER_READ_ONLY_OPTIMAL {
        Transition {
            src_access_mask: ACCESS_TRANSFER_WRITE,
            dst_access_mask: ACCESS_SHADER_READ,
            src_stage: PIPELINE_STAGE_TRANSFER,
            dst_stage: PIPELINE_STAGE_FRAGMENT_SHADER,
        }
    } else {
        return Err(VkAppError::DeviceError(String::from_str("Unsupported layout transition")));
    };
    let barrier = ImageBarrier {
        image,
        old_layout,
        new_layout,
        src_queue_family_index: QUEUE_FAMILY_IGNORED,
        dst_queue_family_index: QUEUE_FAMILY_IGNORED,
        src_access_mask: transition.src_access_mask,
        dst_access_mask: transition.dst_access_mask,
        aspect_mask: IMAGE_ASPECT_COLOR,
        base_mip_level: 0,
        level_count: 1,
        base_array_layer: 0,
        layer_count: 1,
    };
    Ok(
        run_once(
            command_pool,
            graphics_queue,
            OneShotStep::PipelineBarrier {
                src_stage: transition.src_stage,
                dst_stage: transition.dst_stage,
                barrier,
            },
        ),
    )
}

/// The copy of a packed buffer onto all of an image of the given size that is in the
/// transfer-destination layout.
pub open spec fn whole_image_copy(buffer: u64, image: u64, width: u32, height: u32) -> OneShotStep {
    OneShotStep::CopyBufferToImage {
        buffer,
        image,
        image_layout: IMAGE_LAYOUT_TRANSFER_DST_OPTIMAL,
        region: BufferImageCopy {
            buffer_offset: 0,
            buffer_row_length: 0,
            buffer_image_height: 0,
            aspect_mask: IMAGE_ASPECT_COLOR,
            mip_level: 0,
            base_array_layer: 0,
            layer_count: 1,
            image_offset_x: 0,
            image_offset_y: 0,
            image_offset_z: 0,
            image_width: width,
            image_height: height,
            image_depth: 1,
        },
    }
}

/// Lists the steps that copy `buffer` onto all of `image` as one-shot work.
pub fn copy_buffer_to_image(
    command_pool: u64,
    graphics_queue: u64,
    width: u32,
    height: u32,
    buffer: u64,
    image: u64,
) -> (steps: Vec<OneShotStep>)
    ensures
        steps@ == one_shot(
            command_pool,
            graphics_queue,
            whole_image_copy(buffer, image, width, height),
        ),
{
    let region = BufferImageCopy {
        buffer_offset: 0,
        buffer_row_length: 0,
        buffer_image_height: 0,
        aspect_mask: IMAGE_ASPECT_COLOR,
        mip_level: 0,
        base_array_layer: 0,
        layer_count: 1,
        image_offset_x: 0,
        image_offset_y: 0,
        image_offset_z: 0,
        image_width: width,
        image_height: height,
        image_depth: 1,
    };
    run_once(
        command_pool,
        graphics_queue,
        OneShotStep::CopyBufferToImage {
            buffer,
            image,
            image_layout: IMAGE_LAYOUT_TRANSFER_DST_OPTIMAL,
            region,
        },
    )
}

/// One step of bringing the texture onto the device.
#[derive(Copy, Clone, Debug, PartialEq, Eq, Structural)]
pub enum TextureStep {
    /// Create the staging buffer with its memory.
    CreateStaging(BufferRequest),
    /// Map the staging memory, copy the first `size` bytes of the pixels in, unmap.
    FillStaging { size: u64 },
    /// Create the image with its memory.
    CreateImage(ImageRequest),
    /// Change the image's layout, as [`transition_image_layout`] says.
    TransitionLayout { old_layout: i32, new_layout: i32 },
    /// Copy the staging buffer onto the image, as [`copy_buffer_to_image`] says.
    CopyStagingToImage { width: u32, height: u32 },
    /// Release the staging buffer and its memory.
    ReleaseStaging,
}

/// Bytes taken by the pixels of an image of the given size with four 8-bit channels.
pub open spec fn rgba_size(width: u32, height: u32) -> int {
    width * height * 4
}

/// The steps that bring an RGBA image of the given size onto the device: stage the
/// pixels, create the image, make it a transfer destination, copy, make it readable
/// by shaders, release the staging buffer.
pub open spec fn texture_upload(width: u32, height: u32) -> Seq<TextureStep> {
    seq![
        TextureStep::CreateStaging(staging_buffer(rgba_size(width, height) as u64)),
        TextureStep::FillStaging { size: rgba_size(width, height) as u64 },
        TextureStep::CreateImage(texture_image(width, height)),
        TextureStep::TransitionLayout {
            old_layout: IMAGE_LAYOUT_UNDEFINED,
            new_layout: IMAGE_LAYOUT_TRANSFER_DST_OPTIMAL,
        },
        TextureStep::CopyStagingToImage { width, height },
        TextureStep::TransitionLayout {
            old_layout: IMAGE_LAYOUT_TRANSFER_DST_OPTIMAL,
            new_layout: IMAGE_LAYOUT_SHADER_READ_ONLY_OPTIMAL,
        },
        TextureStep::ReleaseStaging,
    ]
}

/// Text of the error for an image that is not RGBA.
pub open spec fn not_rgba_text() -> Seq<char> {
    "Must be RGBA image"@
}

/// The image is small enough for the size of its pixels to be computed in 32 bits, and
/// holds at least that many bytes.
pub open spec fn pixels_fit(image: Decoding) -> bool {
    &&& rgba_size(image.width, image.height) <= u32::MAX
    &&& rgba_size(image.width, image.height) <= image.data.len()
}

/// Lists the steps that bring the decoded `image`, which was read from the file at
/// `path`, onto the device.
///
/// An image that is not RGBA is refused with an error about that file, and nothing is
/// to be created for it.
pub fn create_texture_image(image: &DecodedImage, path: &str) -> (result: Result<
    Vec<TextureStep>,
    VkAppError,
>)
    requires
        image.color_type == ColorType::Rgba ==> pixels_fit(image@),
    ensures
        image.color_type == ColorType::Rgba ==> (result matches Ok(steps) && steps@
            == texture_upload(image.width, image.height)),
        image.color_type != ColorType::Rgba ==> (result matches Err(
            VkAppError::IoError(cause, file),
        ) && cause@ == not_rgba_text() && file@ == path@),
{
    match image.color_type {
        ColorType::Rgba => {},
        _ => {
            return Err(
                VkAppError::IoError(String::from_str("Must be RGBA image"), String::from_str(path)),
            );
        },
    }
    assert(image.width * image.height * 4 <= u32::MAX);
    assert(image.width * image.height <= u32::MAX) by (nonlinear_arith)
        requires
            image.width * image.height * 4 <= u32::MAX,
            image.width >= 0,
            image.height >= 0,
    ;
    let image_size: u64 = (image.width * image.height * 4) as u64;
    let staging = BufferRequest {
        size: image_size,
        usage: BUFFER_USAGE_TRANSFER_SRC,
        sharing_mode: SHARING_MODE_EXCLUSIVE,
        memory_properties: MEMORY_PROPERTY_HOST_VISIBLE | MEMORY_PROPERTY_HOST_COHERENT,
    };
    let mut steps: Vec<TextureStep> = Vec::new();
    steps.push(TextureStep::CreateStaging(staging));
    steps.push(TextureStep::FillStaging { size: image_size });
    steps.push(TextureStep::CreateImage(create_image(image.width, image.height)));
    steps.push(
        TextureStep::TransitionLayout {
            old_layout: IMAGE_LAYOUT_UNDEFINED,
            new_layout: IMAGE_LAYOUT_TRANSFER_DST_OPTIMAL,
        },
    );
    steps.push(TextureStep::CopyStagingToImage { width: image.width, height: image.height });
    steps.push(
        TextureStep::TransitionLayout {
            old_layout: IMAGE_LAYOUT_TRANSFER_DST_OPTIMAL,
            new_layout: IMAGE_LAYOUT_SHADER_READ_ONLY_OPTIMAL,
        },
    );
    steps.push(TextureStep::ReleaseStaging);
    assert(steps@ =~= texture_upload(image.width, image.height));
    Ok(steps)
}

/// Decodes the PNG file at `path`, whose content is `bytes`, and lists the steps that
/// bring it onto the device. Gives the decoded image along with the steps.
///
/// `None` where the bytes cannot be decoded, or where the decoded image is RGBA but so
/// large that the size of its pixels does not fit 32 bits or exceeds the decoded data.
pub fn load_texture(bytes: &[u8], path: &str) -> (result: Option<
    Result<(DecodedImage, Vec<TextureStep>), VkAppError>,
>)
    ensures
        match png_decoding(bytes@) {
            None => result is None,
            Some(image) => if image.color_type == ColorType::Rgba {
                if pixels_fit(image) {
                    result matches Some(Ok((decoded, steps))) && decoded@ == image && steps@
                        == texture_upload(image.width, image.height)
                } else {
                    result is None
                }
            } else {
                result matches Some(Err(VkAppError::IoError(cause, file))) && cause@
                    == not_rgba_text() && file@ == path@
            },
        },
{
    let image = match decode_texture(bytes) {
        Some(image) => image,
        None => {
            return None;
        },
    };
    match image.color_type {
        ColorType::Rgba => {
            let size = match image.width.checked_mul(image.height) {
                Some(pixels) => pixels.checked_mul(4),
                None => None,
            };
            match size {
                Some(size) => {
                    if size as u64 > image.data.len() as u64 {
                        return None;
                    }
                },
                None => {
                    return None;
                },
            }
        },
        _ => {},
    }
    match create_texture_image(&image, path) {
        Ok(steps) => Some(Ok((image, steps))),
        Err(error) => Some(Err(error)),
    }
}

/// Path of the file with the texture, relative to the working directory.
pub fn texture_path() -> (path: String)
    ensures
        path@ == "cobble1.png"@,
{
    String::from_str("cobble1.png")
}

/// Every layout change in the upload of a texture is one the renderer knows, and the
/// second starts in the layout the first ended in.
pub proof fn lemma_texture_layouts_chain(width: u32, height: u32)
    ensures
        texture_upload(width, height)[3] matches TextureStep::TransitionLayout {
            old_layout: first_old,
            new_layout: first_new,
        } && texture_upload(width, height)[5] matches TextureStep::TransitionLayout {
            old_layout: second_old,
            new_layout: second_new,
        } && {
            &&& layout_transition(first_old, first_new) is Some
            &&& layout_transition(second_old, second_new) is Some
            &&& first_new == second_old
            &&& first_old == texture_image(width, height).initial_layout
        },
{
}

/// The renderer knows exactly two layout changes.
pub proof fn lemma_two_transitions_only(old_layout: i32, new_layout: i32)
    ensures
        layout_transition(old_layout, new_layout) is Some <==> {
            ||| (old_layout == IMAGE_LAYOUT_UNDEFINED && new_layout
                == IMAGE_LAYOUT_TRANSFER_DST_OPTIMAL)
            ||| (old_layout == IMAGE_LAYOUT_TRANSFER_DST_OPTIMAL && new_layout
                == IMAGE_LAYOUT_SHADER_READ_ONLY_OPTIMAL)
        },
{
}

/// Describes the view through which the texture image is read.
pub fn create_texture_image_view(texture_image: u64) -> (request: ImageViewRequest)
    ensures
        request == color_view_of(texture_image, FORMAT_R8G8B8A8_SRGB),
{
    color_image_view(texture_image, FORMAT_R8G8B8A8_SRGB)
}

/// The create-info of the sampler. The level-of-detail numbers are whole numbers; how
/// strongly to filter anisotropically is for the device to say.
#[derive(Copy, Clone, Debug, PartialEq, Eq, Structural)]
pub struct SamplerRequest {
    pub mag_filter: i32,
    pub min_filter: i32,
    pub address_mode_u: i32,
    pub address_mode_v: i32,
    pub address_mode_w: i32,
    /// Filter anisotropically, as strongly as the device can.
    pub anisotropy_enable: bool,
    pub border_color: i32,
    pub unnormalized_coordinates: bool,
    pub compare_enable: bool,
    pub compare_op: i32,
    pub mipmap_mode: i32,
    pub mip_lod_bias: u32,
    pub min_lod: u32,
    pub max_lod: u32,
}

/// The sampler of the texture: linear filtering both ways, the texture repeated along
/// all three axes, anisotropic filtering where the device can do it, no comparison, no
/// bias and a single level of detail.
pub open spec fn texture_sampler(sampler_anisotropy: bool) -> SamplerRequest {
    SamplerRequest {
        mag_filter: FILTER_LINEAR,
        min_filter: FILTER_LINEAR,
        address_mode_u: SAMPLER_ADDRESS_MODE_REPEAT,
        address_mode_v: SAMPLER_ADDRESS_MODE_REPEAT,
        address_mode_w: SAMPLER_ADDRESS_MODE_REPEAT,
        anisotropy_enable: sampler_anisotropy,
        border_color: BORDER_COLOR_INT_OPAQUE_BLACK,
        unnormalized_coordinates: false,
        compare_enable: false,
        compare_op: COMPARE_OP_ALWAYS,
        mipmap_mode: SAMPLER_MIPMAP_MODE_LINEAR,
        mip_lod_bias: 0,
        min_lod: 0,
        max_lod: 0,
    }
}

/// Describes the sampler of the texture for a device that can, or cannot, filter
/// anisotropically.
pub fn create_texture_sampler(sampler_anisotropy: bool) -> (request: SamplerRequest)
    ensures
        request == texture_sampler(sampler_anisotropy),
{
    SamplerRequest {
        mag_filter: FILTER_LINEAR,
        min_filter: FILTER_LINEAR,
        address_mode_u: SAMPLER_ADDRESS_MODE_REPEAT,
        address_mode_v: SAMPLER_ADDRESS_MODE_REPEAT,
        address_mode_w: SAMPLER_ADDRESS_MODE_REPEAT,
        anisotropy_enable: sampler_anisotropy,
        border_color: BORDER_COLOR_INT_OPAQUE_BLACK,
        unnormalized_coordinates: false,
        compare_enable: false,
        compare_op: COMPARE_OP_ALWAYS,
        mipmap_mode: SAMPLER_MIPMAP_MODE_LINEAR,
        mip_lod_bias: 0,
        min_lod: 0,
        max_lod: 0,
    }
}

} // verus!
