use vulkan_quad::graphics::buffers::{BufferImageCopy, BufferRequest, ImageBarrier, OneShotStep};
use vulkan_quad::graphics::errors::VkAppError;
use vulkan_quad::graphics::presentation::color_image_view;
use vulkan_quad::graphics::textures::{
    copy_buffer_to_image, create_image, create_texture_image, create_texture_image_view,
    create_texture_sampler, decode_texture, load_texture, texture_path, transition_image_layout,
    ColorType,
    DecodedImage, ImageRequest, TextureStep,
};

const UNDEFINED: i32 = 0;
const SHADER_READ_ONLY: i32 = 5;
const TRANSFER_DST: i32 = 7;

fn encode(width: u32, height: u32, color: png::ColorType, depth: png::BitDepth, data: &[u8]) -> Vec<u8> {
    let mut bytes: Vec<u8> = Vec::new();
    {
        let mut encoder = png::Encoder::new(&mut bytes, width, height);
        encoder.set_color(color);
        encoder.set_depth(depth);
        let mut writer = encoder.write_header().unwrap();
        writer.write_image_data(data).unwrap();
    }
    bytes
}

fn upload(width: u32, height: u32) -> Vec<TextureStep> {
    let size = (width * height * 4) as u64;
    vec![
        TextureStep::CreateStaging(BufferRequest {
            size,
            usage: 0x1,
            sharing_mode: 0,
            memory_properties: 0x2 | 0x4,
        }),
        TextureStep::FillStaging { size },
        TextureStep::CreateImage(create_image(width, height)),
        TextureStep::TransitionLayout { old_layout: UNDEFINED, new_layout: TRANSFER_DST },
        TextureStep::CopyStagingToImage { width, height },
        TextureStep::TransitionLayout { old_layout: TRANSFER_DST, new_layout: SHADER_READ_ONLY },
        TextureStep::ReleaseStaging,
    ]
}

fn expect_not_rgba(result: Result<Vec<TextureStep>, VkAppError>, file: &str) {
    match result {
        Err(VkAppError::IoError(cause, path)) => {
            assert_eq!(cause, "Must be RGBA image");
            assert_eq!(path, file);
        }
        _ => panic!("expected an IO error"),
    }
}

#[test]
fn rgba_png_is_decoded() {
    let pixels: Vec<u8> = (0u8..24).collect();
    let image = decode_texture(&encode(3, 2, png::ColorType::Rgba, png::BitDepth::Eight, &pixels)).unwrap();
    assert_eq!(image.width, 3);
    assert_eq!(image.height, 2);
    assert_eq!(image.color_type, ColorType::Rgba);
    assert_eq!(image.data, pixels);
}

#[test]
fn other_pngs_are_decoded_with_their_colour_type() {
    let gray = decode_texture(&encode(2, 2, png::ColorType::Grayscale, png::BitDepth::Eight, &[1, 2, 3, 4])).unwrap();
    assert_eq!(gray.color_type, ColorType::Grayscale);
    assert_eq!(gray.data, vec![1, 2, 3, 4]);
    let rgb = decode_texture(&encode(1, 1, png::ColorType::Rgb, png::BitDepth::Eight, &[1, 2, 3])).unwrap();
    assert_eq!(rgb.color_type, ColorType::Rgb);
    let gray_alpha =
        decode_texture(&encode(1, 1, png::ColorType::GrayscaleAlpha, png::BitDepth::Eight, &[1, 2])).unwrap();
    assert_eq!(gray_alpha.color_type, ColorType::GrayscaleAlpha);
}

#[test]
fn what_is_no_png_is_not_decoded() {
    assert!(decode_texture(&[]).is_none());
    assert!(decode_texture(b"not a png file at all").is_none());
    let mut cut = encode(3, 2, png::ColorType::Rgba, png::BitDepth::Eight, &[0; 24]);
    cut.truncate(40);
    assert!(decode_texture(&cut).is_none());
}

#[test]
fn rgba_image_is_uploaded() {
    let image = DecodedImage { width: 4, height: 2, color_type: ColorType::Rgba, data: vec![0; 32] };
    assert_eq!(create_texture_image(&image, "cobble1.png").unwrap(), upload(4, 2));
}

#[test]
fn grayscale_image_is_refused_and_nothing_is_created() {
    let image = DecodedImage { width: 4, height: 2, color_type: ColorType::Grayscale, data: vec![0; 8] };
    expect_not_rgba(create_texture_image(&image, "gray.png"), "gray.png");
}

#[test]
fn every_colour_type_but_rgba_is_refused() {
    for color_type in [ColorType::Grayscale, ColorType::Rgb, ColorType::Indexed, ColorType::GrayscaleAlpha] {
        let image = DecodedImage { width: 1, height: 1, color_type, data: vec![0; 4] };
        expect_not_rgba(create_texture_image(&image, "x.png"), "x.png");
    }
}

#[test]
fn texture_is_loaded_from_png_bytes() {
    let bytes = encode(2, 2, png::ColorType::Rgba, png::BitDepth::Eight, &[7; 16]);
    let (image, steps) = load_texture(&bytes, "cobble1.png").unwrap().unwrap();
    assert_eq!(steps, upload(2, 2));
    assert_eq!(image.width, 2);
    assert_eq!(image.height, 2);
    assert_eq!(image.color_type, ColorType::Rgba);
    assert_eq!(image.data, vec![7; 16]);
}

#[test]
fn grayscale_png_is_refused() {
    let bytes = encode(2, 2, png::ColorType::Grayscale, png::BitDepth::Eight, &[7; 4]);
    expect_not_rgba(load_texture(&bytes, "gray.png").unwrap().map(|(_, steps)| steps), "gray.png");
}

#[test]
fn sixteen_bit_rgba_png_is_taken() {
    let bytes = encode(1, 1, png::ColorType::Rgba, png::BitDepth::Sixteen, &[0; 8]);
    let (image, steps) = load_texture(&bytes, "deep.png").unwrap().unwrap();
    assert_eq!(steps, upload(1, 1));
    assert_eq!(image.data.len(), 8);
}

#[test]
fn undecodable_bytes_load_nothing() {
    assert!(load_texture(b"garbage", "x.png").is_none());
}

#[test]
fn texture_image_is_described() {
    assert_eq!(
        create_image(64, 32),
        ImageRequest {
            image_type: 1,
            width: 64,
            height: 32,
            depth: 1,
            mip_levels: 1,
            array_layers: 1,
            format: 43,
            tiling: 0,
            initial_layout: 0,
            usage: 0x2 | 0x4,
            sharing_mode: 0,
            samples: 1,
            flags: 0,
            memory_properties: 0x1,
        }
    );
}

fn barrier(image: u64, old_layout: i32, new_layout: i32, src_access: u32, dst_access: u32) -> ImageBarrier {
    ImageBarrier {
        image,
        old_layout,
        new_layout,
        src_queue_family_index: u32::MAX,
        dst_queue_family_index: u32::MAX,
        src_access_mask: src_access,
        dst_access_mask: dst_access,
        aspect_mask: 1,
        base_mip_level: 0,
        level_count: 1,
        base_array_layer: 0,
        layer_count: 1,
    }
}

fn one_shot(pool: u64, queue: u64, work: OneShotStep) -> Vec<OneShotStep> {
    vec![
        OneShotStep::AllocateCommandBuffer { command_pool: pool, level: 0, count: 1 },
        OneShotStep::BeginCommandBuffer { flags: 0x1 },
        work,
        OneShotStep::EndCommandBuffer,
        OneShotStep::Submit { queue, fence: 0 },
        OneShotStep::WaitIdle { queue },
        OneShotStep::FreeCommandBuffer { command_pool: pool },
    ]
}

#[test]
fn undefined_to_transfer_destination() {
    assert_eq!(
        transition_image_layout(7, 8, 55, UNDEFINED, TRANSFER_DST).unwrap(),
        one_shot(
            7,
            8,
            OneShotStep::PipelineBarrier {
                src_stage: 0x1,
                dst_stage: 0x1000,
                barrier: barrier(55, UNDEFINED, TRANSFER_DST, 0, 0x1000),
            }
        )
    );
}

#[test]
fn transfer_destination_to_shader_read_only() {
    assert_eq!(
        transition_image_layout(7, 8, 55, TRANSFER_DST, SHADER_READ_ONLY).unwrap(),
        one_shot(
            7,
            8,
            OneShotStep::PipelineBarrier {
                src_stage: 0x1000,
                dst_stage: 0x80,
                barrier: barrier(55, TRANSFER_DST, SHADER_READ_ONLY, 0x1000, 0x20),
            }
        )
    );
}

#[test]
fn every_other_transition_is_refused() {
    let layouts = [UNDEFINED, 1, 2, SHADER_READ_ONLY, 6, TRANSFER_DST, 1_000_001_002];
    for old_layout in layouts {
        for new_layout in layouts {
            let known = (old_layout == UNDEFINED && new_layout == TRANSFER_DST)
                || (old_layout == TRANSFER_DST && new_layout == SHADER_READ_ONLY);
            match transition_image_layout(7, 8, 55, old_layout, new_layout) {
                Ok(_) => assert!(known),
                Err(VkAppError::DeviceError(text)) => {
                    assert!(!known);
                    assert_eq!(text, "Unsupported layout transition");
                }
                Err(_) => panic!("expected a device error"),
            }
        }
    }
}

#[test]
fn staging_buffer_is_copied_onto_the_whole_image() {
    assert_eq!(
        copy_buffer_to_image(7, 8, 64, 32, 90, 55),
        one_shot(
            7,
            8,
            OneShotStep::CopyBufferToImage {
                buffer: 90,
                image: 55,
                image_layout: TRANSFER_DST,
                region: BufferImageCopy {
                    buffer_offset: 0,
                    buffer_row_length: 0,
                    buffer_image_height: 0,
                    aspect_mask: 1,
                    mip_level: 0,
                    base_array_layer: 0,
                    layer_count: 1,
                    image_offset_x: 0,
                    image_offset_y: 0,
                    image_offset_z: 0,
                    image_width: 64,
                    image_height: 32,
                    image_depth: 1,
                },
            }
        )
    );
}

#[test]
fn texture_view_is_a_colour_view_in_the_texture_format() {
    assert_eq!(create_texture_image_view(55), color_image_view(55, 43));
}

#[test]
fn sampler_filters_linearly_and_repeats() {
    let sampler = create_texture_sampler(true);
    assert_eq!(sampler.mag_filter, 1);
    assert_eq!(sampler.min_filter, 1);
    assert_eq!(sampler.address_mode_u, 0);
    assert_eq!(sampler.address_mode_v, 0);
    assert_eq!(sampler.address_mode_w, 0);
    assert!(sampler.anisotropy_enable);
    assert_eq!(sampler.border_color, 3);
    assert!(!sampler.unnormalized_coordinates);
    assert!(!sampler.compare_enable);
    assert_eq!(sampler.compare_op, 7);
    assert_eq!(sampler.mipmap_mode, 1);
    assert_eq!(sampler.mip_lod_bias, 0);
    assert_eq!(sampler.min_lod, 0);
    assert_eq!(sampler.max_lod, 0);
    let plain = create_texture_sampler(false);
    assert!(!plain.anisotropy_enable);
    assert_eq!(plain.mag_filter, sampler.mag_filter);
    assert_eq!(plain.address_mode_u, sampler.address_mode_u);
}

#[test]
fn texture_file() {
    assert_eq!(texture_path(), "cobble1.png");
}
