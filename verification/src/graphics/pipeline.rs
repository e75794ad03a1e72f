//! The render pass, the descriptor layout and the graphics pipeline, as descriptions
//! to hand to the driver. Where the driver takes a number with a fractional part (line
//! width, depth range, sample shading), the description holds the whole number that is
//! meant.

use crate::graphics::constants::{
    ACCESS_COLOR_ATTACHMENT_WRITE, ATTACHMENT_LOAD_OP_CLEAR, ATTACHMENT_LOAD_OP_DONT_CARE,
    ATTACHMENT_STORE_OP_DONT_CARE, ATTACHMENT_STORE_OP_STORE, BLEND_FACTOR_ONE, BLEND_FACTOR_ZERO,
    BLEND_OP_ADD, COLOR_COMPONENT_A, COLOR_COMPONENT_B, COLOR_COMPONENT_G, COLOR_COMPONENT_R,
    CULL_MODE_BACK, DESCRIPTOR_TYPE_COMBINED_IMAGE_SAMPLER, DESCRIPTOR_TYPE_UNIFORM_BUFFER,
    DYNAMIC_STATE_SCISSOR, DYNAMIC_STATE_VIEWPORT, FORMAT_R32G32B32_SFLOAT, FORMAT_R32G32_SFLOAT,
    FRONT_FACE_CLOCKWISE, IMAGE_LAYOUT_COLOR_ATTACHMENT_OPTIMAL, IMAGE_LAYOUT_PRESENT_SRC_KHR,
    IMAGE_LAYOUT_UNDEFINED, PIPELINE_BIND_POINT_GRAPHICS, PIPELINE_STAGE_COLOR_ATTACHMENT_OUTPUT,
    POLYGON_MODE_FILL, PRIMITIVE_TOPOLOGY_TRIANGLE_LIST, SAMPLE_COUNT_1, SHADER_STAGE_FRAGMENT,
    SHADER_STAGE_VERTEX, SUBPASS_EXTERNAL, VERTEX_INPUT_RATE_VERTEX,
};
use crate::graphics::errors::VkAppError;
use crate::graphics::presentation::{Extent2D, SwapchainSettings};
use crate::graphics::release::{ObjectKind, Release};
use vstd::prelude::*;
use vstd::string::StringExecFns;

verus! {

/// The objects that make up the built pipeline.
#[derive(Copy, Clone, Debug, PartialEq, Eq, Structural)]
pub struct Pipeline {
    pub render_pass: u64,
    pub descriptor_set_layout: u64,
    pub pipeline_layout: u64,
    pub graphics_pipeline: u64,
}

impl Pipeline {
    /// What [`Pipeline::cleanup`] releases, in order.
    pub open spec fn release_order(&self) -> Seq<Release> {
        seq![
            Release { kind: ObjectKind::DescriptorSetLayout, handle: self.descriptor_set_layout },
            Release { kind: ObjectKind::PipelineLayout, handle: self.pipeline_layout },
            Release { kind: ObjectKind::RenderPass, handle: self.render_pass },
            Release { kind: ObjectKind::Pipeline, handle: self.graphics_pipeline },
        ]
    }

    /// Lists what to release to take the pipeline down: the descriptor set layout, the
    /// pipeline layout, the render pass, then the pipeline.
    pub fn cleanup(&self) -> (releases: Vec<Release>)
        ensures
            releases@ == self.release_order(),
    {
        let mut releases: Vec<Release> = Vec::new();
        releases.push(
            Release { kind: ObjectKind::DescriptorSetLayout, handle: self.descriptor_set_layout },
        );
        releases.push(Release { kind: ObjectKind::PipelineLayout, handle: self.pipeline_layout });
        releases.push(Release { kind: ObjectKind::RenderPass, handle: self.render_pass });
        releases.push(Release { kind: ObjectKind::Pipeline, handle: self.graphics_pipeline });
        assert(releases@ =~= self.release_order());
        releases
    }
}

/// One attachment of a render pass.
#[derive(Copy, Clone, Debug, PartialEq, Eq, Structural)]
pub struct AttachmentDescription {
    pub format: i32,
    pub samples: u32,
    pub load_op: i32,
    pub store_op: i32,
    pub stencil_load_op: i32,
    pub stencil_store_op: i32,
    pub initial_layout: i32,
    pub final_layout: i32,
}

/// Which attachment a subpass uses, and in what layout.
#[derive(Copy, Clone, Debug, PartialEq, Eq, Structural)]
pub struct AttachmentReference {
    pub attachment: u32,
    pub layout: i32,
}

/// What must have happened in one subpass before another may go on.
#[derive(Copy, Clone, Debug, PartialEq, Eq, Structural)]
pub struct SubpassDependency {
    pub src_subpass: u32,
    pub dst_subpass: u32,
    pub src_stage_mask: u32,
    pub src_access_mask: u32,
    pub dst_stage_mask: u32,
    pub dst_access_mask: u32,
}

/// A render pass with one colour attachment, one subpass that draws to it, and one
/// dependency of that subpass on what came before the pass.
#[derive(Copy, Clone, Debug, PartialEq, Eq, Structural)]
pub struct RenderPassRequest {
    pub color_attachment: AttachmentDescription,
    pub color_reference: AttachmentReference,
    pub pipeline_bind_point: i32,
    pub dependency: SubpassDependency,
}

/// The render pass for a swapchain in `format`.
///
/// The attachment is cleared when the pass begins and kept when it ends; what it held
/// before does not matter, and afterwards it is ready to be presented. The subpass may
/// write colour only once earlier colour output to the image is over, which is when
/// the image may change its layout.
pub open spec fn render_pass_for(format: i32) -> RenderPassRequest {
    RenderPassRequest {
        color_attachment: AttachmentDescription {
            format,
            samples: SAMPLE_COUNT_1,
            load_op: ATTACHMENT_LOAD_OP_CLEAR,
            store_op: ATTACHMENT_STORE_OP_STORE,
            stencil_load_op: ATTACHMENT_LOAD_OP_DONT_CARE,
            stencil_store_op: ATTACHMENT_STORE_OP_DONT_CARE,
            initial_layout: IMAGE_LAYOUT_UNDEFINED,
            final_layout: IMAGE_LAYOUT_PRESENT_SRC_KHR,
        },
        color_reference: AttachmentReference {
            attachment: 0,
            layout: IMAGE_LAYOUT_COLOR_ATTACHMENT_OPTIMAL,
        },
        pipeline_bind_point: PIPELINE_BIND_POINT_GRAPHICS,
        dependency: SubpassDependency {
            src_subpass: SUBPASS_EXTERNAL,
            dst_subpass: 0,
            src_stage_mask: PIPELINE_STAGE_COLOR_ATTACHMENT_OUTPUT,
            src_access_mask: 0,
            dst_stage_mask: PIPELINE_STAGE_COLOR_ATTACHMENT_OUTPUT,
            dst_access_mask: ACCESS_COLOR_ATTACHMENT_WRITE,
        },
    }
}

/// Describes the render pass that draws to images of the swapchain's format.
pub fn create_render_pass(swapchain_settings: SwapchainSettings) -> (request: RenderPassRequest)
    ensures
        request == render_pass_for(swapchain_settings.format.format),
{
    let color_attachment = AttachmentDescription {
        format: swapchain_settings.format.format,
        samples: SAMPLE_COUNT_1,
        load_op: ATTACHMENT_LOAD_OP_CLEAR,
        store_op: ATTACHMENT_STORE_OP_STORE,
        stencil_load_op: ATTACHMENT_LOAD_OP_DONT_CARE,
        stencil_store_op: ATTACHMENT_STORE_OP_DONT_CARE,
        initial_layout: IMAGE_LAYOUT_UNDEFINED,
        final_layout: IMAGE_LAYOUT_PRESENT_SRC_KHR,
    };
    let color_reference = AttachmentReference {
        attachment: 0,
        layout: IMAGE_LAYOUT_COLOR_ATTACHMENT_OPTIMAL,
    };
    let dependency = SubpassDependency {
        src_subpass: SUBPASS_EXTERNAL,
        dst_subpass: 0,
        src_stage_mask: PIPELINE_STAGE_COLOR_ATTACHMENT_OUTPUT,
        src_access_mask: 0,
        dst_stage_mask: PIPELINE_STAGE_COLOR_ATTACHMENT_OUTPUT,
        dst_access_mask: ACCESS_COLOR_ATTACHMENT_WRITE,
    };
    RenderPassRequest {
        color_attachment,
        color_reference,
        pipeline_bind_point: PIPELINE_BIND_POINT_GRAPHICS,
        dependency,
    }
}

/// One binding of a descriptor set layout.
#[derive(Copy, Clone, Debug, PartialEq, Eq, Structural)]
pub struct DescriptorBinding {
    pub binding: u32,
    pub descriptor_type: i32,
    pub descriptor_count: u32,
    pub stage_flags: u32,
}

/// Binding 0: one uniform buffer, read by the vertex stage.
pub open spec fn uniform_binding() -> DescriptorBinding {
    DescriptorBinding {
        binding: 0,
        descriptor_type: DESCRIPTOR_TYPE_UNIFORM_BUFFER,
        descriptor_count: 1,
        stage_flags: SHADER_STAGE_VERTEX,
    }
}

/// Binding 1: one image with its sampler, read by the fragment stage.
pub open spec fn sampler_binding() -> DescriptorBinding {
    DescriptorBinding {
        binding: 1,
        descriptor_type: DESCRIPTOR_TYPE_COMBINED_IMAGE_SAMPLER,
        descriptor_count: 1,
        stage_flags: SHADER_STAGE_FRAGMENT,
    }
}

/// Lists the bindings of the one descriptor set layout: the uniform buffer, then the
/// sampled image.
pub fn create_descriptor_set_layout() -> (bindings: Vec<DescriptorBinding>)
    ensures
        bindings@ == seq![uniform_binding(), sampler_binding()],
{
    let mut bindings: Vec<DescriptorBinding> = Vec::new();
    bindings.push(
        DescriptorBinding {
            binding: 0,
            descriptor_type: DESCRIPTOR_TYPE_UNIFORM_BUFFER,
            descriptor_count: 1,
            stage_flags: SHADER_STAGE_VERTEX,
        },
    );
    bindings.push(
        DescriptorBinding {
            binding: 1,
            descriptor_type: DESCRIPTOR_TYPE_COMBINED_IMAGE_SAMPLER,
            descriptor_count: 1,
            stage_flags: SHADER_STAGE_FRAGMENT,
        },
    );
    assert(bindings@ =~= seq![uniform_binding(), sampler_binding()]);
    bindings
}

/// Lists the set layouts of the pipeline layout: the one descriptor set layout.
pub fn create_pipeline_layout(descriptor_set_layout: u64) -> (set_layouts: Vec<u64>)
    ensures
        set_layouts@ == seq![descriptor_set_layout],
{
    let mut set_layouts: Vec<u64> = Vec::new();
    set_layouts.push(descriptor_set_layout);
    set_layouts
}

/// How vertices are laid out in one buffer binding.
#[derive(Copy, Clone, Debug, PartialEq, Eq, Structural)]
pub struct VertexBinding {
    pub binding: u32,
    pub stride: u32,
    pub input_rate: i32,
}

/// Where one attribute of a vertex lies.
#[derive(Copy, Clone, Debug, PartialEq, Eq, Structural)]
pub struct VertexAttribute {
    pub binding: u32,
    pub location: u32,
    pub format: i32,
    pub offset: u32,
}

/// Bytes taken by a vertex attribute of the given format; zero for formats the renderer
/// does not use for attributes.
pub open spec fn attribute_size(format: i32) -> nat {
    if format == FORMAT_R32G32B32_SFLOAT {
        12
    } else if format == FORMAT_R32G32_SFLOAT {
        8
    } else {
        0
    }
}

/// The attributes of a vertex: position and colour, three 32-bit floats each, then the
/// texture coordinate, two 32-bit floats; at locations 0, 1 and 2, one after the other.
pub open spec fn vertex_attributes() -> Seq<VertexAttribute> {
    seq![
        VertexAttribute { binding: 0, location: 0, format: FORMAT_R32G32B32_SFLOAT, offset: 0 },
        VertexAttribute { binding: 0, location: 1, format: FORMAT_R32G32B32_SFLOAT, offset: 12 },
        VertexAttribute { binding: 0, location: 2, format: FORMAT_R32G32_SFLOAT, offset: 24 },
    ]
}

/// The one vertex buffer binding: a whole vertex of 32 bytes per vertex drawn.
pub open spec fn vertex_binding() -> VertexBinding {
    VertexBinding { binding: 0, stride: 32, input_rate: VERTEX_INPUT_RATE_VERTEX }
}

/// The attributes lie one after the other from offset `start`, without gap or overlap,
/// and end at `end`.
pub open spec fn attributes_tile(attributes: Seq<VertexAttribute>, start: nat, end: nat) -> bool
    decreases attributes.len(),
{
    if attributes.len() == 0 {
        start == end
    } else {
        &&& attributes[0].offset == start
        &&& attribute_size(attributes[0].format) > 0
        &&& attributes_tile(
            attributes.subrange(1, attributes.len() as int),
            start + attribute_size(attributes[0].format),
            end,
        )
    }
}

/// Describes the vertex attributes.
pub fn vertex_input_attributes() -> (attributes: Vec<VertexAttribute>)
    ensures
        attributes@ == vertex_attributes(),
{
    let mut attributes: Vec<VertexAttribute> = Vec::new();
    attributes.push(
        VertexAttribute { binding: 0, location: 0, format: FORMAT_R32G32B32_SFLOAT, offset: 0 },
    );
    attributes.push(
        VertexAttribute { binding: 0, location: 1, format: FORMAT_R32G32B32_SFLOAT, offset: 12 },
    );
    attributes.push(
        VertexAttribute { binding: 0, location: 2, format: FORMAT_R32G32_SFLOAT, offset: 24 },
    );
    assert(attributes@ =~= vertex_attributes());
    attributes
}

/// The attributes fill the vertex exactly: they lie back to back from offset zero up to
/// the stride of the binding, each in that binding and each at a location of its own.
pub proof fn lemma_vertex_attributes_fill_the_vertex()
    ensures
        attributes_tile(vertex_attributes(), 0, vertex_binding().stride as nat),
        forall|i: int|
            0 <= i < vertex_attributes().len() ==> (#[trigger] vertex_attributes()[i]).binding
                == vertex_binding().binding,
        forall|i: int, j: int|
            0 <= i < j < vertex_attributes().len() ==> (#[trigger] vertex_attributes()[i]).location
                != (#[trigger] vertex_attributes()[j]).location,
{
    let a = vertex_attributes();
    let a1 = a.subrange(1, 3);
    let a2 = a1.subrange(1, 2);
    let a3 = a2.subrange(1, 1);
    assert(a3.len() == 0);
    assert(attributes_tile(a3, 32, 32));
    assert(a2[0] == a[2]);
    assert(attributes_tile(a2, 24, 32));
    assert(a1[0] == a[1]);
    assert(attributes_tile(a1, 12, 32));
    assert(attributes_tile(a, 0, 32));
}

/// One programmable stage of the pipeline.
#[derive(Copy, Clone, Debug, PartialEq, Eq, Structural)]
pub struct ShaderStage {
    pub stage: u32,
    pub module: u64,
}

/// The fixed state of the rasterizer.
#[derive(Copy, Clone, Debug, PartialEq, Eq, Structural)]
pub struct RasterizationState {
    pub depth_clamp_enable: bool,
    pub depth_bias_enable: bool,
    pub depth_bias_constant_factor: u32,
    pub depth_bias_clamp: u32,
    pub depth_bias_slope_factor: u32,
    pub rasterizer_discard_enable: bool,
    pub polygon_mode: i32,
    pub line_width: u32,
    pub cull_mode: u32,
    pub front_face: i32,
}

/// The fixed state of multisampling.
#[derive(Copy, Clone, Debug, PartialEq, Eq, Structural)]
pub struct MultisampleState {
    pub sample_shading_enable: bool,
    pub rasterization_samples: u32,
    pub min_sample_shading: u32,
    pub alpha_to_coverage_enable: bool,
    pub alpha_to_one_enable: bool,
}

/// How what the fragment stage computes is combined with what the attachment holds.
#[derive(Copy, Clone, Debug, PartialEq, Eq, Structural)]
pub struct ColorBlendAttachment {
    pub color_write_mask: u32,
    pub blend_enable: bool,
    pub src_color_blend_factor: i32,
    pub dst_color_blend_factor: i32,
    pub color_blend_op: i32,
    pub src_alpha_blend_factor: i32,
    pub dst_alpha_blend_factor: i32,
    pub alpha_blend_op: i32,
}

/// Everything in the create-info of the graphics pipeline that is a single value.
#[derive(Copy, Clone, Debug, PartialEq, Eq, Structural)]
pub struct FixedFunctionState {
    pub vertex_binding: VertexBinding,
    pub topology: i32,
    pub primitive_restart_enable: bool,
    /// Size of the one viewport and of the one scissor rectangle, both at the origin.
    pub viewport_extent: Extent2D,
    pub viewport_min_depth: u32,
    pub viewport_max_depth: u32,
    pub rasterization: RasterizationState,
    pub multisample: MultisampleState,
    pub logic_op_enable: bool,
    pub color_blend_attachment: ColorBlendAttachment,
    pub layout: u64,
    pub render_pass: u64,
    pub subpass: u32,
    /// Handle of the pipeline to derive from; zero for none.
    pub base_pipeline_handle: u64,
    pub base_pipeline_index: i32,
}

/// The create-info of the graphics pipeline.
#[derive(Clone, Debug)]
pub struct GraphicsPipelineRequest {
    pub stages: Vec<ShaderStage>,
    /// Name of the function each stage starts in.
    pub entry_point: String,
    pub vertex_attributes: Vec<VertexAttribute>,
    pub dynamic_states: Vec<i32>,
    pub fixed: FixedFunctionState,
}

/// All four colour components.
pub open spec fn all_color_components() -> u32 {
    COLOR_COMPONENT_R | COLOR_COMPONENT_G | COLOR_COMPONENT_B | COLOR_COMPONENT_A
}

/// The fixed-function state of the renderer's pipeline.
///
/// Triangles from a list, filled, with lines one pixel wide, those facing away dropped,
/// front faces wound clockwise; depth from 0 to 1, unbiased; one sample per pixel; no
/// depth or stencil test; the fragment colour replaces what the attachment held, in all
/// four components.
pub open spec fn fixed_function_state(
    extent: Extent2D,
    pipeline_layout: u64,
    render_pass: u64,
) -> FixedFunctionState {
    FixedFunctionState {
        vertex_binding: vertex_binding(),
        topology: PRIMITIVE_TOPOLOGY_TRIANGLE_LIST,
        primitive_restart_enable: false,
        viewport_extent: extent,
        viewport_min_depth: 0,
        viewport_max_depth: 1,
        rasterization: RasterizationState {
            depth_clamp_enable: false,
            depth_bias_enable: false,
            depth_bias_constant_factor: 0,
            depth_bias_clamp: 0,
            depth_bias_slope_factor: 0,
            rasterizer_discard_enable: false,
            polygon_mode: POLYGON_MODE_FILL,
            line_width: 1,
            cull_mode: CULL_MODE_BACK,
            front_face: FRONT_FACE_CLOCKWISE,
        },
        multisample: MultisampleState {
            sample_shading_enable: false,
            rasterization_samples: SAMPLE_COUNT_1,
            min_sample_shading: 1,
            alpha_to_coverage_enable: false,
            alpha_to_one_enable: false,
        },
        logic_op_enable: false,
        color_blend_attachment: ColorBlendAttachment {
            color_write_mask: all_color_components(),
            blend_enable: false,
            src_color_blend_factor: BLEND_FACTOR_ONE,
            dst_color_blend_factor: BLEND_FACTOR_ZERO,
            color_blend_op: BLEND_OP_ADD,
            src_alpha_blend_factor: BLEND_FACTOR_ONE,
            dst_alpha_blend_factor: BLEND_FACTOR_ZERO,
            alpha_blend_op: BLEND_OP_ADD,
        },
        layout: pipeline_layout,
        render_pass,
        subpass: 0,
        base_pipeline_handle: 0,
        base_pipeline_index: -1i32,
    }
}

/// The stages of the pipeline: the vertex stage, then the fragment stage.
pub open spec fn shader_stages(vertex_shader_module: u64, fragment_shader_module: u64) -> Seq<
    ShaderStage,
> {
    seq![
        ShaderStage { stage: SHADER_STAGE_VERTEX, module: vertex_shader_module },
        ShaderStage { stage: SHADER_STAGE_FRAGMENT, module: fragment_shader_module },
    ]
}

/// Describes the graphics pipeline that draws with the two shader modules into
/// `render_pass`, its resources laid out as `pipeline_layout` says.
///
/// Both stages start in `main`. Viewport and scissor are dynamic state: the extent in
/// the description only stands in for what each frame sets, so that a resized window
/// needs no new pipeline.
pub fn create_graphics_pipeline(
    swapchain_settings: SwapchainSettings,
    pipeline_layout: u64,
    render_pass: u64,
    vertex_shader_module: u64,
    fragment_shader_module: u64,
) -> (request: GraphicsPipelineRequest)
    ensures
        request.stages@ == shader_stages(vertex_shader_module, fragment_shader_module),
        request.entry_point@ == "main"@,
        request.vertex_attributes@ == vertex_attributes(),
        request.dynamic_states@ == seq![DYNAMIC_STATE_VIEWPORT, DYNAMIC_STATE_SCISSOR],
        request.fixed == fixed_function_state(
            swapchain_settings.extent,
            pipeline_layout,
            render_pass,
        ),
{
    let mut dynamic_states: Vec<i32> = Vec::new();
    dynamic_states.push(DYNAMIC_STATE_VIEWPORT);
    dynamic_states.push(DYNAMIC_STATE_SCISSOR);
    assert(dynamic_states@ =~= seq![DYNAMIC_STATE_VIEWPORT, DYNAMIC_STATE_SCISSOR]);

    let rasterization = RasterizationState {
        depth_clamp_enable: false,
        depth_bias_enable: false,
        depth_bias_constant_factor: 0,
        depth_bias_clamp: 0,
        depth_bias_slope_factor: 0,
        rasterizer_discard_enable: false,
        polygon_mode: POLYGON_MODE_FILL,
        line_width: 1,
        cull_mode: CULL_MODE_BACK,
        front_face: FRONT_FACE_CLOCKWISE,
    };
    let multisample = MultisampleState {
        sample_shading_enable: false,
        rasterization_samples: SAMPLE_COUNT_1,
        min_sample_shading: 1,
        alpha_to_coverage_enable: false,
        alpha_to_one_enable: false,
    };
    let color_blend_attachment = ColorBlendAttachment {
        color_write_mask: COLOR_COMPONENT_R | COLOR_COMPONENT_G | COLOR_COMPONENT_B
            | COLOR_COMPONENT_A,
        blend_enable: false,
        src_color_blend_factor: BLEND_FACTOR_ONE,
        dst_color_blend_factor: BLEND_FACTOR_ZERO,
        color_blend_op: BLEND_OP_ADD,
        src_alpha_blend_factor: BLEND_FACTOR_ONE,
        dst_alpha_blend_factor: BLEND_FACTOR_ZERO,
        alpha_blend_op: BLEND_OP_ADD,
    };
    let vertex_binding = VertexBinding {
        binding: 0,
        stride: 32,
        input_rate: VERTEX_INPUT_RATE_VERTEX,
    };
    let vertex_attributes = vertex_input_attributes();

    let mut stages: Vec<ShaderStage> = Vec::new();
    stages.push(ShaderStage { stage: SHADER_STAGE_VERTEX, module: vertex_shader_module });
    stages.push(ShaderStage { stage: SHADER_STAGE_FRAGMENT, module: fragment_shader_module });
    assert(stages@ =~= shader_stages(vertex_shader_module, fragment_shader_module));

    GraphicsPipelineRequest {
        stages,
        entry_point: String::from_str("main"),
        vertex_attributes,
        dynamic_states,
        fixed: FixedFunctionState {
            vertex_binding,
            topology: PRIMITIVE_TOPOLOGY_TRIANGLE_LIST,
            primitive_restart_enable: false,
            viewport_extent: swapchain_settings.extent,
            viewport_min_depth: 0,
            viewport_max_depth: 1,
            rasterization,
            multisample,
            logic_op_enable: false,
            color_blend_attachment,
            layout: pipeline_layout,
            render_pass,
            subpass: 0,
            base_pipeline_handle: 0,
            base_pipeline_index: -1,
        },
    }
}


/// The number every SPIR-V module begins with.
pub const SPIRV_MAGIC_NUMBER: u32 = 0x0723_0203;

/// The `index`-th group of four bytes read as a number, lowest byte first.
pub open spec fn little_endian_word(bytes: Seq<u8>, index: int) -> u32 {
    (bytes[4 * index] + bytes[4 * index + 1] * 0x100 + bytes[4 * index + 2] * 0x1_0000 + bytes[4
        * index + 3] * 0x100_0000) as u32
}

/// The `index`-th group of four bytes read as a number, highest byte first.
pub open spec fn big_endian_word(bytes: Seq<u8>, index: int) -> u32 {
    (bytes[4 * index + 3] + bytes[4 * index + 2] * 0x100 + bytes[4 * index + 1] * 0x1_0000
        + bytes[4 * index] * 0x100_0000) as u32
}

/// The words of the SPIR-V module that `bytes` hold, if they hold one: a whole number of
/// 32-bit words, at least one, all in the one byte order in which the first word is the
/// SPIR-V magic number.
pub open spec fn spirv_words(bytes: Seq<u8>) -> Option<Seq<u32>> {
    if bytes.len() == 0 || bytes.len() % 4 != 0 {
        None
    } else if little_endian_word(bytes, 0) == SPIRV_MAGIC_NUMBER {
        Some(Seq::new(bytes.len() / 4, |i: int| little_endian_word(bytes, i)))
    } else if big_endian_word(bytes, 0) == SPIRV_MAGIC_NUMBER {
        Some(Seq::new(bytes.len() / 4, |i: int| big_endian_word(bytes, i)))
    } else {
        None
    }
}

/// What is said of bytes that hold no SPIR-V module: that their length is no multiple
/// of four, or else that the magic number is missing.
pub open spec fn spirv_refusal(bytes: Seq<u8>) -> Seq<char> {
    if bytes.len() % 4 != 0 {
        "input length not divisible by 4"@
    } else {
        "input missing SPIR-V magic number"@
    }
}

/// Decodes a SPIR-V module with `ash::util::read_spv`, reading from the bytes in
/// memory, and gives the text of ash's error where it refuses them. ash refuses input
/// whose length is no multiple of four or whose first word is not the magic number in
/// either byte order, each with a message of its own, and swaps the bytes of every word
/// where the first word has the magic number reversed.
#[verifier::external_body]
fn read_spv(bytes: &[u8]) -> (result: Result<Vec<u32>, String>)
    ensures
        match result {
            Ok(words) => spirv_words(bytes@) == Some(words@),
            Err(refusal) => spirv_words(bytes@) is None && refusal@ == spirv_refusal(bytes@),
        },
{
    ash::util::read_spv(&mut std::io::Cursor::new(bytes)).map_err(|error| error.to_string())
}

/// Decodes the code of a shader module from `bytes`, the content of the file at `path`.
///
/// Gives the module's words where the bytes hold a SPIR-V module, else an error about
/// that file that says what is wrong with it.
pub fn create_shader_module(bytes: &[u8], path: &str) -> (result: Result<Vec<u32>, VkAppError>)
    ensures
        match spirv_words(bytes@) {
            Some(words) => result matches Ok(code) && code@ == words,
            None => result matches Err(VkAppError::IoError(cause, file)) && cause@
                == spirv_refusal(bytes@) && file@ == path@,
        },
{
    match read_spv(bytes) {
        Ok(code) => Ok(code),
        Err(refusal) => Err(VkAppError::IoError(refusal, String::from_str(path))),
    }
}

/// One step of building the pipeline.
#[derive(Copy, Clone, Debug, PartialEq, Eq, Structural)]
pub enum PipelineStep {
    CreateRenderPass(RenderPassRequest),
    /// With the bindings [`create_descriptor_set_layout`] lists.
    CreateDescriptorSetLayout,
    /// With the set layouts [`create_pipeline_layout`] lists.
    CreatePipelineLayout,
    /// From the file [`vertex_shader_path`] names.
    CreateVertexShaderModule,
    /// From the file [`fragment_shader_path`] names.
    CreateFragmentShaderModule,
    /// As [`create_graphics_pipeline`] describes it.
    CreateGraphicsPipeline,
    /// Both shader modules go as soon as the pipeline is built.
    DestroyShaderModules,
}

/// The steps that build the pipeline for a swapchain in `format`.
pub open spec fn pipeline_steps(format: i32) -> Seq<PipelineStep> {
    seq![
        PipelineStep::CreateRenderPass(render_pass_for(format)),
        PipelineStep::CreateDescriptorSetLayout,
        PipelineStep::CreatePipelineLayout,
        PipelineStep::CreateVertexShaderModule,
        PipelineStep::CreateFragmentShaderModule,
        PipelineStep::CreateGraphicsPipeline,
        PipelineStep::DestroyShaderModules,
    ]
}

/// Lists the steps that build the pipeline which turns vertices into the pixels of a
/// swapchain image.
pub fn create_pipeline(swapchain_settings: SwapchainSettings) -> (steps: Vec<PipelineStep>)
    ensures
        steps@ == pipeline_steps(swapchain_settings.format.format),
{
    let mut steps: Vec<PipelineStep> = Vec::new();
    steps.push(PipelineStep::CreateRenderPass(create_render_pass(swapchain_settings)));
    steps.push(PipelineStep::CreateDescriptorSetLayout);
    steps.push(PipelineStep::CreatePipelineLayout);
    steps.push(PipelineStep::CreateVertexShaderModule);
    steps.push(PipelineStep::CreateFragmentShaderModule);
    steps.push(PipelineStep::CreateGraphicsPipeline);
    steps.push(PipelineStep::DestroyShaderModules);
    assert(steps@ =~= pipeline_steps(swapchain_settings.format.format));
    steps
}

/// Path of the file with the vertex shader, relative to the working directory.
pub fn vertex_shader_path() -> (path: String)
    ensures
        path@ == "vertexshader.spv"@,
{
    String::from_str("vertexshader.spv")
}

/// Path of the file with the fragment shader, relative to the working directory.
pub fn fragment_shader_path() -> (path: String)
    ensures
        path@ == "fragmentshader.spv"@,
{
    String::from_str("fragmentshader.spv")
}

/// The pipeline does not depend on the size of the swapchain's images but for the
/// stand-in extent of viewport and scissor, which are set anew in every frame. So a
/// resized window needs no new pipeline.
pub proof fn lemma_pipeline_ignores_extent(
    first: Extent2D,
    second: Extent2D,
    pipeline_layout: u64,
    render_pass: u64,
)
    ensures
        fixed_function_state(first, pipeline_layout, render_pass) == (FixedFunctionState {
            viewport_extent: first,
            ..fixed_function_state(second, pipeline_layout, render_pass)
        }),
{
}

} // verus!
