//! The render pass and the pipeline that draws in it.
use vstd::prelude::*;

use crate::define::{
    VK_ACCESS_COLOR_ATTACHMENT_WRITE_BIT, VK_ATTACHMENT_LOAD_OP_CLEAR,
    VK_ATTACHMENT_LOAD_OP_DONT_CARE, VK_ATTACHMENT_STORE_OP_DONT_CARE,
    VK_ATTACHMENT_STORE_OP_STORE, VK_BLEND_FACTOR_ONE, VK_BLEND_FACTOR_ZERO, VK_BLEND_OP_ADD,
    VK_COLOR_COMPONENT_RGBA, VK_CULL_MODE_NONE, VK_DYNAMIC_STATE_SCISSOR,
    VK_DYNAMIC_STATE_VIEWPORT, VK_FRONT_FACE_COUNTER_CLOCKWISE,
    VK_IMAGE_LAYOUT_COLOR_ATTACHMENT_OPTIMAL, VK_IMAGE_LAYOUT_PRESENT_SRC_KHR,
    VK_IMAGE_LAYOUT_UNDEFINED, VK_LOGIC_OP_COPY, VK_PIPELINE_BIND_POINT_GRAPHICS,
    VK_PIPELINE_STAGE_COLOR_ATTACHMENT_OUTPUT_BIT, VK_POLYGON_MODE_FILL,
    VK_PRIMITIVE_TOPOLOGY_TRIANGLE_LIST, VK_SAMPLE_COUNT_1_BIT, VK_SUBPASS_EXTERNAL,
};
use crate::handle::{DescriptorSetLayout, PipelineLayout, RenderPass};
use crate::shader::ShaderStageCreateInfo;

verus! {

/// An image that a render pass draws to.
#[derive(Clone, Copy, Debug, PartialEq, Eq, Structural)]
pub struct AttachmentDescription {
    pub format: i32,
    pub samples: u32,
    pub load_op: i32,
    pub store_op: i32,
    pub stencil_load_op: i32,
    pub stencil_store_op: i32,
    pub initial_layout: i32,
    pub final_layout: i32,
}

/// How a subpass uses an attachment of its render pass.
#[derive(Clone, Copy, Debug, PartialEq, Eq, Structural)]
pub struct AttachmentReference {
    pub attachment: u32,
    pub layout: i32,
}

/// A part of a render pass.
#[derive(Debug)]
pub struct SubpassDescription {
    pub pipeline_bind_point: i32,
    pub color_attachments: Vec<AttachmentReference>,
}

/// What must have happened in one subpass before another goes on.
#[derive(Clone, Copy, Debug, PartialEq, Eq, Structural)]
pub struct SubpassDependency {
    pub src_subpass: u32,
    pub dst_subpass: u32,
    pub src_stage_mask: u32,
    pub dst_stage_mask: u32,
    pub src_access_mask: u32,
    pub dst_access_mask: u32,
}

/// Describes a render pass.
#[derive(Debug)]
pub struct RenderPassCreateInfo {
    pub attachments: Vec<AttachmentDescription>,
    pub subpasses: Vec<SubpassDescription>,
    pub dependencies: Vec<SubpassDependency>,
}

/// The attachments of the render pass: one image of the swapchain, cleared first
/// and shown afterwards.
pub open spec fn attachments(format: i32) -> Seq<AttachmentDescription> {
    seq![
        AttachmentDescription {
            format,
            samples: VK_SAMPLE_COUNT_1_BIT,
            load_op: VK_ATTACHMENT_LOAD_OP_CLEAR,
            store_op: VK_ATTACHMENT_STORE_OP_STORE,
            stencil_load_op: VK_ATTACHMENT_LOAD_OP_DONT_CARE,
            stencil_store_op: VK_ATTACHMENT_STORE_OP_DONT_CARE,
            initial_layout: VK_IMAGE_LAYOUT_UNDEFINED,
            final_layout: VK_IMAGE_LAYOUT_PRESENT_SRC_KHR,
        },
    ]
}

/// The attachments that the only subpass draws to.
pub open spec fn color_references() -> Seq<AttachmentReference> {
    seq![AttachmentReference { attachment: 0, layout: VK_IMAGE_LAYOUT_COLOR_ATTACHMENT_OPTIMAL }]
}

/// The subpass writes its colours once what came before has written its own.
pub open spec fn dependencies() -> Seq<SubpassDependency> {
    seq![
        SubpassDependency {
            src_subpass: VK_SUBPASS_EXTERNAL,
            dst_subpass: 0,
            src_stage_mask: VK_PIPELINE_STAGE_COLOR_ATTACHMENT_OUTPUT_BIT,
            dst_stage_mask: VK_PIPELINE_STAGE_COLOR_ATTACHMENT_OUTPUT_BIT,
            src_access_mask: 0,
            dst_access_mask: VK_ACCESS_COLOR_ATTACHMENT_WRITE_BIT,
        },
    ]
}

/// Whether `info` describes the render pass for images of the given format.
pub open spec fn describes_render_pass(info: RenderPassCreateInfo, format: i32) -> bool {
    &&& info.attachments@ == attachments(format)
    &&& info.subpasses@.len() == 1
    &&& info.subpasses@[0].pipeline_bind_point == VK_PIPELINE_BIND_POINT_GRAPHICS
    &&& info.subpasses@[0].color_attachments@ == color_references()
    &&& info.dependencies@ == dependencies()
}

/// Describes the render pass for images of the given format.
pub fn render_pass_create_info(format: i32) -> (info: RenderPassCreateInfo)
    ensures
        describes_render_pass(info, format),
        info.attachments@ == attachments(format),
        info.subpasses@.len() == 1,
        info.subpasses@[0].pipeline_bind_point == VK_PIPELINE_BIND_POINT_GRAPHICS,
        info.subpasses@[0].color_attachments@ == color_references(),
        info.dependencies@ == dependencies(),
{
    let attachment = AttachmentDescription {
        format,
        samples: VK_SAMPLE_COUNT_1_BIT,
        load_op: VK_ATTACHMENT_LOAD_OP_CLEAR,
        store_op: VK_ATTACHMENT_STORE_OP_STORE,
        stencil_load_op: VK_ATTACHMENT_LOAD_OP_DONT_CARE,
        stencil_store_op: VK_ATTACHMENT_STORE_OP_DONT_CARE,
        initial_layout: VK_IMAGE_LAYOUT_UNDEFINED,
        final_layout: VK_IMAGE_LAYOUT_PRESENT_SRC_KHR,
    };
    let reference = AttachmentReference {
        attachment: 0,
        layout: VK_IMAGE_LAYOUT_COLOR_ATTACHMENT_OPTIMAL,
    };
    let subpass = SubpassDescription {
        pipeline_bind_point: VK_PIPELINE_BIND_POINT_GRAPHICS,
        color_attachments: vec![reference],
    };
    let dependency = SubpassDependency {
        src_subpass: VK_SUBPASS_EXTERNAL,
        dst_subpass: 0,
        src_stage_mask: VK_PIPELINE_STAGE_COLOR_ATTACHMENT_OUTPUT_BIT,
        dst_stage_mask: VK_PIPELINE_STAGE_COLOR_ATTACHMENT_OUTPUT_BIT,
        src_access_mask: 0,
        dst_access_mask: VK_ACCESS_COLOR_ATTACHMENT_WRITE_BIT,
    };
    assert(subpass.color_attachments@ =~= color_references());
    let info = RenderPassCreateInfo {
        attachments: vec![attachment],
        subpasses: vec![subpass],
        dependencies: vec![dependency],
    };
    assert(info.attachments@ =~= attachments(format));
    assert(info.dependencies@ =~= dependencies());
    info
}

/// Describes a pipeline layout.
#[derive(Debug)]
pub struct PipelineLayoutCreateInfo {
    pub set_layouts: Vec<DescriptorSetLayout>,
}

/// Describes the pipeline layout with the given descriptor set layouts.
pub fn pipeline_layout_create_info(descriptor_set_layout: &[DescriptorSetLayout]) -> (info:
    PipelineLayoutCreateInfo)
    ensures
        info.set_layouts@ == descriptor_set_layout@,
{
    PipelineLayoutCreateInfo { set_layouts: copied(descriptor_set_layout) }
}

/// The elements of `items`, in order.
fn copied<T: Copy>(items: &[T]) -> (copies: Vec<T>)
    ensures
        copies@ == items@,
{
    let mut copies: Vec<T> = Vec::new();
    let mut i: usize = 0;
    while i < items.len()
        invariant
            i <= items@.len(),
            copies@ == items@.take(i as int),
        decreases items@.len() - i,
    {
        copies.push(items[i]);
        i += 1;
    }
    copies
}

/// How far apart vertices lie in a vertex buffer.
#[derive(Clone, Copy, Debug, PartialEq, Eq, Structural)]
pub struct VertexInputBinding {
    pub binding: u32,
    pub stride: u32,
    pub input_rate: i32,
}

/// Where an attribute of a vertex lies.
#[derive(Clone, Copy, Debug, PartialEq, Eq, Structural)]
pub struct VertexInputAttribute {
    pub location: u32,
    pub binding: u32,
    pub format: i32,
    pub offset: u32,
}

/// How vertices are put together.
#[derive(Clone, Copy, Debug, PartialEq, Eq, Structural)]
pub struct InputAssemblyState {
    pub topology: i32,
    pub primitive_restart_enable: bool,
}

/// How many viewports and scissors there are.
#[derive(Clone, Copy, Debug, PartialEq, Eq, Structural)]
pub struct ViewportState {
    pub viewport_count: u32,
    pub scissor_count: u32,
}

/// How primitives become fragments. The line width is a whole number.
#[derive(Clone, Copy, Debug, PartialEq, Eq, Structural)]
pub struct RasterizationState {
    pub depth_clamp_enable: bool,
    pub rasterizer_discard_enable: bool,
    pub polygon_mode: i32,
    pub line_width: u32,
    pub cull_mode: u32,
    pub front_face: i32,
}

/// How a fragment is combined with what is in the attachment.
#[derive(Clone, Copy, Debug, PartialEq, Eq, Structural)]
pub struct ColorBlendAttachmentState {
    pub blend_enable: bool,
    pub color_blend_op: i32,
    pub alpha_blend_op: i32,
    pub color_write_mask: u32,
    pub src_color_blend_factor: i32,
    pub dst_color_blend_factor: i32,
    pub src_alpha_blend_factor: i32,
    pub dst_alpha_blend_factor: i32,
}

/// Describes a graphics pipeline.
#[derive(Debug)]
pub struct GraphicsPipelineCreateInfo {
    pub stages: Vec<ShaderStageCreateInfo>,
    pub vertex_bindings: Vec<VertexInputBinding>,
    pub vertex_attributes: Vec<VertexInputAttribute>,
    pub input_assembly: InputAssemblyState,
    pub viewport: ViewportState,
    pub rasterization: RasterizationState,
    pub rasterization_samples: u32,
    pub logic_op_enable: bool,
    pub logic_op: i32,
    pub color_blend_attachments: Vec<ColorBlendAttachmentState>,
    pub dynamic_states: Vec<i32>,
    pub layout: PipelineLayout,
    pub render_pass: RenderPass,
    pub subpass: u32,
    pub base_pipeline_index: i32,
}

/// The states that are set while commands are recorded, not with the pipeline.
pub open spec fn dynamic_states() -> Seq<i32> {
    seq![VK_DYNAMIC_STATE_VIEWPORT, VK_DYNAMIC_STATE_SCISSOR]
}

/// The fragment replaces what is in the attachment.
pub open spec fn color_blend_attachments() -> Seq<ColorBlendAttachmentState> {
    seq![
        ColorBlendAttachmentState {
            blend_enable: false,
            color_blend_op: VK_BLEND_OP_ADD,
            alpha_blend_op: VK_BLEND_OP_ADD,
            color_write_mask: VK_COLOR_COMPONENT_RGBA,
            src_color_blend_factor: VK_BLEND_FACTOR_ONE,
            dst_color_blend_factor: VK_BLEND_FACTOR_ZERO,
            src_alpha_blend_factor: VK_BLEND_FACTOR_ONE,
            dst_alpha_blend_factor: VK_BLEND_FACTOR_ZERO,
        },
    ]
}

/// Whether `info` describes the pipeline that draws filled triangles of the given
/// vertices.
pub open spec fn describes_pipeline(
    info: GraphicsPipelineCreateInfo,
    render_pass: RenderPass,
    pipeline_layout: PipelineLayout,
    stages: Seq<ShaderStageCreateInfo>,
    vertex_bindings: Seq<VertexInputBinding>,
    vertex_attributes: Seq<VertexInputAttribute>,
) -> bool {
    &&& info.stages@ == stages
    &&& info.vertex_bindings@ == vertex_bindings
    &&& info.vertex_attributes@ == vertex_attributes
    &&& info.input_assembly == (InputAssemblyState {
        topology: VK_PRIMITIVE_TOPOLOGY_TRIANGLE_LIST,
        primitive_restart_enable: false,
    })
    &&& info.viewport == (ViewportState { viewport_count: 1, scissor_count: 1 })
    &&& info.rasterization == (RasterizationState {
        depth_clamp_enable: false,
        rasterizer_discard_enable: false,
        polygon_mode: VK_POLYGON_MODE_FILL,
        line_width: 1,
        cull_mode: VK_CULL_MODE_NONE,
        front_face: VK_FRONT_FACE_COUNTER_CLOCKWISE,
    })
    &&& info.rasterization_samples == VK_SAMPLE_COUNT_1_BIT
    &&& info.logic_op_enable == false
    &&& info.logic_op == VK_LOGIC_OP_COPY
    &&& info.color_blend_attachments@ == color_blend_attachments()
    &&& info.dynamic_states@ == dynamic_states()
    &&& info.layout == pipeline_layout
    &&& info.render_pass == render_pass
    &&& info.subpass == 0
    &&& info.base_pipeline_index == -1
}

/// Describes the pipeline that draws filled triangles of the given vertices.
pub fn graphics_pipeline_create_info(
    render_pass: RenderPass,
    pipeline_layout: PipelineLayout,
    shader_create_infos: &[ShaderStageCreateInfo],
    vertex_bindings: &[VertexInputBinding],
    vertex_attributes: &[VertexInputAttribute],
) -> (info: GraphicsPipelineCreateInfo)
    ensures
        describes_pipeline(
            info,
            render_pass,
            pipeline_layout,
            shader_create_infos@,
            vertex_bindings@,
            vertex_attributes@,
        ),
        info.stages@ == shader_create_infos@,
        info.vertex_bindings@ == vertex_bindings@,
        info.vertex_attributes@ == vertex_attributes@,
        info.input_assembly == (InputAssemblyState {
            topology: VK_PRIMITIVE_TOPOLOGY_TRIANGLE_LIST,
            primitive_restart_enable: false,
        }),
        info.viewport == (ViewportState { viewport_count: 1, scissor_count: 1 }),
        info.rasterization == (RasterizationState {
            depth_clamp_enable: false,
            rasterizer_discard_enable: false,
            polygon_mode: VK_POLYGON_MODE_FILL,
            line_width: 1,
            cull_mode: VK_CULL_MODE_NONE,
            front_face: VK_FRONT_FACE_COUNTER_CLOCKWISE,
        }),
        info.rasterization_samples == VK_SAMPLE_COUNT_1_BIT,
        info.logic_op_enable == false,
        info.logic_op == VK_LOGIC_OP_COPY,
        info.color_blend_attachments@ == color_blend_attachments(),
        info.dynamic_states@ == dynamic_states(),
        info.layout == pipeline_layout,
        info.render_pass == render_pass,
        info.subpass == 0,
        info.base_pipeline_index == -1,
{
    let input_assembly = InputAssemblyState {
        topology: VK_PRIMITIVE_TOPOLOGY_TRIANGLE_LIST,
        primitive_restart_enable: false,
    };
    let viewport = ViewportState { viewport_count: 1, scissor_count: 1 };
    let rasterization = RasterizationState {
        depth_clamp_enable: false,
        rasterizer_discard_enable: false,
        polygon_mode: VK_POLYGON_MODE_FILL,
        line_width: 1,
        cull_mode: VK_CULL_MODE_NONE,
        front_face: VK_FRONT_FACE_COUNTER_CLOCKWISE,
    };
    let color_blend_attachment = ColorBlendAttachmentState {
        blend_enable: false,
        color_blend_op: VK_BLEND_OP_ADD,
        alpha_blend_op: VK_BLEND_OP_ADD,
        color_write_mask: VK_COLOR_COMPONENT_RGBA,
        src_color_blend_factor: VK_BLEND_FACTOR_ONE,
        dst_color_blend_factor: VK_BLEND_FACTOR_ZERO,
        src_alpha_blend_factor: VK_BLEND_FACTOR_ONE,
        dst_alpha_blend_factor: VK_BLEND_FACTOR_ZERO,
    };
    let info = GraphicsPipelineCreateInfo {
        stages: copied(shader_create_infos),
        vertex_bindings: copied(vertex_bindings),
        vertex_attributes: copied(vertex_attributes),
        input_assembly,
        viewport,
        rasterization,
        rasterization_samples: VK_SAMPLE_COUNT_1_BIT,
        logic_op_enable: false,
        logic_op: VK_LOGIC_OP_COPY,
        color_blend_attachments: vec![color_blend_attachment],
        dynamic_states: vec![VK_DYNAMIC_STATE_VIEWPORT, VK_DYNAMIC_STATE_SCISSOR],
        layout: pipeline_layout,
        render_pass,
        subpass: 0,
        base_pipeline_index: -1,
    };
    assert(info.color_blend_attachments@ =~= color_blend_attachments());
    assert(info.dynamic_states@ =~= dynamic_states());
    info
}

/// The render pass and the pipeline fit together, whatever the format: each
/// attachment that the subpass draws to exists and has a blend state, it is
/// sampled as the pipeline samples, and it comes out ready to be shown.
pub proof fn pipeline_fits_render_pass(format: i32)
    ensures
        color_references().len() == color_blend_attachments().len(),
        forall|i: int|
            #![trigger color_references()[i]]
            0 <= i < color_references().len() ==> color_references()[i].attachment < attachments(
                format,
            ).len() && attachments(format)[color_references()[i].attachment as int].samples
                == VK_SAMPLE_COUNT_1_BIT
                && attachments(format)[color_references()[i].attachment as int].format == format
                && attachments(format)[color_references()[i].attachment as int].final_layout
                == VK_IMAGE_LAYOUT_PRESENT_SRC_KHR,
{
}

/// Whatever the format, what is drawn is kept: the only subpass draws to the only
/// attachment, which is cleared when the pass begins, whatever was in it, stored
/// when the pass ends, and then ready to be shown.
pub proof fn what_is_drawn_is_kept(info: RenderPassCreateInfo, format: i32)
    requires
        describes_render_pass(info, format),
    ensures
        info.attachments@.len() == 1,
        info.subpasses@.len() == 1,
        info.subpasses@[0].pipeline_bind_point == VK_PIPELINE_BIND_POINT_GRAPHICS,
        info.subpasses@[0].color_attachments@.len() == 1,
        forall|i: int|
            0 <= i < info.subpasses@[0].color_attachments@.len() ==> {
                let reference = #[trigger] info.subpasses@[0].color_attachments@[i];
                let drawn_to = info.attachments@[reference.attachment as int];
                &&& reference.attachment < info.attachments@.len()
                &&& reference.layout == VK_IMAGE_LAYOUT_COLOR_ATTACHMENT_OPTIMAL
                &&& drawn_to.format == format
                &&& drawn_to.samples == VK_SAMPLE_COUNT_1_BIT
                &&& drawn_to.load_op == VK_ATTACHMENT_LOAD_OP_CLEAR
                &&& drawn_to.store_op == VK_ATTACHMENT_STORE_OP_STORE
                &&& drawn_to.stencil_load_op == VK_ATTACHMENT_LOAD_OP_DONT_CARE
                &&& drawn_to.stencil_store_op == VK_ATTACHMENT_STORE_OP_DONT_CARE
                &&& drawn_to.initial_layout == VK_IMAGE_LAYOUT_UNDEFINED
                &&& drawn_to.final_layout == VK_IMAGE_LAYOUT_PRESENT_SRC_KHR
            },
{
}

/// Whatever the format, colours are written only once what came before the render
/// pass has written its own.
pub proof fn colours_wait_for_the_image(info: RenderPassCreateInfo, format: i32)
    requires
        describes_render_pass(info, format),
    ensures
        info.dependencies@.len() == 1,
        forall|i: int|
            0 <= i < info.dependencies@.len() ==> {
                let dependency = #[trigger] info.dependencies@[i];
                &&& dependency.src_subpass == VK_SUBPASS_EXTERNAL
                &&& dependency.dst_subpass == 0
                &&& dependency.src_stage_mask == VK_PIPELINE_STAGE_COLOR_ATTACHMENT_OUTPUT_BIT
                &&& dependency.dst_stage_mask == VK_PIPELINE_STAGE_COLOR_ATTACHMENT_OUTPUT_BIT
                &&& dependency.src_access_mask == 0
                &&& dependency.dst_access_mask == VK_ACCESS_COLOR_ATTACHMENT_WRITE_BIT
            },
{
}

/// Whatever it is made of, the pipeline takes the shaders, the vertices, the layout
/// and the render pass that it is given, and fills triangles seen from either side,
/// none of which is thrown away.
pub proof fn pipeline_fills_triangles(
    info: GraphicsPipelineCreateInfo,
    render_pass: RenderPass,
    pipeline_layout: PipelineLayout,
    stages: Seq<ShaderStageCreateInfo>,
    vertex_bindings: Seq<VertexInputBinding>,
    vertex_attributes: Seq<VertexInputAttribute>,
)
    requires
        describes_pipeline(
            info,
            render_pass,
            pipeline_layout,
            stages,
            vertex_bindings,
            vertex_attributes,
        ),
    ensures
        info.stages@ == stages,
        info.vertex_bindings@ == vertex_bindings,
        info.vertex_attributes@ == vertex_attributes,
        info.layout == pipeline_layout,
        info.render_pass == render_pass,
        info.subpass == 0,
        info.base_pipeline_index == -1,
        info.input_assembly.topology == VK_PRIMITIVE_TOPOLOGY_TRIANGLE_LIST,
        !info.input_assembly.primitive_restart_enable,
        info.viewport.viewport_count == 1,
        info.viewport.scissor_count == 1,
        !info.rasterization.depth_clamp_enable,
        !info.rasterization.rasterizer_discard_enable,
        info.rasterization.polygon_mode == VK_POLYGON_MODE_FILL,
        info.rasterization.line_width == 1,
        info.rasterization.cull_mode == VK_CULL_MODE_NONE,
        info.rasterization.front_face == VK_FRONT_FACE_COUNTER_CLOCKWISE,
        info.rasterization_samples == VK_SAMPLE_COUNT_1_BIT,
        forall|state: i32|
            info.dynamic_states@.contains(state) <==> state == VK_DYNAMIC_STATE_VIEWPORT || state
                == VK_DYNAMIC_STATE_SCISSOR,
        info.dynamic_states@.len() == 2,
{
    assert(info.dynamic_states@[0] == VK_DYNAMIC_STATE_VIEWPORT);
    assert(info.dynamic_states@[1] == VK_DYNAMIC_STATE_SCISSOR);
}

/// A fragment replaces what is in the attachment, in all four channels, and nothing
/// of what was there is mixed in.
pub proof fn fragments_replace_what_is_there(
    info: GraphicsPipelineCreateInfo,
    render_pass: RenderPass,
    pipeline_layout: PipelineLayout,
    stages: Seq<ShaderStageCreateInfo>,
    vertex_bindings: Seq<VertexInputBinding>,
    vertex_attributes: Seq<VertexInputAttribute>,
)
    requires
        describes_pipeline(
            info,
            render_pass,
            pipeline_layout,
            stages,
            vertex_bindings,
            vertex_attributes,
        ),
    ensures
        !info.logic_op_enable,
        info.logic_op == VK_LOGIC_OP_COPY,
        info.color_blend_attachments@.len() == 1,
        forall|i: int|
            0 <= i < info.color_blend_attachments@.len() ==> {
                let blend = #[trigger] info.color_blend_attachments@[i];
                &&& !blend.blend_enable
                &&& blend.color_write_mask == VK_COLOR_COMPONENT_RGBA
                &&& blend.color_blend_op == VK_BLEND_OP_ADD
                &&& blend.alpha_blend_op == VK_BLEND_OP_ADD
                &&& blend.src_color_blend_factor == VK_BLEND_FACTOR_ONE
                &&& blend.dst_color_blend_factor == VK_BLEND_FACTOR_ZERO
                &&& blend.src_alpha_blend_factor == VK_BLEND_FACTOR_ONE
                &&& blend.dst_alpha_blend_factor == VK_BLEND_FACTOR_ZERO
            },
{
}

} // verus!
