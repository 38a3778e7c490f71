//! What is created and uploaded before the first frame.
//!
//! Vertices, indices and pixels all go through one staging buffer, one after the
//! other, so the order of the steps matters.
use vstd::prelude::*;

use crate::command::{indices, quad_indices};
use crate::define::{
    FRAMES_IN_FLIGHT, VK_BORDER_COLOR_INT_OPAQUE_BLACK, VK_BUFFER_USAGE_INDEX_BUFFER_BIT,
    VK_BUFFER_USAGE_TRANSFER_DST_BIT, VK_BUFFER_USAGE_TRANSFER_SRC_BIT,
    VK_BUFFER_USAGE_UNIFORM_BUFFER_BIT, VK_BUFFER_USAGE_VERTEX_BUFFER_BIT, VK_COMPARE_OP_ALWAYS,
    VK_FENCE_CREATE_SIGNALED_BIT, VK_FILTER_LINEAR, VK_FORMAT_R8G8B8A8_SRGB, VK_IMAGE_ASPECT_COLOR_BIT,
    VK_IMAGE_LAYOUT_SHADER_READ_ONLY_OPTIMAL, VK_IMAGE_LAYOUT_TRANSFER_DST_OPTIMAL,
    VK_IMAGE_LAYOUT_UNDEFINED, VK_IMAGE_TILING_OPTIMAL, VK_IMAGE_USAGE_SAMPLED_BIT,
    VK_IMAGE_USAGE_TRANSFER_DST_BIT, VK_MEMORY_PROPERTY_DEVICE_LOCAL_BIT,
    VK_MEMORY_PROPERTY_HOST_COHERENT_BIT, VK_MEMORY_PROPERTY_HOST_VISIBLE_BIT,
    VK_SAMPLER_ADDRESS_MODE_CLAMP_TO_BORDER, VK_SAMPLER_MIPMAP_MODE_LINEAR,
};
use crate::descriptor::{mat4_size, matrix_bytes};
use crate::texture::{slice_size, Texture};

verus! {

/// Describes a buffer and the memory that it lies in.
#[derive(Clone, Copy, Debug, PartialEq, Eq, Structural)]
pub struct BufferCreateInfo {
    pub size: u64,
    pub usage: u32,
    pub memory: u32,
}

/// A size in texels.
#[derive(Clone, Copy, Debug, PartialEq, Eq, Structural)]
pub struct Extent3D {
    pub width: u32,
    pub height: u32,
    pub depth: u32,
}

/// Describes an image and the memory that it lies in.
#[derive(Clone, Copy, Debug, PartialEq, Eq, Structural)]
pub struct ImageCreateInfo {
    pub format: i32,
    pub extent: Extent3D,
    pub tiling: i32,
    pub usage: u32,
    pub memory: u32,
}

/// Which part of an image is copied to, and where its texels lie in the buffer.
#[derive(Clone, Copy, Debug, PartialEq, Eq, Structural)]
pub struct BufferImageCopy {
    pub buffer_offset: u64,
    pub buffer_row_length: u32,
    pub buffer_image_height: u32,
    pub aspect_mask: u32,
    pub mip_level: u32,
    pub base_array_layer: u32,
    pub layer_count: u32,
    pub image_offset_x: i32,
    pub image_offset_y: i32,
    pub image_offset_z: i32,
    pub image_extent: Extent3D,
}

/// Describes a sampler. The levels of detail are whole numbers; the anisotropy
/// is the bit pattern of a 32-bit floating-point number.
#[derive(Clone, Copy, Debug, PartialEq, Eq, Structural)]
pub struct SamplerCreateInfo {
    pub mag_filter: i32,
    pub min_filter: i32,
    pub address_mode_u: i32,
    pub address_mode_v: i32,
    pub address_mode_w: i32,
    pub anisotropy_enable: bool,
    pub max_anisotropy_bits: u32,
    pub border_color: i32,
    pub unnormalized_coordinates: bool,
    pub compare_enable: bool,
    pub compare_op: i32,
    pub mipmap_mode: i32,
    pub mip_lod_bias: u32,
    pub min_lod: u32,
    pub max_lod: u32,
}

/// A buffer of which there is one.
#[derive(Clone, Copy, Debug, PartialEq, Eq, Structural)]
pub enum BufferTarget {
    Staging,
    Vertex,
    Index,
}

/// What is put into the staging buffer.
#[derive(Clone, Copy, Debug, PartialEq, Eq, Structural)]
pub enum StagingSource {
    Vertices,
    Indices,
    Pixels,
}

/// One step of the setup.
#[derive(Clone, Copy, Debug, PartialEq, Eq, Structural)]
pub enum SetupStep {
    /// Create the buffer `target`.
    CreateBuffer { target: BufferTarget, info: BufferCreateInfo },
    /// Write `size` bytes of `source` to the start of the staging buffer.
    Stage { source: StagingSource, size: u64 },
    /// Copy the first `size` bytes of the staging buffer to the buffer `target`.
    CopyStaged { target: BufferTarget, size: u64 },
    /// Create the uniform buffer `slot`, keep it mapped and write the first camera.
    CreateUniformBuffer { slot: usize, info: BufferCreateInfo },
    /// Create the image of the texture.
    CreateImage { image: ImageCreateInfo },
    /// Bring the image of the texture from one layout to another.
    SetImageLayout { old_layout: i32, new_layout: i32 },
    /// Copy the staging buffer to the image of the texture.
    CopyToImage { region: BufferImageCopy, layout: i32 },
    /// Create the view of the texture.
    CreateImageView { format: i32 },
    /// Create the sampler of the texture.
    CreateSampler { sampler: SamplerCreateInfo },
}

/// Memory that the CPU writes to.
pub open spec fn host_memory() -> u32 {
    VK_MEMORY_PROPERTY_HOST_VISIBLE_BIT | VK_MEMORY_PROPERTY_HOST_COHERENT_BIT
}

/// The staging buffer for an image of `image_bytes` bytes.
pub open spec fn staging_buffer(image_bytes: u64) -> BufferCreateInfo {
    BufferCreateInfo {
        size: image_bytes,
        usage: VK_BUFFER_USAGE_TRANSFER_SRC_BIT,
        memory: host_memory(),
    }
}

/// A buffer of the GPU that is filled from the staging buffer. The index buffer
/// is as large as the vertex buffer.
pub open spec fn device_buffer(vertex_bytes: u64, usage: u32) -> BufferCreateInfo {
    BufferCreateInfo {
        size: vertex_bytes,
        usage: VK_BUFFER_USAGE_TRANSFER_DST_BIT | usage,
        memory: VK_MEMORY_PROPERTY_DEVICE_LOCAL_BIT,
    }
}

/// The buffer of a camera.
pub open spec fn uniform_buffer() -> BufferCreateInfo {
    BufferCreateInfo {
        size: matrix_bytes(),
        usage: VK_BUFFER_USAGE_UNIFORM_BUFFER_BIT,
        memory: host_memory(),
    }
}

/// The size of a flat image.
pub open spec fn flat(width: u32, height: u32) -> Extent3D {
    Extent3D { width, height, depth: 1 }
}

/// The image of the texture.
pub open spec fn texture_image(width: u32, height: u32) -> ImageCreateInfo {
    ImageCreateInfo {
        format: VK_FORMAT_R8G8B8A8_SRGB,
        extent: flat(width, height),
        tiling: VK_IMAGE_TILING_OPTIMAL,
        usage: VK_IMAGE_USAGE_TRANSFER_DST_BIT | VK_IMAGE_USAGE_SAMPLED_BIT,
        memory: VK_MEMORY_PROPERTY_DEVICE_LOCAL_BIT,
    }
}

/// All of the image, its texels packed at the start of the buffer.
pub open spec fn whole_image(width: u32, height: u32) -> BufferImageCopy {
    BufferImageCopy {
        buffer_offset: 0,
        buffer_row_length: 0,
        buffer_image_height: 0,
        aspect_mask: VK_IMAGE_ASPECT_COLOR_BIT,
        mip_level: 0,
        base_array_layer: 0,
        layer_count: 1,
        image_offset_x: 0,
        image_offset_y: 0,
        image_offset_z: 0,
        image_extent: flat(width, height),
    }
}

/// The sampler of the texture.
pub open spec fn texture_sampler(max_anisotropy_bits: u32) -> SamplerCreateInfo {
    SamplerCreateInfo {
        mag_filter: VK_FILTER_LINEAR,
        min_filter: VK_FILTER_LINEAR,
        address_mode_u: VK_SAMPLER_ADDRESS_MODE_CLAMP_TO_BORDER,
        address_mode_v: VK_SAMPLER_ADDRESS_MODE_CLAMP_TO_BORDER,
        address_mode_w: VK_SAMPLER_ADDRESS_MODE_CLAMP_TO_BORDER,
        anisotropy_enable: true,
        max_anisotropy_bits,
        border_color: VK_BORDER_COLOR_INT_OPAQUE_BLACK,
        unnormalized_coordinates: false,
        compare_enable: false,
        compare_op: VK_COMPARE_OP_ALWAYS,
        mipmap_mode: VK_SAMPLER_MIPMAP_MODE_LINEAR,
        mip_lod_bias: 0,
        min_lod: 0,
        max_lod: 0,
    }
}

/// Bytes of the indices: four for each.
pub open spec fn index_bytes() -> u64 {
    (4 * quad_indices().len()) as u64
}

/// The steps that fill the vertex buffer and the index buffer.
pub open spec fn geometry_steps(image_bytes: u64, vertex_bytes: u64) -> Seq<SetupStep> {
    seq![
        SetupStep::CreateBuffer {
            target: BufferTarget::Staging,
            info: staging_buffer(image_bytes),
        },
        SetupStep::Stage { source: StagingSource::Vertices, size: vertex_bytes },
        SetupStep::CreateBuffer {
            target: BufferTarget::Vertex,
            info: device_buffer(vertex_bytes, VK_BUFFER_USAGE_VERTEX_BUFFER_BIT),
        },
        SetupStep::CopyStaged { target: BufferTarget::Vertex, size: vertex_bytes },
        SetupStep::Stage { source: StagingSource::Indices, size: index_bytes() },
        SetupStep::CreateBuffer {
            target: BufferTarget::Index,
            info: device_buffer(vertex_bytes, VK_BUFFER_USAGE_INDEX_BUFFER_BIT),
        },
        SetupStep::CopyStaged { target: BufferTarget::Index, size: index_bytes() },
    ]
}

/// The steps that create a uniform buffer for each frame in flight.
pub open spec fn uniform_steps() -> Seq<SetupStep> {
    Seq::new(
        FRAMES_IN_FLIGHT as nat,
        |i: int| SetupStep::CreateUniformBuffer { slot: i as usize, info: uniform_buffer() },
    )
}

/// The steps that fill the texture.
pub open spec fn texture_steps(
    image_bytes: u64,
    width: u32,
    height: u32,
    max_anisotropy_bits: u32,
) -> Seq<SetupStep> {
    seq![
        SetupStep::Stage { source: StagingSource::Pixels, size: image_bytes },
        SetupStep::CreateImage { image: texture_image(width, height) },
        SetupStep::SetImageLayout {
            old_layout: VK_IMAGE_LAYOUT_UNDEFINED,
            new_layout: VK_IMAGE_LAYOUT_TRANSFER_DST_OPTIMAL,
        },
        SetupStep::CopyToImage {
            region: whole_image(width, height),
            layout: VK_IMAGE_LAYOUT_TRANSFER_DST_OPTIMAL,
        },
        SetupStep::SetImageLayout {
            old_layout: VK_IMAGE_LAYOUT_TRANSFER_DST_OPTIMAL,
            new_layout: VK_IMAGE_LAYOUT_SHADER_READ_ONLY_OPTIMAL,
        },
        SetupStep::CreateImageView { format: VK_FORMAT_R8G8B8A8_SRGB },
        SetupStep::CreateSampler { sampler: texture_sampler(max_anisotropy_bits) },
    ]
}

/// All steps of the setup, in order.
pub open spec fn all_steps(
    image_bytes: u64,
    width: u32,
    height: u32,
    vertex_bytes: u64,
    max_anisotropy_bits: u32,
) -> Seq<SetupStep> {
    geometry_steps(image_bytes, vertex_bytes) + uniform_steps() + texture_steps(
        image_bytes,
        width,
        height,
        max_anisotropy_bits,
    )
}

/// Appends the steps that fill the vertex buffer and the index buffer.
fn push_geometry_steps(steps: &mut Vec<SetupStep>, image_bytes: u64, vertex_bytes: u64)
    ensures
        final(steps)@ == old(steps)@ + geometry_steps(image_bytes, vertex_bytes),
{
    let index_list = indices();
    broadcast use vstd::layout::layout_of_primitives;

    let index_size: u64 = slice_size(index_list.as_slice()) as u64;
    steps.push(
        SetupStep::CreateBuffer {
            target: BufferTarget::Staging,
            info: BufferCreateInfo {
                size: image_bytes,
                usage: VK_BUFFER_USAGE_TRANSFER_SRC_BIT,
                memory: VK_MEMORY_PROPERTY_HOST_VISIBLE_BIT | VK_MEMORY_PROPERTY_HOST_COHERENT_BIT,
            },
        },
    );
    steps.push(SetupStep::Stage { source: StagingSource::Vertices, size: vertex_bytes });
    steps.push(
        SetupStep::CreateBuffer {
            target: BufferTarget::Vertex,
            info: BufferCreateInfo {
                size: vertex_bytes,
                usage: VK_BUFFER_USAGE_TRANSFER_DST_BIT | VK_BUFFER_USAGE_VERTEX_BUFFER_BIT,
                memory: VK_MEMORY_PROPERTY_DEVICE_LOCAL_BIT,
            },
        },
    );
    steps.push(SetupStep::CopyStaged { target: BufferTarget::Vertex, size: vertex_bytes });
    steps.push(SetupStep::Stage { source: StagingSource::Indices, size: index_size });
    steps.push(
        SetupStep::CreateBuffer {
            target: BufferTarget::Index,
            info: BufferCreateInfo {
                size: vertex_bytes,
                usage: VK_BUFFER_USAGE_TRANSFER_DST_BIT | VK_BUFFER_USAGE_INDEX_BUFFER_BIT,
                memory: VK_MEMORY_PROPERTY_DEVICE_LOCAL_BIT,
            },
        },
    );
    steps.push(SetupStep::CopyStaged { target: BufferTarget::Index, size: index_size });
    assert(steps@ =~= old(steps)@ + geometry_steps(image_bytes, vertex_bytes));
}

/// Appends the steps that create a uniform buffer for each frame in flight.
fn push_uniform_steps(steps: &mut Vec<SetupStep>)
    ensures
        final(steps)@ == old(steps)@ + uniform_steps(),
{
    let mut slot: usize = 0;
    while slot < FRAMES_IN_FLIGHT
        invariant
            slot <= FRAMES_IN_FLIGHT,
            steps@ == old(steps)@ + uniform_steps().take(slot as int),
        decreases FRAMES_IN_FLIGHT - slot,
    {
        steps.push(
            SetupStep::CreateUniformBuffer {
                slot,
                info: BufferCreateInfo {
                    size: mat4_size(),
                    usage: VK_BUFFER_USAGE_UNIFORM_BUFFER_BIT,
                    memory: VK_MEMORY_PROPERTY_HOST_VISIBLE_BIT
                        | VK_MEMORY_PROPERTY_HOST_COHERENT_BIT,
                },
            },
        );
        slot += 1;
    }
    assert(uniform_steps().take(slot as int) =~= uniform_steps());
}

/// The flags with which the fences of the frames in flight are created: the first
/// wait for each must end though nothing was handed in with it.
pub fn fence_create_info() -> (flags: u32)
    ensures
        flags == VK_FENCE_CREATE_SIGNALED_BIT,
{
    VK_FENCE_CREATE_SIGNALED_BIT
}

/// Describes the sampler of the texture.
pub fn sampler_create_info(max_anisotropy_bits: u32) -> (info: SamplerCreateInfo)
    ensures
        info == texture_sampler(max_anisotropy_bits),
{
    SamplerCreateInfo {
        mag_filter: VK_FILTER_LINEAR,
        min_filter: VK_FILTER_LINEAR,
        address_mode_u: VK_SAMPLER_ADDRESS_MODE_CLAMP_TO_BORDER,
        address_mode_v: VK_SAMPLER_ADDRESS_MODE_CLAMP_TO_BORDER,
        address_mode_w: VK_SAMPLER_ADDRESS_MODE_CLAMP_TO_BORDER,
        anisotropy_enable: true,
        max_anisotropy_bits,
        border_color: VK_BORDER_COLOR_INT_OPAQUE_BLACK,
        unnormalized_coordinates: false,
        compare_enable: false,
        compare_op: VK_COMPARE_OP_ALWAYS,
        mipmap_mode: VK_SAMPLER_MIPMAP_MODE_LINEAR,
        mip_lod_bias: 0,
        min_lod: 0,
        max_lod: 0,
    }
}

/// Appends the steps that fill the texture.
fn push_texture_steps(
    steps: &mut Vec<SetupStep>,
    image_bytes: u64,
    width: u32,
    height: u32,
    max_anisotropy_bits: u32,
)
    ensures
        final(steps)@ == old(steps)@ + texture_steps(
            image_bytes,
            width,
            height,
            max_anisotropy_bits,
        ),
{
    let extent = Extent3D { width, height, depth: 1 };
    steps.push(SetupStep::Stage { source: StagingSource::Pixels, size: image_bytes });
    steps.push(
        SetupStep::CreateImage {
            image: ImageCreateInfo {
                format: VK_FORMAT_R8G8B8A8_SRGB,
                extent,
                tiling: VK_IMAGE_TILING_OPTIMAL,
                usage: VK_IMAGE_USAGE_TRANSFER_DST_BIT | VK_IMAGE_USAGE_SAMPLED_BIT,
                memory: VK_MEMORY_PROPERTY_DEVICE_LOCAL_BIT,
            },
        },
    );
    steps.push(
        SetupStep::SetImageLayout {
            old_layout: VK_IMAGE_LAYOUT_UNDEFINED,
            new_layout: VK_IMAGE_LAYOUT_TRANSFER_DST_OPTIMAL,
        },
    );
    steps.push(
        SetupStep::CopyToImage {
            region: BufferImageCopy {
                buffer_offset: 0,
                buffer_row_length: 0,
                buffer_image_height: 0,
                aspect_mask: VK_IMAGE_ASPECT_COLOR_BIT,
                mip_level: 0,
                base_array_layer: 0,
                layer_count: 1,
                image_offset_x: 0,
                image_offset_y: 0,
                image_offset_z: 0,
                image_extent: extent,
            },
            layout: VK_IMAGE_LAYOUT_TRANSFER_DST_OPTIMAL,
        },
    );
    steps.push(
        SetupStep::SetImageLayout {
            old_layout: VK_IMAGE_LAYOUT_TRANSFER_DST_OPTIMAL,
            new_layout: VK_IMAGE_LAYOUT_SHADER_READ_ONLY_OPTIMAL,
        },
    );
    steps.push(SetupStep::CreateImageView { format: VK_FORMAT_R8G8B8A8_SRGB });
    steps.push(SetupStep::CreateSampler { sampler: sampler_create_info(max_anisotropy_bits) });
    assert(steps@ =~= old(steps)@ + texture_steps(
        image_bytes,
        width,
        height,
        max_anisotropy_bits,
    ));
}

/// The steps of the setup for the texture `image` and vertices of `vertex_bytes`
/// bytes.
pub open spec fn steps_for(
    image: &Texture,
    vertex_bytes: usize,
    max_anisotropy_bits: u32,
) -> Seq<SetupStep> {
    all_steps(
        image.pixels@.len() as u64,
        image.info.width,
        image.info.height,
        vertex_bytes as u64,
        max_anisotropy_bits,
    )
}

/// Lists the steps that create and fill the buffers and the texture, for
/// vertices of `vertex_bytes` bytes.
pub fn setup_steps(image: &Texture, vertex_bytes: usize, max_anisotropy_bits: u32) -> (steps: Vec<
    SetupStep,
>)
    ensures
        steps@ == steps_for(image, vertex_bytes, max_anisotropy_bits),
        steps@ == all_steps(
            image.pixels@.len() as u64,
            image.info.width,
            image.info.height,
            vertex_bytes as u64,
            max_anisotropy_bits,
        ),
{
    let image_bytes: u64 = image.pixels.len() as u64;
    let mut steps: Vec<SetupStep> = Vec::new();
    push_geometry_steps(&mut steps, image_bytes, vertex_bytes as u64);
    push_uniform_steps(&mut steps);
    push_texture_steps(
        &mut steps,
        image_bytes,
        image.info.width,
        image.info.height,
        max_anisotropy_bits,
    );
    assert(steps@ =~= all_steps(
        image.pixels@.len() as u64,
        image.info.width,
        image.info.height,
        vertex_bytes as u64,
        max_anisotropy_bits,
    ));
    steps
}

} // verus!
