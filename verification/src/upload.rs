//! What the setup keeps: data reaches its place, and nothing is written or read
//! beyond the end of a buffer.
use vstd::prelude::*;

use crate::define::{
    FRAMES_IN_FLIGHT, VK_BORDER_COLOR_INT_OPAQUE_BLACK, VK_BUFFER_USAGE_INDEX_BUFFER_BIT,
    VK_BUFFER_USAGE_TRANSFER_DST_BIT, VK_BUFFER_USAGE_TRANSFER_SRC_BIT,
    VK_BUFFER_USAGE_UNIFORM_BUFFER_BIT, VK_BUFFER_USAGE_VERTEX_BUFFER_BIT, VK_COMPARE_OP_ALWAYS,
    VK_FILTER_LINEAR, VK_FORMAT_R8G8B8A8_SRGB, VK_IMAGE_ASPECT_COLOR_BIT,
    VK_IMAGE_LAYOUT_SHADER_READ_ONLY_OPTIMAL, VK_IMAGE_LAYOUT_TRANSFER_DST_OPTIMAL,
    VK_IMAGE_LAYOUT_UNDEFINED, VK_IMAGE_TILING_OPTIMAL, VK_IMAGE_USAGE_SAMPLED_BIT,
    VK_IMAGE_USAGE_TRANSFER_DST_BIT, VK_MEMORY_PROPERTY_DEVICE_LOCAL_BIT,
    VK_MEMORY_PROPERTY_HOST_COHERENT_BIT, VK_MEMORY_PROPERTY_HOST_VISIBLE_BIT,
    VK_SAMPLER_ADDRESS_MODE_CLAMP_TO_BORDER, VK_SAMPLER_MIPMAP_MODE_LINEAR,
};
use crate::descriptor::{matrix_bytes, set_writes, DescriptorInfo};
use crate::handle::{Buffer, DescriptorSet, ImageView, Sampler};
use crate::setup::{
    all_steps, host_memory, index_bytes, steps_for, texture_image, texture_sampler, uniform_buffer,
    BufferCreateInfo, BufferTarget, ImageCreateInfo, SetupStep, StagingSource,
};
use crate::texture::Texture;

verus! {

/// Whether `flags` has the flag `bit`.
pub open spec fn has_flag(flags: u32, bit: u32) -> bool {
    flags & bit != 0
}

/// What has been created and filled.
#[verifier::ext_equal]
pub struct Upload {
    pub buffers: Map<BufferTarget, BufferCreateInfo>,
    /// What lies at the start of the staging buffer, and how many bytes of it.
    pub staged: Option<(StagingSource, u64)>,
    /// What was copied to each buffer, and how many bytes of it.
    pub filled: Map<BufferTarget, (StagingSource, u64)>,
    /// The frames that have a uniform buffer.
    pub cameras: Set<usize>,
    pub image: Option<ImageCreateInfo>,
    pub layout: i32,
    /// What was copied to the image.
    pub painted: Option<StagingSource>,
}

impl Upload {
    /// Nothing created yet.
    pub open spec fn initial() -> Upload {
        Upload {
            buffers: Map::empty(),
            staged: None,
            filled: Map::empty(),
            cameras: Set::empty(),
            image: None,
            layout: VK_IMAGE_LAYOUT_UNDEFINED,
            painted: None,
        }
    }

    /// Whether `size` bytes can be written to the staging buffer.
    pub open spec fn can_stage(self, size: u64) -> bool {
        &&& self.buffers.dom().contains(BufferTarget::Staging)
        &&& has_flag(
            self.buffers[BufferTarget::Staging].memory,
            VK_MEMORY_PROPERTY_HOST_VISIBLE_BIT,
        )
        &&& size <= self.buffers[BufferTarget::Staging].size
    }

    /// Whether `size` bytes can be copied from the staging buffer to `target`.
    pub open spec fn can_copy(self, target: BufferTarget, size: u64) -> bool {
        &&& self.staged matches Some((_, staged)) && size <= staged
        &&& has_flag(
            self.buffers[BufferTarget::Staging].usage,
            VK_BUFFER_USAGE_TRANSFER_SRC_BIT,
        )
        &&& self.buffers.dom().contains(target)
        &&& has_flag(self.buffers[target].usage, VK_BUFFER_USAGE_TRANSFER_DST_BIT)
        &&& size <= self.buffers[target].size
    }

    /// What `step` does, or `None` where it breaks a rule: what is used was
    /// created for that use, nothing is created twice, a copy stays within what
    /// was staged and within its target, and the image is in the layout that the
    /// step takes it to be in.
    pub open spec fn perform(self, step: SetupStep) -> Option<Upload> {
        match step {
            SetupStep::CreateBuffer { target, info } => if !self.buffers.dom().contains(target) {
                Some(Upload { buffers: self.buffers.insert(target, info), ..self })
            } else {
                None
            },
            SetupStep::Stage { source, size } => if self.can_stage(size) {
                Some(Upload { staged: Some((source, size)), ..self })
            } else {
                None
            },
            SetupStep::CopyStaged { target, size } => if self.can_copy(target, size) {
                Some(
                    Upload {
                        filled: self.filled.insert(target, (self.staged.unwrap().0, size)),
                        ..self
                    },
                )
            } else {
                None
            },
            SetupStep::CreateUniformBuffer { slot, info } => if !self.cameras.contains(slot)
                && info.size == matrix_bytes() && has_flag(
                info.memory,
                VK_MEMORY_PROPERTY_HOST_VISIBLE_BIT,
            ) {
                Some(Upload { cameras: self.cameras.insert(slot), ..self })
            } else {
                None
            },
            SetupStep::CreateImage { image } => if self.image is None {
                Some(Upload { image: Some(image), layout: VK_IMAGE_LAYOUT_UNDEFINED, ..self })
            } else {
                None
            },
            SetupStep::SetImageLayout { old_layout, new_layout } => if self.image is Some
                && self.layout == old_layout {
                Some(Upload { layout: new_layout, ..self })
            } else {
                None
            },
            SetupStep::CopyToImage { region, layout } => if self.image matches Some(image)
                && self.staged matches Some((_, staged)) && image.extent == region.image_extent
                && has_flag(image.usage, VK_IMAGE_USAGE_TRANSFER_DST_BIT) && self.layout == layout
                && region.buffer_offset + 4 * (region.image_extent.width
                * region.image_extent.height) <= staged {
                Some(Upload { painted: Some(self.staged.unwrap().0), ..self })
            } else {
                None
            },
            SetupStep::CreateImageView { format } => if self.image matches Some(image)
                && image.format == format && has_flag(image.usage, VK_IMAGE_USAGE_SAMPLED_BIT) {
                Some(self)
            } else {
                None
            },
            SetupStep::CreateSampler { .. } => Some(self),
        }
    }

    /// What `steps` do one after the other, or `None` where one breaks a rule.
    pub open spec fn perform_all(self, steps: Seq<SetupStep>) -> Option<Upload>
        decreases steps.len(),
    {
        if steps.len() == 0 {
            Some(self)
        } else {
            match self.perform_all(steps.drop_last()) {
                Some(upload) => upload.perform(steps.last()),
                None => None,
            }
        }
    }
}

/// The setup after one more step.
proof fn lemma_perform_next(steps: Seq<SetupStep>, count: int)
    requires
        0 <= count < steps.len(),
    ensures
        Upload::initial().perform_all(steps.take(count + 1)) == match Upload::initial().perform_all(
            steps.take(count),
        ) {
            Some(upload) => upload.perform(steps[count]),
            None => None,
        },
{
    assert(steps.take(count + 1).drop_last() =~= steps.take(count));
}

/// The flags that the setup puts together contain their parts.
proof fn lemma_flags()
    ensures
        has_flag(VK_BUFFER_USAGE_TRANSFER_SRC_BIT, VK_BUFFER_USAGE_TRANSFER_SRC_BIT),
        has_flag(
            VK_BUFFER_USAGE_TRANSFER_DST_BIT | VK_BUFFER_USAGE_VERTEX_BUFFER_BIT,
            VK_BUFFER_USAGE_TRANSFER_DST_BIT,
        ),
        has_flag(
            VK_BUFFER_USAGE_TRANSFER_DST_BIT | VK_BUFFER_USAGE_INDEX_BUFFER_BIT,
            VK_BUFFER_USAGE_TRANSFER_DST_BIT,
        ),
        has_flag(host_memory(), VK_MEMORY_PROPERTY_HOST_VISIBLE_BIT),
        has_flag(texture_image(0, 0).usage, VK_IMAGE_USAGE_SAMPLED_BIT),
        has_flag(texture_image(0, 0).usage, VK_IMAGE_USAGE_TRANSFER_DST_BIT),
{
    assert(0x1u32 & 0x1u32 != 0) by (bit_vector);
    assert((0x2u32 | 0x80u32) & 0x2u32 != 0) by (bit_vector);
    assert((0x2u32 | 0x40u32) & 0x2u32 != 0) by (bit_vector);
    assert((0x2u32 | 0x4u32) & 0x2u32 != 0) by (bit_vector);
    assert((0x2u32 | 0x4u32) & 0x4u32 != 0) by (bit_vector);
}

/// The setup keeps the rules and brings everything to its place, if the image is
/// at least as large as the vertices, the vertices are at least as large as the
/// indices, and the pixels cover the image: vertices and indices are copied
/// whole to their buffers, the pixels to the image, and every frame in flight
/// gets a camera.
pub proof fn uploads_reach_their_places(
    image_bytes: u64,
    width: u32,
    height: u32,
    vertex_bytes: u64,
    max_anisotropy_bits: u32,
)
    requires
        vertex_bytes <= image_bytes,
        index_bytes() <= vertex_bytes,
        4 * (width * height) <= image_bytes,
    ensures
        Upload::initial().perform_all(
            all_steps(image_bytes, width, height, vertex_bytes, max_anisotropy_bits),
        ) matches Some(upload) && upload.filled == map![
            BufferTarget::Vertex => (StagingSource::Vertices, vertex_bytes),
            BufferTarget::Index => (StagingSource::Indices, index_bytes()),
        ] && upload.painted == Some(StagingSource::Pixels) && upload.layout
            == VK_IMAGE_LAYOUT_SHADER_READ_ONLY_OPTIMAL && (forall|slot: usize|
            upload.cameras.contains(slot) <==> slot < FRAMES_IN_FLIGHT),
{
    let steps = all_steps(image_bytes, width, height, vertex_bytes, max_anisotropy_bits);
    lemma_flags();
    assert(steps.take(0) =~= seq![]);
    lemma_perform_next(steps, 0);
    lemma_perform_next(steps, 1);
    lemma_perform_next(steps, 2);
    lemma_perform_next(steps, 3);
    lemma_perform_next(steps, 4);
    lemma_perform_next(steps, 5);
    lemma_perform_next(steps, 6);
    lemma_perform_next(steps, 7);
    lemma_perform_next(steps, 8);
    lemma_perform_next(steps, 9);
    lemma_perform_next(steps, 10);
    lemma_perform_next(steps, 11);
    lemma_perform_next(steps, 12);
    lemma_perform_next(steps, 13);
    lemma_perform_next(steps, 14);
    lemma_perform_next(steps, 15);
    assert(steps.take(16) =~= steps);
    let upload = Upload::initial().perform_all(steps).unwrap();
    assert(upload.filled =~= map![
        BufferTarget::Vertex => (StagingSource::Vertices, vertex_bytes),
        BufferTarget::Index => (StagingSource::Indices, index_bytes()),
    ]);
}

/// The texture is read in the layout that the setup leaves it in, and the camera
/// that a descriptor refers to is as large as its buffer.
pub proof fn descriptors_match_the_setup(
    set: DescriptorSet,
    buffer: Buffer,
    view: ImageView,
    sampler: Sampler,
)
    ensures
        set_writes(set, buffer, view, sampler).texture.info matches DescriptorInfo::Image {
            image_layout,
            ..
        } && image_layout == VK_IMAGE_LAYOUT_SHADER_READ_ONLY_OPTIMAL,
        set_writes(set, buffer, view, sampler).camera.info matches DescriptorInfo::Buffer {
            offset,
            range,
            ..
        } && offset + range == uniform_buffer().size,
{
}

/// Whatever the texture, all of the image that is sampled is filled, and from the
/// first byte that was staged: the one copy goes to the only level and the only
/// layer of the image, from its first texel on, covers its whole extent, and reads
/// rows that lie close together. The image is as large as the texture.
pub proof fn texture_is_filled_whole(
    image_bytes: u64,
    width: u32,
    height: u32,
    vertex_bytes: u64,
    max_anisotropy_bits: u32,
)
    ensures
        ({
            let steps = all_steps(image_bytes, width, height, vertex_bytes, max_anisotropy_bits);
            &&& exists|i: int, j: int|
                0 <= i < j < steps.len() && #[trigger] steps[i] is CreateImage
                    && #[trigger] steps[j] is CopyToImage
            &&& forall|i: int, j: int|
                0 <= i < j < steps.len() ==> !(steps[i] is CopyToImage && steps[j] is CopyToImage)
                    && !(steps[i] is CreateImage && steps[j] is CreateImage)
            &&& forall|i: int|
                0 <= i < steps.len() ==> (#[trigger] steps[i] matches SetupStep::CreateImage {
                    image,
                } ==> image.extent.width == width && image.extent.height == height
                    && image.extent.depth == 1)
            &&& forall|i: int|
                0 <= i < steps.len() ==> (#[trigger] steps[i] matches SetupStep::CopyToImage {
                    region,
                    layout,
                } ==> {
                    &&& layout == VK_IMAGE_LAYOUT_TRANSFER_DST_OPTIMAL
                    &&& region.buffer_offset == 0
                    &&& region.buffer_row_length == 0
                    &&& region.buffer_image_height == 0
                    &&& region.aspect_mask == VK_IMAGE_ASPECT_COLOR_BIT
                    &&& region.mip_level == 0
                    &&& region.base_array_layer == 0
                    &&& region.layer_count == 1
                    &&& region.image_offset_x == 0
                    &&& region.image_offset_y == 0
                    &&& region.image_offset_z == 0
                    &&& region.image_extent.width == width
                    &&& region.image_extent.height == height
                    &&& region.image_extent.depth == 1
                })
        }),
{
    let steps = all_steps(image_bytes, width, height, vertex_bytes, max_anisotropy_bits);
    assert(steps[10] is CreateImage && steps[12] is CopyToImage);
}

/// Whatever the texture, it is smoothed in every direction, its border is black,
/// nothing is compared, the only level is read, and the anisotropy is the given one.
pub proof fn texture_is_smoothed(max_anisotropy_bits: u32)
    ensures
        ({
            let sampler = texture_sampler(max_anisotropy_bits);
            &&& sampler.mag_filter == VK_FILTER_LINEAR
            &&& sampler.min_filter == VK_FILTER_LINEAR
            &&& sampler.address_mode_u == VK_SAMPLER_ADDRESS_MODE_CLAMP_TO_BORDER
            &&& sampler.address_mode_v == VK_SAMPLER_ADDRESS_MODE_CLAMP_TO_BORDER
            &&& sampler.address_mode_w == VK_SAMPLER_ADDRESS_MODE_CLAMP_TO_BORDER
            &&& sampler.anisotropy_enable
            &&& sampler.max_anisotropy_bits == max_anisotropy_bits
            &&& sampler.border_color == VK_BORDER_COLOR_INT_OPAQUE_BLACK
            &&& !sampler.unnormalized_coordinates
            &&& !sampler.compare_enable
            &&& sampler.compare_op == VK_COMPARE_OP_ALWAYS
            &&& sampler.mipmap_mode == VK_SAMPLER_MIPMAP_MODE_LINEAR
            &&& sampler.mip_lod_bias == 0
            &&& sampler.min_lod == 0
            &&& sampler.max_lod == 0
        }),
{
}

/// Whatever is uploaded, the setup consists of these steps and no others: buffers
/// and an image of the right sizes and for their uses, all bytes of the vertices,
/// the indices and the pixels, a camera for each frame in flight, and the image
/// taken from undefined to written to read.
pub proof fn setup_uploads_what_it_is_given(
    image_bytes: u64,
    width: u32,
    height: u32,
    vertex_bytes: u64,
    max_anisotropy_bits: u32,
    step: SetupStep,
)
    ensures
        all_steps(image_bytes, width, height, vertex_bytes, max_anisotropy_bits).contains(step)
            <==> match step {
            SetupStep::CreateBuffer { target, info } => match target {
                BufferTarget::Staging => info.size == image_bytes && info.usage
                    == VK_BUFFER_USAGE_TRANSFER_SRC_BIT && info.memory
                    == VK_MEMORY_PROPERTY_HOST_VISIBLE_BIT | VK_MEMORY_PROPERTY_HOST_COHERENT_BIT,
                BufferTarget::Vertex => info.size == vertex_bytes && info.usage
                    == VK_BUFFER_USAGE_TRANSFER_DST_BIT | VK_BUFFER_USAGE_VERTEX_BUFFER_BIT
                    && info.memory == VK_MEMORY_PROPERTY_DEVICE_LOCAL_BIT,
                BufferTarget::Index => info.size == vertex_bytes && info.usage
                    == VK_BUFFER_USAGE_TRANSFER_DST_BIT | VK_BUFFER_USAGE_INDEX_BUFFER_BIT
                    && info.memory == VK_MEMORY_PROPERTY_DEVICE_LOCAL_BIT,
            },
            SetupStep::Stage { source, size } => size == match source {
                StagingSource::Vertices => vertex_bytes,
                StagingSource::Indices => 24u64,
                StagingSource::Pixels => image_bytes,
            },
            SetupStep::CopyStaged { target, size } => match target {
                BufferTarget::Staging => false,
                BufferTarget::Vertex => size == vertex_bytes,
                BufferTarget::Index => size == 24,
            },
            SetupStep::CreateUniformBuffer { slot, info } => slot < FRAMES_IN_FLIGHT && info.size
                == 4 * (4 * 4) && info.usage == VK_BUFFER_USAGE_UNIFORM_BUFFER_BIT && info.memory
                == VK_MEMORY_PROPERTY_HOST_VISIBLE_BIT | VK_MEMORY_PROPERTY_HOST_COHERENT_BIT,
            SetupStep::CreateImage { image } => image.format == VK_FORMAT_R8G8B8A8_SRGB
                && image.extent.width == width && image.extent.height == height
                && image.extent.depth == 1 && image.tiling == VK_IMAGE_TILING_OPTIMAL && image.usage
                == VK_IMAGE_USAGE_TRANSFER_DST_BIT | VK_IMAGE_USAGE_SAMPLED_BIT && image.memory
                == VK_MEMORY_PROPERTY_DEVICE_LOCAL_BIT,
            SetupStep::SetImageLayout { old_layout, new_layout } => old_layout
                == VK_IMAGE_LAYOUT_UNDEFINED && new_layout == VK_IMAGE_LAYOUT_TRANSFER_DST_OPTIMAL
                || old_layout == VK_IMAGE_LAYOUT_TRANSFER_DST_OPTIMAL && new_layout
                == VK_IMAGE_LAYOUT_SHADER_READ_ONLY_OPTIMAL,
            SetupStep::CopyToImage { region, layout } => layout
                == VK_IMAGE_LAYOUT_TRANSFER_DST_OPTIMAL && region.buffer_offset == 0
                && region.buffer_row_length == 0 && region.buffer_image_height == 0
                && region.aspect_mask == VK_IMAGE_ASPECT_COLOR_BIT && region.mip_level == 0
                && region.base_array_layer == 0 && region.layer_count == 1 && region.image_offset_x
                == 0 && region.image_offset_y == 0 && region.image_offset_z == 0
                && region.image_extent.width == width && region.image_extent.height == height
                && region.image_extent.depth == 1,
            SetupStep::CreateImageView { format } => format == VK_FORMAT_R8G8B8A8_SRGB,
            SetupStep::CreateSampler { sampler } => sampler == texture_sampler(max_anisotropy_bits),
        },
{
    let steps = all_steps(image_bytes, width, height, vertex_bytes, max_anisotropy_bits);
    setup_steps_come_in_their_place(image_bytes, width, height, vertex_bytes, max_anisotropy_bits);
    let place = place_of(step);
    if 0 <= place < steps.len() {
        assert(steps.contains(steps[place]));
    }
}

/// Where in the setup a step stands.
pub open spec fn place_of(step: SetupStep) -> int {
    match step {
        SetupStep::CreateBuffer { target: BufferTarget::Staging, .. } => 0,
        SetupStep::Stage { source: StagingSource::Vertices, .. } => 1,
        SetupStep::CreateBuffer { target: BufferTarget::Vertex, .. } => 2,
        SetupStep::CopyStaged { target: BufferTarget::Vertex, .. } => 3,
        SetupStep::Stage { source: StagingSource::Indices, .. } => 4,
        SetupStep::CreateBuffer { target: BufferTarget::Index, .. } => 5,
        SetupStep::CopyStaged { target: BufferTarget::Index, .. } => 6,
        SetupStep::CreateUniformBuffer { slot, .. } => if slot < FRAMES_IN_FLIGHT {
            7 + slot
        } else {
            -1
        },
        SetupStep::Stage { source: StagingSource::Pixels, .. } => 7 + FRAMES_IN_FLIGHT,
        SetupStep::CreateImage { .. } => 8 + FRAMES_IN_FLIGHT,
        SetupStep::SetImageLayout { old_layout, .. } => if old_layout == VK_IMAGE_LAYOUT_UNDEFINED {
            9 + FRAMES_IN_FLIGHT
        } else {
            11 + FRAMES_IN_FLIGHT
        },
        SetupStep::CopyToImage { .. } => 10 + FRAMES_IN_FLIGHT,
        SetupStep::CreateImageView { .. } => 12 + FRAMES_IN_FLIGHT,
        SetupStep::CreateSampler { .. } => 13 + FRAMES_IN_FLIGHT,
        SetupStep::CopyStaged { target: BufferTarget::Staging, .. } => -1,
    }
}

/// Whatever is uploaded, the steps come once each and in the same order, so that
/// the staging buffer holds what is copied from it.
pub proof fn setup_steps_come_in_their_place(
    image_bytes: u64,
    width: u32,
    height: u32,
    vertex_bytes: u64,
    max_anisotropy_bits: u32,
)
    ensures
        ({
            let steps = all_steps(image_bytes, width, height, vertex_bytes, max_anisotropy_bits);
            &&& steps.len() == 14 + FRAMES_IN_FLIGHT
            &&& forall|i: int| 0 <= i < steps.len() ==> place_of(#[trigger] steps[i]) == i
        }),
{
}

/// The setup is that of the texture and the vertices that it is given: every pixel
/// byte and every vertex byte is staged, the staging buffer holds all pixels, the
/// image and the copy to it have the size of the texture, and the sampler has the
/// given anisotropy.
pub proof fn setup_fits_the_texture(image: &Texture, vertex_bytes: usize, max_anisotropy_bits: u32)
    requires
        image.pixels@.len() <= usize::MAX,
    ensures
        ({
            let steps = steps_for(image, vertex_bytes, max_anisotropy_bits);
            forall|i: int|
                0 <= i < steps.len() ==> match #[trigger] steps[i] {
                    SetupStep::CreateBuffer { target, info } => info.size == if target is Staging {
                        image.pixels@.len() as int
                    } else {
                        vertex_bytes as int
                    },
                    SetupStep::Stage { source, size } => match source {
                        StagingSource::Vertices => size == vertex_bytes,
                        StagingSource::Indices => size == 24,
                        StagingSource::Pixels => size == image.pixels@.len(),
                    },
                    SetupStep::CopyStaged { target, size } => size == if target is Vertex {
                        vertex_bytes as int
                    } else {
                        24int
                    },
                    SetupStep::CreateImage { image: created } => created.extent.width
                        == image.info.width && created.extent.height == image.info.height,
                    SetupStep::CopyToImage { region, .. } => region.image_extent.width
                        == image.info.width && region.image_extent.height == image.info.height,
                    SetupStep::CreateSampler { sampler } => sampler.max_anisotropy_bits
                        == max_anisotropy_bits,
                    _ => true,
                }
        }),
        exists|i: int|
            0 <= i < steps_for(image, vertex_bytes, max_anisotropy_bits).len()
                && #[trigger] steps_for(image, vertex_bytes, max_anisotropy_bits)[i]
                == (SetupStep::Stage {
                source: StagingSource::Pixels,
                size: image.pixels@.len() as u64,
            }),
{
    assert(steps_for(image, vertex_bytes, max_anisotropy_bits)[9] is Stage);
}

} // verus!
