//! Descriptors: the layout of a set, the pool of the sets, and what each set
//! refers to.
use vstd::prelude::*;

use crate::define::{
    FRAMES_IN_FLIGHT, VK_DESCRIPTOR_TYPE_COMBINED_IMAGE_SAMPLER, VK_DESCRIPTOR_TYPE_UNIFORM_BUFFER,
    VK_IMAGE_LAYOUT_SHADER_READ_ONLY_OPTIMAL, VK_SHADER_STAGE_FRAGMENT_BIT,
    VK_SHADER_STAGE_VERTEX_BIT,
};
use crate::handle::{
    Buffer, DescriptorPool, DescriptorSet, DescriptorSetLayout, DeviceMemory, ImageView, Sampler,
};

verus! {

/// Bytes of the camera matrix.
pub open spec fn matrix_bytes() -> u64 {
    64
}

/// Takes `std::mem::size_of` of `glam::Mat4`.
///
/// Trusted: a `glam::Mat4` is four columns of four 32-bit numbers with nothing
/// between them.
#[verifier::external_body]
pub(crate) fn mat4_size() -> (size: u64)
    ensures
        size == matrix_bytes(),
{
    std::mem::size_of::<glam::Mat4>() as u64
}

/// One entry of a descriptor set layout.
#[derive(Clone, Copy, Debug, PartialEq, Eq, Structural)]
pub struct DescriptorSetLayoutBinding {
    pub binding: u32,
    pub descriptor_count: u32,
    pub descriptor_type: i32,
    pub stage_flags: u32,
}

/// The layout of every descriptor set: the camera for the vertex shader and the
/// texture for the fragment shader.
pub open spec fn set_layout() -> Seq<DescriptorSetLayoutBinding> {
    seq![
        DescriptorSetLayoutBinding {
            binding: 0,
            descriptor_count: 1,
            descriptor_type: VK_DESCRIPTOR_TYPE_UNIFORM_BUFFER,
            stage_flags: VK_SHADER_STAGE_VERTEX_BIT,
        },
        DescriptorSetLayoutBinding {
            binding: 1,
            descriptor_count: 1,
            descriptor_type: VK_DESCRIPTOR_TYPE_COMBINED_IMAGE_SAMPLER,
            stage_flags: VK_SHADER_STAGE_FRAGMENT_BIT,
        },
    ]
}

/// Describes the layout of the descriptor sets.
pub fn descriptor_set_layout_bindings() -> (bindings: Vec<DescriptorSetLayoutBinding>)
    ensures
        bindings@ == set_layout(),
{
    let mut bindings: Vec<DescriptorSetLayoutBinding> = Vec::new();
    bindings.push(
        DescriptorSetLayoutBinding {
            binding: 0,
            descriptor_count: 1,
            descriptor_type: VK_DESCRIPTOR_TYPE_UNIFORM_BUFFER,
            stage_flags: VK_SHADER_STAGE_VERTEX_BIT,
        },
    );
    bindings.push(
        DescriptorSetLayoutBinding {
            binding: 1,
            descriptor_count: 1,
            descriptor_type: VK_DESCRIPTOR_TYPE_COMBINED_IMAGE_SAMPLER,
            stage_flags: VK_SHADER_STAGE_FRAGMENT_BIT,
        },
    );
    assert(bindings@ =~= set_layout());
    bindings
}

/// How many descriptors of one type a pool holds.
#[derive(Clone, Copy, Debug, PartialEq, Eq, Structural)]
pub struct DescriptorPoolSize {
    pub descriptor_type: i32,
    pub descriptor_count: u32,
}

/// Describes a descriptor pool.
#[derive(Debug)]
pub struct DescriptorPoolCreateInfo {
    pub max_sets: u32,
    pub pool_sizes: Vec<DescriptorPoolSize>,
}

/// What the pool holds: one descriptor of each type for each frame in flight.
pub open spec fn pool_sizes() -> Seq<DescriptorPoolSize> {
    seq![
        DescriptorPoolSize {
            descriptor_type: VK_DESCRIPTOR_TYPE_UNIFORM_BUFFER,
            descriptor_count: FRAMES_IN_FLIGHT as u32,
        },
        DescriptorPoolSize {
            descriptor_type: VK_DESCRIPTOR_TYPE_COMBINED_IMAGE_SAMPLER,
            descriptor_count: FRAMES_IN_FLIGHT as u32,
        },
    ]
}

/// Describes the pool of the descriptor sets.
pub fn descriptor_pool_create_info() -> (info: DescriptorPoolCreateInfo)
    ensures
        info.max_sets == FRAMES_IN_FLIGHT,
        info.pool_sizes@ == pool_sizes(),
{
    let mut sizes: Vec<DescriptorPoolSize> = Vec::new();
    sizes.push(
        DescriptorPoolSize {
            descriptor_type: VK_DESCRIPTOR_TYPE_UNIFORM_BUFFER,
            descriptor_count: FRAMES_IN_FLIGHT as u32,
        },
    );
    sizes.push(
        DescriptorPoolSize {
            descriptor_type: VK_DESCRIPTOR_TYPE_COMBINED_IMAGE_SAMPLER,
            descriptor_count: FRAMES_IN_FLIGHT as u32,
        },
    );
    assert(sizes@ =~= pool_sizes());
    DescriptorPoolCreateInfo { max_sets: FRAMES_IN_FLIGHT as u32, pool_sizes: sizes }
}

/// Asks a pool for descriptor sets.
#[derive(Debug)]
pub struct DescriptorSetAllocateInfo {
    pub descriptor_pool: DescriptorPool,
    /// The layout of each set that is asked for.
    pub set_layouts: Vec<DescriptorSetLayout>,
}

/// The layouts of the sets that are asked for.
pub open spec fn layouts_asked_for(descriptor_set_layout: DescriptorSetLayout) -> Seq<
    DescriptorSetLayout,
> {
    Seq::new(FRAMES_IN_FLIGHT as nat, |i: int| descriptor_set_layout)
}

/// Asks `descriptor_pool` for a set of the given layout for each frame in flight.
pub fn descriptor_set_allocate_info(
    descriptor_pool: DescriptorPool,
    descriptor_set_layout: DescriptorSetLayout,
) -> (info: DescriptorSetAllocateInfo)
    ensures
        info.descriptor_pool == descriptor_pool,
        info.set_layouts@ == Seq::new(FRAMES_IN_FLIGHT as nat, |i: int| descriptor_set_layout),
        info.set_layouts@ == layouts_asked_for(descriptor_set_layout),
{
    let mut set_layouts: Vec<DescriptorSetLayout> = Vec::new();
    let mut i: usize = 0;
    while i < FRAMES_IN_FLIGHT
        invariant
            i <= FRAMES_IN_FLIGHT,
            set_layouts@ == Seq::new(i as nat, |k: int| descriptor_set_layout),
        decreases FRAMES_IN_FLIGHT - i,
    {
        set_layouts.push(descriptor_set_layout);
        i += 1;
    }
    DescriptorSetAllocateInfo { descriptor_pool, set_layouts }
}

/// A buffer and the memory that it lies in.
#[derive(Clone, Copy, Debug, PartialEq, Eq, Structural)]
pub struct VKBuffer {
    pub buffer: Buffer,
    pub memory: DeviceMemory,
}

/// What a descriptor refers to.
#[derive(Clone, Copy, Debug, PartialEq, Eq, Structural)]
pub enum DescriptorInfo {
    Buffer { buffer: Buffer, offset: u64, range: u64 },
    Image { sampler: Sampler, image_view: ImageView, image_layout: i32 },
}

/// Sets what one descriptor of a set refers to.
#[derive(Clone, Copy, Debug, PartialEq, Eq, Structural)]
pub struct WriteDescriptorSet {
    pub dst_set: DescriptorSet,
    pub dst_binding: u32,
    pub dst_array_element: u32,
    pub descriptor_type: i32,
    pub info: DescriptorInfo,
}

/// All that a descriptor set refers to.
#[derive(Clone, Copy, Debug, PartialEq, Eq, Structural)]
pub struct DescriptorSetWrites {
    pub camera: WriteDescriptorSet,
    pub texture: WriteDescriptorSet,
}

/// The descriptors of `set`: the camera in `buffer`, and the texture seen through
/// `view` and `sampler`.
pub open spec fn set_writes(
    set: DescriptorSet,
    buffer: Buffer,
    view: ImageView,
    sampler: Sampler,
) -> DescriptorSetWrites {
    DescriptorSetWrites {
        camera: WriteDescriptorSet {
            dst_set: set,
            dst_binding: 0,
            dst_array_element: 0,
            descriptor_type: VK_DESCRIPTOR_TYPE_UNIFORM_BUFFER,
            info: DescriptorInfo::Buffer { buffer, offset: 0, range: matrix_bytes() },
        },
        texture: WriteDescriptorSet {
            dst_set: set,
            dst_binding: 1,
            dst_array_element: 0,
            descriptor_type: VK_DESCRIPTOR_TYPE_COMBINED_IMAGE_SAMPLER,
            info: DescriptorInfo::Image {
                sampler,
                image_view: view,
                image_layout: VK_IMAGE_LAYOUT_SHADER_READ_ONLY_OPTIMAL,
            },
        },
    }
}

/// What the sets refer to, each with the uniform buffer in the same place.
pub open spec fn all_set_writes(
    sets: Seq<DescriptorSet>,
    buffers: Seq<VKBuffer>,
    view: ImageView,
    sampler: Sampler,
) -> Seq<DescriptorSetWrites> {
    Seq::new(
        vstd::math::min(sets.len() as int, buffers.len() as int) as nat,
        |i: int| set_writes(sets[i], buffers[i].buffer, view, sampler),
    )
}

/// Pairs each descriptor set with the uniform buffer in the same place, as far
/// as both go, and says what the set refers to.
pub fn descriptor_set_writes(
    descriptor_sets: &[DescriptorSet],
    uniform_buffers: &[VKBuffer],
    texture_image_view: ImageView,
    texture_sampler: Sampler,
) -> (writes: Vec<DescriptorSetWrites>)
    ensures
        writes@.len() == vstd::math::min(
            descriptor_sets@.len() as int,
            uniform_buffers@.len() as int,
        ),
        forall|i: int|
            0 <= i < writes@.len() ==> writes@[i] == set_writes(
                descriptor_sets@[i],
                uniform_buffers@[i].buffer,
                texture_image_view,
                texture_sampler,
            ),
        writes@ == all_set_writes(
            descriptor_sets@,
            uniform_buffers@,
            texture_image_view,
            texture_sampler,
        ),
{
    let mut writes: Vec<DescriptorSetWrites> = Vec::new();
    let mut i: usize = 0;
    while i < descriptor_sets.len() && i < uniform_buffers.len()
        invariant
            i <= descriptor_sets@.len(),
            i <= uniform_buffers@.len(),
            writes@.len() == i,
            forall|k: int|
                0 <= k < i ==> writes@[k] == set_writes(
                    descriptor_sets@[k],
                    uniform_buffers@[k].buffer,
                    texture_image_view,
                    texture_sampler,
                ),
        decreases descriptor_sets@.len() - i,
    {
        let dst_set = descriptor_sets[i];
        let camera = WriteDescriptorSet {
            dst_set,
            dst_binding: 0,
            dst_array_element: 0,
            descriptor_type: VK_DESCRIPTOR_TYPE_UNIFORM_BUFFER,
            info: DescriptorInfo::Buffer {
                buffer: uniform_buffers[i].buffer,
                offset: 0,
                range: mat4_size(),
            },
        };
        let texture = WriteDescriptorSet {
            dst_set,
            dst_binding: 1,
            dst_array_element: 0,
            descriptor_type: VK_DESCRIPTOR_TYPE_COMBINED_IMAGE_SAMPLER,
            info: DescriptorInfo::Image {
                sampler: texture_sampler,
                image_view: texture_image_view,
                image_layout: VK_IMAGE_LAYOUT_SHADER_READ_ONLY_OPTIMAL,
            },
        };
        writes.push(DescriptorSetWrites { camera, texture });
        i += 1;
    }
    writes
}

/// Whether `write` sets a descriptor that the layout has, of the layout's type.
pub open spec fn write_fits_layout(write: WriteDescriptorSet) -> bool {
    exists|i: int|
        0 <= i < set_layout().len() && (#[trigger] set_layout()[i]).binding == write.dst_binding
            && set_layout()[i].descriptor_type == write.descriptor_type && write.dst_array_element
            < set_layout()[i].descriptor_count
}

/// What is written to a set is what the layout of the set has: both writes name
/// a descriptor of the layout by its number and type, they name different ones,
/// and the layout has no others.
pub proof fn writes_fill_the_layout(
    set: DescriptorSet,
    buffer: Buffer,
    view: ImageView,
    sampler: Sampler,
)
    ensures
        write_fits_layout(set_writes(set, buffer, view, sampler).camera),
        write_fits_layout(set_writes(set, buffer, view, sampler).texture),
        forall|i: int|
            #![trigger set_layout()[i]]
            0 <= i < set_layout().len() ==> set_layout()[i].descriptor_count == 1 && (
            set_layout()[i].binding == set_writes(set, buffer, view, sampler).camera.dst_binding
                || set_layout()[i].binding == set_writes(
                set,
                buffer,
                view,
                sampler,
            ).texture.dst_binding),
        set_writes(set, buffer, view, sampler).camera.dst_binding != set_writes(
            set,
            buffer,
            view,
            sampler,
        ).texture.dst_binding,
        set_writes(set, buffer, view, sampler).camera.dst_set == set,
        set_writes(set, buffer, view, sampler).texture.dst_set == set,
{
    let writes = set_writes(set, buffer, view, sampler);
    assert(set_layout()[0].binding == writes.camera.dst_binding);
    assert(set_layout()[1].binding == writes.texture.dst_binding);
}

/// How many descriptors of the type `ty` the bindings have together.
pub open spec fn descriptors_of_type(bindings: Seq<DescriptorSetLayoutBinding>, ty: i32) -> nat
    decreases bindings.len(),
{
    if bindings.len() == 0 {
        0
    } else {
        descriptors_of_type(bindings.drop_last(), ty) + if bindings.last().descriptor_type == ty {
            bindings.last().descriptor_count as nat
        } else {
            0
        }
    }
}

/// How many descriptors of the type `ty` a pool with the given sizes holds.
pub open spec fn pool_capacity(sizes: Seq<DescriptorPoolSize>, ty: i32) -> nat
    decreases sizes.len(),
{
    if sizes.len() == 0 {
        0
    } else {
        pool_capacity(sizes.drop_last(), ty) + if sizes.last().descriptor_type == ty {
            sizes.last().descriptor_count as nat
        } else {
            0
        }
    }
}

/// The pool holds exactly the descriptors that the sets of all frames in flight
/// need, of every type.
pub proof fn pool_serves_every_frame(ty: i32)
    ensures
        pool_capacity(pool_sizes(), ty) == FRAMES_IN_FLIGHT * descriptors_of_type(set_layout(), ty),
{
    reveal_with_fuel(pool_capacity, 3);
    reveal_with_fuel(descriptors_of_type, 3);
    assert(pool_sizes().drop_last().drop_last() =~= seq![]);
    assert(set_layout().drop_last().drop_last() =~= seq![]);
}

/// Whatever the set, its first descriptor is the whole matrix in the given buffer,
/// from the start, and its second the texture seen through the given view and
/// sampler.
pub proof fn set_refers_to_what_it_is_given(
    set: DescriptorSet,
    buffer: Buffer,
    view: ImageView,
    sampler: Sampler,
)
    ensures
        ({
            let camera = set_writes(set, buffer, view, sampler).camera;
            &&& camera.dst_set == set
            &&& camera.dst_binding == 0
            &&& camera.dst_array_element == 0
            &&& camera.descriptor_type == VK_DESCRIPTOR_TYPE_UNIFORM_BUFFER
            &&& camera.info matches DescriptorInfo::Buffer { buffer: read, offset, range }
            &&& read == buffer
            &&& offset == 0
            &&& range == 4 * (4 * 4)
        }),
        ({
            let texture = set_writes(set, buffer, view, sampler).texture;
            &&& texture.dst_set == set
            &&& texture.dst_binding == 1
            &&& texture.dst_array_element == 0
            &&& texture.descriptor_type == VK_DESCRIPTOR_TYPE_COMBINED_IMAGE_SAMPLER
            &&& texture.info matches DescriptorInfo::Image {
                sampler: through,
                image_view,
                image_layout,
            }
            &&& through == sampler
            &&& image_view == view
            &&& image_layout == VK_IMAGE_LAYOUT_SHADER_READ_ONLY_OPTIMAL
        }),
{
}

/// The vertex shader sees the camera and the fragment shader the texture, one of
/// each, and there is nothing else to see.
pub proof fn each_shader_sees_its_descriptor()
    ensures
        set_layout().len() == 2,
        forall|i: int|
            0 <= i < set_layout().len() ==> {
                let binding = #[trigger] set_layout()[i];
                &&& binding.binding == i
                &&& binding.descriptor_count == 1
                &&& binding.descriptor_type == VK_DESCRIPTOR_TYPE_UNIFORM_BUFFER
                    <==> binding.stage_flags == VK_SHADER_STAGE_VERTEX_BIT
                &&& binding.descriptor_type == VK_DESCRIPTOR_TYPE_COMBINED_IMAGE_SAMPLER
                    <==> binding.stage_flags == VK_SHADER_STAGE_FRAGMENT_BIT
                &&& binding.descriptor_type == if i == 0 {
                    VK_DESCRIPTOR_TYPE_UNIFORM_BUFFER
                } else {
                    VK_DESCRIPTOR_TYPE_COMBINED_IMAGE_SAMPLER
                }
            },
        pool_sizes().len() == set_layout().len(),
        forall|i: int|
            0 <= i < pool_sizes().len() ==> (#[trigger] pool_sizes()[i]).descriptor_count
                == FRAMES_IN_FLIGHT && pool_sizes()[i].descriptor_type
                == set_layout()[i].descriptor_type,
{
}

/// Every set that has a uniform buffer in its place gets that buffer and no other,
/// all sets share the texture, and sets and buffers without a partner are left out.
pub proof fn sets_are_paired_with_their_buffers(
    sets: Seq<DescriptorSet>,
    buffers: Seq<VKBuffer>,
    view: ImageView,
    sampler: Sampler,
)
    ensures
        ({
            let writes = all_set_writes(sets, buffers, view, sampler);
            &&& writes.len() <= sets.len()
            &&& writes.len() <= buffers.len()
            &&& writes.len() == sets.len() || writes.len() == buffers.len()
            &&& forall|i: int|
                0 <= i < writes.len() ==> {
                    let write = #[trigger] writes[i];
                    &&& write.camera.dst_set == sets[i]
                    &&& write.texture.dst_set == sets[i]
                    &&& write.camera.info matches DescriptorInfo::Buffer { buffer, .. }
                    &&& buffer == buffers[i].buffer
                    &&& write.texture.info matches DescriptorInfo::Image {
                        sampler: through,
                        image_view,
                        ..
                    }
                    &&& through == sampler
                    &&& image_view == view
                }
        }),
{
}

/// A set is asked for each frame in flight, all of the given layout.
pub proof fn every_frame_gets_a_set(descriptor_set_layout: DescriptorSetLayout)
    ensures
        layouts_asked_for(descriptor_set_layout).len() == FRAMES_IN_FLIGHT,
        forall|i: int|
            0 <= i < layouts_asked_for(descriptor_set_layout).len() ==> #[trigger] layouts_asked_for(
                descriptor_set_layout,
            )[i] == descriptor_set_layout,
{
}

} // verus!
