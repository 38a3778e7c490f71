//! The order in which everything is destroyed when the window is closed.
use vstd::prelude::*;

use crate::descriptor::VKBuffer;
use crate::handle::{
    Buffer, CommandPool, DescriptorPool, DescriptorSetLayout, DeviceMemory, Fence, Image,
    ImageView, Pipeline, PipelineLayout, RenderPass, Sampler, Semaphore, ShaderModule,
};

verus! {

/// What is destroyed when the window is closed.
#[derive(Debug)]
pub struct Owned {
    pub draw_end_fences: Vec<Fence>,
    pub graphic_pipelines: Vec<Pipeline>,
    pub shader_modules: Vec<ShaderModule>,
    pub draw_end_semaphores: Vec<Semaphore>,
    pub image_available_semaphores: Vec<Semaphore>,
    pub pipeline_layout: PipelineLayout,
    pub descriptor_pool: DescriptorPool,
    pub descriptor_set_layout: DescriptorSetLayout,
    pub render_pass: RenderPass,
    pub command_pool: CommandPool,
    pub staging: VKBuffer,
    pub index: VKBuffer,
    pub vertex: VKBuffer,
    pub texture_sampler: Sampler,
    pub texture_image_view: ImageView,
    pub texture_image: Image,
    pub texture_memory: DeviceMemory,
    pub uniform_buffers: Vec<VKBuffer>,
}

/// One step of the teardown.
#[derive(Clone, Copy, Debug, PartialEq, Eq, Structural)]
pub enum Destroy {
    Fence(Fence),
    Pipeline(Pipeline),
    ShaderModule(ShaderModule),
    Semaphore(Semaphore),
    PipelineLayout(PipelineLayout),
    DescriptorPool(DescriptorPool),
    DescriptorSetLayout(DescriptorSetLayout),
    RenderPass(RenderPass),
    CommandPool(CommandPool),
    Buffer(Buffer),
    Memory(DeviceMemory),
    Sampler(Sampler),
    ImageView(ImageView),
    Image(Image),
    /// Unmap the memory; it is freed later.
    Unmap(DeviceMemory),
}

/// The objects of which there may be several, kind by kind.
pub open spec fn destroy_lists(owned: &Owned) -> Seq<Destroy> {
    owned.draw_end_fences@.map_values(|fence: Fence| Destroy::Fence(fence))
        + owned.graphic_pipelines@.map_values(|pipeline: Pipeline| Destroy::Pipeline(pipeline))
        + owned.shader_modules@.map_values(|module: ShaderModule| Destroy::ShaderModule(module))
        + owned.draw_end_semaphores@.map_values(
        |semaphore: Semaphore| Destroy::Semaphore(semaphore),
    ) + owned.image_available_semaphores@.map_values(
        |semaphore: Semaphore| Destroy::Semaphore(semaphore),
    )
}

/// The objects of which there is one.
pub open spec fn destroy_singles(owned: &Owned) -> Seq<Destroy> {
    seq![
        Destroy::PipelineLayout(owned.pipeline_layout),
        Destroy::DescriptorPool(owned.descriptor_pool),
        Destroy::DescriptorSetLayout(owned.descriptor_set_layout),
        Destroy::RenderPass(owned.render_pass),
        Destroy::CommandPool(owned.command_pool),
        Destroy::Buffer(owned.staging.buffer),
        Destroy::Memory(owned.staging.memory),
        Destroy::Buffer(owned.index.buffer),
        Destroy::Memory(owned.index.memory),
        Destroy::Buffer(owned.vertex.buffer),
        Destroy::Memory(owned.vertex.memory),
        Destroy::Sampler(owned.texture_sampler),
        Destroy::ImageView(owned.texture_image_view),
        Destroy::Image(owned.texture_image),
        Destroy::Memory(owned.texture_memory),
    ]
}

/// The uniform buffers, three steps for each.
pub open spec fn destroy_uniforms(buffers: Seq<VKBuffer>) -> Seq<Destroy> {
    Seq::new(
        3 * buffers.len(),
        |k: int|
            if k % 3 == 0 {
                Destroy::Unmap(buffers[k / 3].memory)
            } else if k % 3 == 1 {
                Destroy::Buffer(buffers[k / 3].buffer)
            } else {
                Destroy::Memory(buffers[k / 3].memory)
            },
    )
}

/// All steps of the teardown, in order.
pub open spec fn destroy_steps(owned: &Owned) -> Seq<Destroy> {
    destroy_lists(owned) + destroy_singles(owned) + destroy_uniforms(owned.uniform_buffers@)
}

/// Appends the semaphores.
fn push_semaphores(steps: &mut Vec<Destroy>, semaphores: &Vec<Semaphore>)
    ensures
        final(steps)@ == old(steps)@ + semaphores@.map_values(
            |semaphore: Semaphore| Destroy::Semaphore(semaphore),
        ),
{
    let mut i: usize = 0;
    while i < semaphores.len()
        invariant
            i <= semaphores@.len(),
            steps@ == old(steps)@ + semaphores@.take(i as int).map_values(
                |semaphore: Semaphore| Destroy::Semaphore(semaphore),
            ),
        decreases semaphores@.len() - i,
    {
        steps.push(Destroy::Semaphore(semaphores[i]));
        i += 1;
    }
    assert(semaphores@.take(i as int) =~= semaphores@);
}

/// Lists the objects of which there may be several, kind by kind.
fn push_lists(steps: &mut Vec<Destroy>, owned: &Owned)
    ensures
        final(steps)@ == old(steps)@ + destroy_lists(owned),
{
    let mut i: usize = 0;
    while i < owned.draw_end_fences.len()
        invariant
            i <= owned.draw_end_fences@.len(),
            steps@ == old(steps)@ + owned.draw_end_fences@.take(i as int).map_values(
                |fence: Fence| Destroy::Fence(fence),
            ),
        decreases owned.draw_end_fences@.len() - i,
    {
        steps.push(Destroy::Fence(owned.draw_end_fences[i]));
        i += 1;
    }
    assert(owned.draw_end_fences@.take(i as int) =~= owned.draw_end_fences@);
    let ghost with_fences = steps@;
    let mut j: usize = 0;
    while j < owned.graphic_pipelines.len()
        invariant
            j <= owned.graphic_pipelines@.len(),
            steps@ == with_fences + owned.graphic_pipelines@.take(j as int).map_values(
                |pipeline: Pipeline| Destroy::Pipeline(pipeline),
            ),
        decreases owned.graphic_pipelines@.len() - j,
    {
        steps.push(Destroy::Pipeline(owned.graphic_pipelines[j]));
        j += 1;
    }
    assert(owned.graphic_pipelines@.take(j as int) =~= owned.graphic_pipelines@);
    let ghost with_pipelines = steps@;
    let mut k: usize = 0;
    while k < owned.shader_modules.len()
        invariant
            k <= owned.shader_modules@.len(),
            steps@ == with_pipelines + owned.shader_modules@.take(k as int).map_values(
                |module: ShaderModule| Destroy::ShaderModule(module),
            ),
        decreases owned.shader_modules@.len() - k,
    {
        steps.push(Destroy::ShaderModule(owned.shader_modules[k]));
        k += 1;
    }
    assert(owned.shader_modules@.take(k as int) =~= owned.shader_modules@);
    push_semaphores(steps, &owned.draw_end_semaphores);
    push_semaphores(steps, &owned.image_available_semaphores);
    assert(steps@ =~= old(steps)@ + destroy_lists(owned));
}

/// Lists the objects of which there is one.
fn push_singles(steps: &mut Vec<Destroy>, owned: &Owned)
    ensures
        final(steps)@ == old(steps)@ + destroy_singles(owned),
{
    steps.push(Destroy::PipelineLayout(owned.pipeline_layout));
    steps.push(Destroy::DescriptorPool(owned.descriptor_pool));
    steps.push(Destroy::DescriptorSetLayout(owned.descriptor_set_layout));
    steps.push(Destroy::RenderPass(owned.render_pass));
    steps.push(Destroy::CommandPool(owned.command_pool));
    steps.push(Destroy::Buffer(owned.staging.buffer));
    steps.push(Destroy::Memory(owned.staging.memory));
    steps.push(Destroy::Buffer(owned.index.buffer));
    steps.push(Destroy::Memory(owned.index.memory));
    steps.push(Destroy::Buffer(owned.vertex.buffer));
    steps.push(Destroy::Memory(owned.vertex.memory));
    steps.push(Destroy::Sampler(owned.texture_sampler));
    steps.push(Destroy::ImageView(owned.texture_image_view));
    steps.push(Destroy::Image(owned.texture_image));
    steps.push(Destroy::Memory(owned.texture_memory));
    assert(steps@ =~= old(steps)@ + destroy_singles(owned));
}

/// Lists the steps that destroy everything in `owned`, in order.
pub fn teardown_steps(owned: &Owned) -> (steps: Vec<Destroy>)
    ensures
        steps@ == destroy_steps(owned),
{
    let mut steps: Vec<Destroy> = Vec::new();
    push_lists(&mut steps, owned);
    push_singles(&mut steps, owned);
    let ghost before = steps@;
    let mut i: usize = 0;
    while i < owned.uniform_buffers.len()
        invariant
            i <= owned.uniform_buffers@.len(),
            steps@ == before + destroy_uniforms(owned.uniform_buffers@.take(i as int)),
        decreases owned.uniform_buffers@.len() - i,
    {
        let uniform = owned.uniform_buffers[i];
        steps.push(Destroy::Unmap(uniform.memory));
        steps.push(Destroy::Buffer(uniform.buffer));
        steps.push(Destroy::Memory(uniform.memory));
        i += 1;
    }
    assert(owned.uniform_buffers@.take(i as int) =~= owned.uniform_buffers@);
    assert(steps@ =~= destroy_steps(owned));
    steps
}

/// The buffers in `owned`.
pub open spec fn owned_buffers(owned: &Owned) -> Seq<Buffer> {
    seq![owned.staging.buffer, owned.index.buffer, owned.vertex.buffer]
        + owned.uniform_buffers@.map_values(|uniform: VKBuffer| uniform.buffer)
}

/// The allocations in `owned`.
pub open spec fn owned_memories(owned: &Owned) -> Seq<DeviceMemory> {
    seq![owned.staging.memory, owned.index.memory, owned.vertex.memory, owned.texture_memory]
        + owned.uniform_buffers@.map_values(|uniform: VKBuffer| uniform.memory)
}

/// Whether no object stands in `owned` twice, as it is for objects that were
/// created one by one.
pub open spec fn all_distinct(owned: &Owned) -> bool {
    &&& owned.draw_end_fences@.no_duplicates()
    &&& owned.graphic_pipelines@.no_duplicates()
    &&& owned.shader_modules@.no_duplicates()
    &&& (owned.draw_end_semaphores@ + owned.image_available_semaphores@).no_duplicates()
    &&& owned_buffers(owned).no_duplicates()
    &&& owned_memories(owned).no_duplicates()
}

proof fn lemma_lists_have_no_duplicates(owned: &Owned)
    requires
        all_distinct(owned),
    ensures
        destroy_lists(owned).no_duplicates(),
        forall|i: int|
            0 <= i < destroy_lists(owned).len() ==> {
                let step = #[trigger] destroy_lists(owned)[i];
                step is Fence || step is Pipeline || step is ShaderModule || step is Semaphore
            },
{
    let fences = owned.draw_end_fences@.map_values(|fence: Fence| Destroy::Fence(fence));
    let pipelines = owned.graphic_pipelines@.map_values(
        |pipeline: Pipeline| Destroy::Pipeline(pipeline),
    );
    let modules = owned.shader_modules@.map_values(
        |module: ShaderModule| Destroy::ShaderModule(module),
    );
    let ends = owned.draw_end_semaphores@.map_values(
        |semaphore: Semaphore| Destroy::Semaphore(semaphore),
    );
    let starts = owned.image_available_semaphores@.map_values(
        |semaphore: Semaphore| Destroy::Semaphore(semaphore),
    );
    let semaphores = owned.draw_end_semaphores@ + owned.image_available_semaphores@;
    let count = owned.draw_end_semaphores@.len();
    assert forall|i: int| 0 <= i < ends.len() implies ends[i] == Destroy::Semaphore(
        semaphores[i],
    ) by {}
    assert forall|j: int| 0 <= j < starts.len() implies starts[j] == Destroy::Semaphore(
        semaphores[count + j],
    ) by {}
    vstd::seq_lib::lemma_no_dup_in_concat(fences, pipelines);
    vstd::seq_lib::lemma_no_dup_in_concat(fences + pipelines, modules);
    vstd::seq_lib::lemma_no_dup_in_concat(fences + pipelines + modules, ends);
    vstd::seq_lib::lemma_no_dup_in_concat(fences + pipelines + modules + ends, starts);
}

proof fn lemma_singles_have_no_duplicates(owned: &Owned)
    requires
        all_distinct(owned),
    ensures
        destroy_singles(owned).no_duplicates(),
{
    let buffers = owned_buffers(owned);
    let memories = owned_memories(owned);
    assert(buffers[0] == owned.staging.buffer && buffers[1] == owned.index.buffer && buffers[2]
        == owned.vertex.buffer);
    assert(memories[0] == owned.staging.memory && memories[1] == owned.index.memory && memories[2]
        == owned.vertex.memory && memories[3] == owned.texture_memory);
}

proof fn lemma_uniforms_have_no_duplicates(owned: &Owned)
    requires
        all_distinct(owned),
    ensures
        destroy_uniforms(owned.uniform_buffers@).no_duplicates(),
        forall|i: int, k: int|
            0 <= i < destroy_singles(owned).len() && 0 <= k < destroy_uniforms(
                owned.uniform_buffers@,
            ).len() ==> destroy_singles(owned)[i] != destroy_uniforms(owned.uniform_buffers@)[k],
{
    let uniforms = owned.uniform_buffers@;
    let buffers = owned_buffers(owned);
    let memories = owned_memories(owned);
    assert forall|i: int| 0 <= i < uniforms.len() implies uniforms[i].buffer == buffers[3 + i]
        && uniforms[i].memory == memories[4 + i] by {}
    assert(buffers[0] == owned.staging.buffer && buffers[1] == owned.index.buffer && buffers[2]
        == owned.vertex.buffer);
    assert(memories[0] == owned.staging.memory && memories[1] == owned.index.memory && memories[2]
        == owned.vertex.memory && memories[3] == owned.texture_memory);
    assert forall|k: int, m: int|
        0 <= k < m < destroy_uniforms(uniforms).len() implies destroy_uniforms(uniforms)[k]
        != destroy_uniforms(uniforms)[m] by {
        if k / 3 == m / 3 {
            assert(k % 3 != m % 3);
        } else {
            assert(buffers[3 + k / 3] != buffers[3 + m / 3]);
            assert(memories[4 + k / 3] != memories[4 + m / 3]);
        }
    }
    assert forall|i: int, k: int|
        0 <= i < destroy_singles(owned).len() && 0 <= k < destroy_uniforms(
            uniforms,
        ).len() implies destroy_singles(owned)[i] != destroy_uniforms(uniforms)[k] by {
        assert(buffers[3 + k / 3] != buffers[0] && buffers[3 + k / 3] != buffers[1] && buffers[3 + k
            / 3] != buffers[2]);
        assert(memories[4 + k / 3] != memories[0] && memories[4 + k / 3] != memories[1]
            && memories[4 + k / 3] != memories[2] && memories[4 + k / 3] != memories[3]);
    }
}

/// Nothing is destroyed, freed or unmapped twice.
pub proof fn nothing_is_destroyed_twice(owned: &Owned)
    requires
        all_distinct(owned),
    ensures
        destroy_steps(owned).no_duplicates(),
{
    lemma_lists_have_no_duplicates(owned);
    lemma_singles_have_no_duplicates(owned);
    lemma_uniforms_have_no_duplicates(owned);
    let lists = destroy_lists(owned);
    let singles = destroy_singles(owned);
    let uniforms = destroy_uniforms(owned.uniform_buffers@);
    vstd::seq_lib::lemma_no_dup_in_concat(lists, singles);
    vstd::seq_lib::lemma_no_dup_in_concat(lists + singles, uniforms);
}

/// Whether `first` stands somewhere before `second`.
pub open spec fn precedes(steps: Seq<Destroy>, first: Destroy, second: Destroy) -> bool {
    exists|i: int, j: int|
        0 <= i < j < steps.len() && #[trigger] steps[i] == first && #[trigger] steps[j] == second
}

/// The single object at place `i` of its list stands in the steps after the
/// lists.
proof fn lemma_single_place(owned: &Owned, i: int)
    requires
        0 <= i < destroy_singles(owned).len(),
    ensures
        destroy_steps(owned)[destroy_lists(owned).len() + i] == destroy_singles(owned)[i],
{
}

/// Memory is freed after what lies in it is gone: each buffer before its memory,
/// the view of the texture before its image and the image before its memory; and
/// memory that is mapped is unmapped first.
pub proof fn memory_is_freed_last(owned: &Owned)
    ensures
        precedes(
            destroy_steps(owned),
            Destroy::Buffer(owned.staging.buffer),
            Destroy::Memory(owned.staging.memory),
        ),
        precedes(
            destroy_steps(owned),
            Destroy::Buffer(owned.index.buffer),
            Destroy::Memory(owned.index.memory),
        ),
        precedes(
            destroy_steps(owned),
            Destroy::Buffer(owned.vertex.buffer),
            Destroy::Memory(owned.vertex.memory),
        ),
        precedes(
            destroy_steps(owned),
            Destroy::ImageView(owned.texture_image_view),
            Destroy::Image(owned.texture_image),
        ),
        precedes(
            destroy_steps(owned),
            Destroy::Image(owned.texture_image),
            Destroy::Memory(owned.texture_memory),
        ),
        forall|i: int|
            #![trigger owned.uniform_buffers@[i]]
            0 <= i < owned.uniform_buffers@.len() ==> precedes(
                destroy_steps(owned),
                Destroy::Unmap(owned.uniform_buffers@[i].memory),
                Destroy::Memory(owned.uniform_buffers@[i].memory),
            ) && precedes(
                destroy_steps(owned),
                Destroy::Buffer(owned.uniform_buffers@[i].buffer),
                Destroy::Memory(owned.uniform_buffers@[i].memory),
            ),
{
    let steps = destroy_steps(owned);
    lemma_single_place(owned, 5);
    lemma_single_place(owned, 6);
    lemma_single_place(owned, 7);
    lemma_single_place(owned, 8);
    lemma_single_place(owned, 9);
    lemma_single_place(owned, 10);
    lemma_single_place(owned, 12);
    lemma_single_place(owned, 13);
    lemma_single_place(owned, 14);
    assert forall|i: int|
        #![trigger owned.uniform_buffers@[i]]
        0 <= i < owned.uniform_buffers@.len() implies precedes(
        steps,
        Destroy::Unmap(owned.uniform_buffers@[i].memory),
        Destroy::Memory(owned.uniform_buffers@[i].memory),
    ) && precedes(
        steps,
        Destroy::Buffer(owned.uniform_buffers@[i].buffer),
        Destroy::Memory(owned.uniform_buffers@[i].memory),
    ) by {
        let start = destroy_lists(owned).len() + destroy_singles(owned).len() + 3 * i;
        assert(steps[start] == Destroy::Unmap(owned.uniform_buffers@[i].memory));
        assert(steps[start + 1] == Destroy::Buffer(owned.uniform_buffers@[i].buffer));
        assert(steps[start + 2] == Destroy::Memory(owned.uniform_buffers@[i].memory));
    }
}

/// What stands in one of two sequences stands in both together.
proof fn lemma_contains_concat(a: Seq<Destroy>, b: Seq<Destroy>, step: Destroy)
    ensures
        a.contains(step) || b.contains(step) ==> (a + b).contains(step),
{
    if a.contains(step) {
        let i = choose|i: int| 0 <= i < a.len() && a[i] == step;
        assert((a + b)[i] == step);
    } else if b.contains(step) {
        let i = choose|i: int| 0 <= i < b.len() && b[i] == step;
        assert((a + b)[a.len() + i] == step);
    }
}

/// Whether `step` destroys something in `owned`, or unmaps a uniform buffer.
pub open spec fn is_owed(owned: &Owned, step: Destroy) -> bool {
    match step {
        Destroy::Fence(fence) => owned.draw_end_fences@.contains(fence),
        Destroy::Pipeline(pipeline) => owned.graphic_pipelines@.contains(pipeline),
        Destroy::ShaderModule(module) => owned.shader_modules@.contains(module),
        Destroy::Semaphore(semaphore) => owned.draw_end_semaphores@.contains(semaphore)
            || owned.image_available_semaphores@.contains(semaphore),
        Destroy::PipelineLayout(layout) => layout == owned.pipeline_layout,
        Destroy::DescriptorPool(pool) => pool == owned.descriptor_pool,
        Destroy::DescriptorSetLayout(layout) => layout == owned.descriptor_set_layout,
        Destroy::RenderPass(pass) => pass == owned.render_pass,
        Destroy::CommandPool(pool) => pool == owned.command_pool,
        Destroy::Buffer(buffer) => owned_buffers(owned).contains(buffer),
        Destroy::Memory(memory) => owned_memories(owned).contains(memory),
        Destroy::Sampler(sampler) => sampler == owned.texture_sampler,
        Destroy::ImageView(view) => view == owned.texture_image_view,
        Destroy::Image(image) => image == owned.texture_image,
        Destroy::Unmap(memory) => exists|i: int|
            0 <= i < owned.uniform_buffers@.len() && (#[trigger] owned.uniform_buffers@[i]).memory
                == memory,
    }
}

/// Everything that is owned is destroyed, and nothing else is.
pub proof fn teardown_is_complete(owned: &Owned, step: Destroy)
    ensures
        destroy_steps(owned).contains(step) <==> is_owed(owned, step),
{
    let lists = destroy_lists(owned);
    let singles = destroy_singles(owned);
    let uniforms = destroy_uniforms(owned.uniform_buffers@);
    if is_owed(owned, step) {
        lemma_owed_is_destroyed(owned, step);
        lemma_contains_concat(lists, singles, step);
        lemma_contains_concat(lists + singles, uniforms, step);
    }
    if destroy_steps(owned).contains(step) {
        lemma_destroyed_is_owed(owned, step);
    }
}

proof fn lemma_owed_is_destroyed(owned: &Owned, step: Destroy)
    requires
        is_owed(owned, step),
    ensures
        destroy_lists(owned).contains(step) || destroy_singles(owned).contains(step)
            || destroy_uniforms(owned.uniform_buffers@).contains(step),
{
    let lists = destroy_lists(owned);
    let singles = destroy_singles(owned);
    let uniforms = destroy_uniforms(owned.uniform_buffers@);
    let fences = owned.draw_end_fences@;
    let pipelines = owned.graphic_pipelines@;
    let modules = owned.shader_modules@;
    let ends = owned.draw_end_semaphores@;
    let starts = owned.image_available_semaphores@;
    match step {
        Destroy::Fence(fence) => {
            let i = choose|i: int| 0 <= i < fences.len() && fences[i] == fence;
            assert(lists[i] == step);
        },
        Destroy::Pipeline(pipeline) => {
            let i = choose|i: int| 0 <= i < pipelines.len() && pipelines[i] == pipeline;
            assert(lists[fences.len() + i] == step);
        },
        Destroy::ShaderModule(module) => {
            let i = choose|i: int| 0 <= i < modules.len() && modules[i] == module;
            assert(lists[fences.len() + pipelines.len() + i] == step);
        },
        Destroy::Semaphore(semaphore) => {
            let before = fences.len() + pipelines.len() + modules.len();
            if ends.contains(semaphore) {
                let i = choose|i: int| 0 <= i < ends.len() && ends[i] == semaphore;
                assert(lists[before + i] == step);
            } else {
                let i = choose|i: int| 0 <= i < starts.len() && starts[i] == semaphore;
                assert(lists[before + ends.len() + i] == step);
            }
        },
        Destroy::PipelineLayout(_) => assert(singles[0] == step),
        Destroy::DescriptorPool(_) => assert(singles[1] == step),
        Destroy::DescriptorSetLayout(_) => assert(singles[2] == step),
        Destroy::RenderPass(_) => assert(singles[3] == step),
        Destroy::CommandPool(_) => assert(singles[4] == step),
        Destroy::Buffer(buffer) => {
            let buffers = owned_buffers(owned);
            let i = choose|i: int| 0 <= i < buffers.len() && buffers[i] == buffer;
            if i < 3 {
                assert(singles[5 + 2 * i] == step);
            } else {
                assert(uniforms[3 * (i - 3) + 1] == step);
            }
        },
        Destroy::Memory(memory) => {
            let memories = owned_memories(owned);
            let i = choose|i: int| 0 <= i < memories.len() && memories[i] == memory;
            if i < 3 {
                assert(singles[6 + 2 * i] == step);
            } else if i == 3 {
                assert(singles[14] == step);
            } else {
                assert(uniforms[3 * (i - 4) + 2] == step);
            }
        },
        Destroy::Sampler(_) => assert(singles[11] == step),
        Destroy::ImageView(_) => assert(singles[12] == step),
        Destroy::Image(_) => assert(singles[13] == step),
        Destroy::Unmap(memory) => {
            let i = choose|i: int|
                0 <= i < owned.uniform_buffers@.len() && (
                #[trigger] owned.uniform_buffers@[i]).memory == memory;
            assert(uniforms[3 * i] == step);
        },
    }
}

proof fn lemma_destroyed_is_owed(owned: &Owned, step: Destroy)
    requires
        destroy_steps(owned).contains(step),
    ensures
        is_owed(owned, step),
{
    let steps = destroy_steps(owned);
    let k = choose|k: int| 0 <= k < steps.len() && steps[k] == step;
    let fences = owned.draw_end_fences@;
    let pipelines = owned.graphic_pipelines@;
    let modules = owned.shader_modules@;
    let ends = owned.draw_end_semaphores@;
    let starts = owned.image_available_semaphores@;
    let buffers = owned_buffers(owned);
    let memories = owned_memories(owned);
    let lists = destroy_lists(owned).len();
    let singles = destroy_singles(owned).len();
    if k < lists {
        assert(steps[k] == destroy_lists(owned)[k]);
        let p = k - fences.len();
        let m = p - pipelines.len();
        let e = m - modules.len();
        let s = e - ends.len();
        if p < 0 {
            assert(step == Destroy::Fence(fences[k]));
        } else if m < 0 {
            assert(step == Destroy::Pipeline(pipelines[p]));
        } else if e < 0 {
            assert(step == Destroy::ShaderModule(modules[m]));
        } else if s < 0 {
            assert(step == Destroy::Semaphore(ends[e]));
        } else {
            assert(step == Destroy::Semaphore(starts[s]));
        }
    } else if k < lists + singles {
        assert(steps[k] == destroy_singles(owned)[k - lists]);
        assert(buffers[0] == owned.staging.buffer && buffers[1] == owned.index.buffer && buffers[2]
            == owned.vertex.buffer);
        assert(memories[0] == owned.staging.memory && memories[1] == owned.index.memory
            && memories[2] == owned.vertex.memory && memories[3] == owned.texture_memory);
    } else {
        let u = k - lists - singles;
        assert(steps[k] == destroy_uniforms(owned.uniform_buffers@)[u]);
        assert(buffers[3 + u / 3] == owned.uniform_buffers@[u / 3].buffer);
        assert(memories[4 + u / 3] == owned.uniform_buffers@[u / 3].memory);
    }
}

/// Whatever is owned, it is destroyed kind by kind and in the order of its list:
/// what draws, then what is drawn with, then the memory that holds it; and there
/// are no steps but these.
pub proof fn teardown_follows_one_order(owned: &Owned)
    ensures
        ({
            let steps = destroy_steps(owned);
            let pipelines = owned.draw_end_fences@.len() as int;
            let modules = pipelines + owned.graphic_pipelines@.len();
            let ends = modules + owned.shader_modules@.len();
            let starts = ends + owned.draw_end_semaphores@.len();
            let singles = starts + owned.image_available_semaphores@.len();
            let uniforms = singles + 15;
            &&& forall|i: int|
                0 <= i < owned.draw_end_fences@.len() ==> steps[i] == Destroy::Fence(
                    #[trigger] owned.draw_end_fences@[i],
                )
            &&& forall|i: int|
                0 <= i < owned.graphic_pipelines@.len() ==> steps[pipelines + i]
                    == Destroy::Pipeline(#[trigger] owned.graphic_pipelines@[i])
            &&& forall|i: int|
                0 <= i < owned.shader_modules@.len() ==> steps[modules + i]
                    == Destroy::ShaderModule(#[trigger] owned.shader_modules@[i])
            &&& forall|i: int|
                0 <= i < owned.draw_end_semaphores@.len() ==> steps[ends + i] == Destroy::Semaphore(
                    #[trigger] owned.draw_end_semaphores@[i],
                )
            &&& forall|i: int|
                0 <= i < owned.image_available_semaphores@.len() ==> steps[starts + i]
                    == Destroy::Semaphore(#[trigger] owned.image_available_semaphores@[i])
            &&& steps[singles] == Destroy::PipelineLayout(owned.pipeline_layout)
            &&& steps[singles + 1] == Destroy::DescriptorPool(owned.descriptor_pool)
            &&& steps[singles + 2] == Destroy::DescriptorSetLayout(owned.descriptor_set_layout)
            &&& steps[singles + 3] == Destroy::RenderPass(owned.render_pass)
            &&& steps[singles + 4] == Destroy::CommandPool(owned.command_pool)
            &&& steps[singles + 5] == Destroy::Buffer(owned.staging.buffer)
            &&& steps[singles + 6] == Destroy::Memory(owned.staging.memory)
            &&& steps[singles + 7] == Destroy::Buffer(owned.index.buffer)
            &&& steps[singles + 8] == Destroy::Memory(owned.index.memory)
            &&& steps[singles + 9] == Destroy::Buffer(owned.vertex.buffer)
            &&& steps[singles + 10] == Destroy::Memory(owned.vertex.memory)
            &&& steps[singles + 11] == Destroy::Sampler(owned.texture_sampler)
            &&& steps[singles + 12] == Destroy::ImageView(owned.texture_image_view)
            &&& steps[singles + 13] == Destroy::Image(owned.texture_image)
            &&& steps[singles + 14] == Destroy::Memory(owned.texture_memory)
            &&& forall|i: int|
                0 <= i < owned.uniform_buffers@.len() ==> {
                    let uniform = #[trigger] owned.uniform_buffers@[i];
                    &&& steps[uniforms + 3 * i] == Destroy::Unmap(uniform.memory)
                    &&& steps[uniforms + 3 * i + 1] == Destroy::Buffer(uniform.buffer)
                    &&& steps[uniforms + 3 * i + 2] == Destroy::Memory(uniform.memory)
                }
            &&& steps.len() == uniforms + 3 * owned.uniform_buffers@.len()
        }),
{
}

} // verus!
