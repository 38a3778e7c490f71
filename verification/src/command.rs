//! The commands that draw one frame.
use vstd::prelude::*;

use crate::define::{
    VK_DYNAMIC_STATE_SCISSOR, VK_DYNAMIC_STATE_VIEWPORT, VK_INDEX_TYPE_UINT32,
    VK_PIPELINE_BIND_POINT_GRAPHICS, VK_SUBPASS_CONTENTS_INLINE,
};
use crate::handle::{Buffer, DescriptorSet, Framebuffer, Pipeline, PipelineLayout, RenderPass};
use crate::pipeline::{attachments, dynamic_states};

verus! {

/// A size in pixels.
#[derive(Clone, Copy, Debug, PartialEq, Eq, Structural)]
pub struct Extent2D {
    pub width: u32,
    pub height: u32,
}

/// A rectangle of pixels.
#[derive(Clone, Copy, Debug, PartialEq, Eq, Structural)]
pub struct Rect2D {
    pub x: i32,
    pub y: i32,
    pub extent: Extent2D,
}

/// The rectangle of the given size whose corner is the origin.
pub open spec fn whole(extent: Extent2D) -> Rect2D {
    Rect2D { x: 0, y: 0, extent }
}

/// The part of the image that is drawn to, and the range of depths. All numbers
/// are whole.
#[derive(Clone, Copy, Debug, PartialEq, Eq, Structural)]
pub struct Viewport {
    pub x: u32,
    pub y: u32,
    pub width: u32,
    pub height: u32,
    pub min_depth: u32,
    pub max_depth: u32,
}

/// A colour. All numbers are whole.
#[derive(Clone, Copy, Debug, PartialEq, Eq, Structural)]
pub struct ClearColor {
    pub red: u32,
    pub green: u32,
    pub blue: u32,
    pub alpha: u32,
}

/// A command as it is recorded. Where a command takes a list, it has one element.
#[derive(Clone, Copy, Debug, PartialEq, Eq, Structural)]
pub enum Command {
    BeginCommandBuffer { flags: u32 },
    BeginRenderPass {
        render_pass: RenderPass,
        framebuffer: Framebuffer,
        render_area: Rect2D,
        clear_value: ClearColor,
        contents: i32,
    },
    BindPipeline { bind_point: i32, pipeline: Pipeline },
    SetViewport { first_viewport: u32, viewport: Viewport },
    SetScissor { first_scissor: u32, scissor: Rect2D },
    BindVertexBuffer { first_binding: u32, buffer: Buffer, offset: u64 },
    BindIndexBuffer { buffer: Buffer, offset: u64, index_type: i32 },
    BindDescriptorSet {
        bind_point: i32,
        layout: PipelineLayout,
        first_set: u32,
        descriptor_set: DescriptorSet,
    },
    DrawIndexed {
        index_count: u32,
        instance_count: u32,
        first_index: u32,
        vertex_offset: i32,
        first_instance: u32,
    },
    EndRenderPass,
    EndCommandBuffer,
}

/// What a frame is drawn with and where it is drawn to.
#[derive(Clone, Copy, Debug, PartialEq, Eq, Structural)]
pub struct FrameTarget {
    pub extent: Extent2D,
    pub render_pass: RenderPass,
    pub framebuffer: Framebuffer,
    pub index_buffer: Buffer,
    pub vertex_buffer: Buffer,
    pub descriptor_set: DescriptorSet,
    pub pipeline_layout: PipelineLayout,
    pub graphic_pipeline: Pipeline,
}

/// The corners of the two triangles that are drawn, as numbers of vertices.
pub open spec fn quad_indices() -> Seq<u32> {
    seq![0, 1, 2, 3, 2, 0]
}

/// The corners of the two triangles that are drawn, as numbers of vertices.
pub fn indices() -> (indices: Vec<u32>)
    ensures
        indices@ == quad_indices(),
{
    vec![0, 1, 2, 3, 2, 0]
}

/// The commands that clear `target` and draw the quad over all of it.
pub open spec fn frame_commands(target: FrameTarget) -> Seq<Command> {
    seq![
        Command::BeginCommandBuffer { flags: 0 },
        Command::BeginRenderPass {
            render_pass: target.render_pass,
            framebuffer: target.framebuffer,
            render_area: whole(target.extent),
            clear_value: ClearColor { red: 0, green: 0, blue: 0, alpha: 0 },
            contents: VK_SUBPASS_CONTENTS_INLINE,
        },
        Command::BindPipeline {
            bind_point: VK_PIPELINE_BIND_POINT_GRAPHICS,
            pipeline: target.graphic_pipeline,
        },
        Command::SetViewport {
            first_viewport: 0,
            viewport: Viewport {
                x: 0,
                y: 0,
                width: target.extent.width,
                height: target.extent.height,
                min_depth: 0,
                max_depth: 1,
            },
        },
        Command::SetScissor { first_scissor: 0, scissor: whole(target.extent) },
        Command::BindVertexBuffer { first_binding: 0, buffer: target.vertex_buffer, offset: 0 },
        Command::BindIndexBuffer {
            buffer: target.index_buffer,
            offset: 0,
            index_type: VK_INDEX_TYPE_UINT32,
        },
        Command::BindDescriptorSet {
            bind_point: VK_PIPELINE_BIND_POINT_GRAPHICS,
            layout: target.pipeline_layout,
            first_set: 0,
            descriptor_set: target.descriptor_set,
        },
        Command::DrawIndexed {
            index_count: 6,
            instance_count: 1,
            first_index: 0,
            vertex_offset: 0,
            first_instance: 0,
        },
        Command::EndRenderPass,
        Command::EndCommandBuffer,
    ]
}

/// Lists the commands of one frame, in the order in which they are recorded.
pub fn record_command_buffer(target: &FrameTarget) -> (commands: Vec<Command>)
    ensures
        commands@ == frame_commands(*target),
{
    let area = Rect2D { x: 0, y: 0, extent: target.extent };
    let viewport = Viewport {
        x: 0,
        y: 0,
        width: target.extent.width,
        height: target.extent.height,
        min_depth: 0,
        max_depth: 1,
    };
    let clear_value = ClearColor { red: 0, green: 0, blue: 0, alpha: 0 };
    let mut commands: Vec<Command> = Vec::new();
    commands.push(Command::BeginCommandBuffer { flags: 0 });
    commands.push(
        Command::BeginRenderPass {
            render_pass: target.render_pass,
            framebuffer: target.framebuffer,
            render_area: area,
            clear_value,
            contents: VK_SUBPASS_CONTENTS_INLINE,
        },
    );
    commands.push(
        Command::BindPipeline {
            bind_point: VK_PIPELINE_BIND_POINT_GRAPHICS,
            pipeline: target.graphic_pipeline,
        },
    );
    commands.push(Command::SetViewport { first_viewport: 0, viewport });
    commands.push(Command::SetScissor { first_scissor: 0, scissor: area });
    commands.push(
        Command::BindVertexBuffer { first_binding: 0, buffer: target.vertex_buffer, offset: 0 },
    );
    commands.push(
        Command::BindIndexBuffer {
            buffer: target.index_buffer,
            offset: 0,
            index_type: VK_INDEX_TYPE_UINT32,
        },
    );
    commands.push(
        Command::BindDescriptorSet {
            bind_point: VK_PIPELINE_BIND_POINT_GRAPHICS,
            layout: target.pipeline_layout,
            first_set: 0,
            descriptor_set: target.descriptor_set,
        },
    );
    commands.push(
        Command::DrawIndexed {
            index_count: 6,
            instance_count: 1,
            first_index: 0,
            vertex_offset: 0,
            first_instance: 0,
        },
    );
    commands.push(Command::EndRenderPass);
    commands.push(Command::EndCommandBuffer);
    commands
}

/// Where a command buffer stands while it is recorded.
pub enum Stage {
    Initial,
    Recording,
    InRenderPass,
    Executable,
}

/// A command buffer while it is recorded: where it stands and what is set.
pub struct Recorder {
    pub stage: Stage,
    /// The pipeline that is bound.
    pub pipeline: Option<Pipeline>,
    /// The dynamic states that are set.
    pub set_states: Set<i32>,
    /// The vertex buffer that is bound.
    pub vertex_buffer: Option<Buffer>,
    /// The index buffer that is bound.
    pub index_buffer: Option<Buffer>,
    /// The descriptor set that is bound.
    pub descriptor_set: Option<DescriptorSet>,
    /// How many draws were recorded.
    pub draws: nat,
}

impl Recorder {
    /// An empty command buffer.
    pub open spec fn initial() -> Recorder {
        Recorder {
            stage: Stage::Initial,
            pipeline: None,
            set_states: Set::empty(),
            vertex_buffer: None,
            index_buffer: None,
            descriptor_set: None,
            draws: 0,
        }
    }

    /// Whether all that a draw needs is bound and set, and its indices are there.
    pub open spec fn can_draw(self, first_index: u32, index_count: u32) -> bool {
        &&& self.pipeline is Some
        &&& self.vertex_buffer is Some
        &&& self.index_buffer is Some
        &&& self.descriptor_set is Some
        &&& forall|i: int|
            0 <= i < dynamic_states().len() ==> self.set_states.contains(
                #[trigger] dynamic_states()[i],
            )
        &&& first_index + index_count <= quad_indices().len()
    }

    /// The buffer after `command`, or `None` where the command is out of place:
    /// recording is begun once, a render pass is begun in it, everything else
    /// happens in the render pass, and both are ended.
    pub open spec fn record(self, command: Command) -> Option<Recorder> {
        match command {
            Command::BeginCommandBuffer { .. } => if self.stage is Initial {
                Some(Recorder { stage: Stage::Recording, ..self })
            } else {
                None
            },
            Command::BeginRenderPass { .. } => if self.stage is Recording {
                Some(Recorder { stage: Stage::InRenderPass, ..self })
            } else {
                None
            },
            Command::EndRenderPass => if self.stage is InRenderPass {
                Some(Recorder { stage: Stage::Recording, ..self })
            } else {
                None
            },
            Command::EndCommandBuffer => if self.stage is Recording {
                Some(Recorder { stage: Stage::Executable, ..self })
            } else {
                None
            },
            _ => if self.stage is InRenderPass {
                self.set_up(command)
            } else {
                None
            },
        }
    }

    /// The buffer after `command` in a render pass.
    pub open spec fn set_up(self, command: Command) -> Option<Recorder> {
        match command {
            Command::BindPipeline { pipeline, .. } => Some(
                Recorder { pipeline: Some(pipeline), ..self },
            ),
            Command::SetViewport { .. } => Some(
                Recorder { set_states: self.set_states.insert(VK_DYNAMIC_STATE_VIEWPORT), ..self },
            ),
            Command::SetScissor { .. } => Some(
                Recorder { set_states: self.set_states.insert(VK_DYNAMIC_STATE_SCISSOR), ..self },
            ),
            Command::BindVertexBuffer { buffer, .. } => Some(
                Recorder { vertex_buffer: Some(buffer), ..self },
            ),
            Command::BindIndexBuffer { buffer, .. } => Some(
                Recorder { index_buffer: Some(buffer), ..self },
            ),
            Command::BindDescriptorSet { descriptor_set, .. } => Some(
                Recorder { descriptor_set: Some(descriptor_set), ..self },
            ),
            Command::DrawIndexed { index_count, first_index, .. } => if self.can_draw(
                first_index,
                index_count,
            ) {
                Some(Recorder { draws: self.draws + 1, ..self })
            } else {
                None
            },
            _ => None,
        }
    }

    /// The buffer after all of `commands`, or `None` where one is out of place.
    pub open spec fn record_all(self, commands: Seq<Command>) -> Option<Recorder>
        decreases commands.len(),
    {
        if commands.len() == 0 {
            Some(self)
        } else {
            match self.record_all(commands.drop_last()) {
                Some(recorder) => recorder.record(commands.last()),
                None => None,
            }
        }
    }
}

/// The recording after one more command.
proof fn lemma_record_next(commands: Seq<Command>, count: int)
    requires
        0 <= count < commands.len(),
    ensures
        Recorder::initial().record_all(commands.take(count + 1)) == match Recorder::initial().record_all(
            commands.take(count),
        ) {
            Some(recorder) => recorder.record(commands[count]),
            None => None,
        },
{
    assert(commands.take(count + 1).drop_last() =~= commands.take(count));
}

/// Every frame is recorded by the rules: no command is out of place, the one
/// draw finds everything bound and every dynamic state of the pipeline set, and
/// the buffer comes out ready to be submitted.
pub proof fn frame_is_recorded_by_the_rules(target: FrameTarget)
    ensures
        Recorder::initial().record_all(frame_commands(target)) matches Some(recorder)
            && recorder.stage is Executable && recorder.draws == 1 && recorder.pipeline == Some(
            target.graphic_pipeline,
        ) && recorder.vertex_buffer == Some(target.vertex_buffer) && recorder.index_buffer == Some(
            target.index_buffer,
        ) && recorder.descriptor_set == Some(target.descriptor_set),
{
    let commands = frame_commands(target);
    assert(commands.take(0) =~= seq![]);
    lemma_record_next(commands, 0);
    lemma_record_next(commands, 1);
    lemma_record_next(commands, 2);
    lemma_record_next(commands, 3);
    lemma_record_next(commands, 4);
    lemma_record_next(commands, 5);
    lemma_record_next(commands, 6);
    lemma_record_next(commands, 7);
    lemma_record_next(commands, 8);
    lemma_record_next(commands, 9);
    lemma_record_next(commands, 10);
    assert(commands.take(11) =~= commands);
}

/// The draw takes all the indices there are, whole triangles of them, and none
/// of them names a vertex beyond the four corners of the quad.
pub proof fn draw_takes_whole_quad(target: FrameTarget)
    ensures
        frame_commands(target)[8] matches Command::DrawIndexed { index_count, first_index, .. }
            && first_index == 0 && index_count == quad_indices().len() && index_count % 3 == 0,
        forall|i: int| 0 <= i < quad_indices().len() ==> quad_indices()[i] < 4,
{
}

/// The frame fills its target: what is drawn to, what is kept of it and where it
/// is mapped to are the whole extent, and each attachment has a clear colour.
pub proof fn frame_covers_its_target(target: FrameTarget, format: i32)
    ensures
        frame_commands(target)[1] matches Command::BeginRenderPass { render_area, .. }
            && render_area == whole(target.extent),
        frame_commands(target)[3] matches Command::SetViewport { viewport, .. } && viewport.x == 0
            && viewport.y == 0 && viewport.width == target.extent.width && viewport.height
            == target.extent.height,
        frame_commands(target)[4] matches Command::SetScissor { scissor, .. } && scissor == whole(
            target.extent,
        ),
        attachments(format).len() == 1,
{
}

/// Whatever the target, the quad is drawn once: there is one draw, of one
/// instance, which is the first, and of all six indices, none of them shifted.
pub proof fn quad_is_drawn_once(target: FrameTarget)
    ensures
        exists|i: int|
            0 <= i < frame_commands(target).len() && #[trigger] frame_commands(target)[i]
                is DrawIndexed,
        forall|i: int, j: int|
            0 <= i < j < frame_commands(target).len() ==> !(frame_commands(target)[i] is DrawIndexed
                && frame_commands(target)[j] is DrawIndexed),
        forall|i: int|
            0 <= i < frame_commands(target).len() ==> (#[trigger] frame_commands(
                target,
            )[i] matches Command::DrawIndexed {
                index_count,
                instance_count,
                first_index,
                vertex_offset,
                first_instance,
            } ==> instance_count == 1 && first_instance == 0 && index_count == 6 && first_index == 0
                && vertex_offset == 0),
{
    assert(frame_commands(target)[8] is DrawIndexed);
}

/// A frame is recorded with what it is given and with nothing else: the areas are
/// the whole extent, everything that is bound is that of the target and read from
/// its start, the target is cleared to nothing, and depths go from zero to one.
pub proof fn frame_uses_what_it_is_given(target: FrameTarget, command: Command)
    ensures
        frame_commands(target).contains(command) <==> match command {
            Command::BeginCommandBuffer { flags } => flags == 0,
            Command::BeginRenderPass {
                render_pass,
                framebuffer,
                render_area,
                clear_value,
                contents,
            } => render_pass == target.render_pass && framebuffer == target.framebuffer
                && render_area.x == 0 && render_area.y == 0 && render_area.extent == target.extent
                && clear_value.red == 0 && clear_value.green == 0 && clear_value.blue == 0
                && clear_value.alpha == 0 && contents == VK_SUBPASS_CONTENTS_INLINE,
            Command::BindPipeline { bind_point, pipeline } => bind_point
                == VK_PIPELINE_BIND_POINT_GRAPHICS && pipeline == target.graphic_pipeline,
            Command::SetViewport { first_viewport, viewport } => first_viewport == 0 && viewport.x
                == 0 && viewport.y == 0 && viewport.width == target.extent.width && viewport.height
                == target.extent.height && viewport.min_depth == 0 && viewport.max_depth == 1,
            Command::SetScissor { first_scissor, scissor } => first_scissor == 0 && scissor.x == 0
                && scissor.y == 0 && scissor.extent == target.extent,
            Command::BindVertexBuffer { first_binding, buffer, offset } => first_binding == 0
                && buffer == target.vertex_buffer && offset == 0,
            Command::BindIndexBuffer { buffer, offset, index_type } => buffer == target.index_buffer
                && offset == 0 && index_type == VK_INDEX_TYPE_UINT32,
            Command::BindDescriptorSet { bind_point, layout, first_set, descriptor_set } => {
                bind_point == VK_PIPELINE_BIND_POINT_GRAPHICS && layout == target.pipeline_layout
                    && first_set == 0 && descriptor_set == target.descriptor_set
            },
            Command::DrawIndexed {
                index_count,
                instance_count,
                first_index,
                vertex_offset,
                first_instance,
            } => index_count == 6 && instance_count == 1 && first_index == 0 && vertex_offset == 0
                && first_instance == 0,
            Command::EndRenderPass => true,
            Command::EndCommandBuffer => true,
        },
{
    let commands = frame_commands(target);
    assert(commands[place_of(command)] == command || !commands.contains(command));
}

/// Where in a frame a command stands.
pub open spec fn place_of(command: Command) -> int {
    match command {
        Command::BeginCommandBuffer { .. } => 0,
        Command::BeginRenderPass { .. } => 1,
        Command::BindPipeline { .. } => 2,
        Command::SetViewport { .. } => 3,
        Command::SetScissor { .. } => 4,
        Command::BindVertexBuffer { .. } => 5,
        Command::BindIndexBuffer { .. } => 6,
        Command::BindDescriptorSet { .. } => 7,
        Command::DrawIndexed { .. } => 8,
        Command::EndRenderPass => 9,
        Command::EndCommandBuffer => 10,
    }
}

/// Whatever the target, a frame has one command of each kind, in the same order.
pub proof fn commands_come_once_and_in_order(target: FrameTarget)
    ensures
        frame_commands(target).len() == 11,
        forall|i: int|
            0 <= i < frame_commands(target).len() ==> place_of(
                #[trigger] frame_commands(target)[i],
            ) == i,
{
}

/// The quad is two triangles that share a side and have all four corners, each
/// corner of the other side once.
pub proof fn quad_is_two_triangles()
    ensures
        quad_indices().len() == 6,
        quad_indices()[0] == quad_indices()[5] && quad_indices()[2] == quad_indices()[4],
        quad_indices()[0] != quad_indices()[2],
        forall|corner: u32| corner < 4 <==> quad_indices().contains(corner),
{
    assert(quad_indices()[0] == 0 && quad_indices()[1] == 1 && quad_indices()[2] == 2
        && quad_indices()[3] == 3);
    assert forall|corner: u32| corner < 4 implies quad_indices().contains(corner) by {
        assert(quad_indices()[corner as int] == corner);
    }
}

} // verus!
