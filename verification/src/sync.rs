//! What the frame loop keeps over any run: its own bookkeeping, and the rules
//! by which fences and semaphores may be used.
use vstd::prelude::*;

use crate::define::{
    FRAMES_IN_FLIGHT, VK_FENCE_CREATE_SIGNALED_BIT, VK_PIPELINE_STAGE_COLOR_ATTACHMENT_OUTPUT_BIT,
};
use crate::frame::{FrameLoop, FrameResources, LoopAction, LoopEvent, Phase};
use crate::handle::{CommandBuffer, Fence, Semaphore};

verus! {

/// The loop after all of `events`, starting with its initial state.
pub open spec fn loop_after(events: Seq<LoopEvent>) -> FrameLoop
    decreases events.len(),
{
    if events.len() == 0 {
        FrameLoop::initial()
    } else {
        loop_after(events.drop_last()).next(events.last())
    }
}

/// Whether each of `events` can come when it does.
pub open spec fn possible_run(events: Seq<LoopEvent>) -> bool
    decreases events.len(),
{
    events.len() > 0 ==> {
        &&& possible_run(events.drop_last())
        &&& loop_after(events.drop_last()).expects(events.last())
        &&& loop_after(events.drop_last()).can_count(events.last())
    }
}

/// How many of `events` end a frame.
pub open spec fn frames_ended(events: Seq<LoopEvent>) -> nat
    decreases events.len(),
{
    if events.len() == 0 {
        0
    } else {
        frames_ended(events.drop_last()) + if events.last().answers_present() {
            1nat
        } else {
            0nat
        }
    }
}

/// The loop counts the frames that it handed to the queue, and no others.
pub proof fn index_counts_frames(events: Seq<LoopEvent>)
    requires
        possible_run(events),
    ensures
        loop_after(events).index == frames_ended(events),
    decreases events.len(),
{
    if events.len() > 0 {
        index_counts_frames(events.drop_last());
    }
}

/// A swapchain that is known not to fit is made anew before the next event of
/// the window: the wish for a new one never outlives the frame.
pub proof fn recreation_never_lingers(events: Seq<LoopEvent>)
    requires
        possible_run(events),
    ensures
        !(loop_after(events).phase is Presenting) ==> !loop_after(events).recreate,
    decreases events.len(),
{
    if events.len() > 0 {
        recreation_never_lingers(events.drop_last());
    }
}

/// An outdated swapchain is made anew exactly once: when it gave no image, and
/// when a frame ends that found it unfit.
pub proof fn outdated_swapchain_is_recreated_once(
    state: FrameLoop,
    res: &FrameResources,
    event: LoopEvent,
)
    ensures
        state.actions(res, event).contains(LoopAction::RecreateSwapchain) <==> (event
            is AcquireOutOfDate || event.answers_present() && state.outdated_after(event)),
        forall|i: int, j: int|
            0 <= i < j < state.actions(res, event).len() ==> !(state.actions(res, event)[i]
                is RecreateSwapchain && state.actions(res, event)[j] is RecreateSwapchain),
{
    let actions = state.actions(res, event);
    if event is AcquireOutOfDate {
        assert(actions[0] is RecreateSwapchain);
    } else if event.answers_present() && state.outdated_after(event) {
        if event is PresentFailed {
            assert(actions[1] is RecreateSwapchain);
        } else {
            assert(actions[0] is RecreateSwapchain);
        }
    }
}

/// The frames in flight take turns: a frame that ends hands over to the next
/// slot, which is a different one, and nothing else does.
pub proof fn slots_take_turns(state: FrameLoop, event: LoopEvent)
    requires
        state.can_count(event),
    ensures
        0 <= state.slot() < FRAMES_IN_FLIGHT,
        event.answers_present() ==> state.next(event).slot() == (state.slot() + 1)
            % FRAMES_IN_FLIGHT as int && state.next(event).slot() != state.slot(),
        !event.answers_present() ==> state.next(event).slot() == state.slot(),
{
}

/// The frame that is drawn next reads the camera that was written last: the
/// uniform buffer that the cursor's camera goes to and the descriptor set that
/// the frame is recorded with are those of the same slot.
pub proof fn camera_reaches_the_next_frame(
    state: FrameLoop,
    res: &FrameResources,
    image_index: u32,
    suboptimal: bool,
)
    requires
        res.wf(),
    ensures
        state.actions(res, LoopEvent::CursorMoved).contains(
            LoopAction::WriteCamera { slot: state.slot() as usize },
        ),
        state.next(LoopEvent::CursorMoved).actions(
            res,
            LoopEvent::Acquired { image_index, suboptimal },
        ).contains(
            LoopAction::Record {
                command_buffer: res.command_buffers@[state.slot()],
                image_index,
                descriptor_set: res.descriptor_sets@[state.slot()],
                graphic_pipeline: res.graphic_pipelines@[0],
            },
        ),
{
    assert(state.actions(res, LoopEvent::CursorMoved)[1] is WriteCamera);
    assert(state.next(LoopEvent::CursorMoved).actions(
        res,
        LoopEvent::Acquired { image_index, suboptimal },
    )[2] is Record);
}

/// Whether `action` makes the GPU draw or the swapchain hand out an image.
pub open spec fn is_drawing(action: LoopAction) -> bool {
    action is AcquireImage || action is Record || action is Submit || action is Present
}

/// A closed window stays closed, and no frame is begun for it.
pub proof fn nothing_is_drawn_after_close(
    state: FrameLoop,
    res: &FrameResources,
    event: LoopEvent,
)
    requires
        state.exit,
        state.phase is Idle,
        state.expects(event),
    ensures
        state.next(event).exit,
        state.next(event).phase is Idle,
        forall|i: int|
            0 <= i < state.actions(res, event).len() ==> !is_drawing(state.actions(res, event)[i]),
{
}

/// No frame is begun while the window has no area, and only a new size changes
/// that.
pub proof fn nothing_is_drawn_without_area(
    state: FrameLoop,
    res: &FrameResources,
    event: LoopEvent,
)
    requires
        state.min,
        state.phase is Idle,
        state.expects(event),
    ensures
        event is Resized || state.next(event).min,
        state.next(event).phase is Idle,
        forall|i: int|
            0 <= i < state.actions(res, event).len() ==> !is_drawing(state.actions(res, event)[i]),
{
}

/// Where a fence stands.
pub enum FenceState {
    /// A wait for it ends at once.
    Signaled,
    /// A wait for it never ends, for no work was handed in with it.
    Unsignaled,
    /// A wait for it ends with the work that was handed in with it.
    Pending,
}

impl FenceState {
    /// A fence that was created with `flags`.
    pub open spec fn created_with(flags: u32) -> FenceState {
        if flags == VK_FENCE_CREATE_SIGNALED_BIT {
            FenceState::Signaled
        } else {
            FenceState::Unsignaled
        }
    }
}

/// Fences, semaphores and command buffers as the queue sees them.
#[verifier::ext_equal]
pub struct Gpu {
    pub fences: Map<Fence, FenceState>,
    /// The semaphores that are signaled.
    pub signaled: Set<Semaphore>,
    /// The command buffers that may still be executed, each with the fence that
    /// tells when it is done.
    pub pending: Map<CommandBuffer, Fence>,
}

impl Gpu {
    /// All fences of `res` as they are created, signaled, and no semaphore.
    pub open spec fn initial(res: &FrameResources) -> Gpu {
        Gpu {
            fences: Map::new(
                |fence: Fence| res.draw_end_fences@.contains(fence),
                |fence: Fence| FenceState::created_with(VK_FENCE_CREATE_SIGNALED_BIT),
            ),
            signaled: Set::empty(),
            pending: Map::empty(),
        }
    }

    /// The command buffers that may still be executed once `fence` is signaled.
    pub open spec fn pending_after(self, fence: Fence) -> Map<CommandBuffer, Fence> {
        Map::new(
            |buffer: CommandBuffer|
                self.pending.dom().contains(buffer) && self.pending[buffer] != fence,
            |buffer: CommandBuffer| self.pending[buffer],
        )
    }

    /// What `action` does, or `None` where it breaks a rule: a wait must end, a
    /// fence must not be reset while work is pending with it nor be handed in
    /// signaled, a semaphore must be signaled when it is waited for and not
    /// signaled when it is to be signaled, and a command buffer must not be
    /// touched while it may be executed.
    pub open spec fn perform(self, action: LoopAction) -> Option<Gpu> {
        match action {
            LoopAction::WaitFence { fence, .. } => if self.fences.dom().contains(fence)
                && !(self.fences[fence] is Unsignaled) {
                Some(
                    Gpu {
                        fences: self.fences.insert(fence, FenceState::Signaled),
                        pending: self.pending_after(fence),
                        ..self
                    },
                )
            } else {
                None
            },
            LoopAction::AcquireImage { semaphore, .. } => if !self.signaled.contains(semaphore) {
                Some(self)
            } else {
                None
            },
            LoopAction::ResetFence { fence } => if self.fences.dom().contains(fence)
                && !(self.fences[fence] is Pending) {
                Some(Gpu { fences: self.fences.insert(fence, FenceState::Unsignaled), ..self })
            } else {
                None
            },
            LoopAction::ResetCommandBuffer { command_buffer }
            | LoopAction::Record { command_buffer, .. } => if !self.pending.dom().contains(
                command_buffer,
            ) {
                Some(self)
            } else {
                None
            },
            LoopAction::Submit {
                wait_semaphore,
                command_buffer,
                signal_semaphore,
                fence,
                ..
            } => if self.signaled.contains(wait_semaphore) && !self.signaled.remove(
                wait_semaphore,
            ).contains(signal_semaphore) && self.fences.dom().contains(fence)
                && self.fences[fence] is Unsignaled && !self.pending.dom().contains(
                command_buffer,
            ) {
                Some(
                    Gpu {
                        fences: self.fences.insert(fence, FenceState::Pending),
                        signaled: self.signaled.remove(wait_semaphore).insert(signal_semaphore),
                        pending: self.pending.insert(command_buffer, fence),
                    },
                )
            } else {
                None
            },
            LoopAction::Present { wait_semaphore, .. } => if self.signaled.contains(
                wait_semaphore,
            ) {
                Some(Gpu { signaled: self.signaled.remove(wait_semaphore), ..self })
            } else {
                None
            },
            _ => Some(self),
        }
    }

    /// What `actions` do one after the other, or `None` where one breaks a rule.
    pub open spec fn perform_all(self, actions: Seq<LoopAction>) -> Option<Gpu>
        decreases actions.len(),
    {
        if actions.len() == 0 {
            Some(self)
        } else {
            match self.perform_all(actions.drop_last()) {
                Some(gpu) => gpu.perform(actions.last()),
                None => None,
            }
        }
    }

    /// What the swapchain does by answering: an image that it gives is announced
    /// by the semaphore of the frame.
    pub open spec fn answered(
        self,
        state: FrameLoop,
        res: &FrameResources,
        event: LoopEvent,
    ) -> Gpu {
        if event is Acquired {
            Gpu {
                signaled: self.signaled.insert(res.image_available_semaphores@[state.slot()]),
                ..self
            }
        } else {
            self
        }
    }
}

/// Fences, semaphores and command buffers after all of `events`, or `None` where the loop has
/// asked for something that breaks a rule.
pub open spec fn gpu_after(res: &FrameResources, events: Seq<LoopEvent>) -> Option<Gpu>
    decreases events.len(),
{
    if events.len() == 0 {
        Some(Gpu::initial(res))
    } else {
        let state = loop_after(events.drop_last());
        match gpu_after(res, events.drop_last()) {
            Some(gpu) => gpu.answered(state, res, events.last()).perform_all(
                state.actions(res, events.last()),
            ),
            None => None,
        }
    }
}

/// Between frames no semaphore is signaled, every fence can be waited for and
/// tells when the command buffer of its frame is done; while an image is awaited,
/// the fence of the frame is signaled and its command buffer is done.
pub open spec fn at_rest(gpu: Gpu, state: FrameLoop, res: &FrameResources) -> bool {
    &&& forall|i: int|
        0 <= i < FRAMES_IN_FLIGHT ==> gpu.fences.dom().contains(
            #[trigger] res.draw_end_fences@[i],
        ) && !(gpu.fences[res.draw_end_fences@[i]] is Unsignaled)
    &&& gpu.signaled =~= Set::<Semaphore>::empty()
    &&& forall|i: int|
        0 <= i < FRAMES_IN_FLIGHT && gpu.pending.dom().contains(
            #[trigger] res.command_buffers@[i],
        ) ==> gpu.pending[res.command_buffers@[i]] == res.draw_end_fences@[i]
    &&& state.phase is Acquiring ==> gpu.fences[res.draw_end_fences@[state.slot()]] is Signaled
        && !gpu.pending.dom().contains(res.command_buffers@[state.slot()])
}

/// One step keeps the rules and comes to rest again.
proof fn lemma_step_keeps_rules(
    gpu: Gpu,
    state: FrameLoop,
    res: &FrameResources,
    event: LoopEvent,
)
    requires
        res.wf(),
        res.command_buffers@.no_duplicates(),
        state.expects(event),
        at_rest(gpu, state, res),
    ensures
        gpu.answered(state, res, event).perform_all(state.actions(res, event)) matches Some(after)
            && at_rest(after, state.next(event), res),
{
    reveal_with_fuel(Gpu::perform_all, 6);
    let actions = state.actions(res, event);
    if event is Acquired {
        assert(actions.drop_last().drop_last().drop_last().drop_last().drop_last() =~= seq![]);
    } else if event is RedrawEventsCleared && state.draws() {
        assert(actions.drop_last().drop_last().drop_last().drop_last() =~= seq![]);
    }
}

/// However the window and the driver behave, the loop never waits for a fence
/// that nothing will signal, never resets a fence that is in use, signals and
/// awaits every semaphore in turn, and never touches a command buffer that the
/// GPU may still execute.
pub proof fn synchronisation_rules_are_kept(res: &FrameResources, events: Seq<LoopEvent>)
    requires
        res.wf(),
        res.command_buffers@.no_duplicates(),
        possible_run(events),
    ensures
        gpu_after(res, events) matches Some(gpu) && at_rest(gpu, loop_after(events), res),
    decreases events.len(),
{
    if events.len() > 0 {
        synchronisation_rules_are_kept(res, events.drop_last());
        lemma_step_keeps_rules(
            gpu_after(res, events.drop_last()).unwrap(),
            loop_after(events.drop_last()),
            res,
            events.last(),
        );
    }
}

/// In every state, the image that was acquired is the one that is drawn and the one
/// that is presented: it is recorded once and then presented once, and no other is.
pub proof fn acquired_image_is_presented(
    state: FrameLoop,
    res: &FrameResources,
    image_index: u32,
    suboptimal: bool,
)
    ensures
        ({
            let actions = state.actions(res, LoopEvent::Acquired { image_index, suboptimal });
            &&& exists|i: int, j: int|
                0 <= i < j < actions.len() && #[trigger] actions[i] is Record
                    && #[trigger] actions[j] is Present
            &&& forall|i: int|
                0 <= i < actions.len() ==> (#[trigger] actions[i] matches LoopAction::Record {
                    image_index: drawn,
                    ..
                } ==> drawn == image_index)
            &&& forall|i: int|
                0 <= i < actions.len() ==> (#[trigger] actions[i] matches LoopAction::Present {
                    image_index: shown,
                    ..
                } ==> shown == image_index)
            &&& forall|i: int, j: int|
                0 <= i < j < actions.len() ==> !(actions[i] is Present && actions[j] is Present)
                    && !(actions[i] is Record && actions[j] is Record)
        }),
{
    let actions = state.actions(res, LoopEvent::Acquired { image_index, suboptimal });
    assert(actions[2] is Record && actions[4] is Present);
}

/// In every state, an action is asked for exactly when its event calls for it, and
/// with the objects of the frame whose turn it is.
pub proof fn actions_answer_their_event(
    state: FrameLoop,
    res: &FrameResources,
    event: LoopEvent,
    action: LoopAction,
)
    ensures
        state.actions(res, event).contains(action) <==> {
            let slot = state.index as int % FRAMES_IN_FLIGHT as int;
            let presented = event is Presented || event is PresentOutOfDate || event
                is PresentFailed;
            let answer = presented || event is Acquired || event is AcquireOutOfDate || event
                is AcquireFailed;
            let begins = event is RedrawEventsCleared && !state.exit && !state.min;
            match action {
                LoopAction::SetWait => !answer,
                LoopAction::RequestRedraw => event is MainEventsCleared,
                LoopAction::StartFrameTimer => event is RedrawEventsCleared,
                LoopAction::WaitFence { fence, timeout } => begins && fence
                    == res.draw_end_fences@[slot] && timeout == u64::MAX,
                LoopAction::AcquireImage { semaphore, timeout } => begins && semaphore
                    == res.image_available_semaphores@[slot] && timeout == u64::MAX,
                LoopAction::ResetFence { fence } => event is Acquired && fence
                    == res.draw_end_fences@[slot],
                LoopAction::ResetCommandBuffer { command_buffer } => event is Acquired
                    && command_buffer == res.command_buffers@[slot],
                LoopAction::Record {
                    command_buffer,
                    image_index,
                    descriptor_set,
                    graphic_pipeline,
                } => event matches LoopEvent::Acquired { image_index: acquired, .. } && image_index
                    == acquired && command_buffer == res.command_buffers@[slot] && descriptor_set
                    == res.descriptor_sets@[slot] && graphic_pipeline == res.graphic_pipelines@[0],
                LoopAction::Submit {
                    wait_semaphore,
                    wait_stage,
                    command_buffer,
                    signal_semaphore,
                    fence,
                } => event is Acquired && wait_semaphore == res.image_available_semaphores@[slot]
                    && wait_stage == VK_PIPELINE_STAGE_COLOR_ATTACHMENT_OUTPUT_BIT && command_buffer
                    == res.command_buffers@[slot] && signal_semaphore
                    == res.draw_end_semaphores@[slot] && fence == res.draw_end_fences@[slot],
                LoopAction::Present { wait_semaphore, image_index } => {
                    event matches LoopEvent::Acquired { image_index: acquired, .. } && image_index
                        == acquired && wait_semaphore == res.draw_end_semaphores@[slot]
                },
                LoopAction::ReportPresentError => event is PresentFailed,
                LoopAction::RecreateSwapchain => match event {
                    LoopEvent::AcquireOutOfDate => true,
                    LoopEvent::Presented { suboptimal } => suboptimal,
                    LoopEvent::PresentOutOfDate => true,
                    LoopEvent::PresentFailed => state.recreate,
                    _ => false,
                },
                LoopAction::AddFrameTime => presented || event is RedrawEventsCleared && !begins,
                LoopAction::Fail => event is AcquireFailed,
                LoopAction::WriteCamera { slot: written } => event is CursorMoved && written
                    == slot,
                LoopAction::WaitIdle => event is CloseRequested,
                LoopAction::Teardown => event is CloseRequested,
                LoopAction::PrintAverage => event is CloseRequested,
                LoopAction::SetExit => event is CloseRequested,
            }
        },
{
    let actions = state.actions(res, event);
    match event {
        LoopEvent::MainEventsCleared
        | LoopEvent::CursorMoved
        | LoopEvent::Resized { .. }
        | LoopEvent::Other
        | LoopEvent::AcquireOutOfDate
        | LoopEvent::AcquireFailed => {
            assert(actions.len() >= 1 && actions.contains(actions[0]));
            assert(actions.len() == 2 ==> actions.contains(actions[1]));
        },
        LoopEvent::RedrawEventsCleared => {
            assert(actions.contains(actions[0]));
            assert(actions.contains(actions[1]));
            assert(actions.contains(actions[2]));
            assert(actions.len() == 4 ==> actions.contains(actions[3]));
        },
        LoopEvent::CloseRequested | LoopEvent::Acquired { .. } => {
            assert(actions.contains(actions[0]));
            assert(actions.contains(actions[1]));
            assert(actions.contains(actions[2]));
            assert(actions.contains(actions[3]));
            assert(actions.contains(actions[4]));
        },
        _ => {
            assert(actions.contains(actions[0]));
            assert(actions.len() >= 2 ==> actions.contains(actions[1]));
            assert(actions.len() == 3 ==> actions.contains(actions[2]));
        },
    }
}

/// When an action comes, among those that are asked for together.
pub open spec fn turn(action: LoopAction) -> int {
    match action {
        LoopAction::SetWait => 0,
        LoopAction::RequestRedraw => 1,
        LoopAction::StartFrameTimer => 2,
        LoopAction::WaitFence { .. } => 3,
        LoopAction::AcquireImage { .. } => 4,
        LoopAction::ResetFence { .. } => 5,
        LoopAction::ResetCommandBuffer { .. } => 6,
        LoopAction::Record { .. } => 7,
        LoopAction::Submit { .. } => 8,
        LoopAction::Present { .. } => 9,
        LoopAction::ReportPresentError => 10,
        LoopAction::RecreateSwapchain => 11,
        LoopAction::AddFrameTime => 12,
        LoopAction::Fail => 13,
        LoopAction::WriteCamera { .. } => 14,
        LoopAction::WaitIdle => 15,
        LoopAction::Teardown => 16,
        LoopAction::PrintAverage => 17,
        LoopAction::SetExit => 18,
    }
}

/// In every state, no action is asked for twice, and what is asked for together
/// always comes in the same order.
pub proof fn actions_come_in_their_turn(state: FrameLoop, res: &FrameResources, event: LoopEvent)
    ensures
        forall|i: int, j: int|
            0 <= i < j < state.actions(res, event).len() ==> turn(state.actions(res, event)[i])
                < turn(state.actions(res, event)[j]),
{
}

/// Each part of the state has its own events, which alone change it: closing the
/// window, its size, the answers to the request to present, and what the swapchain
/// says of itself.
pub proof fn events_change_their_part(state: FrameLoop, event: LoopEvent)
    requires
        event is Presented || event is PresentOutOfDate || event is PresentFailed ==> state.index
            < usize::MAX,
    ensures
        ({
            let next = state.next(event);
            let presented = event is Presented || event is PresentOutOfDate || event
                is PresentFailed;
            &&& next.exit == (state.exit || event is CloseRequested)
            &&& next.min == match event {
                LoopEvent::Resized { width, height } => width == 0 || height == 0,
                _ => state.min,
            }
            &&& next.index == state.index + if presented {
                1int
            } else {
                0int
            }
            &&& next.recreate == match event {
                LoopEvent::Acquired { suboptimal, .. } => suboptimal,
                _ => state.recreate && !presented,
            }
            &&& next.phase == if event is RedrawEventsCleared && !state.exit && !state.min {
                Phase::Acquiring
            } else if event is Acquired {
                Phase::Presenting
            } else if event is AcquireFailed {
                Phase::Failed
            } else if presented || event is AcquireOutOfDate {
                Phase::Idle
            } else {
                state.phase
            }
        }),
{
}

/// An answer is taken exactly while it is awaited, and any event of the window
/// exactly while nothing is; what is counted fits the machine's integers.
pub proof fn events_are_taken_in_their_phase(state: FrameLoop, event: LoopEvent)
    ensures
        state.expects(event) <==> match event {
            LoopEvent::Acquired { .. }
            | LoopEvent::AcquireOutOfDate
            | LoopEvent::AcquireFailed => state.phase == Phase::Acquiring,
            LoopEvent::Presented { .. }
            | LoopEvent::PresentOutOfDate
            | LoopEvent::PresentFailed => state.phase == Phase::Presenting,
            _ => state.phase == Phase::Idle,
        },
        state.can_count(event) <==> match event {
            LoopEvent::Resized { width, height } => width * height <= u32::MAX,
            LoopEvent::Presented { .. }
            | LoopEvent::PresentOutOfDate
            | LoopEvent::PresentFailed => state.index < usize::MAX,
            _ => true,
        },
        FrameLoop::initial().index == 0 && !FrameLoop::initial().recreate
            && !FrameLoop::initial().exit && !FrameLoop::initial().min
            && FrameLoop::initial().phase == Phase::Idle,
{
}

/// The objects suffice exactly when every frame in flight has one of each kind and
/// there is a pipeline.
pub proof fn every_frame_has_its_objects(res: &FrameResources)
    ensures
        res.wf() <==> res.draw_end_fences@.len() == FRAMES_IN_FLIGHT
            && res.image_available_semaphores@.len() == FRAMES_IN_FLIGHT
            && res.draw_end_semaphores@.len() == FRAMES_IN_FLIGHT && res.command_buffers@.len()
            == FRAMES_IN_FLIGHT && res.descriptor_sets@.len() == FRAMES_IN_FLIGHT
            && res.graphic_pipelines@.len() > 0,
{
}

/// A frame keeps to its objects from the request to redraw to the request to
/// present: the work is handed in with the fence that was waited for and reset, it
/// waits for the semaphore that announces the image, and the image is presented
/// when the work has signaled.
pub proof fn frame_keeps_to_its_objects(
    state: FrameLoop,
    res: &FrameResources,
    image_index: u32,
    suboptimal: bool,
)
    requires
        !state.exit,
        !state.min,
    ensures
        ({
            let asked = state.actions(res, LoopEvent::RedrawEventsCleared);
            let drawn = state.next(LoopEvent::RedrawEventsCleared).actions(
                res,
                LoopEvent::Acquired { image_index, suboptimal },
            );
            forall|i: int, j: int, k: int, m: int|
                0 <= i < asked.len() && 0 <= j < asked.len() && 0 <= k < drawn.len() && 0 <= m
                    < drawn.len() ==> match (#[trigger] asked[i], #[trigger] asked[j],
                #[trigger] drawn[k], #[trigger] drawn[m]) {
                    (
                        LoopAction::WaitFence { fence: awaited, .. },
                        LoopAction::AcquireImage { semaphore, .. },
                        LoopAction::Submit { wait_semaphore, signal_semaphore, fence, .. },
                        LoopAction::Present { wait_semaphore: shown_after, .. },
                    ) => fence == awaited && wait_semaphore == semaphore && shown_after
                        == signal_semaphore,
                    _ => true,
                }
        }),
{
}

} // verus!
