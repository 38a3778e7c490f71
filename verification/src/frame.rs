//! The frame loop as a state machine.
//!
//! The loop takes what the window system and the driver report, one event at a
//! time, and answers with what is to be done, in order. Drawing a frame takes
//! three events: the request to redraw, the answer of the swapchain to the
//! request for an image, and the answer of the queue to the request to present.
use vstd::prelude::*;

use crate::define::{FRAMES_IN_FLIGHT, VK_PIPELINE_STAGE_COLOR_ATTACHMENT_OUTPUT_BIT};
use crate::handle::{CommandBuffer, DescriptorSet, Fence, Pipeline, Semaphore};

verus! {

/// What the loop waits for.
#[derive(Clone, Copy, Debug, PartialEq, Eq, Structural)]
pub enum Phase {
    /// The next event of the window.
    Idle,
    /// The swapchain's answer to the request for an image.
    Acquiring,
    /// The queue's answer to the request to present.
    Presenting,
    /// Nothing: the swapchain failed.
    Failed,
}

/// What the loop is told.
#[derive(Clone, Copy, Debug, PartialEq, Eq, Structural)]
pub enum LoopEvent {
    /// The window has no more events for now.
    MainEventsCleared,
    /// The window is to be redrawn.
    RedrawEventsCleared,
    /// The window has a new size.
    Resized { width: u32, height: u32 },
    /// The cursor moved over the window.
    CursorMoved,
    /// The window is to be closed.
    CloseRequested,
    /// Any other event of the window.
    Other,
    /// The swapchain gave an image.
    Acquired { image_index: u32, suboptimal: bool },
    /// The swapchain no longer fits the window, and gave no image.
    AcquireOutOfDate,
    /// The swapchain failed in any other way.
    AcquireFailed,
    /// The image was presented.
    Presented { suboptimal: bool },
    /// The swapchain no longer fits the window; the image was not presented.
    PresentOutOfDate,
    /// The image was not presented for any other reason.
    PresentFailed,
}

/// What the loop asks for.
#[derive(Clone, Copy, Debug, PartialEq, Eq, Structural)]
pub enum LoopAction {
    /// Sleep until the next event.
    SetWait,
    /// Leave the loop.
    SetExit,
    /// Ask the window to be redrawn.
    RequestRedraw,
    /// Note the time at which the frame starts.
    StartFrameTimer,
    /// Add the time since the frame started to the total.
    AddFrameTime,
    /// Wait until `fence` is signaled.
    WaitFence { fence: Fence, timeout: u64 },
    /// Ask the swapchain for an image that `semaphore` announces.
    AcquireImage { semaphore: Semaphore, timeout: u64 },
    /// Make `fence` unsignaled.
    ResetFence { fence: Fence },
    /// Make `command_buffer` empty.
    ResetCommandBuffer { command_buffer: CommandBuffer },
    /// Record the drawing of the image into `command_buffer`.
    Record {
        command_buffer: CommandBuffer,
        image_index: u32,
        descriptor_set: DescriptorSet,
        graphic_pipeline: Pipeline,
    },
    /// Submit `command_buffer` to the queue.
    Submit {
        wait_semaphore: Semaphore,
        wait_stage: u32,
        command_buffer: CommandBuffer,
        signal_semaphore: Semaphore,
        fence: Fence,
    },
    /// Present the image once `wait_semaphore` is signaled.
    Present { wait_semaphore: Semaphore, image_index: u32 },
    /// Print why the image was not presented.
    ReportPresentError,
    /// Make a swapchain that fits the window.
    RecreateSwapchain,
    /// Give up with the swapchain's error.
    Fail,
    /// Write the camera of the cursor's position to the uniform buffer `slot`.
    WriteCamera { slot: usize },
    /// Wait until the device has nothing left to do.
    WaitIdle,
    /// Destroy everything that was created for drawing.
    Teardown,
    /// Print the average number of frames per second.
    PrintAverage,
}

/// The objects that the frames in flight use, one of each kind for each frame.
#[derive(Debug)]
pub struct FrameResources {
    pub draw_end_fences: Vec<Fence>,
    pub image_available_semaphores: Vec<Semaphore>,
    pub draw_end_semaphores: Vec<Semaphore>,
    pub command_buffers: Vec<CommandBuffer>,
    pub descriptor_sets: Vec<DescriptorSet>,
    /// The pipelines; every frame is drawn with the first.
    pub graphic_pipelines: Vec<Pipeline>,
}

impl FrameResources {
    /// Whether there is an object of each kind for each frame, and a pipeline.
    pub open spec fn wf(&self) -> bool {
        &&& self.draw_end_fences@.len() == FRAMES_IN_FLIGHT
        &&& self.image_available_semaphores@.len() == FRAMES_IN_FLIGHT
        &&& self.draw_end_semaphores@.len() == FRAMES_IN_FLIGHT
        &&& self.command_buffers@.len() == FRAMES_IN_FLIGHT
        &&& self.descriptor_sets@.len() == FRAMES_IN_FLIGHT
        &&& self.graphic_pipelines@.len() > 0
    }

    /// Tells whether the objects are as many as the loop needs.
    pub fn check(&self) -> (ok: bool)
        ensures
            ok == self.wf(),
    {
        self.draw_end_fences.len() == FRAMES_IN_FLIGHT && self.image_available_semaphores.len()
            == FRAMES_IN_FLIGHT && self.draw_end_semaphores.len() == FRAMES_IN_FLIGHT
            && self.command_buffers.len() == FRAMES_IN_FLIGHT && self.descriptor_sets.len()
            == FRAMES_IN_FLIGHT && self.graphic_pipelines.len() > 0
    }
}

/// The state of the frame loop.
#[derive(Clone, Copy, Debug, PartialEq, Eq, Structural)]
pub struct FrameLoop {
    /// Frames drawn so far.
    pub index: usize,
    /// Whether the swapchain is to be made anew after this frame.
    pub recreate: bool,
    /// Whether the window was closed.
    pub exit: bool,
    /// Whether the window has no area.
    pub min: bool,
    pub phase: Phase,
}

impl LoopEvent {
    /// Whether this is an answer of the swapchain to the request for an image.
    pub open spec fn answers_acquire(self) -> bool {
        self is Acquired || self is AcquireOutOfDate || self is AcquireFailed
    }

    /// Whether this is an answer of the queue to the request to present.
    pub open spec fn answers_present(self) -> bool {
        self is Presented || self is PresentOutOfDate || self is PresentFailed
    }
}

impl FrameLoop {
    /// The loop before its first event.
    pub open spec fn initial() -> FrameLoop {
        FrameLoop { index: 0, recreate: false, exit: false, min: false, phase: Phase::Idle }
    }

    /// Which of the frames in flight is next.
    pub open spec fn slot(self) -> int {
        self.index as int % FRAMES_IN_FLIGHT as int
    }

    /// Whether a request to redraw is followed.
    pub open spec fn draws(self) -> bool {
        !self.exit && !self.min
    }

    /// Whether `event` can come in this state: an answer comes when it is waited
    /// for, and an event of the window when nothing else is.
    pub open spec fn expects(self, event: LoopEvent) -> bool {
        if event.answers_acquire() {
            self.phase is Acquiring
        } else if event.answers_present() {
            self.phase is Presenting
        } else {
            self.phase is Idle
        }
    }

    /// Whether the machine's integers can count what `event` brings: the area of
    /// the window and the frame that was drawn.
    pub open spec fn can_count(self, event: LoopEvent) -> bool {
        &&& event matches LoopEvent::Resized { width, height } ==> width * height <= u32::MAX
        &&& event.answers_present() ==> self.index < usize::MAX
    }

    /// Whether the swapchain is to be made anew once `event` has answered the
    /// request to present. An unexplained failure leaves what the swapchain said
    /// when it gave the image.
    pub open spec fn outdated_after(self, event: LoopEvent) -> bool {
        match event {
            LoopEvent::Presented { suboptimal } => suboptimal,
            LoopEvent::PresentOutOfDate => true,
            _ => self.recreate,
        }
    }

    /// The state after `event`.
    pub open spec fn next(self, event: LoopEvent) -> FrameLoop {
        match event {
            LoopEvent::RedrawEventsCleared => if self.draws() {
                FrameLoop { phase: Phase::Acquiring, ..self }
            } else {
                self
            },
            LoopEvent::Resized { width, height } => FrameLoop {
                min: width == 0 || height == 0,
                ..self
            },
            LoopEvent::CloseRequested => FrameLoop { exit: true, ..self },
            LoopEvent::Acquired { image_index, suboptimal } => FrameLoop {
                recreate: suboptimal,
                phase: Phase::Presenting,
                ..self
            },
            LoopEvent::AcquireOutOfDate => FrameLoop { phase: Phase::Idle, ..self },
            LoopEvent::AcquireFailed => FrameLoop { phase: Phase::Failed, ..self },
            LoopEvent::Presented { .. }
            | LoopEvent::PresentOutOfDate
            | LoopEvent::PresentFailed => FrameLoop {
                index: (self.index + 1) as usize,
                recreate: false,
                phase: Phase::Idle,
                ..self
            },
            _ => self,
        }
    }

    /// What is asked for when `event` comes.
    pub open spec fn actions(self, res: &FrameResources, event: LoopEvent) -> Seq<LoopAction> {
        let slot = self.slot();
        match event {
            LoopEvent::MainEventsCleared => seq![LoopAction::SetWait, LoopAction::RequestRedraw],
            LoopEvent::RedrawEventsCleared => if self.draws() {
                seq![
                    LoopAction::SetWait,
                    LoopAction::StartFrameTimer,
                    LoopAction::WaitFence { fence: res.draw_end_fences@[slot], timeout: u64::MAX },
                    LoopAction::AcquireImage {
                        semaphore: res.image_available_semaphores@[slot],
                        timeout: u64::MAX,
                    },
                ]
            } else {
                seq![LoopAction::SetWait, LoopAction::StartFrameTimer, LoopAction::AddFrameTime]
            },
            LoopEvent::Resized { .. } | LoopEvent::Other => seq![LoopAction::SetWait],
            LoopEvent::CursorMoved => seq![
                LoopAction::SetWait,
                LoopAction::WriteCamera { slot: slot as usize },
            ],
            LoopEvent::CloseRequested => seq![
                LoopAction::SetWait,
                LoopAction::WaitIdle,
                LoopAction::Teardown,
                LoopAction::PrintAverage,
                LoopAction::SetExit,
            ],
            LoopEvent::Acquired { image_index, suboptimal } => seq![
                LoopAction::ResetFence { fence: res.draw_end_fences@[slot] },
                LoopAction::ResetCommandBuffer { command_buffer: res.command_buffers@[slot] },
                LoopAction::Record {
                    command_buffer: res.command_buffers@[slot],
                    image_index,
                    descriptor_set: res.descriptor_sets@[slot],
                    graphic_pipeline: res.graphic_pipelines@[0],
                },
                LoopAction::Submit {
                    wait_semaphore: res.image_available_semaphores@[slot],
                    wait_stage: VK_PIPELINE_STAGE_COLOR_ATTACHMENT_OUTPUT_BIT,
                    command_buffer: res.command_buffers@[slot],
                    signal_semaphore: res.draw_end_semaphores@[slot],
                    fence: res.draw_end_fences@[slot],
                },
                LoopAction::Present {
                    wait_semaphore: res.draw_end_semaphores@[slot],
                    image_index,
                },
            ],
            LoopEvent::AcquireOutOfDate => seq![LoopAction::RecreateSwapchain],
            LoopEvent::AcquireFailed => seq![LoopAction::Fail],
            LoopEvent::Presented { .. }
            | LoopEvent::PresentOutOfDate
            | LoopEvent::PresentFailed => {
                let report = if event is PresentFailed {
                    seq![LoopAction::ReportPresentError]
                } else {
                    seq![]
                };
                let renew = if self.outdated_after(event) {
                    seq![LoopAction::RecreateSwapchain]
                } else {
                    seq![]
                };
                report + renew + seq![LoopAction::AddFrameTime]
            },
        }
    }

    /// A loop that has drawn nothing yet.
    pub fn new() -> (state: FrameLoop)
        ensures
            state == FrameLoop::initial(),
    {
        FrameLoop { index: 0, recreate: false, exit: false, min: false, phase: Phase::Idle }
    }

    /// Tells whether `event` can be taken now.
    pub fn accepts(&self, event: LoopEvent) -> (ok: bool)
        ensures
            ok == (self.expects(event) && self.can_count(event)),
    {
        match event {
            LoopEvent::Acquired { .. }
            | LoopEvent::AcquireOutOfDate
            | LoopEvent::AcquireFailed => self.phase == Phase::Acquiring,
            LoopEvent::Presented { .. }
            | LoopEvent::PresentOutOfDate
            | LoopEvent::PresentFailed => self.phase == Phase::Presenting && self.index
                < usize::MAX,
            LoopEvent::Resized { width, height } => self.phase == Phase::Idle
                && width.checked_mul(height).is_some(),
            _ => self.phase == Phase::Idle,
        }
    }

    /// What is asked for to begin a frame.
    fn begin_frame(&self, res: &FrameResources) -> (actions: Vec<LoopAction>)
        requires
            res.wf(),
        ensures
            actions@ == self.actions(res, LoopEvent::RedrawEventsCleared),
    {
        let mut actions: Vec<LoopAction> = Vec::new();
        actions.push(LoopAction::SetWait);
        actions.push(LoopAction::StartFrameTimer);
        if !self.exit && !self.min {
            let slot: usize = self.index % FRAMES_IN_FLIGHT;
            actions.push(
                LoopAction::WaitFence { fence: res.draw_end_fences[slot], timeout: u64::MAX },
            );
            actions.push(
                LoopAction::AcquireImage {
                    semaphore: res.image_available_semaphores[slot],
                    timeout: u64::MAX,
                },
            );
        } else {
            actions.push(LoopAction::AddFrameTime);
        }
        assert(actions@ =~= self.actions(res, LoopEvent::RedrawEventsCleared));
        actions
    }

    /// What is asked for to draw and present the image `image_index`.
    fn draw_image(&self, res: &FrameResources, image_index: u32, suboptimal: bool) -> (actions: Vec<
        LoopAction,
    >)
        requires
            res.wf(),
        ensures
            actions@ == self.actions(res, LoopEvent::Acquired { image_index, suboptimal }),
    {
        let slot: usize = self.index % FRAMES_IN_FLIGHT;
        let command_buffer = res.command_buffers[slot];
        let draw_end_fence = res.draw_end_fences[slot];
        let draw_end_semaphore = res.draw_end_semaphores[slot];
        let mut actions: Vec<LoopAction> = Vec::new();
        actions.push(LoopAction::ResetFence { fence: draw_end_fence });
        actions.push(LoopAction::ResetCommandBuffer { command_buffer });
        actions.push(
            LoopAction::Record {
                command_buffer,
                image_index,
                descriptor_set: res.descriptor_sets[slot],
                graphic_pipeline: res.graphic_pipelines[0],
            },
        );
        actions.push(
            LoopAction::Submit {
                wait_semaphore: res.image_available_semaphores[slot],
                wait_stage: VK_PIPELINE_STAGE_COLOR_ATTACHMENT_OUTPUT_BIT,
                command_buffer,
                signal_semaphore: draw_end_semaphore,
                fence: draw_end_fence,
            },
        );
        actions.push(LoopAction::Present { wait_semaphore: draw_end_semaphore, image_index });
        assert(actions@ =~= self.actions(res, LoopEvent::Acquired { image_index, suboptimal }));
        actions
    }

    /// What is asked for when the window is closed.
    fn close(&self, res: &FrameResources) -> (actions: Vec<LoopAction>)
        ensures
            actions@ == self.actions(res, LoopEvent::CloseRequested),
    {
        let mut actions: Vec<LoopAction> = Vec::new();
        actions.push(LoopAction::SetWait);
        actions.push(LoopAction::WaitIdle);
        actions.push(LoopAction::Teardown);
        actions.push(LoopAction::PrintAverage);
        actions.push(LoopAction::SetExit);
        assert(actions@ =~= self.actions(res, LoopEvent::CloseRequested));
        actions
    }

    /// Ends the frame whose image was handed to the queue.
    fn end_frame(&mut self, res: &FrameResources, event: LoopEvent) -> (actions: Vec<LoopAction>)
        requires
            event.answers_present(),
            old(self).can_count(event),
        ensures
            *final(self) == old(self).next(event),
            actions@ == old(self).actions(res, event),
    {
        let mut actions: Vec<LoopAction> = Vec::new();
        match event {
            LoopEvent::Presented { suboptimal } => {
                self.recreate = suboptimal;
            },
            LoopEvent::PresentOutOfDate => {
                self.recreate = true;
            },
            _ => {
                actions.push(LoopAction::ReportPresentError);
            },
        }
        if self.recreate {
            actions.push(LoopAction::RecreateSwapchain);
            self.recreate = false;
        }
        self.index += 1;
        self.phase = Phase::Idle;
        actions.push(LoopAction::AddFrameTime);
        assert(actions@ =~= old(self).actions(res, event));
        actions
    }

    /// Takes `event` and says what is to be done about it, in order.
    pub fn step(&mut self, res: &FrameResources, event: LoopEvent) -> (actions: Vec<LoopAction>)
        requires
            res.wf(),
            old(self).expects(event),
            old(self).can_count(event),
        ensures
            *final(self) == old(self).next(event),
            actions@ == old(self).actions(res, event),
    {
        let mut actions: Vec<LoopAction> = Vec::new();
        match event {
            LoopEvent::MainEventsCleared => {
                actions.push(LoopAction::SetWait);
                actions.push(LoopAction::RequestRedraw);
            },
            LoopEvent::RedrawEventsCleared => {
                actions = self.begin_frame(res);
                if !self.exit && !self.min {
                    self.phase = Phase::Acquiring;
                }
            },
            LoopEvent::Resized { width, height } => {
                actions.push(LoopAction::SetWait);
                self.min = width * height == 0;
                proof {
                    assert(width * height == 0 <==> width == 0 || height == 0) by (nonlinear_arith);
                }
            },
            LoopEvent::CursorMoved => {
                actions.push(LoopAction::SetWait);
                actions.push(LoopAction::WriteCamera { slot: self.index % FRAMES_IN_FLIGHT });
            },
            LoopEvent::CloseRequested => {
                actions = self.close(res);
                self.exit = true;
            },
            LoopEvent::Other => {
                actions.push(LoopAction::SetWait);
            },
            LoopEvent::Acquired { image_index, suboptimal } => {
                actions = self.draw_image(res, image_index, suboptimal);
                self.recreate = suboptimal;
                self.phase = Phase::Presenting;
            },
            LoopEvent::AcquireOutOfDate => {
                actions.push(LoopAction::RecreateSwapchain);
                self.phase = Phase::Idle;
            },
            LoopEvent::AcquireFailed => {
                actions.push(LoopAction::Fail);
                self.phase = Phase::Failed;
            },
            _ => {
                actions = self.end_frame(res, event);
            },
        }
        assert(actions@ =~= old(self).actions(res, event));
        actions
    }
}

} // verus!
