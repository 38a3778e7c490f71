use vk_rs::frame::{FrameLoop, FrameResources, LoopAction, LoopEvent, Phase};
use vk_rs::handle::{CommandBuffer, DescriptorSet, Fence, Pipeline, Semaphore};

fn resources() -> FrameResources {
    FrameResources {
        draw_end_fences: vec![Fence { raw: 10 }, Fence { raw: 11 }],
        image_available_semaphores: vec![Semaphore { raw: 20 }, Semaphore { raw: 21 }],
        draw_end_semaphores: vec![Semaphore { raw: 30 }, Semaphore { raw: 31 }],
        command_buffers: vec![CommandBuffer { raw: 40 }, CommandBuffer { raw: 41 }],
        descriptor_sets: vec![DescriptorSet { raw: 50 }, DescriptorSet { raw: 51 }],
        graphic_pipelines: vec![Pipeline { raw: 60 }],
    }
}

fn draw(state: &mut FrameLoop, res: &FrameResources, image_index: u32) -> Vec<LoopAction> {
    let mut actions = state.step(res, LoopEvent::RedrawEventsCleared);
    actions.extend(state.step(res, LoopEvent::Acquired { image_index, suboptimal: false }));
    actions.extend(state.step(res, LoopEvent::Presented { suboptimal: false }));
    actions
}

#[test]
fn a_frame_is_drawn_in_order() {
    let res = resources();
    let mut state = FrameLoop::new();
    let expected = vec![
        LoopAction::SetWait,
        LoopAction::StartFrameTimer,
        LoopAction::WaitFence { fence: Fence { raw: 10 }, timeout: u64::MAX },
        LoopAction::AcquireImage { semaphore: Semaphore { raw: 20 }, timeout: u64::MAX },
        LoopAction::ResetFence { fence: Fence { raw: 10 } },
        LoopAction::ResetCommandBuffer { command_buffer: CommandBuffer { raw: 40 } },
        LoopAction::Record {
            command_buffer: CommandBuffer { raw: 40 },
            image_index: 7,
            descriptor_set: DescriptorSet { raw: 50 },
            graphic_pipeline: Pipeline { raw: 60 },
        },
        LoopAction::Submit {
            wait_semaphore: Semaphore { raw: 20 },
            wait_stage: 0x400,
            command_buffer: CommandBuffer { raw: 40 },
            signal_semaphore: Semaphore { raw: 30 },
            fence: Fence { raw: 10 },
        },
        LoopAction::Present { wait_semaphore: Semaphore { raw: 30 }, image_index: 7 },
        LoopAction::AddFrameTime,
    ];
    assert_eq!(draw(&mut state, &res, 7), expected);
    assert_eq!(state.index, 1);
    assert_eq!(state.phase, Phase::Idle);
}

#[test]
fn frames_take_turns() {
    let res = resources();
    let mut state = FrameLoop::new();
    let mut fences = vec![];
    for image_index in 0..5 {
        for action in draw(&mut state, &res, image_index) {
            if let LoopAction::WaitFence { fence, .. } = action {
                fences.push(fence.raw);
            }
        }
    }
    assert_eq!(fences, vec![10, 11, 10, 11, 10]);
    assert_eq!(state.index, 5);
}

#[test]
fn an_outdated_swapchain_gives_no_image() {
    let res = resources();
    let mut state = FrameLoop::new();
    state.step(&res, LoopEvent::RedrawEventsCleared);
    assert_eq!(state.phase, Phase::Acquiring);
    // The fence is not reset, the frame is not counted, its time is not added.
    assert_eq!(state.step(&res, LoopEvent::AcquireOutOfDate), vec![LoopAction::RecreateSwapchain]);
    assert_eq!(state, FrameLoop::new());
}

#[test]
fn a_failing_swapchain_ends_the_loop() {
    let res = resources();
    let mut state = FrameLoop::new();
    state.step(&res, LoopEvent::RedrawEventsCleared);
    assert_eq!(state.step(&res, LoopEvent::AcquireFailed), vec![LoopAction::Fail]);
    assert_eq!(state.phase, Phase::Failed);
}

#[test]
fn the_queue_has_the_last_word_on_the_swapchain() {
    let res = resources();
    let cases = [
        (false, LoopEvent::Presented { suboptimal: false }, vec![LoopAction::AddFrameTime]),
        (true, LoopEvent::Presented { suboptimal: false }, vec![LoopAction::AddFrameTime]),
        (
            false,
            LoopEvent::Presented { suboptimal: true },
            vec![LoopAction::RecreateSwapchain, LoopAction::AddFrameTime],
        ),
        (
            false,
            LoopEvent::PresentOutOfDate,
            vec![LoopAction::RecreateSwapchain, LoopAction::AddFrameTime],
        ),
        (
            false,
            LoopEvent::PresentFailed,
            vec![LoopAction::ReportPresentError, LoopAction::AddFrameTime],
        ),
        (
            true,
            LoopEvent::PresentFailed,
            vec![LoopAction::ReportPresentError, LoopAction::RecreateSwapchain, LoopAction::AddFrameTime],
        ),
    ];
    for (suboptimal, answer, expected) in cases {
        let mut state = FrameLoop::new();
        state.step(&res, LoopEvent::RedrawEventsCleared);
        state.step(&res, LoopEvent::Acquired { image_index: 0, suboptimal });
        assert_eq!(state.recreate, suboptimal);
        assert_eq!(state.step(&res, answer), expected);
        assert!(!state.recreate);
        assert_eq!(state.index, 1);
    }
}

#[test]
fn a_window_without_area_is_not_drawn() {
    let res = resources();
    let mut state = FrameLoop::new();
    let idle = vec![LoopAction::SetWait, LoopAction::StartFrameTimer, LoopAction::AddFrameTime];
    assert_eq!(state.step(&res, LoopEvent::Resized { width: 0, height: 600 }), vec![LoopAction::SetWait]);
    assert!(state.min);
    assert_eq!(state.step(&res, LoopEvent::RedrawEventsCleared), idle);
    state.step(&res, LoopEvent::Resized { width: 800, height: 0 });
    assert_eq!(state.step(&res, LoopEvent::RedrawEventsCleared), idle);
    state.step(&res, LoopEvent::Resized { width: 800, height: 600 });
    assert!(!state.min);
    assert_eq!(state.step(&res, LoopEvent::RedrawEventsCleared).len(), 4);
}

#[test]
fn a_closed_window_is_not_drawn() {
    let res = resources();
    let mut state = FrameLoop::new();
    let expected = vec![
        LoopAction::SetWait,
        LoopAction::WaitIdle,
        LoopAction::Teardown,
        LoopAction::PrintAverage,
        LoopAction::SetExit,
    ];
    assert_eq!(state.step(&res, LoopEvent::CloseRequested), expected);
    assert!(state.exit);
    let idle = vec![LoopAction::SetWait, LoopAction::StartFrameTimer, LoopAction::AddFrameTime];
    assert_eq!(state.step(&res, LoopEvent::RedrawEventsCleared), idle);
    state.step(&res, LoopEvent::Resized { width: 800, height: 600 });
    assert!(state.exit);
    assert_eq!(state.step(&res, LoopEvent::RedrawEventsCleared), idle);
}

#[test]
fn the_camera_goes_to_the_next_frame() {
    let res = resources();
    let mut state = FrameLoop::new();
    assert_eq!(
        state.step(&res, LoopEvent::CursorMoved),
        vec![LoopAction::SetWait, LoopAction::WriteCamera { slot: 0 }]
    );
    draw(&mut state, &res, 0);
    assert_eq!(
        state.step(&res, LoopEvent::CursorMoved),
        vec![LoopAction::SetWait, LoopAction::WriteCamera { slot: 1 }]
    );
    let actions = draw(&mut state, &res, 1);
    assert!(matches!(actions[6], LoopAction::Record { descriptor_set: DescriptorSet { raw: 51 }, .. }));
}

#[test]
fn other_events_only_wait() {
    let res = resources();
    let mut state = FrameLoop::new();
    assert_eq!(state.step(&res, LoopEvent::Other), vec![LoopAction::SetWait]);
    assert_eq!(
        state.step(&res, LoopEvent::MainEventsCleared),
        vec![LoopAction::SetWait, LoopAction::RequestRedraw]
    );
    assert_eq!(state, FrameLoop::new());
}

#[test]
fn every_frame_needs_its_objects() {
    assert!(resources().check());
    let mut res = resources();
    res.draw_end_fences.pop();
    assert!(!res.check());
    let mut res = resources();
    res.descriptor_sets.push(DescriptorSet { raw: 52 });
    assert!(!res.check());
    let mut res = resources();
    res.graphic_pipelines.clear();
    assert!(!res.check());
}

/// A run with every kind of answer: a fence is only waited for when it is
/// signaled or handed in, and only reset when no work is pending with it.
#[test]
fn fences_are_never_stuck() {
    let res = resources();
    let mut state = FrameLoop::new();
    // 0: signaled, 1: unsignaled, 2: handed in.
    let mut fences = [0, 0];
    let answers = [
        (LoopEvent::Acquired { image_index: 0, suboptimal: false }, LoopEvent::Presented { suboptimal: false }),
        (LoopEvent::AcquireOutOfDate, LoopEvent::Other),
        (LoopEvent::Acquired { image_index: 1, suboptimal: true }, LoopEvent::PresentFailed),
        (LoopEvent::AcquireOutOfDate, LoopEvent::Other),
        (LoopEvent::Acquired { image_index: 2, suboptimal: false }, LoopEvent::PresentOutOfDate),
        (LoopEvent::Acquired { image_index: 0, suboptimal: false }, LoopEvent::Presented { suboptimal: true }),
    ];
    for (acquire, present) in answers {
        let mut actions = state.step(&res, LoopEvent::RedrawEventsCleared);
        actions.extend(state.step(&res, acquire));
        actions.extend(state.step(&res, present));
        for action in actions {
            match action {
                LoopAction::WaitFence { fence, .. } => {
                    let slot = fence.raw as usize - 10;
                    assert_ne!(fences[slot], 1);
                    fences[slot] = 0;
                }
                LoopAction::ResetFence { fence } => {
                    let slot = fence.raw as usize - 10;
                    assert_ne!(fences[slot], 2);
                    fences[slot] = 1;
                }
                LoopAction::Submit { fence, .. } => {
                    let slot = fence.raw as usize - 10;
                    assert_eq!(fences[slot], 1);
                    fences[slot] = 2;
                }
                _ => {}
            }
        }
        assert_ne!(fences[0], 1);
        assert_ne!(fences[1], 1);
    }
}

#[test]
fn answers_are_accepted_when_they_are_waited_for() {
    let res = resources();
    let mut state = FrameLoop::new();
    let acquired = LoopEvent::Acquired { image_index: 0, suboptimal: false };
    let presented = LoopEvent::Presented { suboptimal: false };
    assert!(state.accepts(LoopEvent::RedrawEventsCleared));
    assert!(!state.accepts(acquired) && !state.accepts(presented));
    state.step(&res, LoopEvent::RedrawEventsCleared);
    assert!(state.accepts(acquired) && state.accepts(LoopEvent::AcquireFailed));
    assert!(!state.accepts(LoopEvent::Other) && !state.accepts(presented));
    state.step(&res, acquired);
    assert!(state.accepts(presented) && state.accepts(LoopEvent::PresentOutOfDate));
    assert!(!state.accepts(acquired) && !state.accepts(LoopEvent::CloseRequested));
}

#[test]
fn what_cannot_be_counted_is_not_accepted() {
    let state = FrameLoop::new();
    assert!(state.accepts(LoopEvent::Resized { width: 65535, height: 65537 }));
    assert!(!state.accepts(LoopEvent::Resized { width: 65536, height: 65536 }));
    let last = FrameLoop { index: usize::MAX, phase: Phase::Presenting, ..state };
    assert!(!last.accepts(LoopEvent::PresentFailed));
}
