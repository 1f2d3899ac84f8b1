use wgpu_openxr_example::xr::{
    view_config_valid, CompositionView, FrameCoordinator, FramePlan, SessionAction,
    SessionStateKind, SubmitPlan, SwapchainSpec, TickGate, ViewConfig, XrEvent,
};

fn count(actions: &[SessionAction], a: SessionAction) -> usize {
    actions.iter().filter(|x| **x == a).count()
}

#[test]
fn ready_frames_stopping_begins_and_ends_once() {
    // The scenario: Ready, two rendered frames, Stopping. Session-begin
    // and session-end must each be invoked exactly once.
    let mut c = FrameCoordinator::new(1024, 1024);
    let mut actions = Vec::new();

    actions.push(c.on_event(&XrEvent::SessionStateChanged(SessionStateKind::Ready)));
    for _ in 0..2 {
        assert_eq!(c.tick_gate(), TickGate::WaitFrame);
        c.note_frame_begun();
        match c.plan_frame(true) {
            FramePlan::Render { .. } => {}
            FramePlan::EndEmpty => panic!("compositor wanted this frame rendered"),
        }
        assert!(c.plan_submit().is_some());
    }
    actions.push(c.on_event(&XrEvent::SessionStateChanged(SessionStateKind::Stopping)));

    assert_eq!(count(&actions, SessionAction::BeginSession), 1);
    assert_eq!(count(&actions, SessionAction::EndSession), 1);
}

#[test]
fn refused_frame_is_ended_empty_before_the_next() {
    // A frame the compositor refuses is still begun and must be ended
    // exactly once, with an empty layer list, before the next frame.
    let mut c = FrameCoordinator::new(640, 480);
    c.on_event(&XrEvent::SessionStateChanged(SessionStateKind::Ready));

    c.note_frame_begun();
    assert_eq!(c.plan_frame(false), FramePlan::EndEmpty);
    // The pairing flag is closed again, so the next frame may begin.
    c.note_frame_begun();
    assert_eq!(c.plan_frame(false), FramePlan::EndEmpty);
}

#[test]
fn swapchain_is_created_once_with_recommended_size() {
    let mut c = FrameCoordinator::new(800, 600);
    c.on_event(&XrEvent::SessionStateChanged(SessionStateKind::Ready));

    c.note_frame_begun();
    let expected = SwapchainSpec { width: 800, height: 600, array_size: 2, sample_count: 1 };
    assert_eq!(c.plan_frame(true), FramePlan::Render { create: Some(expected) });
    assert_eq!(
        c.plan_submit(),
        Some(SubmitPlan {
            left: CompositionView { array_index: 0, width: 800, height: 600 },
            right: CompositionView { array_index: 1, width: 800, height: 600 },
        })
    );

    // The second rendered frame reuses the swapchain.
    c.note_frame_begun();
    assert_eq!(c.plan_frame(true), FramePlan::Render { create: None });
    assert!(c.plan_submit().is_some());

    // A refused frame in between does not disturb it either.
    c.note_frame_begun();
    assert_eq!(c.plan_frame(false), FramePlan::EndEmpty);
    assert_eq!(c.swapchain, Some(expected));
}

#[test]
fn submit_without_swapchain_does_nothing() {
    let mut c = FrameCoordinator::new(320, 240);
    assert_eq!(c.plan_submit(), None);
}

#[test]
fn idle_session_sleeps_instead_of_waiting() {
    let mut c = FrameCoordinator::new(100, 100);
    assert_eq!(c.tick_gate(), TickGate::SleepIdle);
    c.on_event(&XrEvent::SessionStateChanged(SessionStateKind::Ready));
    assert_eq!(c.tick_gate(), TickGate::WaitFrame);
    c.on_event(&XrEvent::SessionStateChanged(SessionStateKind::Stopping));
    assert_eq!(c.tick_gate(), TickGate::SleepIdle);
}

#[test]
fn terminal_states_abort_the_loop() {
    let mut c = FrameCoordinator::new(100, 100);
    assert_eq!(
        c.on_event(&XrEvent::SessionStateChanged(SessionStateKind::Exiting)),
        SessionAction::AbortLoop
    );
    assert_eq!(
        c.on_event(&XrEvent::SessionStateChanged(SessionStateKind::LossPending)),
        SessionAction::AbortLoop
    );
    assert_eq!(c.on_event(&XrEvent::InstanceLossPending), SessionAction::AbortLoop);
}

#[test]
fn neutral_events_do_nothing() {
    let mut c = FrameCoordinator::new(100, 100);
    assert_eq!(c.on_event(&XrEvent::EventsLost(3)), SessionAction::Nothing);
    assert_eq!(
        c.on_event(&XrEvent::SessionStateChanged(SessionStateKind::Focused)),
        SessionAction::Nothing
    );
    assert_eq!(c.on_event(&XrEvent::Other), SessionAction::Nothing);
    assert!(!c.session_running);
}

#[test]
fn view_config_must_be_two_identical_eyes() {
    let v = ViewConfig {
        recommended_width: 1440,
        recommended_height: 1600,
        recommended_sample_count: 1,
    };
    assert!(view_config_valid(&vec![v, v]));
    assert!(!view_config_valid(&vec![v]));
    let other = ViewConfig { recommended_width: 1, ..v };
    assert!(!view_config_valid(&vec![v, other]));
    assert!(!view_config_valid(&vec![v, v, v]));
}

#[test]
fn every_begun_frame_is_ended_exactly_once() {
    // A mixed run: rendered, refused, rendered. Each begun frame is
    // ended exactly once, by the empty end or by the submission.
    let mut c = FrameCoordinator::new(256, 256);
    c.on_event(&XrEvent::SessionStateChanged(SessionStateKind::Ready));

    let mut begins: usize = 0;
    let mut ends: usize = 0;
    for should_render in [true, false, true] {
        c.note_frame_begun();
        begins += 1;
        match c.plan_frame(should_render) {
            FramePlan::EndEmpty => ends += 1,
            FramePlan::Render { .. } => {
                if c.plan_submit().is_some() {
                    ends += 1;
                }
            }
        }
    }
    assert_eq!(begins, ends);
    assert!(!c.frame_open);
}
