//! The XR session and frame state machine.
//!
//! The runtime is an outside service: every call into it (polling the
//! event queue, beginning or ending the session, waiting for and
//! beginning a frame, ending it with composition layers) is performed by
//! the surrounding loop. What stands here is the part that decides: a
//! [`FrameCoordinator`] consumes the polled events and hands back the
//! session call to make, gates each tick on whether the session runs,
//! tracks the begin/end pairing of compositor frames, and plans the
//! lazily created compositor swapchain and the per-eye composition
//! rectangles. The laws at the end state the begin/end pairing
//! guarantees of any run of the machine.

use vstd::prelude::*;

verus! {

/// A session state reported by the runtime's state-change events.
#[derive(Clone, Copy, PartialEq, Eq, Structural, Debug)]
pub enum SessionStateKind {
    Idle,
    Ready,
    Synchronized,
    Visible,
    Focused,
    Stopping,
    LossPending,
    Exiting,
    Unknown,
}

/// An event drained from the runtime's event queue on a frame tick.
#[derive(Clone, Copy, PartialEq, Eq, Structural, Debug)]
pub enum XrEvent {
    SessionStateChanged(SessionStateKind),
    InstanceLossPending,
    EventsLost(u64),
    Other,
}

/// What the loop must do in reaction to one event.
#[derive(Clone, Copy, PartialEq, Eq, Structural, Debug)]
pub enum SessionAction {
    /// Call session-begin with the stereo view configuration.
    BeginSession,
    /// Call session-end.
    EndSession,
    /// Stop draining events and report that no frame happens this tick;
    /// by convention the whole loop ends soon after.
    AbortLoop,
    /// Nothing to call.
    Nothing,
}

/// What a tick does while events are drained and the session may not run.
#[derive(Clone, Copy, PartialEq, Eq, Structural, Debug)]
pub enum TickGate {
    /// Block on the compositor's frame-wait, then begin the frame.
    WaitFrame,
    /// Sleep a few tens of milliseconds and report no frame, so an idle
    /// session does not busy-poll.
    SleepIdle,
}

/// The compositor swapchain the coordinator asks the loop to create:
/// one color image array per compositor image, sized per eye as the
/// runtime recommends. Its color format must match the offscreen
/// target's color format exactly, since the blit writes straight into
/// swapchain-backed textures.
#[derive(Clone, Copy, PartialEq, Eq, Structural, Debug)]
pub struct SwapchainSpec {
    /// Per-eye image width in pixels.
    pub width: u32,
    /// Per-eye image height in pixels.
    pub height: u32,
    /// Array layers per image: one per eye.
    pub array_size: u32,
    /// Single-sampled, as the render pipeline is.
    pub sample_count: u32,
}

/// What to do with the frame once the compositor has told whether it
/// wants it rendered.
#[derive(Clone, Copy, PartialEq, Eq, Structural, Debug)]
pub enum FramePlan {
    /// End the frame right away with an empty layer list; the begun
    /// frame still counts as completed.
    EndEmpty,
    /// Render: create the swapchain first if `create` asks for one,
    /// then acquire and wait for an image, record the blit into it.
    Render { create: Option<SwapchainSpec> },
}

/// One eye's entry of the end-frame composition: the swapchain array
/// layer it reads and the sub-image rectangle, anchored at the origin.
#[derive(Clone, Copy, PartialEq, Eq, Structural, Debug)]
pub struct CompositionView {
    /// Which array layer of the swapchain image this eye shows.
    pub array_index: u32,
    /// Sub-image width in pixels.
    pub width: u32,
    /// Sub-image height in pixels.
    pub height: u32,
}

/// The end-frame submission after a rendered frame: release the
/// acquired image, then end the frame with one projection layer whose
/// two views carry the per-eye poses captured for this frame.
#[derive(Clone, Copy, PartialEq, Eq, Structural, Debug)]
pub struct SubmitPlan {
    /// The left eye's view, on array layer 0.
    pub left: CompositionView,
    /// The right eye's view, on array layer 1.
    pub right: CompositionView,
}

/// One per-eye view configuration as the runtime recommends it.
#[derive(Clone, Copy, PartialEq, Eq, Structural, Debug)]
pub struct ViewConfig {
    pub recommended_width: u32,
    pub recommended_height: u32,
    pub recommended_sample_count: u32,
}

/// Stereo rendering assumes exactly two eyes with identical recommended
/// configurations; session setup refuses anything else.
pub fn view_config_valid(views: &Vec<ViewConfig>) -> (r: bool)
    ensures
        r == (views@.len() == 2 && views@[0] == views@[1]),
{
    views.len() == 2 && views[0] == views[1]
}

/// The decision core of the per-frame XR protocol. It never calls the
/// runtime itself: the loop feeds it events and compositor answers and
/// performs the calls its answers name.
#[derive(Clone, Copy, PartialEq, Eq, Structural, Debug)]
pub struct FrameCoordinator {
    /// Whether the session runs, as derived from state-change events.
    pub session_running: bool,
    /// Whether a compositor frame is begun and not yet ended.
    pub frame_open: bool,
    /// The compositor swapchain, created on the first rendered frame
    /// and kept for the life of the session; a window resize never
    /// recreates it, since its geometry is fixed by the device.
    pub swapchain: Option<SwapchainSpec>,
    /// Per-eye width the runtime recommends, fixed at session setup.
    pub view_width: u32,
    /// Per-eye height the runtime recommends, fixed at session setup.
    pub view_height: u32,
}

/// The successor state and the session call one event demands.
pub open spec fn spec_on_event(c: FrameCoordinator, e: XrEvent) -> (FrameCoordinator, SessionAction) {
    match e {
        XrEvent::SessionStateChanged(k) => match k {
            SessionStateKind::Ready => (
                FrameCoordinator { session_running: true, ..c },
                SessionAction::BeginSession,
            ),
            SessionStateKind::Stopping => (
                FrameCoordinator { session_running: false, ..c },
                SessionAction::EndSession,
            ),
            SessionStateKind::Exiting => (c, SessionAction::AbortLoop),
            SessionStateKind::LossPending => (c, SessionAction::AbortLoop),
            _ => (c, SessionAction::Nothing),
        },
        XrEvent::InstanceLossPending => (c, SessionAction::AbortLoop),
        XrEvent::EventsLost(_) => (c, SessionAction::Nothing),
        XrEvent::Other => (c, SessionAction::Nothing),
    }
}

/// Marking the frame begun only sets the pairing flag.
pub open spec fn spec_note_frame_begun(c: FrameCoordinator) -> FrameCoordinator {
    FrameCoordinator { frame_open: true, ..c }
}

/// The successor state and plan once the compositor has answered the
/// frame-wait: a frame the compositor refuses is ended empty at once;
/// a rendered frame keeps the swapchain it has or asks for one sized
/// as the runtime recommended, two layers, single-sampled.
pub open spec fn spec_plan_frame(c: FrameCoordinator, should_render: bool) -> (
    FrameCoordinator,
    FramePlan,
) {
    if !should_render {
        (FrameCoordinator { frame_open: false, ..c }, FramePlan::EndEmpty)
    } else {
        match c.swapchain {
            Option::Some(_) => (c, FramePlan::Render { create: Option::None }),
            Option::None => {
                let sc = SwapchainSpec {
                    width: c.view_width,
                    height: c.view_height,
                    array_size: 2,
                    sample_count: 1,
                };
                (
                    FrameCoordinator { swapchain: Some(sc), ..c },
                    FramePlan::Render { create: Some(sc) },
                )
            },
        }
    }
}

/// The successor state and submission after queue submit: with a
/// swapchain, release the image and end the frame with both eyes'
/// views; without one, no frame was ever rendered and nothing is done.
pub open spec fn spec_plan_submit(c: FrameCoordinator) -> (FrameCoordinator, Option<SubmitPlan>) {
    match c.swapchain {
        Option::Some(sc) => (
            FrameCoordinator { frame_open: false, ..c },
            Some(
                SubmitPlan {
                    left: CompositionView { array_index: 0, width: sc.width, height: sc.height },
                    right: CompositionView { array_index: 1, width: sc.width, height: sc.height },
                },
            ),
        ),
        Option::None => (c, Option::None),
    }
}

impl FrameCoordinator {
    /// A coordinator for a session that has not begun, with the
    /// runtime's recommended per-eye image size.
    pub fn new(view_width: u32, view_height: u32) -> (c: FrameCoordinator)
        ensures
            c == (FrameCoordinator {
                session_running: false,
                frame_open: false,
                swapchain: Option::None,
                view_width,
                view_height,
            }),
    {
        FrameCoordinator {
            session_running: false,
            frame_open: false,
            swapchain: Option::None,
            view_width,
            view_height,
        }
    }

    /// Decides one drained event: the state follows the reported
    /// session state, and the returned action names the session call
    /// the loop must make before draining further.
    pub fn on_event(&mut self, e: &XrEvent) -> (a: SessionAction)
        ensures
            *final(self) == spec_on_event(*old(self), *e).0,
            a == spec_on_event(*old(self), *e).1,
    {
        match e {
            XrEvent::SessionStateChanged(k) => match k {
                SessionStateKind::Ready => {
                    self.session_running = true;
                    SessionAction::BeginSession
                },
                SessionStateKind::Stopping => {
                    self.session_running = false;
                    SessionAction::EndSession
                },
                SessionStateKind::Exiting => SessionAction::AbortLoop,
                SessionStateKind::LossPending => SessionAction::AbortLoop,
                _ => SessionAction::Nothing,
            },
            XrEvent::InstanceLossPending => SessionAction::AbortLoop,
            XrEvent::EventsLost(_) => SessionAction::Nothing,
            XrEvent::Other => SessionAction::Nothing,
        }
    }

    /// Gates the tick once events are drained: only a running session
    /// may wait for and begin a frame; otherwise the loop sleeps.
    pub fn tick_gate(&self) -> (r: TickGate)
        ensures
            r is WaitFrame <==> self.session_running,
    {
        if self.session_running {
            TickGate::WaitFrame
        } else {
            TickGate::SleepIdle
        }
    }

    /// Records that the compositor frame was begun. The frame-wait and
    /// the begin call this pairs with happen only on a running session
    /// with no frame already open.
    pub fn note_frame_begun(&mut self)
        requires
            old(self).session_running,
            !old(self).frame_open,
        ensures
            *final(self) == spec_note_frame_begun(*old(self)),
    {
        self.frame_open = true;
    }

    /// Decides the begun frame from the compositor's should-render
    /// answer; see [`spec_plan_frame`].
    pub fn plan_frame(&mut self, should_render: bool) -> (p: FramePlan)
        requires
            old(self).frame_open,
        ensures
            *final(self) == spec_plan_frame(*old(self), should_render).0,
            p == spec_plan_frame(*old(self), should_render).1,
    {
        if !should_render {
            self.frame_open = false;
            FramePlan::EndEmpty
        } else {
            match self.swapchain {
                Option::Some(_) => FramePlan::Render { create: Option::None },
                Option::None => {
                    let sc = SwapchainSpec {
                        width: self.view_width,
                        height: self.view_height,
                        array_size: 2,
                        sample_count: 1,
                    };
                    self.swapchain = Some(sc);
                    FramePlan::Render { create: Some(sc) }
                },
            }
        }
    }

    /// Decides the end-frame submission after queue submit; see
    /// [`spec_plan_submit`]. A swapchain implies an open frame here:
    /// once a frame has been rendered, ending a frame twice or ending
    /// one that was never begun is outside the protocol.
    pub fn plan_submit(&mut self) -> (p: Option<SubmitPlan>)
        requires
            old(self).swapchain is Some ==> old(self).frame_open,
        ensures
            *final(self) == spec_plan_submit(*old(self)).0,
            p == spec_plan_submit(*old(self)).1,
    {
        match self.swapchain {
            Option::Some(sc) => {
                self.frame_open = false;
                Some(
                    SubmitPlan {
                        left: CompositionView {
                            array_index: 0,
                            width: sc.width,
                            height: sc.height,
                        },
                        right: CompositionView {
                            array_index: 1,
                            width: sc.width,
                            height: sc.height,
                        },
                    },
                )
            },
            Option::None => Option::None,
        }
    }
}

/// The session calls a drained event sequence produces, and the state
/// it leaves behind, oldest event first.
pub open spec fn spec_run_events(c: FrameCoordinator, es: Seq<XrEvent>) -> (
    FrameCoordinator,
    Seq<SessionAction>,
)
    decreases es.len(),
{
    if es.len() == 0 {
        (c, Seq::empty())
    } else {
        let first = spec_on_event(c, es[0]);
        let rest = spec_run_events(first.0, es.drop_first());
        (rest.0, seq![first.1] + rest.1)
    }
}

/// How often `a` occurs among `actions`.
pub open spec fn count_action(actions: Seq<SessionAction>, a: SessionAction) -> nat
    decreases actions.len(),
{
    if actions.len() == 0 {
        0
    } else {
        (if actions[0] == a {
            1nat
        } else {
            0nat
        }) + count_action(actions.drop_first(), a)
    }
}

/// How often a state-change event to `k` occurs among `es`.
pub open spec fn count_state_event(es: Seq<XrEvent>, k: SessionStateKind) -> nat
    decreases es.len(),
{
    if es.len() == 0 {
        0
    } else {
        (if es[0] == XrEvent::SessionStateChanged(k) {
            1nat
        } else {
            0nat
        }) + count_state_event(es.drop_first(), k)
    }
}

/// Law: over any drained event sequence, session-begin is called
/// exactly once per state change to Ready and session-end exactly once
/// per state change to Stopping, whatever else the sequence holds and
/// however many frames run between the events.
pub proof fn lemma_session_calls_counted(c: FrameCoordinator, es: Seq<XrEvent>)
    ensures
        count_action(spec_run_events(c, es).1, SessionAction::BeginSession) == count_state_event(
            es,
            SessionStateKind::Ready,
        ),
        count_action(spec_run_events(c, es).1, SessionAction::EndSession) == count_state_event(
            es,
            SessionStateKind::Stopping,
        ),
    decreases es.len(),
{
    if es.len() == 0 {
    } else {
        let first = spec_on_event(c, es[0]);
        let rest = spec_run_events(first.0, es.drop_first());
        lemma_session_calls_counted(first.0, es.drop_first());
        assert((seq![first.1] + rest.1)[0] == first.1);
        assert((seq![first.1] + rest.1).drop_first() =~= rest.1);
    }
}

/// One call on the frame path of a tick: marking the frame begun,
/// deciding it from the should-render answer, or submitting after
/// queue submit.
#[derive(Clone, Copy, PartialEq, Eq, Structural, Debug)]
pub enum FrameStep {
    BeginFrame,
    PlanFrame(bool),
    Submit,
}

/// Whether the step's requirements hold in state `c`.
pub open spec fn step_ok(c: FrameCoordinator, s: FrameStep) -> bool {
    match s {
        FrameStep::BeginFrame => c.session_running && !c.frame_open,
        FrameStep::PlanFrame(_) => c.frame_open,
        FrameStep::Submit => c.swapchain is Some ==> c.frame_open,
    }
}

/// The state after the step.
pub open spec fn step_next(c: FrameCoordinator, s: FrameStep) -> FrameCoordinator {
    match s {
        FrameStep::BeginFrame => spec_note_frame_begun(c),
        FrameStep::PlanFrame(b) => spec_plan_frame(c, b).0,
        FrameStep::Submit => spec_plan_submit(c).0,
    }
}

/// How many end-frame calls the step makes: a refused frame is ended
/// empty at once; a submission ends the frame when a swapchain exists.
pub open spec fn step_ends(c: FrameCoordinator, s: FrameStep) -> nat {
    match s {
        FrameStep::BeginFrame => 0,
        FrameStep::PlanFrame(b) => if b {
            0
        } else {
            1
        },
        FrameStep::Submit => if c.swapchain is Some {
            1
        } else {
            0
        },
    }
}

/// How many begin-frame calls the step makes.
pub open spec fn step_begins(s: FrameStep) -> nat {
    if s is BeginFrame {
        1
    } else {
        0
    }
}

/// Whether every step of the run meets its requirements in turn.
pub open spec fn trace_ok(c: FrameCoordinator, tr: Seq<FrameStep>) -> bool
    decreases tr.len(),
{
    tr.len() == 0 || (step_ok(c, tr[0]) && trace_ok(step_next(c, tr[0]), tr.drop_first()))
}

/// The state after the whole run.
pub open spec fn trace_final(c: FrameCoordinator, tr: Seq<FrameStep>) -> FrameCoordinator
    decreases tr.len(),
{
    if tr.len() == 0 {
        c
    } else {
        trace_final(step_next(c, tr[0]), tr.drop_first())
    }
}

/// Begin-frame calls over the whole run.
pub open spec fn trace_begins(tr: Seq<FrameStep>) -> nat
    decreases tr.len(),
{
    if tr.len() == 0 {
        0
    } else {
        step_begins(tr[0]) + trace_begins(tr.drop_first())
    }
}

/// End-frame calls over the whole run.
pub open spec fn trace_ends(c: FrameCoordinator, tr: Seq<FrameStep>) -> nat
    decreases tr.len(),
{
    if tr.len() == 0 {
        0
    } else {
        step_ends(c, tr[0]) + trace_ends(step_next(c, tr[0]), tr.drop_first())
    }
}

/// Law: along any legal run, begin-frame and end-frame calls balance
/// step by step: the begins so far, plus a frame already open at the
/// start, equal the ends so far plus a frame still open at the end.
pub proof fn lemma_frame_pairing_invariant(c: FrameCoordinator, tr: Seq<FrameStep>)
    requires
        trace_ok(c, tr),
    ensures
        trace_begins(tr) + (if c.frame_open {
            1nat
        } else {
            0nat
        }) == trace_ends(c, tr) + (if trace_final(c, tr).frame_open {
            1nat
        } else {
            0nat
        }),
    decreases tr.len(),
{
    if tr.len() == 0 {
    } else {
        lemma_frame_pairing_invariant(step_next(c, tr[0]), tr.drop_first());
    }
}

/// Law: a legal run that starts with no frame open ends every frame it
/// begins exactly once — by the empty end when the compositor refuses
/// it, by the submission when it renders — except the one frame still
/// open when the run stops.
pub proof fn lemma_frame_begin_end_paired(c: FrameCoordinator, tr: Seq<FrameStep>)
    requires
        !c.frame_open,
        trace_ok(c, tr),
    ensures
        trace_begins(tr) == trace_ends(c, tr) + (if trace_final(c, tr).frame_open {
            1nat
        } else {
            0nat
        }),
{
    lemma_frame_pairing_invariant(c, tr);
}

/// Legality of a run carries over to each of its prefixes.
pub proof fn lemma_trace_ok_prefix(c: FrameCoordinator, tr: Seq<FrameStep>, k: int)
    requires
        trace_ok(c, tr),
        0 <= k <= tr.len(),
    ensures
        trace_ok(c, tr.take(k)),
    decreases tr.len(),
{
    if k > 0 {
        assert(tr.take(k)[0] == tr[0]);
        lemma_trace_ok_prefix(step_next(c, tr[0]), tr.drop_first(), k - 1);
        assert(tr.take(k).drop_first() =~= tr.drop_first().take(k - 1));
    }
}

/// Law: at every point of a legal run that started with no frame open,
/// the end-frame calls made so far match the begin-frame calls, short
/// of the one frame open at that point: the pairing never drifts.
pub proof fn lemma_frame_pairing_every_prefix(c: FrameCoordinator, tr: Seq<FrameStep>, k: int)
    requires
        !c.frame_open,
        trace_ok(c, tr),
        0 <= k <= tr.len(),
    ensures
        trace_begins(tr.take(k)) == trace_ends(c, tr.take(k)) + (if trace_final(
            c,
            tr.take(k),
        ).frame_open {
            1nat
        } else {
            0nat
        }),
{
    lemma_trace_ok_prefix(c, tr, k);
    lemma_frame_pairing_invariant(c, tr.take(k));
}

/// Law: a legal run never drops, resizes or replaces a swapchain once
/// one was created; in particular no resize of the window recreates it.
pub proof fn lemma_swapchain_persists(c: FrameCoordinator, tr: Seq<FrameStep>, sc: SwapchainSpec)
    requires
        trace_ok(c, tr),
        c.swapchain == Some(sc),
    ensures
        trace_final(c, tr).swapchain == Some(sc),
    decreases tr.len(),
{
    if tr.len() == 0 {
    } else {
        lemma_swapchain_persists(step_next(c, tr[0]), tr.drop_first(), sc);
    }
}

} // verus!
