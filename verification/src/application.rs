//! The frame orchestrator: the event-driven state machine that owns the store,
//! the schedule and the per-run session state, and drives the per-frame
//! sequence.
//!
//! The platform shell forwards every raw event to its UI bridge, classifies it
//! into an [`Event`], calls [`Application::handle_event`], and acts on the
//! returned [`EventOutcome`]: requesting a redraw, running the render phases
//! of the frame, and answering the event loop with the requested action.

use vstd::prelude::*;

use crate::clock::clock_now;
use crate::clock::duration_nanos;
use crate::clock::elapsed_between;
use crate::clock::nanos_clamped;
use crate::schedule::Schedule;
use crate::schedule::apply_all;
use crate::store::World;

verus! {

/// The orchestrator's lifecycle. Setup moves it from `Uninitialized` to
/// `Ready` exactly once; a close request moves it to `Terminated`, which is
/// terminal: no event has any further effect there.
#[derive(Clone, Copy, PartialEq, Eq, Structural, Debug)]
pub enum Phase {
    Uninitialized,
    Ready,
    Terminated,
}

/// The platform event kinds the orchestrator distinguishes. Everything else
/// the platform delivers is `Other`: forwarded to the UI bridge by the shell,
/// nothing more.
#[derive(Clone, Copy, PartialEq, Eq, Structural, Debug)]
pub enum Event {
    /// The window's close button or equivalent.
    CloseRequested,
    /// Fired once per iteration of the platform's idle loop; the only place
    /// wall-clock time advances.
    FramePacingTick,
    /// The platform asks for a frame: the simulation update runs here.
    RedrawRequested,
    /// Any event the orchestrator takes no action on.
    Other,
}

/// What the orchestrator asks of the platform event loop after an event.
#[derive(Clone, Copy, PartialEq, Eq, Structural, Debug)]
pub enum LoopAction {
    /// Keep polling at full rate rather than waiting for OS events.
    ContinuePoll,
    /// Wait for the next OS-delivered event.
    ContinueWait,
    /// Leave the event loop.
    Exit,
}

/// What the shell must do after handing one event to the orchestrator.
/// `None` as the loop action leaves the loop's current mode in place.
#[derive(Clone, Copy, Debug)]
pub struct EventOutcome {
    /// The event-loop action to request, if any.
    pub loop_action: Option<LoopAction>,
    /// Ask the platform to schedule a redraw.
    pub request_redraw: bool,
    /// The simulation update has run; build the UI frame and the render graph
    /// and submit them.
    pub run_render: bool,
    /// Feed this frame delta, in nanoseconds, to the UI context's clock.
    pub ui_delta_nanos: Option<u64>,
}

/// Per-run session state of the verified core: the frame-timing clock. The UI
/// context, the platform-UI bridge and the overlay render routine that live
/// beside it are the shell's outside resources, created at the same moment.
#[derive(Clone, Copy)]
pub struct ApplicationData {
    /// The clock point recorded at setup; tick counts are measured from here.
    pub clock_origin: instant::Instant,
    /// Nanoseconds from `clock_origin` to the last pacing tick (zero at
    /// setup): the frame-timing reference.
    pub frame_start_nanos: u64,
}

/// The delta a pacing tick reports: never negative, and exactly `now - prev`
/// whenever the monotonic clock did not step backwards.
pub open spec fn tick_delta(prev: u64, now: u64) -> u64 {
    if now >= prev {
        (now - prev) as u64
    } else {
        0u64
    }
}

impl ApplicationData {
    /// Advances the frame-timing reference to `now_nanos`, exactly once, and
    /// returns the elapsed delta since the previous reference.
    pub fn record_tick(&mut self, now_nanos: u64) -> (delta: u64)
        ensures
            final(self).frame_start_nanos == now_nanos,
            final(self).clock_origin == old(self).clock_origin,
            delta == tick_delta(old(self).frame_start_nanos, now_nanos),
    {
        let delta = if now_nanos >= self.frame_start_nanos {
            now_nanos - self.frame_start_nanos
        } else {
            0
        };
        self.frame_start_nanos = now_nanos;
        delta
    }
}

/// How the lifecycle moves on one event: a close request while ready
/// terminates; nothing else moves it, and `Terminated` is terminal.
pub open spec fn step_phase(phase: Phase, event: Event) -> Phase {
    if phase == Phase::Ready && event == Event::CloseRequested {
        Phase::Terminated
    } else {
        phase
    }
}

/// The lifecycle after a whole queue of events, delivered in order.
pub open spec fn phase_after(phase: Phase, events: Seq<Event>) -> Phase
    decreases events.len(),
{
    if events.len() == 0 {
        phase
    } else {
        phase_after(step_phase(phase, events[0]), events.drop_first())
    }
}

/// Law: termination is absorbing. Once the orchestrator is `Terminated`, no
/// queue of further events — redraw requests included — ever moves it again;
/// with `handle_event`'s contract, none of them has any effect at all.
pub proof fn lemma_terminated_is_terminal(events: Seq<Event>)
    ensures
        phase_after(Phase::Terminated, events) == Phase::Terminated,
    decreases events.len(),
{
    if events.len() > 0 {
        lemma_terminated_is_terminal(events.drop_first());
    }
}

/// The outcome of an event the orchestrator takes no action on.
pub open spec fn noop_outcome() -> EventOutcome {
    EventOutcome { loop_action: None, request_redraw: false, run_render: false, ui_delta_nanos: None }
}

/// The outcome of a close request: leave the event loop.
pub open spec fn exit_outcome() -> EventOutcome {
    EventOutcome {
        loop_action: Some(LoopAction::Exit),
        request_redraw: false,
        run_render: false,
        ui_delta_nanos: None,
    }
}

/// The outcome of a frame: render, then keep polling at full rate.
pub open spec fn render_outcome() -> EventOutcome {
    EventOutcome {
        loop_action: Some(LoopAction::ContinuePoll),
        request_redraw: false,
        run_render: true,
        ui_delta_nanos: None,
    }
}

/// The shared-resource set the orchestrator owns beside the store. This
/// design keeps it empty: systems read and write components only, and the
/// frame delta lives in the session state.
#[derive(Clone, Copy, PartialEq, Eq, Structural, Debug)]
pub struct Resources {}

/// The frame orchestrator. Owns the simulation store, the shared-resource
/// set, the compiled schedule, and — once setup has run — the session's frame
/// clock.
pub struct Application {
    pub world: World,
    pub resources: Resources,
    pub schedule: Schedule,
    pub phase: Phase,
    pub data: Option<ApplicationData>,
}

impl Application {
    /// Session state exists exactly when setup has completed, and the store
    /// is well formed.
    pub open spec fn wf(&self) -> bool {
        &&& self.world.wf()
        &&& self.data is Some <==> self.phase != Phase::Uninitialized
    }

    /// The frame-timing reference, once the session exists.
    pub open spec fn frame_start(&self) -> u64 {
        self.data->Some_0.frame_start_nanos
    }

    /// The one-time transition from `Uninitialized` to `Ready`, driven by the
    /// platform's initialization callback; it must not be retried. Records
    /// the current clock point as the session's origin and zeroes the
    /// frame-timing reference. The shell constructs the UI context, the
    /// platform-UI bridge and the overlay render routine around this call.
    pub fn setup(&mut self)
        requires
            old(self).phase == Phase::Uninitialized,
            old(self).wf(),
        ensures
            final(self).phase == Phase::Ready,
            final(self).world == old(self).world,
            final(self).schedule == old(self).schedule,
            final(self).data is Some,
            final(self).frame_start() == 0,
            final(self).wf(),
    {
        let origin = clock_now();
        self.data = Some(ApplicationData { clock_origin: origin, frame_start_nanos: 0 });
        self.phase = Phase::Ready;
    }

    /// The orchestrator's event dispatch, one platform event at a time.
    ///
    /// Outside `Ready` nothing happens: the per-frame sequence is never
    /// entered before setup, and no event has an effect after termination.
    /// In `Ready`: a close request terminates; a pacing tick advances the
    /// frame clock exactly once and asks for a redraw; a redraw request runs
    /// the simulation update (the whole schedule, exactly once, as one atomic
    /// sweep) and hands the render phases to the shell with a request to keep
    /// polling; any other event does nothing beyond the shell's unconditional
    /// UI-bridge forwarding.
    pub fn handle_event(&mut self, event: Event) -> (outcome: EventOutcome)
        requires
            old(self).wf(),
        ensures
            final(self).wf(),
            final(self).schedule == old(self).schedule,
            final(self).phase == step_phase(old(self).phase, event),
            old(self).phase != Phase::Ready ==> *final(self) == *old(self) && outcome
                == noop_outcome(),
            old(self).phase == Phase::Ready ==> match event {
                Event::CloseRequested => {
                    &&& final(self).phase == Phase::Terminated
                    &&& final(self).world == old(self).world
                    &&& final(self).data == old(self).data
                    &&& outcome == exit_outcome()
                },
                Event::FramePacingTick => {
                    &&& final(self).phase == Phase::Ready
                    &&& final(self).world == old(self).world
                    &&& final(self).data is Some
                    &&& final(self).data->Some_0.clock_origin == old(
                        self,
                    ).data->Some_0.clock_origin
                    &&& outcome.loop_action is None
                    &&& outcome.request_redraw
                    &&& !outcome.run_render
                    &&& outcome.ui_delta_nanos == Some(
                        tick_delta(old(self).frame_start(), final(self).frame_start()),
                    )
                },
                Event::RedrawRequested => {
                    &&& final(self).phase == Phase::Ready
                    &&& final(self).data == old(self).data
                    &&& final(self).world@ == apply_all(old(self).schedule@, old(self).world@)
                    &&& final(self).world.next_id == old(self).world.next_id
                    &&& outcome == render_outcome()
                },
                Event::Other => *final(self) == *old(self) && outcome == noop_outcome(),
            },
    {
        if !matches!(self.phase, Phase::Ready) {
            return EventOutcome {
                loop_action: None,
                request_redraw: false,
                run_render: false,
                ui_delta_nanos: None,
            };
        }
        match event {
            Event::CloseRequested => {
                self.phase = Phase::Terminated;
                EventOutcome {
                    loop_action: Some(LoopAction::Exit),
                    request_redraw: false,
                    run_render: false,
                    ui_delta_nanos: None,
                }
            },
            Event::FramePacingTick => {
                let mut d = self.data.unwrap();
                let now_point = clock_now();
                let since_origin = elapsed_between(&now_point, &d.clock_origin);
                let now_nanos = nanos_clamped(duration_nanos(&since_origin));
                let delta = d.record_tick(now_nanos);
                self.data = Some(d);
                EventOutcome {
                    loop_action: None,
                    request_redraw: true,
                    run_render: false,
                    ui_delta_nanos: Some(delta),
                }
            },
            Event::RedrawRequested => {
                self.schedule.execute(&mut self.world);
                EventOutcome {
                    loop_action: Some(LoopAction::ContinuePoll),
                    request_redraw: false,
                    run_render: true,
                    ui_delta_nanos: None,
                }
            },
            Event::Other => {
                EventOutcome {
                    loop_action: None,
                    request_redraw: false,
                    run_render: false,
                    ui_delta_nanos: None,
                }
            },
        }
    }
}

} // verus!
