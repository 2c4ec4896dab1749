//! The host's lifecycle: which state follows which event, and what the host
//! has to do on the way.

use vstd::prelude::*;

verus! {

/// Where a host stands between construction and its end.
#[derive(Clone, Copy, Debug, PartialEq, Eq, Structural)]
pub enum HostState {
    /// Built, not yet started.
    Constructed,
    /// Serving: listeners and workers run.
    Started,
    /// Cancellation has gone out; tasks are winding down.
    Draining,
    /// Every task has ended.
    Stopped,
}

/// What may ask a running host to shut down.
#[derive(Clone, Copy, Debug, PartialEq, Eq, Structural)]
pub enum ShutdownSource {
    /// The terminate signal.
    Terminate,
    /// The quit signal.
    Quit,
    /// The hangup signal.
    Hangup,
    /// The interrupt signal.
    Interrupt,
    /// The administrative kill route.
    AdminKill,
    /// A call of `stop` from the embedding program.
    Stop,
}

/// What can happen to a host.
#[derive(Clone, Copy, Debug, PartialEq, Eq, Structural)]
pub enum HostEvent {
    /// `start` was called.
    Start,
    /// A shutdown request arrived from the given source.
    Shutdown(ShutdownSource),
    /// Every join handle has completed.
    Joined,
}

/// What the host has to do in answer to an event.
#[derive(Clone, Copy, Debug, PartialEq, Eq, Structural)]
pub enum HostAction {
    /// Bring up runtime, plugins and listeners.
    Launch,
    /// Deliver cancellation to every task, once.
    FanOut(ShutdownSource),
    /// Return from `start`.
    Finish,
    /// Nothing.
    Ignore,
    /// Refuse: the host has been started before.
    RefuseAlreadyRunning,
}

/// The state that follows `state` on `event`.
pub open spec fn next_state(state: HostState, event: HostEvent) -> HostState {
    match (state, event) {
        (HostState::Constructed, HostEvent::Start) => HostState::Started,
        (HostState::Started, HostEvent::Shutdown(_)) => HostState::Draining,
        (HostState::Draining, HostEvent::Joined) => HostState::Stopped,
        _ => state,
    }
}

/// What the host does when `event` meets it in `state`.
pub open spec fn action_for(state: HostState, event: HostEvent) -> HostAction {
    match (state, event) {
        (HostState::Constructed, HostEvent::Start) => HostAction::Launch,
        (_, HostEvent::Start) => HostAction::RefuseAlreadyRunning,
        (HostState::Started, HostEvent::Shutdown(source)) => HostAction::FanOut(source),
        (HostState::Draining, HostEvent::Joined) => HostAction::Finish,
        _ => HostAction::Ignore,
    }
}

/// The state after a run of events, taken from left to right.
pub open spec fn state_after(state: HostState, events: Seq<HostEvent>) -> HostState
    decreases events.len(),
{
    if events.len() == 0 {
        state
    } else {
        next_state(state_after(state, events.drop_last()), events.last())
    }
}

/// How many events of a run made the host fan cancellation out.
pub open spec fn fan_outs(state: HostState, events: Seq<HostEvent>) -> nat
    decreases events.len(),
{
    if events.len() == 0 {
        0
    } else {
        let before = state_after(state, events.drop_last());
        let earlier = fan_outs(state, events.drop_last());
        if action_for(before, events.last()) is FanOut {
            earlier + 1
        } else {
            earlier
        }
    }
}

/// The place of a state on the way from construction to the end.
pub open spec fn rank(state: HostState) -> nat {
    match state {
        HostState::Constructed => 0,
        HostState::Started => 1,
        HostState::Draining => 2,
        HostState::Stopped => 3,
    }
}

/// One step of the lifecycle: the next state and the action to take.
pub fn transition(state: HostState, event: HostEvent) -> (step: (HostState, HostAction))
    ensures
        step.0 == next_state(state, event),
        step.1 == action_for(state, event),
{
    match state {
        HostState::Constructed => match event {
            HostEvent::Start => (HostState::Started, HostAction::Launch),
            _ => (state, HostAction::Ignore),
        },
        HostState::Started => match event {
            HostEvent::Start => (state, HostAction::RefuseAlreadyRunning),
            HostEvent::Shutdown(source) => (HostState::Draining, HostAction::FanOut(source)),
            HostEvent::Joined => (state, HostAction::Ignore),
        },
        HostState::Draining => match event {
            HostEvent::Start => (state, HostAction::RefuseAlreadyRunning),
            HostEvent::Shutdown(_) => (state, HostAction::Ignore),
            HostEvent::Joined => (HostState::Stopped, HostAction::Finish),
        },
        HostState::Stopped => match event {
            HostEvent::Start => (state, HostAction::RefuseAlreadyRunning),
            _ => (state, HostAction::Ignore),
        },
    }
}

/// A host only ever moves forward, one state at a time, and only an event
/// that calls for work moves it.
pub proof fn lemma_steps_forward(state: HostState, event: HostEvent)
    ensures
        rank(state) <= rank(next_state(state, event)) <= rank(state) + 1,
        next_state(state, event) != state <==> (action_for(state, event) is Launch || action_for(
            state,
            event,
        ) is FanOut || action_for(state, event) is Finish),
{
}

/// A shutdown request that finds the host draining, stopped or not yet
/// started changes nothing and asks for nothing.
pub proof fn lemma_shutdown_outside_run_is_noop(state: HostState, source: ShutdownSource)
    requires
        state != HostState::Started,
    ensures
        next_state(state, HostEvent::Shutdown(source)) == state,
        action_for(state, HostEvent::Shutdown(source)) == HostAction::Ignore,
{
}

/// Two shutdown requests in a row fan cancellation out at most once: whatever
/// the first one met, the second is ignored.
pub proof fn lemma_second_shutdown_is_ignored(
    state: HostState,
    first: ShutdownSource,
    second: ShutdownSource,
)
    ensures
        action_for(next_state(state, HostEvent::Shutdown(first)), HostEvent::Shutdown(second))
            == HostAction::Ignore,
        next_state(next_state(state, HostEvent::Shutdown(first)), HostEvent::Shutdown(second))
            == next_state(state, HostEvent::Shutdown(first)),
{
}

/// Over any run of events a host fans cancellation out at most once, and it
/// has done so exactly when the run took it to draining or beyond.
pub proof fn lemma_one_fan_out(state: HostState, events: Seq<HostEvent>)
    ensures
        rank(state) <= rank(state_after(state, events)),
        rank(state) <= 1 ==> fan_outs(state, events) == if rank(state_after(state, events)) >= 2 {
            1nat
        } else {
            0nat
        },
        rank(state) >= 2 ==> fan_outs(state, events) == 0,
    decreases events.len(),
{
    if events.len() > 0 {
        lemma_one_fan_out(state, events.drop_last());
        lemma_steps_forward(state_after(state, events.drop_last()), events.last());
    }
}

} // verus!
