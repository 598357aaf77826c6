//! The decisions of one worker thread, as a state machine: the thread
//! performs each action and hands back what happened as the next event.
use vstd::prelude::*;

verus! {

/// Where a worker is in its life.
#[derive(Debug, Clone, Copy, PartialEq, Eq, Structural)]
pub enum WorkerState {
    /// Creating its engine.
    Initializing,
    /// Its engine could not be created; it still passes the startup barrier.
    InitFailed,
    /// Holds its engine and waits at the startup barrier.
    Ready,
    /// Holds its engine and waits for a message.
    Idle,
    /// Runs recognition on a task.
    Running,
    /// Has dropped its engine and is leaving.
    Terminating,
    /// Done; holds nothing.
    Terminated,
}

/// What happened since the last action.
#[derive(Debug, Clone, Copy, PartialEq, Eq, Structural)]
pub enum Event {
    EngineCreated,
    EngineFailed,
    BarrierPassed,
    TaskReceived,
    /// A task ended, with a text or with a failure.
    TaskFinished { failed: bool },
    ShutdownReceived,
    /// The task channel broke: the dispatching side is gone.
    ChannelClosed,
    EngineReleased,
}

/// What the worker thread does next.
#[derive(Debug, Clone, Copy, PartialEq, Eq, Structural)]
pub enum Action {
    /// Wait at the startup barrier.
    WaitAtBarrier,
    /// Wait for the next message on the task channel.
    Receive,
    /// Run recognition on the received task.
    Recognize,
    /// Send the task's result, then wait for the next message.
    SendResult,
    /// Drop the engine, on this thread.
    ReleaseEngine,
    /// Leave the thread.
    Exit,
    /// The event does not apply in this state: do nothing.
    Ignore,
}

/// The transition function.
pub open spec fn step_spec(s: WorkerState, e: Event) -> (WorkerState, Action) {
    match (s, e) {
        (WorkerState::Initializing, Event::EngineCreated) => (WorkerState::Ready, Action::WaitAtBarrier),
        (WorkerState::Initializing, Event::EngineFailed) => (
            WorkerState::InitFailed,
            Action::WaitAtBarrier,
        ),
        (WorkerState::InitFailed, Event::BarrierPassed) => (WorkerState::Terminated, Action::Exit),
        (WorkerState::Ready, Event::BarrierPassed) => (WorkerState::Idle, Action::Receive),
        (WorkerState::Idle, Event::TaskReceived) => (WorkerState::Running, Action::Recognize),
        (WorkerState::Running, Event::TaskFinished { .. }) => (WorkerState::Idle, Action::SendResult),
        (WorkerState::Idle, Event::ShutdownReceived) => (
            WorkerState::Terminating,
            Action::ReleaseEngine,
        ),
        (WorkerState::Idle, Event::ChannelClosed) => (
            WorkerState::Terminating,
            Action::ReleaseEngine,
        ),
        (WorkerState::Terminating, Event::EngineReleased) => (WorkerState::Terminated, Action::Exit),
        _ => (s, Action::Ignore),
    }
}

/// Takes one transition.
pub fn step(s: WorkerState, e: Event) -> (r: (WorkerState, Action))
    ensures
        r == step_spec(s, e),
{
    match (s, e) {
        (WorkerState::Initializing, Event::EngineCreated) => (WorkerState::Ready, Action::WaitAtBarrier),
        (WorkerState::Initializing, Event::EngineFailed) => (
            WorkerState::InitFailed,
            Action::WaitAtBarrier,
        ),
        (WorkerState::InitFailed, Event::BarrierPassed) => (WorkerState::Terminated, Action::Exit),
        (WorkerState::Ready, Event::BarrierPassed) => (WorkerState::Idle, Action::Receive),
        (WorkerState::Idle, Event::TaskReceived) => (WorkerState::Running, Action::Recognize),
        (WorkerState::Running, Event::TaskFinished { .. }) => (WorkerState::Idle, Action::SendResult),
        (WorkerState::Idle, Event::ShutdownReceived) => (
            WorkerState::Terminating,
            Action::ReleaseEngine,
        ),
        (WorkerState::Idle, Event::ChannelClosed) => (
            WorkerState::Terminating,
            Action::ReleaseEngine,
        ),
        (WorkerState::Terminating, Event::EngineReleased) => (WorkerState::Terminated, Action::Exit),
        _ => (s, Action::Ignore),
    }
}

/// The number of engines a worker in state `s` holds.
pub open spec fn engines_held(s: WorkerState) -> nat {
    match s {
        WorkerState::Ready | WorkerState::Idle | WorkerState::Running => 1,
        _ => 0,
    }
}

/// Whether the event brings a new engine into the worker.
pub open spec fn creates_engine(s: WorkerState, e: Event) -> nat {
    if s == WorkerState::Initializing && e == Event::EngineCreated {
        1
    } else {
        0
    }
}

/// Whether the action drops an engine.
pub open spec fn releases_engine(a: Action) -> nat {
    if a == Action::ReleaseEngine {
        1
    } else {
        0
    }
}

/// The state after the events, one by one.
pub open spec fn run_state(s: WorkerState, events: Seq<Event>) -> WorkerState
    decreases events.len(),
{
    if events.len() == 0 {
        s
    } else {
        run_state(step_spec(s, events[0]).0, events.drop_first())
    }
}

/// How many engines the events bring into the worker.
pub open spec fn run_creations(s: WorkerState, events: Seq<Event>) -> nat
    decreases events.len(),
{
    if events.len() == 0 {
        0
    } else {
        creates_engine(s, events[0]) + run_creations(step_spec(s, events[0]).0, events.drop_first())
    }
}

/// How many engines the actions taken along the events drop.
pub open spec fn run_releases(s: WorkerState, events: Seq<Event>) -> nat
    decreases events.len(),
{
    if events.len() == 0 {
        0
    } else {
        releases_engine(step_spec(s, events[0]).1) + run_releases(
            step_spec(s, events[0]).0,
            events.drop_first(),
        )
    }
}

/// Each transition keeps the count of engines: the engines held after it are
/// those held before, plus the one created, minus the one released.
pub proof fn lemma_engine_accounting(s: WorkerState, e: Event)
    ensures
        engines_held(step_spec(s, e).0) + releases_engine(step_spec(s, e).1) == engines_held(s)
            + creates_engine(s, e),
{
}

proof fn lemma_run_accounting(s: WorkerState, events: Seq<Event>)
    ensures
        engines_held(run_state(s, events)) + run_releases(s, events) == engines_held(s)
            + run_creations(s, events),
        s != WorkerState::Initializing ==> run_creations(s, events) == 0,
        run_creations(s, events) <= 1,
    decreases events.len(),
{
    if events.len() > 0 {
        lemma_engine_accounting(s, events[0]);
        lemma_run_accounting(step_spec(s, events[0]).0, events.drop_first());
    }
}

/// Along any sequence of events from the start, a worker creates at most one
/// engine and releases each engine it created exactly once by the time it has
/// terminated.
pub proof fn lemma_engine_released_once(events: Seq<Event>)
    ensures
        run_creations(WorkerState::Initializing, events) <= 1,
        run_releases(WorkerState::Initializing, events) <= run_creations(
            WorkerState::Initializing,
            events,
        ),
        run_state(WorkerState::Initializing, events) == WorkerState::Terminated ==> run_releases(
            WorkerState::Initializing,
            events,
        ) == run_creations(WorkerState::Initializing, events),
{
    lemma_run_accounting(WorkerState::Initializing, events);
}

/// A task that ends in a failure does not end the worker: it sends the result
/// and goes back to waiting, and the next task is run.
pub proof fn lemma_failed_task_keeps_worker()
    ensures
        step_spec(WorkerState::Running, Event::TaskFinished { failed: true }) == (
            WorkerState::Idle,
            Action::SendResult,
        ),
        step_spec(
            step_spec(WorkerState::Running, Event::TaskFinished { failed: true }).0,
            Event::TaskReceived,
        ) == (WorkerState::Running, Action::Recognize),
{
}

/// The engines held by a pool of workers in the given states.
pub open spec fn pool_engines(states: Seq<WorkerState>) -> nat
    decreases states.len(),
{
    if states.len() == 0 {
        0
    } else {
        engines_held(states.last()) + pool_engines(states.drop_last())
    }
}

/// A pool of `n` workers holds at most `n` engines, whatever the states of
/// its workers.
pub proof fn lemma_pool_engines_bounded(states: Seq<WorkerState>)
    ensures
        pool_engines(states) <= states.len(),
    decreases states.len(),
{
    if states.len() > 0 {
        lemma_pool_engines_bounded(states.drop_last());
    }
}

} // verus!
