//! The life of the backend process, as a state machine: what the launcher
//! does on each thing that happens to the process or to itself.

use vstd::prelude::*;

verus! {

/// The number of the hang-up signal.
pub const SIGHUP: i32 = 1;

/// The number of the interrupt signal.
pub const SIGINT: i32 = 2;

/// The number of the termination signal.
pub const SIGTERM: i32 = 15;

/// A signal of the host, as the supervisor tells them apart.
#[derive(Clone, Copy, Debug, PartialEq, Eq, Structural)]
pub enum Signal {
    Hangup,
    Interrupt,
    Terminate,
    /// Any signal that does not ask the launcher to stop.
    Other,
}

pub open spec fn signal_kind(number: i32) -> Signal {
    if number == SIGHUP {
        Signal::Hangup
    } else if number == SIGINT {
        Signal::Interrupt
    } else if number == SIGTERM {
        Signal::Terminate
    } else {
        Signal::Other
    }
}

/// Tells a signal by its number.
pub fn signal_of(number: i32) -> (signal: Signal)
    ensures
        signal == signal_kind(number),
{
    if number == SIGHUP {
        Signal::Hangup
    } else if number == SIGINT {
        Signal::Interrupt
    } else if number == SIGTERM {
        Signal::Terminate
    } else {
        Signal::Other
    }
}

/// Whether a signal asks the launcher to stop.
pub open spec fn asks_to_stop(signal: Signal) -> bool {
    signal != Signal::Other
}

/// How the backend's life ended.
#[derive(Clone, Copy, Debug, PartialEq, Eq, Structural)]
pub enum Outcome {
    /// The process could not be started.
    NeverStarted,
    /// The process exited with success.
    Success,
    /// The process exited with a failure.
    Failure,
    /// Waiting for the process failed, so its exit status is not known.
    Unknown,
}

/// Where the backend is in its life.
#[derive(Clone, Copy, Debug, PartialEq, Eq, Structural)]
pub enum State {
    NotStarted,
    /// The process runs under this id.
    Running { pid: u32 },
    /// The process was told to terminate and has not been seen to exit.
    Stopping { pid: u32 },
    Stopped { outcome: Outcome },
}

/// What happened.
#[derive(Clone, Copy, Debug, PartialEq, Eq, Structural)]
pub enum Event {
    /// The backend was started and has this process id.
    Spawned { pid: u32 },
    /// The backend could not be started.
    SpawnFailed,
    /// The launcher received a signal.
    Signalled { signal: Signal },
    /// The backend exited.
    Exited { success: bool },
    /// Waiting for the backend failed.
    WaitFailed,
}

/// What the launcher has to do next.
#[derive(Clone, Copy, Debug, PartialEq, Eq, Structural)]
pub enum Action {
    Nothing,
    /// Give up starting: without the backend there is nothing to serve.
    Abort,
    /// Send the termination signal to this process, and to no other, and
    /// stop watching for signals.
    Terminate { pid: u32 },
    /// Note that a signal came that is not handled.
    ReportSignal,
    /// Note how the backend exited.
    ReportExit { success: bool },
    /// Note that waiting for the backend failed.
    ReportWaitFailure,
}

/// The state after an event, and the action that the event calls for.
pub open spec fn step_of(state: State, event: Event) -> (State, Action) {
    match state {
        State::NotStarted => match event {
            Event::Spawned { pid } => (State::Running { pid }, Action::Nothing),
            Event::SpawnFailed => (
                State::Stopped { outcome: Outcome::NeverStarted },
                Action::Abort,
            ),
            _ => (state, Action::Nothing),
        },
        State::Running { pid } => match event {
            Event::Signalled { signal } => if asks_to_stop(signal) {
                (State::Stopping { pid }, Action::Terminate { pid })
            } else {
                (state, Action::ReportSignal)
            },
            Event::Exited { success } => (
                State::Stopped { outcome: exit_outcome(success) },
                Action::ReportExit { success },
            ),
            Event::WaitFailed => (
                State::Stopped { outcome: Outcome::Unknown },
                Action::ReportWaitFailure,
            ),
            _ => (state, Action::Nothing),
        },
        State::Stopping { pid } => match event {
            Event::Exited { success } => (
                State::Stopped { outcome: exit_outcome(success) },
                Action::ReportExit { success },
            ),
            Event::WaitFailed => (
                State::Stopped { outcome: Outcome::Unknown },
                Action::ReportWaitFailure,
            ),
            _ => (state, Action::Nothing),
        },
        State::Stopped { outcome } => (state, Action::Nothing),
    }
}

pub open spec fn exit_outcome(success: bool) -> Outcome {
    if success {
        Outcome::Success
    } else {
        Outcome::Failure
    }
}

/// Takes one event: gives the next state and the action to perform.
pub fn step(state: State, event: Event) -> (next: (State, Action))
    ensures
        next == step_of(state, event),
{
    match state {
        State::NotStarted => match event {
            Event::Spawned { pid } => (State::Running { pid }, Action::Nothing),
            Event::SpawnFailed => (
                State::Stopped { outcome: Outcome::NeverStarted },
                Action::Abort,
            ),
            _ => (state, Action::Nothing),
        },
        State::Running { pid } => match event {
            Event::Signalled { signal } => match signal {
                Signal::Other => (state, Action::ReportSignal),
                _ => (State::Stopping { pid }, Action::Terminate { pid }),
            },
            Event::Exited { success } => (
                State::Stopped { outcome: outcome_of_exit(success) },
                Action::ReportExit { success },
            ),
            Event::WaitFailed => (
                State::Stopped { outcome: Outcome::Unknown },
                Action::ReportWaitFailure,
            ),
            _ => (state, Action::Nothing),
        },
        State::Stopping { pid } => match event {
            Event::Exited { success } => (
                State::Stopped { outcome: outcome_of_exit(success) },
                Action::ReportExit { success },
            ),
            Event::WaitFailed => (
                State::Stopped { outcome: Outcome::Unknown },
                Action::ReportWaitFailure,
            ),
            _ => (state, Action::Nothing),
        },
        State::Stopped { outcome } => (state, Action::Nothing),
    }
}

/// How an exit counts.
pub fn outcome_of_exit(success: bool) -> (outcome: Outcome)
    ensures
        outcome == exit_outcome(success),
{
    if success {
        Outcome::Success
    } else {
        Outcome::Failure
    }
}

/// Whether the supervisor is done: nothing is left to watch or to wait for.
pub fn is_stopped(state: State) -> (stopped: bool)
    ensures
        stopped == (state is Stopped),
{
    match state {
        State::Stopped { outcome } => true,
        _ => false,
    }
}

/// The state after a run of events.
pub open spec fn state_after(state: State, events: Seq<Event>) -> State
    decreases events.len(),
{
    if events.len() == 0 {
        state
    } else {
        step_of(state_after(state, events.drop_last()), events.last()).0
    }
}

/// The actions that a run of events calls for, one for each event.
pub open spec fn actions_of(state: State, events: Seq<Event>) -> Seq<Action>
    decreases events.len(),
{
    if events.len() == 0 {
        Seq::empty()
    } else {
        actions_of(state, events.drop_last()).push(
            step_of(state_after(state, events.drop_last()), events.last()).1,
        )
    }
}

/// How many of the actions send the termination signal.
pub open spec fn terminations(actions: Seq<Action>) -> nat
    decreases actions.len(),
{
    if actions.len() == 0 {
        0
    } else {
        terminations(actions.drop_last()) + if actions.last() is Terminate {
            1nat
        } else {
            0nat
        }
    }
}

/// The process that a state speaks of.
pub open spec fn pid_of(state: State) -> Option<u32> {
    match state {
        State::Running { pid } => Some(pid),
        State::Stopping { pid } => Some(pid),
        _ => None,
    }
}

/// Takes a run of events, one after the other: gives the state at the end
/// and the actions that the events called for.
pub fn run(state: State, events: &Vec<Event>) -> (end: (State, Vec<Action>))
    ensures
        end.0 == state_after(state, events@),
        end.1@ == actions_of(state, events@),
{
    let mut current = state;
    let mut actions: Vec<Action> = Vec::new();
    let mut i: usize = 0;
    while i < events.len()
        invariant
            i <= events@.len(),
            current == state_after(state, events@.take(i as int)),
            actions@ == actions_of(state, events@.take(i as int)),
        decreases events@.len() - i,
    {
        assert(events@.take(i + 1).drop_last() == events@.take(i as int));
        let (next, action) = step(current, events[i]);
        current = next;
        actions.push(action);
        i = i + 1;
    }
    assert(events@.take(i as int) == events@);
    (current, actions)
}

/// While the backend runs, a signal that asks to stop makes the supervisor
/// send the termination signal to the backend's process, and to that one.
pub proof fn lemma_stop_signal(pid: u32, signal: Signal)
    requires
        asks_to_stop(signal),
    ensures
        step_of(State::Running { pid }, Event::Signalled { signal }) == (
            State::Stopping { pid },
            Action::Terminate { pid },
        ),
{
}

/// Once the backend is seen to exit, or waiting for it fails, the supervisor
/// is done, and nothing that happens later makes it act again.
pub proof fn lemma_exit_stops(state: State, event: Event, later: Event)
    requires
        state is Running || state is Stopping,
        event is Exited || event is WaitFailed,
    ensures
        step_of(state, event).0 is Stopped,
        step_of(step_of(state, event).0, later) == (step_of(state, event).0, Action::Nothing),
{
}

/// How far a state is from the sending of the termination signal: the
/// signal can still be sent once while the backend starts or runs, and not
/// again after it was sent or the backend is gone.
pub open spec fn terminations_left(state: State) -> nat {
    match state {
        State::NotStarted => 1,
        State::Running { pid } => 1,
        _ => 0,
    }
}

/// Whatever happens in whatever order, the termination signal is sent at
/// most once, and once it was sent or the backend is gone, never again.
pub proof fn lemma_terminates_at_most_once(state: State, events: Seq<Event>)
    ensures
        terminations(actions_of(state, events)) + terminations_left(state_after(state, events))
            <= terminations_left(state),
        terminations(actions_of(state, events)) <= 1,
    decreases events.len(),
{
    if events.len() > 0 {
        lemma_terminates_at_most_once(state, events.drop_last());
        assert(actions_of(state, events).drop_last() == actions_of(state, events.drop_last()));
    }
}

/// Each event calls for one action.
pub proof fn lemma_one_action_each(state: State, events: Seq<Event>)
    ensures
        actions_of(state, events).len() == events.len(),
    decreases events.len(),
{
    if events.len() > 0 {
        lemma_one_action_each(state, events.drop_last());
    }
}

/// The termination signal goes to the backend's process and to no other:
/// each `Terminate` names the process id under which the backend was started.
pub proof fn lemma_terminates_backend_only(pid: u32, events: Seq<Event>, i: int)
    requires
        0 <= i < events.len(),
        i < actions_of(State::Running { pid }, events).len(),
        actions_of(State::Running { pid }, events)[i] is Terminate,
    ensures
        actions_of(State::Running { pid }, events)[i] == (Action::Terminate { pid }),
    decreases events.len(),
{
    let start = State::Running { pid };
    let before = events.drop_last();
    lemma_pid_kept(pid, before);
    lemma_one_action_each(start, before);
    if i < events.len() - 1 {
        assert(actions_of(start, events)[i] == actions_of(start, before)[i]);
        lemma_terminates_backend_only(pid, before, i);
    }
}

/// A backend that was started keeps its process id for as long as the
/// supervisor speaks of a process.
pub proof fn lemma_pid_kept(pid: u32, events: Seq<Event>)
    ensures
        pid_of(state_after(State::Running { pid }, events)) is Some ==> pid_of(
            state_after(State::Running { pid }, events),
        ) == Some(pid),
        state_after(State::Running { pid }, events) !is NotStarted,
    decreases events.len(),
{
    if events.len() > 0 {
        lemma_pid_kept(pid, events.drop_last());
    }
}

/// While the backend runs, a signal that asks to stop is answered by exactly
/// one termination signal, whatever comes behind it.
pub proof fn lemma_terminates_exactly_once(pid: u32, signal: Signal, later: Seq<Event>)
    requires
        asks_to_stop(signal),
    ensures
        terminations(
            actions_of(State::Running { pid }, seq![Event::Signalled { signal }] + later),
        ) == 1,
    decreases later.len(),
{
    let start = State::Running { pid };
    let first = seq![Event::Signalled { signal }];
    let events = first + later;
    let actions = actions_of(start, events);
    assert(actions.drop_last() == actions_of(start, events.drop_last()));
    if later.len() == 0 {
        assert(events.drop_last() =~= Seq::<Event>::empty());
        assert(events.last() == Event::Signalled { signal });
        assert(state_after(start, events.drop_last()) == start);
        assert(actions.last() == Action::Terminate { pid });
        assert(terminations(actions.drop_last()) == 0);
    } else {
        assert(events.drop_last() =~= first + later.drop_last());
        lemma_terminates_exactly_once(pid, signal, later.drop_last());
        lemma_terminates_at_most_once(start, events);
    }
}

} // verus!
