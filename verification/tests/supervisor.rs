use xunlei::supervisor::{
    is_stopped, outcome_of_exit, run, signal_of, step, Action, Event, Outcome, Signal, State,
    SIGHUP, SIGINT, SIGTERM,
};

#[test]
fn signal_numbers_are_those_of_the_host() {
    assert_eq!(SIGHUP, signal_hook::consts::SIGHUP);
    assert_eq!(SIGINT, signal_hook::consts::SIGINT);
    assert_eq!(SIGTERM, signal_hook::consts::SIGTERM);
    assert_eq!(SIGTERM, libc::SIGTERM);
}

#[test]
fn signals_are_told_apart() {
    assert_eq!(signal_of(signal_hook::consts::SIGHUP), Signal::Hangup);
    assert_eq!(signal_of(signal_hook::consts::SIGINT), Signal::Interrupt);
    assert_eq!(signal_of(signal_hook::consts::SIGTERM), Signal::Terminate);
    assert_eq!(signal_of(signal_hook::consts::SIGUSR1), Signal::Other);
    assert_eq!(signal_of(signal_hook::consts::SIGQUIT), Signal::Other);
    assert_eq!(signal_of(0), Signal::Other);
    assert_eq!(signal_of(-1), Signal::Other);
}

#[test]
fn backend_is_started() {
    assert_eq!(
        step(State::NotStarted, Event::Spawned { pid: 77 }),
        (State::Running { pid: 77 }, Action::Nothing)
    );
}

#[test]
fn failed_start_aborts() {
    assert_eq!(
        step(State::NotStarted, Event::SpawnFailed),
        (
            State::Stopped {
                outcome: Outcome::NeverStarted
            },
            Action::Abort
        )
    );
}

#[test]
fn termination_signal_is_relayed_once() {
    let events = vec![
        Event::Spawned { pid: 4242 },
        Event::Signalled {
            signal: Signal::Terminate,
        },
        Event::Signalled {
            signal: Signal::Terminate,
        },
        Event::Signalled {
            signal: Signal::Interrupt,
        },
        Event::Exited { success: true },
        Event::Signalled {
            signal: Signal::Hangup,
        },
    ];
    let (state, actions) = run(State::NotStarted, &events);
    assert_eq!(
        state,
        State::Stopped {
            outcome: Outcome::Success
        }
    );
    assert_eq!(
        actions,
        vec![
            Action::Nothing,
            Action::Terminate { pid: 4242 },
            Action::Nothing,
            Action::Nothing,
            Action::ReportExit { success: true },
            Action::Nothing,
        ]
    );
    let sent = actions
        .iter()
        .filter(|a| matches!(a, Action::Terminate { .. }))
        .count();
    assert_eq!(sent, 1);
}

#[test]
fn each_stop_signal_stops_a_running_backend() {
    for signal in [Signal::Hangup, Signal::Interrupt, Signal::Terminate] {
        assert_eq!(
            step(State::Running { pid: 9 }, Event::Signalled { signal }),
            (State::Stopping { pid: 9 }, Action::Terminate { pid: 9 })
        );
    }
}

#[test]
fn other_signals_are_reported_and_ignored() {
    assert_eq!(
        step(
            State::Running { pid: 9 },
            Event::Signalled {
                signal: Signal::Other
            }
        ),
        (State::Running { pid: 9 }, Action::ReportSignal)
    );
}

#[test]
fn exit_is_recorded() {
    assert_eq!(
        step(State::Running { pid: 9 }, Event::Exited { success: false }),
        (
            State::Stopped {
                outcome: Outcome::Failure
            },
            Action::ReportExit { success: false }
        )
    );
    assert_eq!(
        step(State::Stopping { pid: 9 }, Event::Exited { success: true }),
        (
            State::Stopped {
                outcome: Outcome::Success
            },
            Action::ReportExit { success: true }
        )
    );
    assert_eq!(outcome_of_exit(true), Outcome::Success);
    assert_eq!(outcome_of_exit(false), Outcome::Failure);
}

#[test]
fn failed_wait_ends_the_watch() {
    assert_eq!(
        step(State::Stopping { pid: 9 }, Event::WaitFailed),
        (
            State::Stopped {
                outcome: Outcome::Unknown
            },
            Action::ReportWaitFailure
        )
    );
    assert_eq!(
        step(State::Running { pid: 9 }, Event::WaitFailed),
        (
            State::Stopped {
                outcome: Outcome::Unknown
            },
            Action::ReportWaitFailure
        )
    );
}

#[test]
fn nothing_happens_once_stopped() {
    let stopped = State::Stopped {
        outcome: Outcome::Failure,
    };
    for event in [
        Event::Spawned { pid: 1 },
        Event::SpawnFailed,
        Event::Signalled {
            signal: Signal::Terminate,
        },
        Event::Exited { success: true },
        Event::WaitFailed,
    ] {
        assert_eq!(step(stopped, event), (stopped, Action::Nothing));
    }
    assert!(is_stopped(stopped));
    assert!(!is_stopped(State::NotStarted));
    assert!(!is_stopped(State::Running { pid: 1 }));
    assert!(!is_stopped(State::Stopping { pid: 1 }));
}

#[test]
fn signal_before_the_start_sends_nothing() {
    assert_eq!(
        step(
            State::NotStarted,
            Event::Signalled {
                signal: Signal::Terminate
            }
        ),
        (State::NotStarted, Action::Nothing)
    );
}

#[test]
fn second_start_is_ignored() {
    assert_eq!(
        step(State::Running { pid: 1 }, Event::Spawned { pid: 2 }),
        (State::Running { pid: 1 }, Action::Nothing)
    );
    assert_eq!(
        step(State::Stopping { pid: 1 }, Event::SpawnFailed),
        (State::Stopping { pid: 1 }, Action::Nothing)
    );
}

#[test]
fn run_of_no_event_changes_nothing() {
    let (state, actions) = run(State::Running { pid: 3 }, &Vec::new());
    assert_eq!(state, State::Running { pid: 3 });
    assert!(actions.is_empty());
}
