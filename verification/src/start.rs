//! Starting the service without waiting for it longer than the caller can
//! afford.

use crate::command::{Call, Invocation, Request, Verb};
use crate::error::{Failure, FoundryError};
use crate::manager::{command_failed, failure_of, FoundryManager};
use crate::task::{Action, Answer, Effect, Event, Move, Step};
use vstd::prelude::*;

verus! {

/// The pause between two looks at the program that was started, in
/// milliseconds.
pub const POLL_INTERVAL_MS: u64 = 250;

/// Where the start of the service stands.
#[derive(Clone, Copy, Debug, PartialEq, Eq)]
pub enum StartPhase {
    /// The program is being started.
    Spawning,
    /// The program that was started is looked at.
    Watching,
    /// The task pauses before it looks again.
    Resting,
}

/// The start of the service between two of its steps.
#[derive(Clone, Copy, Debug, PartialEq, Eq)]
pub struct TimedStart {
    /// How long the program is waited for, in milliseconds.
    pub timeout_ms: u64,
    /// Where the task stands.
    pub phase: StartPhase,
}

impl View for TimedStart {
    type V = TimedStart;

    open spec fn view(&self) -> TimedStart {
        *self
    }
}

/// The first step of the start of the service: the program is started with
/// the start request and not waited for.
pub open spec fn timed_start(timeout_ms: u64) -> Move<TimedStart, ()> {
    Move::Continue(
        TimedStart { timeout_ms, phase: StartPhase::Spawning },
        Action::Spawn(Call::Cli(Request::ServiceStart)),
    )
}

/// The failure of a program that was started with the start request and
/// exited with the status `exit_code`, or without one. What it wrote went to
/// the streams of the caller and was not caught.
pub open spec fn start_failed(exit_code: Option<i32>) -> Failure {
    Failure::CommandFailed {
        call: Call::Cli(Request::ServiceStart),
        exit_code,
        stderr: None,
    }
}

/// The step that the start of the service takes on `answer`.
///
/// A program that has exited decides: success, or failure. A program that
/// still runs when the time is up counts as success too: the service may go
/// on starting long after, and whether it is ready is asked elsewhere. Before
/// that the task pauses and looks again.
pub open spec fn timed_start_step(task: TimedStart, answer: Answer) -> Move<TimedStart, ()> {
    match task.phase {
        StartPhase::Spawning => match answer {
            Answer::Spawned => Move::Continue(
                TimedStart { phase: StartPhase::Watching, ..task },
                Action::Poll,
            ),
            other => Move::Failed(other.failure()),
        },
        StartPhase::Watching => match answer {
            Answer::ChildExited(exit_code) => if exit_code == Some(0i32) {
                Move::Done(())
            } else {
                Move::Failed(start_failed(exit_code))
            },
            Answer::ChildRunning(elapsed) => if elapsed >= task.timeout_ms {
                Move::Done(())
            } else {
                Move::Continue(
                    TimedStart { phase: StartPhase::Resting, ..task },
                    Action::Sleep(POLL_INTERVAL_MS),
                )
            },
            other => Move::Failed(other.failure()),
        },
        StartPhase::Resting => Move::Continue(
            TimedStart { phase: StartPhase::Watching, ..task },
            Action::Poll,
        ),
    }
}

/// The start of the service never fails because the time is up: a program
/// that still runs then is taken for started.
pub proof fn lemma_deadline_is_success(task: TimedStart, elapsed: u64)
    requires
        task.phase is Watching,
        elapsed >= task.timeout_ms,
    ensures
        timed_start_step(task, Answer::ChildRunning(elapsed)) == Move::<TimedStart, ()>::Done(()),
{
}

impl TimedStart {
    /// Takes the step that `event` calls for.
    pub fn resume(self, event: &Event) -> (step: Step<TimedStart, ()>)
        ensures
            step@ == timed_start_step(self, event@),
    {
        match self.phase {
            StartPhase::Spawning => match event {
                Event::Spawned => Step::Continue(
                    TimedStart { phase: StartPhase::Watching, ..self },
                    Effect::Poll,
                ),
                other => Step::Failed(other.failure()),
            },
            StartPhase::Watching => match event {
                Event::ChildExited(exit_code) => {
                    let success = match exit_code {
                        Some(code) => *code == 0,
                        None => false,
                    };
                    if success {
                        Step::Done(())
                    } else {
                        Step::Failed(
                            FoundryError::CommandFailed {
                                invocation: Invocation::Cli(Verb::ServiceStart),
                                exit_code: *exit_code,
                                stderr: None,
                            },
                        )
                    }
                },
                Event::ChildRunning(elapsed) => if *elapsed >= self.timeout_ms {
                    Step::Done(())
                } else {
                    Step::Continue(
                        TimedStart { phase: StartPhase::Resting, ..self },
                        Effect::Sleep(POLL_INTERVAL_MS),
                    )
                },
                other => Step::Failed(other.failure()),
            },
            StartPhase::Resting => Step::Continue(
                TimedStart { phase: StartPhase::Watching, ..self },
                Effect::Poll,
            ),
        }
    }
}

/// How long the service is given to settle after a start request that was
/// waited for, in milliseconds.
pub const SETTLE_MS: u64 = 5000;

/// The plain start of the service between two of its steps.
#[derive(Clone, Copy, Debug, PartialEq, Eq)]
pub enum PlainStart {
    /// The start request is under way.
    AwaitStart,
    /// The start request went well; the service is given time to settle.
    Settling,
}

impl View for PlainStart {
    type V = PlainStart;

    open spec fn view(&self) -> PlainStart {
        *self
    }
}

/// The first step of the plain start of the service: the start request, run
/// to its end.
pub open spec fn plain_start() -> Move<PlainStart, ()> {
    Move::Continue(PlainStart::AwaitStart, Action::Run(Call::Cli(Request::ServiceStart)))
}

/// The step that the plain start takes on `answer`: after a start request
/// that went well the service is given `SETTLE_MS` to settle, and the task is
/// done; a start request that failed or did not run is the failure.
pub open spec fn plain_start_step(task: PlainStart, answer: Answer) -> Move<PlainStart, ()> {
    match task {
        PlainStart::AwaitStart => match answer {
            Answer::Exited(result) => if result.exit_success {
                Move::Continue(PlainStart::Settling, Action::Sleep(SETTLE_MS))
            } else {
                Move::Failed(command_failed(Call::Cli(Request::ServiceStart), result))
            },
            other => Move::Failed(other.failure()),
        },
        PlainStart::Settling => Move::Done(()),
    }
}

impl PlainStart {
    /// Takes the step that `event` calls for.
    pub fn resume(self, event: &Event) -> (step: Step<PlainStart, ()>)
        ensures
            step@ == plain_start_step(self, event@),
    {
        match self {
            PlainStart::AwaitStart => match event {
                Event::Exited(result) => if result.exit_success {
                    Step::Continue(PlainStart::Settling, Effect::Sleep(SETTLE_MS))
                } else {
                    Step::Failed(failure_of(Invocation::Cli(Verb::ServiceStart), result))
                },
                other => Step::Failed(other.failure()),
            },
            PlainStart::Settling => Step::Done(()),
        }
    }
}

impl FoundryManager {
    /// Begins to start the service and to wait until the start request has
    /// come to its end.
    pub fn start_service() -> (step: Step<PlainStart, ()>)
        ensures
            step@ == plain_start(),
    {
        Step::Continue(PlainStart::AwaitStart, Effect::Run(Invocation::Cli(Verb::ServiceStart)))
    }

    /// Begins to start the service, waiting for the start request no longer
    /// than `timeout_ms` milliseconds.
    pub fn start_service_with_timeout(timeout_ms: u64) -> (step: Step<TimedStart, ()>)
        ensures
            step@ == timed_start(timeout_ms),
    {
        Step::Continue(
            TimedStart { timeout_ms, phase: StartPhase::Spawning },
            Effect::Spawn(Invocation::Cli(Verb::ServiceStart)),
        )
    }
}

} // verus!
