//! The protocol between the library and the code that runs the program.
//!
//! The library never runs anything. An operation that needs the program is a
//! task: a value that says what is to be done next (an `Effect`) and, handed
//! what came of it (an `Event`), either goes on or finishes. The caller owns
//! the loop; every decision is taken here.

use crate::command::{Call, CommandOutcome, CommandResult, Invocation};
use crate::error::{Failure, FoundryError};
use vstd::prelude::*;

verus! {

/// What a task asks its caller to do.
#[derive(Clone, Debug, PartialEq, Eq)]
pub enum Effect {
    /// Run the program to its end. Answer: `Exited`, or `NotFound` or
    /// `SpawnFailed` where it did not run.
    Run(Invocation),
    /// Look whether one of the install locations exists. Answer: `Located`.
    Locate,
    /// Start the program and do not wait for it. Answer: `Spawned`, or
    /// `NotFound` or `SpawnFailed`.
    Spawn(Invocation),
    /// Look at the program that was started. Answer: `ChildExited` or
    /// `ChildRunning`, or `SpawnFailed` where it cannot be looked at.
    Poll,
    /// Wait that many milliseconds. Answer: `Woke`.
    Sleep(u64),
}

/// An `Effect` as a mathematical value.
pub enum Action {
    Run(Call),
    Locate,
    Spawn(Call),
    Poll,
    Sleep(u64),
}

impl View for Effect {
    type V = Action;

    open spec fn view(&self) -> Action {
        match *self {
            Effect::Run(invocation) => Action::Run(invocation@),
            Effect::Locate => Action::Locate,
            Effect::Spawn(invocation) => Action::Spawn(invocation@),
            Effect::Poll => Action::Poll,
            Effect::Sleep(millis) => Action::Sleep(millis),
        }
    }
}

/// What came of an effect.
#[derive(Clone, Debug, PartialEq, Eq)]
pub enum Event {
    /// The program ran to its end.
    Exited(CommandResult),
    /// The program was not found.
    NotFound,
    /// The program was found and could not be started, or the program that
    /// was started cannot be looked at.
    SpawnFailed,
    /// Whether an install location exists.
    Located(bool),
    /// The program was started.
    Spawned,
    /// The program that was started has exited, with this status where it
    /// has one. Status zero is the success.
    ChildExited(Option<i32>),
    /// The program that was started still runs, that many milliseconds after
    /// its start.
    ChildRunning(u64),
    /// The wait is over.
    Woke,
}

/// An `Event` as a mathematical value.
pub enum Answer {
    Exited(CommandOutcome),
    NotFound,
    SpawnFailed,
    Located(bool),
    Spawned,
    ChildExited(Option<i32>),
    ChildRunning(u64),
    Woke,
}

impl View for Event {
    type V = Answer;

    open spec fn view(&self) -> Answer {
        match *self {
            Event::Exited(result) => Answer::Exited(result@),
            Event::NotFound => Answer::NotFound,
            Event::SpawnFailed => Answer::SpawnFailed,
            Event::Located(found) => Answer::Located(found),
            Event::Spawned => Answer::Spawned,
            Event::ChildExited(exit_code) => Answer::ChildExited(exit_code),
            Event::ChildRunning(elapsed) => Answer::ChildRunning(elapsed),
            Event::Woke => Answer::Woke,
        }
    }
}

impl Answer {
    /// The failure that an answer stands for where the result of a run was
    /// expected: the program is missing, or, with any other answer, it could
    /// not be run.
    pub open spec fn failure(self) -> Failure {
        match self {
            Answer::NotFound => Failure::NotInstalled,
            _ => Failure::ProcessSpawnFailed,
        }
    }
}

impl Event {
    /// The failure that the event stands for where the result of a run was
    /// expected.
    pub fn failure(&self) -> (e: FoundryError)
        ensures
            e@ == self@.failure(),
    {
        match self {
            Event::NotFound => FoundryError::NotInstalled,
            _ => FoundryError::ProcessSpawnFailed,
        }
    }
}

/// What a task does next: it goes on as `M` and asks for an effect, or it
/// finishes with a value or with a failure.
#[derive(Debug, PartialEq, Eq)]
pub enum Step<M, T> {
    Continue(M, Effect),
    Done(T),
    Failed(FoundryError),
}

/// A `Step` as a mathematical value.
pub enum Move<S, V> {
    Continue(S, Action),
    Done(V),
    Failed(Failure),
}

impl<M: View, T: DeepView> View for Step<M, T> {
    type V = Move<M::V, T::V>;

    open spec fn view(&self) -> Move<M::V, T::V> {
        match *self {
            Step::Continue(task, effect) => Move::Continue(task@, effect@),
            Step::Done(value) => Move::Done(value.deep_view()),
            Step::Failed(e) => Move::Failed(e@),
        }
    }
}

} // verus!
