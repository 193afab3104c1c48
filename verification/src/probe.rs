//! Tasks that find out whether the program is installed and in which
//! version, and that install it.

use crate::command::{Call, CommandOutcome, Invocation, Platform, Request, Verb};
use crate::error::{Failure, FoundryError};
use crate::manager::{command_failed, failure_of, installed, version, FoundryManager};
use crate::task::{Action, Answer, Effect, Event, Move, Step};
use vstd::prelude::*;

verus! {

/// The installation check between two of its steps.
#[derive(Clone, Copy, Debug, PartialEq, Eq)]
pub enum InstallCheck {
    /// The help request is under way.
    AwaitHelp,
    /// The help text could not be had; the install locations are looked at.
    AwaitLocation,
}

impl View for InstallCheck {
    type V = InstallCheck;

    open spec fn view(&self) -> InstallCheck {
        *self
    }
}

/// The first step of the installation check: the help request.
pub open spec fn install_check_start() -> Move<InstallCheck, bool> {
    Move::Continue(InstallCheck::AwaitHelp, Action::Run(Call::Cli(Request::Help)))
}

/// The help text as far as `answer` holds it.
pub open spec fn help_of(answer: Answer) -> Option<CommandOutcome> {
    match answer {
        Answer::Exited(result) => Some(result),
        _ => None,
    }
}

/// The step that the installation check takes on `answer`.
///
/// The program is installed where its help text could be had. Where it could
/// not, the install locations decide, and nothing else is looked at.
pub open spec fn install_check_step(task: InstallCheck, answer: Answer) -> Move<
    InstallCheck,
    bool,
> {
    match task {
        InstallCheck::AwaitHelp => if installed(help_of(answer), false) {
            Move::Done(true)
        } else {
            Move::Continue(InstallCheck::AwaitLocation, Action::Locate)
        },
        InstallCheck::AwaitLocation => Move::Done(
            installed(None, answer == Answer::Located(true)),
        ),
    }
}

/// The installation check comes to the verdict of `installed`: where the
/// help request ends with `help`, and the look at the install locations, if
/// there is one, with `location`, the program counts as installed exactly
/// when the help text could be had or a location exists. The locations are
/// looked at only where the help text could not be had.
pub proof fn lemma_install_check_agrees(help: Answer, location: Answer)
    ensures
        installed(help_of(help), false) ==> install_check_step(InstallCheck::AwaitHelp, help)
            == Move::<InstallCheck, bool>::Done(true),
        !installed(help_of(help), false) ==> install_check_step(InstallCheck::AwaitHelp, help)
            == Move::<InstallCheck, bool>::Continue(InstallCheck::AwaitLocation, Action::Locate)
            && install_check_step(InstallCheck::AwaitLocation, location) == Move::<
            InstallCheck,
            bool,
        >::Done(installed(help_of(help), location == Answer::Located(true))),
{
}

/// Whether the installation check has just found, on `answer`, that the
/// program is not installed.
pub open spec fn finds_absent(task: InstallCheck, answer: Answer) -> bool {
    install_check_step(task, answer) == Move::<InstallCheck, bool>::Done(false)
}

impl InstallCheck {
    /// The first step of the installation check.
    pub fn start() -> (step: Step<InstallCheck, bool>)
        ensures
            step@ == install_check_start(),
    {
        Step::Continue(InstallCheck::AwaitHelp, Effect::Run(Invocation::Cli(Verb::Help)))
    }

    /// Takes the step that `event` calls for.
    pub fn resume(self, event: &Event) -> (step: Step<InstallCheck, bool>)
        ensures
            step@ == install_check_step(self, event@),
    {
        match self {
            InstallCheck::AwaitHelp => {
                let found = match event {
                    Event::Exited(result) => FoundryManager::is_installed(Some(result), false),
                    _ => FoundryManager::is_installed(None, false),
                };
                if found {
                    Step::Done(true)
                } else {
                    Step::Continue(InstallCheck::AwaitLocation, Effect::Locate)
                }
            },
            InstallCheck::AwaitLocation => {
                let located = match event {
                    Event::Located(found) => *found,
                    _ => false,
                };
                Step::Done(FoundryManager::is_installed(None, located))
            },
        }
    }
}

/// The version query between two of its steps.
#[derive(Clone, Copy, Debug, PartialEq, Eq)]
pub enum VersionQuery {
    /// The version request is under way.
    First,
    /// The program could not be run; the request is under way once more, at
    /// the install location.
    Second,
}

impl View for VersionQuery {
    type V = VersionQuery;

    open spec fn view(&self) -> VersionQuery {
        *self
    }
}

/// The first step of the version query: the version request.
pub open spec fn version_query_start() -> Move<VersionQuery, Seq<char>> {
    Move::Continue(VersionQuery::First, Action::Run(Call::Cli(Request::Version)))
}

/// The end of a task with the result `result`.
pub open spec fn finish<S, V>(result: Result<V, Failure>) -> Move<S, V> {
    match result {
        Ok(value) => Move::Done(value),
        Err(e) => Move::Failed(e),
    }
}

/// The step that the version query takes on `answer`.
///
/// A request that ran decides. A first request that did not run is made once
/// more at the install location; a second that did not run is the failure.
pub open spec fn version_query_step(task: VersionQuery, answer: Answer) -> Move<
    VersionQuery,
    Seq<char>,
> {
    match answer {
        Answer::Exited(result) => finish(version(result)),
        other => match task {
            VersionQuery::First => Move::Continue(
                VersionQuery::Second,
                Action::Run(Call::Installed(Request::Version)),
            ),
            VersionQuery::Second => Move::Failed(other.failure()),
        },
    }
}

impl VersionQuery {
    /// The first step of the version query.
    pub fn start() -> (step: Step<VersionQuery, String>)
        ensures
            step@ == version_query_start(),
    {
        Step::Continue(VersionQuery::First, Effect::Run(Invocation::Cli(Verb::Version)))
    }

    /// Takes the step that `event` calls for.
    pub fn resume(self, event: &Event) -> (step: Step<VersionQuery, String>)
        ensures
            step@ == version_query_step(self, event@),
    {
        match event {
            Event::Exited(result) => match FoundryManager::get_version(result) {
                Ok(found) => Step::Done(found),
                Err(e) => Step::Failed(e),
            },
            other => match self {
                VersionQuery::First => Step::Continue(
                    VersionQuery::Second,
                    Effect::Run(Invocation::Installed(Verb::Version)),
                ),
                VersionQuery::Second => Step::Failed(other.failure()),
            },
        }
    }
}

/// The installation between two of its steps.
#[derive(Clone, Copy, Debug, PartialEq, Eq)]
pub enum Install {
    /// The installation check is under way.
    Checking(InstallCheck, Platform),
    /// The package manager runs.
    Installing,
    /// The version is asked for, to return it.
    Confirming(VersionQuery),
}

impl View for Install {
    type V = Install;

    open spec fn view(&self) -> Install {
        *self
    }
}

/// A step of the version query as a step of the installation.
pub open spec fn confirming(step: Move<VersionQuery, Seq<char>>) -> Move<Install, Seq<char>> {
    match step {
        Move::Continue(query, action) => Move::Continue(Install::Confirming(query), action),
        Move::Done(found) => Move::Done(found),
        Move::Failed(e) => Move::Failed(e),
    }
}

/// The first step of the installation on `platform`: the installation check.
pub open spec fn install_start(platform: Platform) -> Move<Install, Seq<char>> {
    Move::Continue(
        Install::Checking(InstallCheck::AwaitHelp, platform),
        Action::Run(Call::Cli(Request::Help)),
    )
}

/// The step that the installation takes on `answer`.
///
/// Where the program is installed its version is asked for and nothing is
/// installed. Where it is not, the package manager is run on Windows, and the
/// task fails with `PlatformUnsupported` elsewhere. After the package manager
/// has exited with success the version is asked for.
pub open spec fn install_step(task: Install, answer: Answer) -> Move<Install, Seq<char>> {
    match task {
        Install::Checking(check, platform) => match install_check_step(check, answer) {
            Move::Continue(next, action) => Move::Continue(
                Install::Checking(next, platform),
                action,
            ),
            Move::Done(true) => confirming(version_query_start()),
            Move::Done(false) => match platform {
                Platform::Windows => Move::Continue(
                    Install::Installing,
                    Action::Run(Call::Installer),
                ),
                Platform::Other => Move::Failed(Failure::PlatformUnsupported),
            },
            Move::Failed(e) => Move::Failed(e),
        },
        Install::Installing => match answer {
            Answer::Exited(result) => if result.exit_success {
                confirming(version_query_start())
            } else {
                Move::Failed(command_failed(Call::Installer, result))
            },
            other => Move::Failed(other.failure()),
        },
        Install::Confirming(query) => confirming(version_query_step(query, answer)),
    }
}

/// A step of the version query as a step of the installation.
fn confirm(step: Step<VersionQuery, String>) -> (lifted: Step<Install, String>)
    ensures
        lifted@ == confirming(step@),
{
    match step {
        Step::Continue(query, effect) => Step::Continue(Install::Confirming(query), effect),
        Step::Done(found) => Step::Done(found),
        Step::Failed(e) => Step::Failed(e),
    }
}

impl Install {
    /// Takes the step that `event` calls for.
    pub fn resume(self, event: &Event) -> (step: Step<Install, String>)
        ensures
            step@ == install_step(self, event@),
    {
        match self {
            Install::Checking(check, platform) => match check.resume(event) {
                Step::Continue(next, effect) => Step::Continue(
                    Install::Checking(next, platform),
                    effect,
                ),
                Step::Done(true) => confirm(VersionQuery::start()),
                Step::Done(false) => match platform {
                    Platform::Windows => Step::Continue(
                        Install::Installing,
                        Effect::Run(Invocation::Installer),
                    ),
                    Platform::Other => Step::Failed(FoundryError::PlatformUnsupported),
                },
                Step::Failed(e) => Step::Failed(e),
            },
            Install::Installing => match event {
                Event::Exited(result) => if result.exit_success {
                    confirm(VersionQuery::start())
                } else {
                    Step::Failed(failure_of(Invocation::Installer, result))
                },
                other => Step::Failed(other.failure()),
            },
            Install::Confirming(query) => confirm(query.resume(event)),
        }
    }
}

impl FoundryManager {
    /// Begins to install the program on `platform`. The task ends with the
    /// version of the installed program.
    pub fn install_foundry_local(platform: Platform) -> (step: Step<Install, String>)
        ensures
            step@ == install_start(platform),
    {
        Step::Continue(
            Install::Checking(InstallCheck::AwaitHelp, platform),
            Effect::Run(Invocation::Cli(Verb::Help)),
        )
    }
}

} // verus!
