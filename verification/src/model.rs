//! Tasks that bring a model into the cache and into the service.

use crate::command::{Call, CommandOutcome, Invocation, Request, Verb};
use crate::error::{Failure, FoundryError, Operation};
use crate::manager::{completed, download_call, model_cached, FoundryManager};
use crate::polling::{
    lemma_polling_budget_shrinks, polling_budget, polling_start, polling_step, Polling,
    PollingModel, RetryPolicy, Watched,
};
use crate::probe::finish;
use crate::task::{Action, Answer, Effect, Event, Move, Step};
use vstd::prelude::*;

verus! {

/// How often a model is loaded before the task gives up.
pub const LOAD_ATTEMPTS: usize = 3;

/// The pause between two attempts to load a model, in milliseconds.
pub const LOAD_PAUSE_MS: u64 = 2000;

/// How often the identifier of the loaded model is asked for.
pub const MODEL_ID_ATTEMPTS: usize = 10;

/// The pause between two questions for the identifier, in milliseconds.
pub const MODEL_ID_DELAY_MS: u64 = 2000;

/// The policy under which the identifier of the loaded model is asked for.
pub open spec fn model_id_policy() -> RetryPolicy {
    RetryPolicy { attempts: MODEL_ID_ATTEMPTS, delay_ms: MODEL_ID_DELAY_MS }
}

/// The download of a model between two of its steps.
#[derive(Clone, Debug, PartialEq, Eq)]
pub enum EnsureDownloaded {
    /// The cache listing is under way, to see whether the named model is
    /// there.
    AwaitCache(String),
    /// The download of the named model is under way.
    AwaitDownload(String),
}

/// An `EnsureDownloaded` as a mathematical value.
pub enum Downloading {
    AwaitCache(Seq<char>),
    AwaitDownload(Seq<char>),
}

impl View for EnsureDownloaded {
    type V = Downloading;

    open spec fn view(&self) -> Downloading {
        match *self {
            EnsureDownloaded::AwaitCache(name) => Downloading::AwaitCache(name@),
            EnsureDownloaded::AwaitDownload(name) => Downloading::AwaitDownload(name@),
        }
    }
}

/// The first step of the download of the model `name`: the cache listing.
pub open spec fn ensure_downloaded_start(name: Seq<char>) -> Move<Downloading, ()> {
    Move::Continue(Downloading::AwaitCache(name), Action::Run(Call::Cli(Request::CacheList)))
}

/// The step that the download takes on `answer`.
///
/// A model that the cache holds is not downloaded. One that it does not hold
/// is downloaded once, and the task ends with what came of that. Where the
/// cache cannot be asked the task fails and downloads nothing.
pub open spec fn ensure_downloaded_step(task: Downloading, answer: Answer) -> Move<
    Downloading,
    (),
> {
    match answer {
        Answer::Exited(result) => match task {
            Downloading::AwaitCache(name) => match model_cached(name, result) {
                Ok(true) => Move::Done(()),
                Ok(false) => Move::Continue(
                    Downloading::AwaitDownload(name),
                    Action::Run(download_call(name)),
                ),
                Err(e) => Move::Failed(e),
            },
            Downloading::AwaitDownload(name) => finish(completed(download_call(name), result)),
        },
        other => Move::Failed(other.failure()),
    }
}

/// Whether `step` asks for the download of a model.
pub open spec fn asks_for_download<S, V>(step: Move<S, V>) -> bool {
    step matches Move::Continue(_, Action::Run(Call::Cli(Request::ModelDownload(_))))
}

/// The number of downloads that the task asks for when the cache listing
/// comes back as `listing` and the answer to a download, if one is asked for,
/// is `answer`.
pub open spec fn downloads_asked(name: Seq<char>, listing: Answer, answer: Answer) -> nat {
    match ensure_downloaded_step(Downloading::AwaitCache(name), listing) {
        Move::Continue(next, action) => {
            let first: nat = if asks_for_download(
                Move::<Downloading, ()>::Continue(next, action),
            ) {
                1
            } else {
                0
            };
            let second: nat = if asks_for_download(ensure_downloaded_step(next, answer)) {
                1
            } else {
                0
            };
            first + second
        },
        _ => 0,
    }
}

/// A model is downloaded only where the cache does not hold it: no download
/// is asked for where the cache listing shows the model, and exactly one,
/// of that model, where the listing shows that it is missing. After the
/// download the task is over. Where the listing cannot be read the task
/// fails and no download is asked for.
pub proof fn lemma_download_once_if_missing(
    name: Seq<char>,
    listing: CommandOutcome,
    answer: Answer,
)
    ensures
        match model_cached(name, listing) {
            Ok(true) => {
                &&& downloads_asked(name, Answer::Exited(listing), answer) == 0
                &&& ensure_downloaded_step(Downloading::AwaitCache(name), Answer::Exited(listing))
                    == Move::<Downloading, ()>::Done(())
            },
            Ok(false) => {
                &&& downloads_asked(name, Answer::Exited(listing), answer) == 1
                &&& ensure_downloaded_step(Downloading::AwaitCache(name), Answer::Exited(listing))
                    == Move::<Downloading, ()>::Continue(
                    Downloading::AwaitDownload(name),
                    Action::Run(Call::Cli(Request::ModelDownload(name))),
                )
                &&& !(ensure_downloaded_step(Downloading::AwaitDownload(name), answer)
                    is Continue)
            },
            Err(e) => {
                &&& downloads_asked(name, Answer::Exited(listing), answer) == 0
                &&& ensure_downloaded_step(Downloading::AwaitCache(name), Answer::Exited(listing))
                    == Move::<Downloading, ()>::Failed(e)
            },
        },
{
}

impl EnsureDownloaded {
    /// Takes the step that `event` calls for.
    pub fn resume(self, event: &Event) -> (step: Step<EnsureDownloaded, ()>)
        ensures
            step@ == ensure_downloaded_step(self@, event@),
    {
        let result = match event {
            Event::Exited(result) => result,
            other => {
                return Step::Failed(other.failure());
            },
        };
        match self {
            EnsureDownloaded::AwaitCache(name) => match FoundryManager::is_model_cached(
                name.as_str(),
                result,
            ) {
                Ok(true) => Step::Done(()),
                Ok(false) => {
                    let verb = Verb::ModelDownload(name.clone());
                    Step::Continue(
                        EnsureDownloaded::AwaitDownload(name),
                        Effect::Run(Invocation::Cli(verb)),
                    )
                },
                Err(e) => Step::Failed(e),
            },
            EnsureDownloaded::AwaitDownload(name) => match FoundryManager::download_model(
                name.as_str(),
                result,
            ) {
                Ok(()) => Step::Done(()),
                Err(e) => Step::Failed(e),
            },
        }
    }
}

/// Where the loading of a model stands.
#[derive(Clone, Debug, PartialEq, Eq)]
pub enum LoadPhase {
    /// The load request is under way.
    Loading,
    /// The model was loaded; its identifier is asked for.
    Identifying(Polling),
    /// The attempt failed; the task pauses before the next.
    Resting,
}

/// A `LoadPhase` as a mathematical value.
pub enum LoadStage {
    Loading,
    Identifying(PollingModel),
    Resting,
}

/// The loading of a model between two of its steps.
#[derive(Clone, Debug, PartialEq, Eq)]
pub struct EnsureLoaded {
    /// The name of the model.
    pub name: String,
    /// The number of the attempt under way, from 1.
    pub attempt: usize,
    /// Where the attempt stands.
    pub phase: LoadPhase,
}

/// An `EnsureLoaded` as a mathematical value.
pub struct Loading {
    pub name: Seq<char>,
    pub attempt: usize,
    pub stage: LoadStage,
}

impl View for LoadPhase {
    type V = LoadStage;

    open spec fn view(&self) -> LoadStage {
        match *self {
            LoadPhase::Loading => LoadStage::Loading,
            LoadPhase::Identifying(polling) => LoadStage::Identifying(polling@),
            LoadPhase::Resting => LoadStage::Resting,
        }
    }
}

impl View for EnsureLoaded {
    type V = Loading;

    open spec fn view(&self) -> Loading {
        Loading { name: self.name@, attempt: self.attempt, stage: self.phase@ }
    }
}

/// The step that begins attempt `attempt` to load the model `name`.
pub open spec fn load_attempt(name: Seq<char>, attempt: usize) -> Move<Loading, Seq<char>> {
    Move::Continue(
        Loading { name, attempt, stage: LoadStage::Loading },
        Action::Run(Call::Cli(Request::ModelLoad(name))),
    )
}

/// The first step of the loading of the model `name`: the first attempt.
pub open spec fn ensure_loaded_start(name: Seq<char>) -> Move<Loading, Seq<char>> {
    load_attempt(name, 1)
}

/// The step after an attempt that failed: a pause, or `RetryExhausted` where
/// it was the last attempt.
pub open spec fn after_failed_attempt(name: Seq<char>, attempt: usize) -> Move<
    Loading,
    Seq<char>,
> {
    if attempt < LOAD_ATTEMPTS {
        Move::Continue(
            Loading { name, attempt, stage: LoadStage::Resting },
            Action::Sleep(LOAD_PAUSE_MS),
        )
    } else {
        Move::Failed(Failure::RetryExhausted(Operation::ModelLoad))
    }
}

/// A step of the question for the identifier as a step of the loading.
pub open spec fn identifying(
    name: Seq<char>,
    attempt: usize,
    step: Move<PollingModel, Option<Seq<char>>>,
) -> Move<Loading, Seq<char>> {
    match step {
        Move::Continue(polling, action) => Move::Continue(
            Loading { name, attempt, stage: LoadStage::Identifying(polling) },
            action,
        ),
        Move::Done(Some(id)) => Move::Done(id),
        _ => after_failed_attempt(name, attempt),
    }
}

/// The step that the loading takes on `answer`.
///
/// An attempt loads the model and then asks for its identifier, up to ten
/// times. The first identifier ends the task. An attempt fails where the load
/// request reports failure or the question for the identifier ends without
/// one; then the task pauses and begins the next attempt, and gives up after
/// the third. A load request that could not be run ends the task at once.
pub open spec fn ensure_loaded_step(task: Loading, answer: Answer) -> Move<
    Loading,
    Seq<char>,
> {
    match task.stage {
        LoadStage::Loading => match answer {
            Answer::Exited(result) => if result.exit_success {
                identifying(
                    task.name,
                    task.attempt,
                    polling_start(Watched::ModelId, model_id_policy()),
                )
            } else {
                after_failed_attempt(task.name, task.attempt)
            },
            other => Move::Failed(other.failure()),
        },
        LoadStage::Identifying(polling) => identifying(
            task.name,
            task.attempt,
            polling_step(polling, answer),
        ),
        LoadStage::Resting => if task.attempt < LOAD_ATTEMPTS {
            load_attempt(task.name, (task.attempt + 1) as usize)
        } else {
            Move::Failed(Failure::RetryExhausted(Operation::ModelLoad))
        },
    }
}

impl Loading {
    /// Whether the task can have come about by its own steps: the attempt
    /// has one of the three numbers, and the question for the identifier
    /// can have come about by its own steps.
    pub open spec fn wf(self) -> bool {
        &&& 1 <= self.attempt <= LOAD_ATTEMPTS
        &&& self.stage matches LoadStage::Identifying(polling) ==> polling.wf()
    }

    /// The most effects that the task can still ask for. An attempt asks for
    /// at most twenty-one: the load request, ten questions for the identifier
    /// with nine pauses between them, and the pause before the next attempt.
    pub open spec fn budget(self) -> int {
        (LOAD_ATTEMPTS - self.attempt) * 21 + match self.stage {
            LoadStage::Loading => 20,
            LoadStage::Identifying(polling) => polling_budget(polling) + 1,
            LoadStage::Resting => 0,
        }
    }
}

/// The loading of a model comes to an end: every step that goes on uses up
/// at least one effect of the budget, which never falls below zero, whatever
/// the answers are. From its first step on the task asks for no more than
/// sixty-two further effects.
pub proof fn lemma_loading_budget_shrinks(task: Loading, answer: Answer)
    requires
        task.wf(),
    ensures
        ensure_loaded_step(task, answer) matches Move::Continue(next, _) ==> {
            &&& next.wf()
            &&& 0 <= next.budget() < task.budget()
        },
        ensure_loaded_start(task.name) matches Move::Continue(first, _) && first.wf()
            && first.budget() == 62,
{
    if let LoadStage::Identifying(polling) = task.stage {
        lemma_polling_budget_shrinks(polling, answer);
    }
}

/// The loading of a model makes no more than three attempts: a step never
/// leads to an attempt with a higher number.
pub proof fn lemma_load_attempts_are_bounded(task: Loading, answer: Answer)
    requires
        1 <= task.attempt <= LOAD_ATTEMPTS,
    ensures
        ensure_loaded_step(task, answer) matches Move::Continue(next, action) ==> {
            &&& task.attempt <= next.attempt <= LOAD_ATTEMPTS
            &&& next.name == task.name
            &&& (action matches Action::Run(Call::Cli(Request::ModelLoad(name))) ==> name
                == task.name && next.attempt == task.attempt + 1 && task.stage is Resting)
        },
{
}

impl EnsureLoaded {
    /// The step that begins attempt `attempt` to load the model `name`.
    fn attempt(name: String, attempt: usize) -> (step: Step<EnsureLoaded, String>)
        ensures
            step@ == load_attempt(name@, attempt),
    {
        let verb = Verb::ModelLoad(name.clone());
        Step::Continue(
            EnsureLoaded { name, attempt, phase: LoadPhase::Loading },
            Effect::Run(Invocation::Cli(verb)),
        )
    }

    /// The step after an attempt that failed.
    fn fail_attempt(name: String, attempt: usize) -> (step: Step<EnsureLoaded, String>)
        ensures
            step@ == after_failed_attempt(name@, attempt),
    {
        if attempt < LOAD_ATTEMPTS {
            Step::Continue(
                EnsureLoaded { name, attempt, phase: LoadPhase::Resting },
                Effect::Sleep(LOAD_PAUSE_MS),
            )
        } else {
            Step::Failed(FoundryError::RetryExhausted(Operation::ModelLoad))
        }
    }

    /// A step of the question for the identifier as a step of the loading.
    fn identify(name: String, attempt: usize, step: Step<Polling, Option<String>>) -> (lifted: Step<
        EnsureLoaded,
        String,
    >)
        ensures
            lifted@ == identifying(name@, attempt, step@),
    {
        match step {
            Step::Continue(polling, effect) => Step::Continue(
                EnsureLoaded { name, attempt, phase: LoadPhase::Identifying(polling) },
                effect,
            ),
            Step::Done(Some(id)) => Step::Done(id),
            _ => EnsureLoaded::fail_attempt(name, attempt),
        }
    }

    /// Takes the step that `event` calls for.
    pub fn resume(self, event: &Event) -> (step: Step<EnsureLoaded, String>)
        ensures
            step@ == ensure_loaded_step(self@, event@),
    {
        let EnsureLoaded { name, attempt, phase } = self;
        match phase {
            LoadPhase::Loading => match event {
                Event::Exited(result) => if result.exit_success {
                    EnsureLoaded::identify(
                        name,
                        attempt,
                        FoundryManager::get_model_id_with_retry(
                            MODEL_ID_ATTEMPTS,
                            MODEL_ID_DELAY_MS,
                        ),
                    )
                } else {
                    EnsureLoaded::fail_attempt(name, attempt)
                },
                other => Step::Failed(other.failure()),
            },
            LoadPhase::Identifying(polling) => {
                let inner = polling.resume(event);
                EnsureLoaded::identify(name, attempt, inner)
            },
            LoadPhase::Resting => if attempt < LOAD_ATTEMPTS {
                EnsureLoaded::attempt(name, attempt + 1)
            } else {
                Step::Failed(FoundryError::RetryExhausted(Operation::ModelLoad))
            },
        }
    }
}

impl FoundryManager {
    /// Begins to make sure that the cache holds the model `model_name`.
    pub fn ensure_model_downloaded(model_name: &str) -> (step: Step<EnsureDownloaded, ()>)
        ensures
            step@ == ensure_downloaded_start(model_name@),
    {
        Step::Continue(
            EnsureDownloaded::AwaitCache(model_name.to_owned()),
            Effect::Run(Invocation::Cli(Verb::CacheList)),
        )
    }

    /// Begins to load the model `model_name` into the service. The task ends
    /// with the identifier under which the service lists the model.
    pub fn ensure_model_loaded(model_name: &str) -> (step: Step<EnsureLoaded, String>)
        ensures
            step@ == ensure_loaded_start(model_name@),
    {
        EnsureLoaded::attempt(model_name.to_owned(), 1)
    }
}

} // verus!
