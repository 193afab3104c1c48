//! Bounded polling: asking the same question again, with a pause between the
//! attempts, until the answer is yes or the attempts run out.

use crate::command::{Call, CommandOutcome, Invocation, Request, Verb};
use crate::error::{Failure, FoundryError, Operation};
use crate::manager::{model_cached, reported_model_id, service_ready, FoundryManager};
use crate::task::{Action, Answer, Effect, Event, Move, Step};
use vstd::prelude::*;

verus! {

/// How often a question is asked, and how long the pause between two
/// attempts is.
#[derive(Clone, Copy, Debug, PartialEq, Eq)]
pub struct RetryPolicy {
    /// The number of attempts. A policy with none fails at once.
    pub attempts: usize,
    /// The pause between two attempts, in milliseconds.
    pub delay_ms: u64,
}

impl RetryPolicy {
    /// Whether the policy allows an attempt.
    pub open spec fn wf(self) -> bool {
        self.attempts >= 1
    }

    /// The policy of `attempts` attempts, `delay_ms` milliseconds apart;
    /// `None` where `attempts` is zero.
    pub fn new(attempts: usize, delay_ms: u64) -> (policy: Option<RetryPolicy>)
        ensures
            policy == if attempts >= 1 {
                Some(RetryPolicy { attempts, delay_ms })
            } else {
                None
            },
            policy matches Some(p) ==> p.wf(),
    {
        if attempts >= 1 {
            Some(RetryPolicy { attempts, delay_ms })
        } else {
            None
        }
    }
}

/// What a polling task waits for.
#[derive(Clone, Debug, PartialEq, Eq)]
pub enum Watch {
    /// The named model appears in the cache.
    ModelCached(String),
    /// The service reports that it has finished starting.
    ServiceReady,
    /// The service lists the identifier of a loaded model.
    ModelId,
}

/// A `Watch` as a mathematical value.
pub enum Watched {
    ModelCached(Seq<char>),
    ServiceReady,
    ModelId,
}

impl View for Watch {
    type V = Watched;

    open spec fn view(&self) -> Watched {
        match *self {
            Watch::ModelCached(name) => Watched::ModelCached(name@),
            Watch::ServiceReady => Watched::ServiceReady,
            Watch::ModelId => Watched::ModelId,
        }
    }
}

/// What one attempt saw.
pub enum Sighting {
    /// What is waited for is there; a model identifier comes with it.
    Seen(Option<Seq<char>>),
    /// It is not there yet, or the attempt failed in a way that may pass.
    NotYet,
    /// The attempt failed for good.
    Lost(Failure),
}

/// The sighting that a failed question stands for.
pub open spec fn sighting_of_failure(e: Failure) -> Sighting {
    if e.is_transient() {
        Sighting::NotYet
    } else {
        Sighting::Lost(e)
    }
}

impl Watched {
    /// The request that asks the question.
    pub open spec fn request(self) -> Request {
        match self {
            Watched::ModelCached(_) => Request::CacheList,
            Watched::ServiceReady => Request::ServiceStatus,
            Watched::ModelId => Request::ServiceList,
        }
    }

    /// The operation that is named when the attempts run out.
    pub open spec fn operation(self) -> Operation {
        match self {
            Watched::ModelCached(_) => Operation::ModelCached,
            Watched::ServiceReady => Operation::ServiceReady,
            Watched::ModelId => Operation::ModelId,
        }
    }

    /// What the result of the request shows.
    pub open spec fn sighting(self, result: CommandOutcome) -> Sighting {
        match self {
            Watched::ModelCached(name) => match model_cached(name, result) {
                Ok(true) => Sighting::Seen(None),
                Ok(false) => Sighting::NotYet,
                Err(e) => sighting_of_failure(e),
            },
            Watched::ServiceReady => match service_ready(result) {
                Ok(true) => Sighting::Seen(None),
                Ok(false) => Sighting::NotYet,
                Err(e) => sighting_of_failure(e),
            },
            Watched::ModelId => match reported_model_id(result) {
                Ok(Some(id)) => Sighting::Seen(Some(id)),
                Ok(None) => Sighting::NotYet,
                Err(e) => sighting_of_failure(e),
            },
        }
    }

    /// Whether `answer` is the result of an attempt that did not see what is
    /// waited for and did not fail for good.
    pub open spec fn misses(self, answer: Answer) -> bool {
        answer matches Answer::Exited(result) && self.sighting(result) is NotYet
    }
}

impl Watch {
    /// The request that asks the question.
    pub fn verb(&self) -> (verb: Verb)
        ensures
            verb@ == self@.request(),
    {
        match self {
            Watch::ModelCached(_) => Verb::CacheList,
            Watch::ServiceReady => Verb::ServiceStatus,
            Watch::ModelId => Verb::ServiceList,
        }
    }

    /// The operation that is named when the attempts run out.
    pub fn operation(&self) -> (operation: Operation)
        ensures
            operation == self@.operation(),
    {
        match self {
            Watch::ModelCached(_) => Operation::ModelCached,
            Watch::ServiceReady => Operation::ServiceReady,
            Watch::ModelId => Operation::ModelId,
        }
    }
}

/// A polling task between two of its steps.
#[derive(Clone, Debug, PartialEq, Eq)]
pub struct Polling {
    /// What is waited for.
    pub watch: Watch,
    /// How often and how far apart the question is asked.
    pub policy: RetryPolicy,
    /// The number of attempts made, the one under way included.
    pub made: usize,
    /// Whether the task pauses: the last attempt is over and the next has
    /// not begun.
    pub resting: bool,
}

/// A `Polling` as a mathematical value.
pub struct PollingModel {
    pub watch: Watched,
    pub policy: RetryPolicy,
    pub made: usize,
    pub resting: bool,
}

impl PollingModel {
    /// Whether the task can have come about by its own steps: it has made
    /// no more attempts than its policy allows, and pauses only where an
    /// attempt is left.
    pub open spec fn wf(self) -> bool {
        &&& self.made <= self.policy.attempts
        &&& self.resting ==> self.made < self.policy.attempts
    }
}

impl View for Polling {
    type V = PollingModel;

    open spec fn view(&self) -> PollingModel {
        PollingModel {
            watch: self.watch@,
            policy: self.policy,
            made: self.made,
            resting: self.resting,
        }
    }
}

/// The first step of a polling task: the first attempt, or failure where the
/// policy allows none.
pub open spec fn polling_start(watch: Watched, policy: RetryPolicy) -> Move<
    PollingModel,
    Option<Seq<char>>,
> {
    if policy.attempts >= 1 {
        Move::Continue(
            PollingModel { watch, policy, made: 1, resting: false },
            Action::Run(Call::Cli(watch.request())),
        )
    } else {
        Move::Failed(Failure::Timeout(watch.operation()))
    }
}

/// The step that a polling task takes on `answer`.
///
/// After a pause the next attempt begins. After an attempt the task is done
/// where the attempt saw what is waited for, fails where it failed for good,
/// and else pauses, or fails with `Timeout` where no attempt is left.
pub open spec fn polling_step(task: PollingModel, answer: Answer) -> Move<
    PollingModel,
    Option<Seq<char>>,
> {
    if task.resting {
        if task.made < task.policy.attempts {
            Move::Continue(
                PollingModel { made: (task.made + 1) as usize, resting: false, ..task },
                Action::Run(Call::Cli(task.watch.request())),
            )
        } else {
            Move::Failed(Failure::Timeout(task.watch.operation()))
        }
    } else {
        match answer {
            Answer::Exited(result) => match task.watch.sighting(result) {
                Sighting::Seen(value) => Move::Done(value),
                Sighting::Lost(e) => Move::Failed(e),
                Sighting::NotYet => if task.made < task.policy.attempts {
                    Move::Continue(
                        PollingModel { resting: true, ..task },
                        Action::Sleep(task.policy.delay_ms),
                    )
                } else {
                    Move::Failed(Failure::Timeout(task.watch.operation()))
                },
            },
            other => Move::Failed(other.failure()),
        }
    }
}

/// Where a polling task stands, and what it has cost so far.
pub struct PollingRun {
    /// The last step taken.
    pub step: Move<PollingModel, Option<Seq<char>>>,
    /// The number of attempts begun.
    pub queries: nat,
    /// The milliseconds spent in pauses.
    pub slept: nat,
}

/// The run of a polling task whose attempts end with the answers `answers`,
/// one after the other, and whose pauses all end.
pub open spec fn polling_run(
    watch: Watched,
    policy: RetryPolicy,
    answers: Seq<Answer>,
) -> PollingRun
    decreases answers.len(),
{
    if answers.len() == 0 {
        let step = polling_start(watch, policy);
        PollingRun { step, queries: if step is Continue { 1 } else { 0 }, slept: 0 }
    } else {
        let before = polling_run(watch, policy, answers.drop_last());
        match before.step {
            Move::Continue(task, Action::Run(_)) => match polling_step(task, answers.last()) {
                Move::Continue(pause, Action::Sleep(millis)) => {
                    let step = polling_step(pause, Answer::Woke);
                    PollingRun {
                        step,
                        queries: before.queries + if step is Continue { 1nat } else { 0nat },
                        slept: before.slept + millis as nat,
                    }
                },
                step => PollingRun { step, ..before },
            },
            _ => before,
        }
    }
}

/// A polling task never makes more attempts than its policy allows, whatever
/// the answers are.
pub proof fn lemma_polling_is_bounded(watch: Watched, policy: RetryPolicy, answers: Seq<Answer>)
    ensures
        polling_run(watch, policy, answers).queries <= policy.attempts,
        polling_run(watch, policy, answers).queries <= answers.len() + 1,
        polling_run(watch, policy, answers).step matches Move::Continue(task, _) ==> task.made
            == polling_run(watch, policy, answers).queries && task.watch == watch && task.policy
            == policy,
    decreases answers.len(),
{
    if answers.len() > 0 {
        lemma_polling_is_bounded(watch, policy, answers.drop_last());
    }
}

/// The most effects that a polling task can still ask for: two for every
/// attempt that is left, a pause and a question, and one less while it
/// pauses.
pub open spec fn polling_budget(task: PollingModel) -> int {
    2 * (task.policy.attempts - task.made) - if task.resting {
        1int
    } else {
        0int
    }
}

/// Every step of a polling task that goes on uses up one effect of its
/// budget, and the budget never falls below zero: the task ends after a
/// number of steps that its policy bounds, whatever the answers are.
pub proof fn lemma_polling_budget_shrinks(task: PollingModel, answer: Answer)
    requires
        task.wf(),
    ensures
        polling_budget(task) >= 0,
        polling_step(task, answer) matches Move::Continue(next, _) ==> {
            &&& next.wf()
            &&& polling_budget(next) == polling_budget(task) - 1
            &&& polling_budget(next) >= 0
        },
{
}

/// A polling task whose attempts all miss goes on as long as an attempt is
/// left: after `k` misses, with `k` below the number of attempts, attempt
/// `k + 1` is under way and `k` pauses have been made. When the last attempt
/// has missed too the task fails with `Timeout`, having made every attempt
/// and one pause less.
pub proof fn lemma_polling_times_out(watch: Watched, policy: RetryPolicy, answers: Seq<Answer>)
    requires
        policy.wf(),
        answers.len() <= policy.attempts,
        forall|i: int| 0 <= i < answers.len() ==> watch.misses(#[trigger] answers[i]),
    ensures
        answers.len() < policy.attempts ==> polling_run(watch, policy, answers) == (PollingRun {
            step: Move::Continue(
                PollingModel {
                    watch,
                    policy,
                    made: (answers.len() + 1) as usize,
                    resting: false,
                },
                Action::Run(Call::Cli(watch.request())),
            ),
            queries: answers.len() + 1,
            slept: answers.len() * policy.delay_ms as nat,
        }),
        answers.len() == policy.attempts ==> polling_run(watch, policy, answers) == (PollingRun {
            step: Move::Failed(Failure::Timeout(watch.operation())),
            queries: policy.attempts as nat,
            slept: ((policy.attempts - 1) * policy.delay_ms) as nat,
        }),
    decreases answers.len(),
{
    if answers.len() > 0 {
        let earlier = answers.drop_last();
        assert forall|i: int| 0 <= i < earlier.len() implies watch.misses(
            #[trigger] earlier[i],
        ) by {
            assert(earlier[i] == answers[i]);
        }
        lemma_polling_times_out(watch, policy, earlier);
        assert(watch.misses(answers[answers.len() - 1]));
        let k = earlier.len();
        let d = policy.delay_ms as nat;
        assert((k + 1) * d == k * d + d) by (nonlinear_arith);
    }
}

impl FoundryManager {
    /// Begins to wait for the service to report that it has finished
    /// starting: `attempts` looks at its status, `delay_ms` milliseconds
    /// apart. The task ends with `None`.
    pub fn wait_for_service_ready(attempts: usize, delay_ms: u64) -> (step: Step<
        Polling,
        Option<String>,
    >)
        ensures
            step@ == polling_start(Watched::ServiceReady, RetryPolicy { attempts, delay_ms }),
    {
        Polling::start(Watch::ServiceReady, RetryPolicy { attempts, delay_ms })
    }

    /// Begins to ask for the identifier of the loaded model: `attempts`
    /// looks at the service listing, `delay_ms` milliseconds apart. The task
    /// ends with the identifier.
    pub fn get_model_id_with_retry(attempts: usize, delay_ms: u64) -> (step: Step<
        Polling,
        Option<String>,
    >)
        ensures
            step@ == polling_start(Watched::ModelId, RetryPolicy { attempts, delay_ms }),
    {
        Polling::start(Watch::ModelId, RetryPolicy { attempts, delay_ms })
    }
}

/// Begins to wait for the model `model_name` to appear in the cache:
/// `attempts` looks at the cache listing, `delay_ms` milliseconds apart. The
/// task ends with `None`.
pub fn wait_for_model_cached(model_name: &str, attempts: usize, delay_ms: u64) -> (step: Step<
    Polling,
    Option<String>,
>)
    ensures
        step@ == polling_start(
            Watched::ModelCached(model_name@),
            RetryPolicy { attempts, delay_ms },
        ),
{
    Polling::start(Watch::ModelCached(model_name.to_owned()), RetryPolicy { attempts, delay_ms })
}

impl Polling {
    /// The first step of the task that waits for `watch` under `policy`.
    pub fn start(watch: Watch, policy: RetryPolicy) -> (step: Step<Polling, Option<String>>)
        ensures
            step@ == polling_start(watch@, policy),
    {
        if policy.attempts >= 1 {
            let verb = watch.verb();
            Step::Continue(
                Polling { watch, policy, made: 1, resting: false },
                Effect::Run(Invocation::Cli(verb)),
            )
        } else {
            Step::Failed(FoundryError::Timeout(watch.operation()))
        }
    }

    /// What the result of an attempt leads to where it saw nothing: a pause,
    /// or `Timeout` where no attempt is left.
    fn after_miss(self) -> (step: Step<Polling, Option<String>>)
        requires
            !self.resting,
        ensures
            step@ == (if self.made < self.policy.attempts {
                Move::<PollingModel, Option<Seq<char>>>::Continue(
                    PollingModel { resting: true, ..self@ },
                    Action::Sleep(self.policy.delay_ms),
                )
            } else {
                Move::Failed(Failure::Timeout(self.watch@.operation()))
            }),
    {
        if self.made < self.policy.attempts {
            let delay = self.policy.delay_ms;
            Step::Continue(Polling { resting: true, ..self }, Effect::Sleep(delay))
        } else {
            Step::Failed(FoundryError::Timeout(self.watch.operation()))
        }
    }

    /// What a failed question leads to: the same as a miss where the failure
    /// may pass, else the end of the task.
    fn after_failure(self, e: FoundryError) -> (step: Step<Polling, Option<String>>)
        requires
            !self.resting,
        ensures
            step@ == (match sighting_of_failure(e@) {
                Sighting::NotYet => if self.made < self.policy.attempts {
                    Move::<PollingModel, Option<Seq<char>>>::Continue(
                        PollingModel { resting: true, ..self@ },
                        Action::Sleep(self.policy.delay_ms),
                    )
                } else {
                    Move::Failed(Failure::Timeout(self.watch@.operation()))
                },
                _ => Move::Failed(e@),
            }),
    {
        if e.is_transient() {
            self.after_miss()
        } else {
            Step::Failed(e)
        }
    }

    /// Takes the step that `event` calls for.
    pub fn resume(self, event: &Event) -> (step: Step<Polling, Option<String>>)
        ensures
            step@ == polling_step(self@, event@),
    {
        if self.resting {
            if self.made < self.policy.attempts {
                let verb = self.watch.verb();
                let made = self.made + 1;
                return Step::Continue(
                    Polling { made, resting: false, ..self },
                    Effect::Run(Invocation::Cli(verb)),
                );
            }
            return Step::Failed(FoundryError::Timeout(self.watch.operation()));
        }
        let result = match event {
            Event::Exited(result) => result,
            other => {
                return Step::Failed(other.failure());
            },
        };
        match &self.watch {
            Watch::ModelCached(name) => match FoundryManager::is_model_cached(
                name.as_str(),
                result,
            ) {
                Ok(true) => Step::Done(None),
                Ok(false) => self.after_miss(),
                Err(e) => self.after_failure(e),
            },
            Watch::ServiceReady => match FoundryManager::is_service_ready(result) {
                Ok(true) => Step::Done(None),
                Ok(false) => self.after_miss(),
                Err(e) => self.after_failure(e),
            },
            Watch::ModelId => match FoundryManager::get_model_id_once(result) {
                Ok(Some(id)) => Step::Done(Some(id)),
                Ok(None) => self.after_miss(),
                Err(e) => self.after_failure(e),
            },
        }
    }
}

} // verus!
