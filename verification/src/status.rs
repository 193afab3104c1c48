//! What the caller is told about the service: where it answers, and the
//! state of the whole installation at one moment.

use crate::command::{Call, CommandOutcome, CommandResult, Invocation, Request, Verb};
use crate::error::{Failure, FoundryError, Field};
use crate::manager::{
    model_cached, reported_endpoint, reported_model_id, service_ready, service_running,
    FoundryManager,
};
use crate::model::{model_id_policy, MODEL_ID_ATTEMPTS, MODEL_ID_DELAY_MS};
use crate::parser::{ends_with_version_segment, lemma_endpoint_ends_with_version_segment};
use crate::polling::{polling_start, polling_step, Polling, PollingModel, Watched};
use crate::probe::{finds_absent, install_check_step, InstallCheck};
use crate::task::{Action, Answer, Effect, Event, Move, Step};
use vstd::prelude::*;

verus! {

/// Where the service answers inference requests, and for which model.
#[derive(Clone, Debug, PartialEq, Eq)]
pub struct FoundryConfig {
    /// The address of the endpoint.
    pub endpoint_url: String,
    /// The identifier of the loaded model.
    pub model_id: String,
}

/// A `FoundryConfig` as a mathematical value.
pub struct EndpointInfo {
    pub base_url: Seq<char>,
    pub model_id: Seq<char>,
}

impl EndpointInfo {
    /// Whether the address ends with the version segment.
    pub open spec fn wf(self) -> bool {
        ends_with_version_segment(self.base_url)
    }
}

impl View for FoundryConfig {
    type V = EndpointInfo;

    open spec fn view(&self) -> EndpointInfo {
        EndpointInfo { base_url: self.endpoint_url@, model_id: self.model_id@ }
    }
}

impl DeepView for FoundryConfig {
    type V = EndpointInfo;

    open spec fn deep_view(&self) -> EndpointInfo {
        self@
    }
}

/// The state of the installation at one moment.
#[derive(Clone, Debug, PartialEq, Eq)]
pub struct FoundryStatus {
    /// Whether the program is installed.
    pub installed: bool,
    /// Whether the service runs.
    pub running: bool,
    /// Where the service answers, if that could be read.
    pub endpoint_url: Option<String>,
    /// The identifier of the loaded model, if there is one and it could be
    /// read.
    pub model_id: Option<String>,
    /// Whether the cache holds the model that was asked for.
    pub model_cached: bool,
}

/// A `FoundryStatus` as a mathematical value.
pub struct ServiceSnapshot {
    pub installed: bool,
    pub running: bool,
    pub endpoint_url: Option<Seq<char>>,
    pub model_id: Option<Seq<char>>,
    pub model_cached: bool,
}

impl ServiceSnapshot {
    /// Whether the snapshot can be true of an installation: a service that
    /// does not run has no endpoint and no model, and only an installed
    /// program runs.
    pub open spec fn wf(self) -> bool {
        &&& !self.running ==> self.endpoint_url is None && self.model_id is None
        &&& !self.installed ==> !self.running
    }

    /// Whether the address in the snapshot, if there is one, is an endpoint
    /// address: one that ends with the version segment.
    pub open spec fn normalized(self) -> bool {
        self.endpoint_url matches Some(url) ==> ends_with_version_segment(url)
    }

    /// The snapshot of an installation of which only `installed` is known to
    /// hold or not, and nothing runs.
    pub open spec fn stopped(installed: bool) -> ServiceSnapshot {
        ServiceSnapshot {
            installed,
            running: false,
            endpoint_url: None,
            model_id: None,
            model_cached: false,
        }
    }
}

impl View for FoundryStatus {
    type V = ServiceSnapshot;

    open spec fn view(&self) -> ServiceSnapshot {
        ServiceSnapshot {
            installed: self.installed,
            running: self.running,
            endpoint_url: self.endpoint_url.deep_view(),
            model_id: self.model_id.deep_view(),
            model_cached: self.model_cached,
        }
    }
}

impl DeepView for FoundryStatus {
    type V = ServiceSnapshot;

    open spec fn deep_view(&self) -> ServiceSnapshot {
        self@
    }
}

impl FoundryStatus {
    /// The status of an installation in which nothing runs.
    pub fn stopped(installed: bool) -> (status: FoundryStatus)
        ensures
            status@ == ServiceSnapshot::stopped(installed),
            status@.wf(),
    {
        FoundryStatus {
            installed,
            running: false,
            endpoint_url: None,
            model_id: None,
            model_cached: false,
        }
    }
}

/// Where the service stands in its life, as far as that can be told from
/// outside. The service is never seen to move: a state is what the last look
/// at it showed.
#[derive(Clone, Copy, Debug, PartialEq, Eq, Structural)]
pub enum ServiceState {
    /// The program is not installed.
    Uninstalled,
    /// The program is installed and the service does not run.
    InstalledStopped,
    /// The service was asked to start and does not run yet.
    Starting,
    /// The service runs and has not finished starting.
    RunningUnready,
    /// The service runs and answers.
    Ready,
}

/// The state that a look at the service shows. `installed` is the answer of
/// the installation check, `start_requested` says whether the caller has
/// asked the service to start, and `status` is the result of the status
/// request, if the program ran.
pub open spec fn observed_state(
    installed: bool,
    start_requested: bool,
    status: Option<CommandOutcome>,
) -> ServiceState {
    if !installed {
        ServiceState::Uninstalled
    } else if status matches Some(text) && service_ready(text) == Ok::<bool, Failure>(true) {
        ServiceState::Ready
    } else if status matches Some(text) && service_running(text) == Ok::<bool, Failure>(true) {
        ServiceState::RunningUnready
    } else if start_requested {
        ServiceState::Starting
    } else {
        ServiceState::InstalledStopped
    }
}

impl ServiceState {
    /// Tells from a look at the service where it stands.
    pub fn observe(
        installed: bool,
        start_requested: bool,
        status: Option<&CommandResult>,
    ) -> (state: ServiceState)
        ensures
            state == observed_state(installed, start_requested, status.deep_view()),
    {
        if !installed {
            return ServiceState::Uninstalled;
        }
        let (running, ready) = match status {
            Some(text) => (
                match FoundryManager::is_service_running(text) {
                    Ok(running) => running,
                    Err(_) => false,
                },
                match FoundryManager::is_service_ready(text) {
                    Ok(ready) => ready,
                    Err(_) => false,
                },
            ),
            None => (false, false),
        };
        if ready {
            ServiceState::Ready
        } else if running {
            ServiceState::RunningUnready
        } else if start_requested {
            ServiceState::Starting
        } else {
            ServiceState::InstalledStopped
        }
    }
}

/// The discovery of the endpoint between two of its steps.
#[derive(Clone, Debug, PartialEq, Eq)]
pub enum EndpointQuery {
    /// The status request is under way, to read the address.
    AwaitStatus,
    /// The address is known; the identifier of the model is asked for.
    Identifying(String, Polling),
}

/// An `EndpointQuery` as a mathematical value.
pub enum EndpointStage {
    AwaitStatus,
    Identifying(Seq<char>, PollingModel),
}

impl EndpointStage {
    /// Whether the address that the task holds ends with the version
    /// segment.
    pub open spec fn wf(self) -> bool {
        self matches EndpointStage::Identifying(url, _) ==> ends_with_version_segment(url)
    }
}

impl View for EndpointQuery {
    type V = EndpointStage;

    open spec fn view(&self) -> EndpointStage {
        match *self {
            EndpointQuery::AwaitStatus => EndpointStage::AwaitStatus,
            EndpointQuery::Identifying(url, polling) => EndpointStage::Identifying(url@, polling@),
        }
    }
}

/// The first step of the discovery of the endpoint: the status request.
pub open spec fn endpoint_info_start() -> Move<EndpointStage, EndpointInfo> {
    Move::Continue(EndpointStage::AwaitStatus, Action::Run(Call::Cli(Request::ServiceStatus)))
}

/// A step of the question for the identifier as a step of the discovery.
pub open spec fn naming(url: Seq<char>, step: Move<PollingModel, Option<Seq<char>>>) -> Move<
    EndpointStage,
    EndpointInfo,
> {
    match step {
        Move::Continue(polling, action) => Move::Continue(
            EndpointStage::Identifying(url, polling),
            action,
        ),
        Move::Done(Some(id)) => Move::Done(EndpointInfo { base_url: url, model_id: id }),
        Move::Done(None) => Move::Failed(Failure::ParseNotFound(Field::ModelId)),
        Move::Failed(e) => Move::Failed(e),
    }
}

/// The step that the discovery of the endpoint takes on `answer`.
///
/// The address is read once, from one status text, and the task fails where
/// it is not there. The identifier of the model is then asked for up to ten
/// times: it tends to show up later than the address.
pub open spec fn endpoint_info_step(task: EndpointStage, answer: Answer) -> Move<
    EndpointStage,
    EndpointInfo,
> {
    match task {
        EndpointStage::AwaitStatus => match answer {
            Answer::Exited(status) => match reported_endpoint(status) {
                Ok(url) => naming(url, polling_start(Watched::ModelId, model_id_policy())),
                Err(e) => Move::Failed(e),
            },
            other => Move::Failed(other.failure()),
        },
        EndpointStage::Identifying(url, polling) => naming(
            url,
            polling_step(polling, answer),
        ),
    }
}

/// The address that the discovery ends with is an endpoint address: it ends
/// with the version segment, whatever the program printed.
pub proof fn lemma_endpoint_info_is_normalized(task: EndpointStage, answer: Answer)
    requires
        task.wf(),
    ensures
        match endpoint_info_step(task, answer) {
            Move::Continue(next, _) => next.wf(),
            Move::Done(info) => info.wf(),
            Move::Failed(_) => true,
        },
{
    if let Answer::Exited(status) = answer {
        lemma_endpoint_ends_with_version_segment(status.stdout);
    }
}

/// A step of the question for the identifier as a step of the discovery.
fn name_model(url: String, step: Step<Polling, Option<String>>) -> (lifted: Step<
    EndpointQuery,
    FoundryConfig,
>)
    ensures
        lifted@ == naming(url@, step@),
{
    match step {
        Step::Continue(polling, effect) => Step::Continue(
            EndpointQuery::Identifying(url, polling),
            effect,
        ),
        Step::Done(Some(id)) => Step::Done(FoundryConfig { endpoint_url: url, model_id: id }),
        Step::Done(None) => Step::Failed(FoundryError::ParseNotFound(Field::ModelId)),
        Step::Failed(e) => Step::Failed(e),
    }
}

impl EndpointQuery {
    /// Takes the step that `event` calls for. An address that the task
    /// holds or ends with is an endpoint address.
    pub fn resume(self, event: &Event) -> (step: Step<EndpointQuery, FoundryConfig>)
        ensures
            step@ == endpoint_info_step(self@, event@),
            self@.wf() ==> match step {
                Step::Continue(next, _) => next@.wf(),
                Step::Done(config) => config@.wf(),
                Step::Failed(_) => true,
            },
    {
        proof {
            if self@.wf() {
                lemma_endpoint_info_is_normalized(self@, event@);
            }
        }
        match self {
            EndpointQuery::AwaitStatus => match event {
                Event::Exited(status) => match FoundryManager::get_endpoint_url(status) {
                    Ok(url) => name_model(
                        url,
                        FoundryManager::get_model_id_with_retry(
                            MODEL_ID_ATTEMPTS,
                            MODEL_ID_DELAY_MS,
                        ),
                    ),
                    Err(e) => Step::Failed(e),
                },
                other => Step::Failed(other.failure()),
            },
            EndpointQuery::Identifying(url, polling) => {
                let inner = polling.resume(event);
                name_model(url, inner)
            },
        }
    }
}

/// The status query between two of its steps. The name is that of the model
/// that the cache is asked for.
#[derive(Clone, Debug, PartialEq, Eq)]
pub enum StatusQuery {
    /// The installation check is under way.
    Checking(InstallCheck, String),
    /// The status request is under way, to see whether the service runs.
    AwaitRunning(String),
    /// The cache listing is under way.
    AwaitCache(String),
    /// The status request is under way, to read the address. The flag says
    /// whether the cache holds the model.
    AwaitEndpoint(bool),
    /// The service listing is under way, to read the identifier of the
    /// loaded model. The flag and the address are what is known so far.
    AwaitModelId(bool, Option<String>),
}

/// A `StatusQuery` as a mathematical value.
pub enum StatusStage {
    Checking(InstallCheck, Seq<char>),
    AwaitRunning(Seq<char>),
    AwaitCache(Seq<char>),
    AwaitEndpoint(bool),
    AwaitModelId(bool, Option<Seq<char>>),
}

impl View for StatusQuery {
    type V = StatusStage;

    open spec fn view(&self) -> StatusStage {
        match *self {
            StatusQuery::Checking(check, name) => StatusStage::Checking(check, name@),
            StatusQuery::AwaitRunning(name) => StatusStage::AwaitRunning(name@),
            StatusQuery::AwaitCache(name) => StatusStage::AwaitCache(name@),
            StatusQuery::AwaitEndpoint(cached) => StatusStage::AwaitEndpoint(cached),
            StatusQuery::AwaitModelId(cached, url) => StatusStage::AwaitModelId(
                cached,
                url.deep_view(),
            ),
        }
    }
}

impl StatusStage {
    /// Whether the address that the task holds, if it holds one, ends with
    /// the version segment.
    pub open spec fn wf(self) -> bool {
        self matches StatusStage::AwaitModelId(_, Some(url)) ==> ends_with_version_segment(url)
    }
}

/// The first step of the status query that asks the cache for the model
/// `model_name`: the installation check.
pub open spec fn status_start(model_name: Seq<char>) -> Move<StatusStage, ServiceSnapshot> {
    Move::Continue(
        StatusStage::Checking(InstallCheck::AwaitHelp, model_name),
        Action::Run(Call::Cli(Request::Help)),
    )
}

/// Whether `answer` shows that the service runs.
pub open spec fn shows_running(answer: Answer) -> bool {
    answer matches Answer::Exited(status) && service_running(status) == Ok::<bool, Failure>(true)
}

/// Whether `answer` shows that the cache holds the model `model_name`.
pub open spec fn shows_cached(model_name: Seq<char>, answer: Answer) -> bool {
    answer matches Answer::Exited(listing) && model_cached(model_name, listing) == Ok::<
        bool,
        Failure,
    >(true)
}

/// The address that `answer` shows, if it shows one.
pub open spec fn shown_endpoint(answer: Answer) -> Option<Seq<char>> {
    match answer {
        Answer::Exited(status) => match reported_endpoint(status) {
            Ok(url) => Some(url),
            Err(_) => None,
        },
        _ => None,
    }
}

/// The identifier of the loaded model that `answer` shows, if it shows one.
pub open spec fn shown_model_id(answer: Answer) -> Option<Seq<char>> {
    match answer {
        Answer::Exited(listing) => match reported_model_id(listing) {
            Ok(found) => found,
            Err(_) => None,
        },
        _ => None,
    }
}

/// The step that the status query takes on `answer`.
///
/// The questions are asked in the order in which they depend on each other:
/// whether the program is installed, whether the service runs, and then, of a
/// running service only, whether the cache holds the model, where the
/// service answers and which model it has loaded. A question that fails
/// leaves its field at the value that stands for "absent"; the query itself
/// never fails.
pub open spec fn status_step(task: StatusStage, answer: Answer) -> Move<
    StatusStage,
    ServiceSnapshot,
> {
    match task {
        StatusStage::Checking(check, name) => match install_check_step(check, answer) {
            Move::Continue(next, action) => Move::Continue(
                StatusStage::Checking(next, name),
                action,
            ),
            Move::Done(true) => Move::Continue(
                StatusStage::AwaitRunning(name),
                Action::Run(Call::Cli(Request::ServiceStatus)),
            ),
            _ => Move::Done(ServiceSnapshot::stopped(false)),
        },
        StatusStage::AwaitRunning(name) => if shows_running(answer) {
            Move::Continue(
                StatusStage::AwaitCache(name),
                Action::Run(Call::Cli(Request::CacheList)),
            )
        } else {
            Move::Done(ServiceSnapshot::stopped(true))
        },
        StatusStage::AwaitCache(name) => Move::Continue(
            StatusStage::AwaitEndpoint(shows_cached(name, answer)),
            Action::Run(Call::Cli(Request::ServiceStatus)),
        ),
        StatusStage::AwaitEndpoint(cached) => Move::Continue(
            StatusStage::AwaitModelId(cached, shown_endpoint(answer)),
            Action::Run(Call::Cli(Request::ServiceList)),
        ),
        StatusStage::AwaitModelId(cached, url) => Move::Done(
            ServiceSnapshot {
                installed: true,
                running: true,
                endpoint_url: url,
                model_id: shown_model_id(answer),
                model_cached: cached,
            },
        ),
    }
}

/// The status query never fails, and every snapshot it ends with can be true
/// of an installation.
pub proof fn lemma_status_is_consistent(task: StatusStage, answer: Answer)
    ensures
        match status_step(task, answer) {
            Move::Continue(_, _) => true,
            Move::Done(snapshot) => snapshot.wf(),
            Move::Failed(_) => false,
        },
{
}

/// The address in a snapshot is an endpoint address: it ends with the
/// version segment, whatever the program printed.
pub proof fn lemma_status_reports_endpoint_address(task: StatusStage, answer: Answer)
    requires
        task.wf(),
    ensures
        match status_step(task, answer) {
            Move::Continue(next, _) => next.wf(),
            Move::Done(snapshot) => snapshot.normalized(),
            Move::Failed(_) => true,
        },
{
    if let Answer::Exited(status) = answer {
        lemma_endpoint_ends_with_version_segment(status.stdout);
    }
}

/// Where the status query stands when, from the step `step` on, its
/// effects end with the answers `answers`, one after the other.
pub open spec fn status_after(step: Move<StatusStage, ServiceSnapshot>, answers: Seq<Answer>) -> Move<
    StatusStage,
    ServiceSnapshot,
>
    decreases answers.len(),
{
    if answers.len() == 0 {
        step
    } else {
        match step {
            Move::Continue(task, _) => status_after(
                status_step(task, answers[0]),
                answers.skip(1),
            ),
            done => done,
        }
    }
}

/// The snapshot of a running service. Where the help request succeeds, the
/// status text shows a running service, the second status text reports the
/// address `url` and the service listing the identifier `id`, the query
/// ends after these five answers, and its snapshot says that the program is
/// installed and the service runs, gives `url` and `id`, and says of the
/// cache what the cache listing shows for the model.
pub proof fn lemma_status_of_running_service(
    model_name: Seq<char>,
    help: CommandOutcome,
    status: CommandOutcome,
    cache: CommandOutcome,
    again: CommandOutcome,
    listing: CommandOutcome,
    url: Seq<char>,
    id: Seq<char>,
)
    requires
        help.exit_success,
        service_running(status) == Ok::<bool, Failure>(true),
        reported_endpoint(again) == Ok::<Seq<char>, Failure>(url),
        reported_model_id(listing) == Ok::<Option<Seq<char>>, Failure>(Some(id)),
    ensures
        status_after(
            status_start(model_name),
            seq![
                Answer::Exited(help),
                Answer::Exited(status),
                Answer::Exited(cache),
                Answer::Exited(again),
                Answer::Exited(listing),
            ],
        ) == Move::<StatusStage, ServiceSnapshot>::Done(
            ServiceSnapshot {
                installed: true,
                running: true,
                endpoint_url: Some(url),
                model_id: Some(id),
                model_cached: model_cached(model_name, cache) == Ok::<bool, Failure>(true),
            },
        ),
{
    let a0 = Answer::Exited(help);
    let a1 = Answer::Exited(status);
    let a2 = Answer::Exited(cache);
    let a3 = Answer::Exited(again);
    let a4 = Answer::Exited(listing);
    let all = seq![a0, a1, a2, a3, a4];
    assert(all.skip(1) =~= seq![a1, a2, a3, a4]);
    assert(seq![a1, a2, a3, a4].skip(1) =~= seq![a2, a3, a4]);
    assert(seq![a2, a3, a4].skip(1) =~= seq![a3, a4]);
    assert(seq![a3, a4].skip(1) =~= seq![a4]);
    assert(seq![a4].skip(1) =~= Seq::<Answer>::empty());
    reveal_with_fuel(status_after, 6);
}

/// Where the installation check finds that the program is not installed the
/// status query ends there and then, with the snapshot in which nothing is
/// installed, runs or is known: the program is not run again.
pub proof fn lemma_absent_program_ends_status(
    check: InstallCheck,
    model_name: Seq<char>,
    answer: Answer,
)
    requires
        finds_absent(check, answer),
    ensures
        status_step(StatusStage::Checking(check, model_name), answer) == Move::<
            StatusStage,
            ServiceSnapshot,
        >::Done(ServiceSnapshot::stopped(false)),
{
}

impl StatusQuery {
    /// Takes the step that `event` calls for.
    pub fn resume(self, event: &Event) -> (step: Step<StatusQuery, FoundryStatus>)
        ensures
            step@ == status_step(self@, event@),
            step matches Step::Done(status) ==> status@.wf(),
            !(step is Failed),
            self@.wf() ==> match step {
                Step::Continue(next, _) => next@.wf(),
                Step::Done(status) => status@.normalized(),
                Step::Failed(_) => true,
            },
    {
        proof {
            if self@.wf() {
                lemma_status_reports_endpoint_address(self@, event@);
            }
        }
        match self {
            StatusQuery::Checking(check, name) => match check.resume(event) {
                Step::Continue(next, effect) => Step::Continue(
                    StatusQuery::Checking(next, name),
                    effect,
                ),
                Step::Done(true) => Step::Continue(
                    StatusQuery::AwaitRunning(name),
                    Effect::Run(Invocation::Cli(Verb::ServiceStatus)),
                ),
                _ => Step::Done(FoundryStatus::stopped(false)),
            },
            StatusQuery::AwaitRunning(name) => {
                let running = match event {
                    Event::Exited(status) => match FoundryManager::is_service_running(status) {
                        Ok(running) => running,
                        Err(_) => false,
                    },
                    _ => false,
                };
                if running {
                    Step::Continue(
                        StatusQuery::AwaitCache(name),
                        Effect::Run(Invocation::Cli(Verb::CacheList)),
                    )
                } else {
                    Step::Done(FoundryStatus::stopped(true))
                }
            },
            StatusQuery::AwaitCache(name) => {
                let cached = match event {
                    Event::Exited(listing) => match FoundryManager::is_model_cached(
                        name.as_str(),
                        listing,
                    ) {
                        Ok(cached) => cached,
                        Err(_) => false,
                    },
                    _ => false,
                };
                Step::Continue(
                    StatusQuery::AwaitEndpoint(cached),
                    Effect::Run(Invocation::Cli(Verb::ServiceStatus)),
                )
            },
            StatusQuery::AwaitEndpoint(cached) => {
                let url = match event {
                    Event::Exited(status) => match FoundryManager::get_endpoint_url(status) {
                        Ok(url) => Some(url),
                        Err(_) => None,
                    },
                    _ => None,
                };
                Step::Continue(
                    StatusQuery::AwaitModelId(cached, url),
                    Effect::Run(Invocation::Cli(Verb::ServiceList)),
                )
            },
            StatusQuery::AwaitModelId(cached, url) => {
                let id = match event {
                    Event::Exited(listing) => match FoundryManager::get_model_id_once(listing) {
                        Ok(found) => found,
                        Err(_) => None,
                    },
                    _ => None,
                };
                Step::Done(
                    FoundryStatus {
                        installed: true,
                        running: true,
                        endpoint_url: url,
                        model_id: id,
                        model_cached: cached,
                    },
                )
            },
        }
    }
}

impl FoundryManager {
    /// Begins to discover where the service answers and which model it has
    /// loaded.
    pub fn get_endpoint_info() -> (step: Step<EndpointQuery, FoundryConfig>)
        ensures
            step@ == endpoint_info_start(),
    {
        Step::Continue(
            EndpointQuery::AwaitStatus,
            Effect::Run(Invocation::Cli(Verb::ServiceStatus)),
        )
    }
}

/// Begins to take a snapshot of the installation; the cache is asked for
/// the model `model_name`. The task never fails.
pub fn get_foundry_status(model_name: &str) -> (step: Step<StatusQuery, FoundryStatus>)
    ensures
        step@ == status_start(model_name@),
        step matches Step::Continue(task, _) && task@.wf(),
{
    Step::Continue(
        StatusQuery::Checking(InstallCheck::AwaitHelp, model_name.to_owned()),
        Effect::Run(Invocation::Cli(Verb::Help)),
    )
}

} // verus!
