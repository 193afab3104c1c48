//! The operations that the host application offers its user, each as a task
//! or as a decision on the result of one invocation.

use crate::command::{Call, CommandResult, Invocation, Platform, Request, Verb};
use crate::error::{Failure, FoundryError};
use crate::manager::{
    available_models, completed, load_call, service_running, FoundryManager,
};
use crate::model::{ensure_downloaded_start, ensure_downloaded_step, Downloading, EnsureDownloaded};
use crate::polling::{
    polling_start, polling_step, Polling, PollingModel, RetryPolicy, Watch, Watched,
};
use crate::probe::{install_check_step, install_start, Install, InstallCheck};
use crate::start::{timed_start, timed_start_step, TimedStart};
use crate::status::{
    endpoint_info_start, endpoint_info_step, lemma_endpoint_info_is_normalized, EndpointInfo,
    EndpointQuery, EndpointStage, FoundryConfig,
};
use crate::task::{Action, Answer, Effect, Event, Move, Step};
use vstd::prelude::*;
use vstd::string::StringExecFns;

verus! {

/// How long the start request is waited for when the user starts the
/// service, in milliseconds.
pub const START_TIMEOUT_MS: u64 = 8000;

/// How often the cache is looked at while a model is downloaded.
pub const CACHE_WAIT_ATTEMPTS: usize = 120;

/// The pause between two looks at the cache, in milliseconds.
pub const CACHE_WAIT_DELAY_MS: u64 = 3000;

/// The policy under which a model is waited for in the cache.
pub open spec fn cache_wait_policy() -> RetryPolicy {
    RetryPolicy { attempts: CACHE_WAIT_ATTEMPTS, delay_ms: CACHE_WAIT_DELAY_MS }
}

/// The first step of the wait for the model `name`.
pub open spec fn cache_wait_start(name: Seq<char>) -> Move<PollingModel, Option<Seq<char>>> {
    polling_start(Watched::ModelCached(name), cache_wait_policy())
}

/// The first step of the wait for the model `name`.
fn start_cache_wait(name: String) -> (step: Step<Polling, Option<String>>)
    ensures
        step@ == cache_wait_start(name@),
{
    Polling::start(
        Watch::ModelCached(name),
        RetryPolicy { attempts: CACHE_WAIT_ATTEMPTS, delay_ms: CACHE_WAIT_DELAY_MS },
    )
}

/// What the user is told when an operation failed: what was tried, and why
/// it failed. That the program is not installed is said by itself.
pub open spec fn failure_text(context: Seq<char>, e: Failure) -> Seq<char> {
    if e is NotInstalled {
        e.message()
    } else {
        context + ": "@ + e.message()
    }
}

/// What the user is told when an operation failed.
pub fn failure_message(context: &str, e: &FoundryError) -> (text: String)
    ensures
        text@ == failure_text(context@, e@),
{
    match e {
        FoundryError::NotInstalled => e.message(),
        _ => context.to_owned().concat(": ").concat(e.message().as_str()),
    }
}

/// The service start that the user asks for, between two of its steps.
#[derive(Clone, Copy, Debug, PartialEq, Eq)]
pub enum StartService {
    /// The installation check is under way.
    Checking(InstallCheck),
    /// The service is being started.
    Starting(TimedStart),
}

impl View for StartService {
    type V = StartService;

    open spec fn view(&self) -> StartService {
        *self
    }
}

/// A step of the timed start as a step of the user's service start.
pub open spec fn starting(step: Move<TimedStart, ()>) -> Move<StartService, ()> {
    match step {
        Move::Continue(next, action) => Move::Continue(StartService::Starting(next), action),
        Move::Done(()) => Move::Done(()),
        Move::Failed(e) => Move::Failed(e),
    }
}

/// The first step of the user's service start: the installation check.
pub open spec fn start_service_start() -> Move<StartService, ()> {
    Move::Continue(
        StartService::Checking(InstallCheck::AwaitHelp),
        Action::Run(Call::Cli(Request::Help)),
    )
}

/// The step that the user's service start takes on `answer`.
///
/// Without the program nothing is started: the task fails with
/// `NotInstalled`. With it the service is started and waited for no longer
/// than `START_TIMEOUT_MS`.
pub open spec fn start_service_step(task: StartService, answer: Answer) -> Move<StartService, ()> {
    match task {
        StartService::Checking(check) => match install_check_step(check, answer) {
            Move::Continue(next, action) => Move::Continue(StartService::Checking(next), action),
            Move::Done(true) => starting(timed_start(START_TIMEOUT_MS)),
            _ => Move::Failed(Failure::NotInstalled),
        },
        StartService::Starting(start) => starting(timed_start_step(start, answer)),
    }
}

/// A step of the timed start as a step of the user's service start.
fn lift_start(step: Step<TimedStart, ()>) -> (lifted: Step<StartService, ()>)
    ensures
        lifted@ == starting(step@),
{
    match step {
        Step::Continue(next, effect) => Step::Continue(StartService::Starting(next), effect),
        Step::Done(()) => Step::Done(()),
        Step::Failed(e) => Step::Failed(e),
    }
}

impl StartService {
    /// Takes the step that `event` calls for.
    pub fn resume(self, event: &Event) -> (step: Step<StartService, ()>)
        ensures
            step@ == start_service_step(self, event@),
    {
        match self {
            StartService::Checking(check) => match check.resume(event) {
                Step::Continue(next, effect) => Step::Continue(
                    StartService::Checking(next),
                    effect,
                ),
                Step::Done(true) => lift_start(
                    FoundryManager::start_service_with_timeout(START_TIMEOUT_MS),
                ),
                _ => Step::Failed(FoundryError::NotInstalled),
            },
            StartService::Starting(start) => lift_start(start.resume(event)),
        }
    }
}

/// Begins to start the service for the user.
///
/// When the task is done the caller returns to the user and runs a `Warmup`
/// behind the scenes.
pub fn start_foundry_service_command() -> (step: Step<StartService, ()>)
    ensures
        step@ == start_service_start(),
{
    Step::Continue(
        StartService::Checking(InstallCheck::AwaitHelp),
        Effect::Run(Invocation::Cli(Verb::Help)),
    )
}

/// What became of the preparation of a model. Neither failure stops the
/// caller: both are for the log.
#[derive(Clone, Debug, PartialEq, Eq)]
pub struct WarmupReport {
    /// Why the model was not loaded, if it was not.
    pub load_failure: Option<FoundryError>,
    /// Why the model was not seen in the cache, if it was not.
    pub cache_failure: Option<FoundryError>,
}

/// A `WarmupReport` as a mathematical value.
pub struct WarmupOutcome {
    pub load_failure: Option<Failure>,
    pub cache_failure: Option<Failure>,
}

impl View for WarmupReport {
    type V = WarmupOutcome;

    open spec fn view(&self) -> WarmupOutcome {
        WarmupOutcome {
            load_failure: self.load_failure.deep_view(),
            cache_failure: self.cache_failure.deep_view(),
        }
    }
}

impl DeepView for WarmupReport {
    type V = WarmupOutcome;

    open spec fn deep_view(&self) -> WarmupOutcome {
        self@
    }
}

/// The preparation of a model between two of its steps. The name is that of
/// the model.
#[derive(Clone, Debug, PartialEq, Eq)]
pub enum Warmup {
    /// The model is brought into the cache.
    Downloading(EnsureDownloaded, String),
    /// The load request is under way.
    Loading(String),
    /// The model is waited for in the cache. The failure is that of the
    /// steps before, if they failed.
    Waiting(Option<FoundryError>, Polling),
}

/// A `Warmup` as a mathematical value.
pub enum WarmupStage {
    Downloading(Downloading, Seq<char>),
    Loading(Seq<char>),
    Waiting(Option<Failure>, PollingModel),
}

impl View for Warmup {
    type V = WarmupStage;

    open spec fn view(&self) -> WarmupStage {
        match *self {
            Warmup::Downloading(download, name) => WarmupStage::Downloading(download@, name@),
            Warmup::Loading(name) => WarmupStage::Loading(name@),
            Warmup::Waiting(failure, polling) => WarmupStage::Waiting(
                failure.deep_view(),
                polling@,
            ),
        }
    }
}

/// A step of the download as a step of the preparation of the model `name`.
pub open spec fn warmup_downloading(name: Seq<char>, step: Move<Downloading, ()>) -> Move<
    WarmupStage,
    WarmupOutcome,
> {
    match step {
        Move::Continue(next, action) => Move::Continue(
            WarmupStage::Downloading(next, name),
            action,
        ),
        Move::Done(()) => Move::Continue(
            WarmupStage::Loading(name),
            Action::Run(Call::Cli(Request::ModelLoad(name))),
        ),
        Move::Failed(e) => warmup_waiting(Some(e), cache_wait_start(name)),
    }
}

/// A step of the wait for the model as a step of the preparation.
pub open spec fn warmup_waiting(
    load_failure: Option<Failure>,
    step: Move<PollingModel, Option<Seq<char>>>,
) -> Move<WarmupStage, WarmupOutcome> {
    match step {
        Move::Continue(next, action) => Move::Continue(
            WarmupStage::Waiting(load_failure, next),
            action,
        ),
        Move::Done(_) => Move::Done(WarmupOutcome { load_failure, cache_failure: None }),
        Move::Failed(e) => Move::Done(WarmupOutcome { load_failure, cache_failure: Some(e) }),
    }
}

/// The first step of the preparation of the model `name`: its download.
pub open spec fn warmup_start(name: Seq<char>) -> Move<WarmupStage, WarmupOutcome> {
    warmup_downloading(name, ensure_downloaded_start(name))
}

/// Why the request to load the model `name` that ended with `answer`
/// failed, if it did.
pub open spec fn load_failure(name: Seq<char>, answer: Answer) -> Option<Failure> {
    match answer {
        Answer::Exited(result) => match completed(load_call(name), result) {
            Ok(()) => None,
            Err(e) => Some(e),
        },
        other => Some(other.failure()),
    }
}

/// The step that the preparation of a model takes on `answer`.
///
/// The model is downloaded if the cache does not hold it, and then loaded; a
/// model that could not be downloaded is not loaded. Whatever came of that,
/// the model is then waited for in the cache. The task itself never fails:
/// what went wrong is in its report.
pub open spec fn warmup_step(task: WarmupStage, answer: Answer) -> Move<
    WarmupStage,
    WarmupOutcome,
> {
    match task {
        WarmupStage::Downloading(download, name) => warmup_downloading(
            name,
            ensure_downloaded_step(download, answer),
        ),
        WarmupStage::Loading(name) => warmup_waiting(
            load_failure(name, answer),
            cache_wait_start(name),
        ),
        WarmupStage::Waiting(failure, polling) => warmup_waiting(
            failure,
            polling_step(polling, answer),
        ),
    }
}

/// A step of the wait for the model as a step of the preparation.
fn lift_warmup_wait(
    load_failure: Option<FoundryError>,
    step: Step<Polling, Option<String>>,
) -> (lifted: Step<Warmup, WarmupReport>)
    ensures
        lifted@ == warmup_waiting(load_failure.deep_view(), step@),
        !(lifted is Failed),
{
    match step {
        Step::Continue(next, effect) => Step::Continue(
            Warmup::Waiting(load_failure, next),
            effect,
        ),
        Step::Done(_) => Step::Done(WarmupReport { load_failure, cache_failure: None }),
        Step::Failed(e) => Step::Done(WarmupReport { load_failure, cache_failure: Some(e) }),
    }
}

/// A step of the download as a step of the preparation.
fn lift_warmup_download(name: String, step: Step<EnsureDownloaded, ()>) -> (lifted: Step<
    Warmup,
    WarmupReport,
>)
    ensures
        lifted@ == warmup_downloading(name@, step@),
        !(lifted is Failed),
{
    match step {
        Step::Continue(next, effect) => Step::Continue(Warmup::Downloading(next, name), effect),
        Step::Done(()) => {
            let verb = Verb::ModelLoad(name.clone());
            Step::Continue(Warmup::Loading(name), Effect::Run(Invocation::Cli(verb)))
        },
        Step::Failed(e) => lift_warmup_wait(Some(e), start_cache_wait(name)),
    }
}

impl Warmup {
    /// The first step of the preparation of the model `model_name`.
    pub fn start(model_name: &str) -> (step: Step<Warmup, WarmupReport>)
        ensures
            step@ == warmup_start(model_name@),
    {
        lift_warmup_download(
            model_name.to_owned(),
            FoundryManager::ensure_model_downloaded(model_name),
        )
    }

    /// Takes the step that `event` calls for.
    pub fn resume(self, event: &Event) -> (step: Step<Warmup, WarmupReport>)
        ensures
            step@ == warmup_step(self@, event@),
            !(step is Failed),
    {
        match self {
            Warmup::Downloading(download, name) => lift_warmup_download(
                name,
                download.resume(event),
            ),
            Warmup::Loading(name) => {
                let failure = match event {
                    Event::Exited(result) => match FoundryManager::run_model(
                        name.as_str(),
                        result,
                    ) {
                        Ok(()) => None,
                        Err(e) => Some(e),
                    },
                    other => Some(other.failure()),
                };
                lift_warmup_wait(failure, start_cache_wait(name))
            },
            Warmup::Waiting(failure, polling) => {
                let inner = polling.resume(event);
                lift_warmup_wait(failure, inner)
            },
        }
    }
}

/// The configuration of the integration between two of its steps. The name
/// is that of the model that the service is to run.
#[derive(Clone, Debug, PartialEq, Eq)]
pub enum Configure {
    /// The installation check is under way.
    Checking(InstallCheck, String),
    /// The status request is under way, to see whether the service runs.
    AwaitRunning(String),
    /// The service is being started.
    Starting(TimedStart, String),
    /// The model is brought into the cache.
    Downloading(EnsureDownloaded, String),
    /// The model is waited for in the cache.
    Waiting(Polling),
    /// The endpoint is being discovered.
    Discovering(EndpointQuery),
}

/// A `Configure` as a mathematical value.
pub enum ConfigureStage {
    Checking(InstallCheck, Seq<char>),
    AwaitRunning(Seq<char>),
    Starting(TimedStart, Seq<char>),
    Downloading(Downloading, Seq<char>),
    Waiting(PollingModel),
    Discovering(EndpointStage),
}

impl View for Configure {
    type V = ConfigureStage;

    open spec fn view(&self) -> ConfigureStage {
        match *self {
            Configure::Checking(check, name) => ConfigureStage::Checking(check, name@),
            Configure::AwaitRunning(name) => ConfigureStage::AwaitRunning(name@),
            Configure::Starting(start, name) => ConfigureStage::Starting(start, name@),
            Configure::Downloading(download, name) => ConfigureStage::Downloading(
                download@,
                name@,
            ),
            Configure::Waiting(polling) => ConfigureStage::Waiting(polling@),
            Configure::Discovering(query) => ConfigureStage::Discovering(query@),
        }
    }
}

/// The first step of the configuration for the model `name`: the
/// installation check.
pub open spec fn configure_start(name: Seq<char>) -> Move<ConfigureStage, EndpointInfo> {
    Move::Continue(
        ConfigureStage::Checking(InstallCheck::AwaitHelp, name),
        Action::Run(Call::Cli(Request::Help)),
    )
}

/// A step of the discovery as the last part of the configuration.
pub open spec fn configure_discovering(step: Move<EndpointStage, EndpointInfo>) -> Move<
    ConfigureStage,
    EndpointInfo,
> {
    match step {
        Move::Continue(next, action) => Move::Continue(ConfigureStage::Discovering(next), action),
        Move::Done(info) => Move::Done(info),
        Move::Failed(e) => Move::Failed(e),
    }
}

/// A step of the wait for the model as a step of the configuration. How the
/// wait ends does not matter: the endpoint is discovered next.
pub open spec fn configure_waiting(step: Move<PollingModel, Option<Seq<char>>>) -> Move<
    ConfigureStage,
    EndpointInfo,
> {
    match step {
        Move::Continue(next, action) => Move::Continue(ConfigureStage::Waiting(next), action),
        _ => configure_discovering(endpoint_info_start()),
    }
}

/// A step of the download as a step of the configuration.
pub open spec fn configure_downloading(name: Seq<char>, step: Move<Downloading, ()>) -> Move<
    ConfigureStage,
    EndpointInfo,
> {
    match step {
        Move::Continue(next, action) => Move::Continue(
            ConfigureStage::Downloading(next, name),
            action,
        ),
        Move::Done(()) => configure_waiting(cache_wait_start(name)),
        Move::Failed(e) => Move::Failed(e),
    }
}

/// A step of the service start as a step of the configuration.
pub open spec fn configure_starting(name: Seq<char>, step: Move<TimedStart, ()>) -> Move<
    ConfigureStage,
    EndpointInfo,
> {
    match step {
        Move::Continue(next, action) => Move::Continue(
            ConfigureStage::Starting(next, name),
            action,
        ),
        Move::Done(()) => configure_downloading(name, ensure_downloaded_start(name)),
        Move::Failed(e) => Move::Failed(e),
    }
}

/// The step that the configuration takes on `answer`.
///
/// The program must be installed. A service that does not run is started. The
/// model is downloaded if the cache does not hold it, and waited for in the
/// cache. Then the endpoint is discovered, and the task ends with it. The
/// first step that fails ends the task, but for the wait, whose failure is
/// passed over.
pub open spec fn configure_step(task: ConfigureStage, answer: Answer) -> Move<
    ConfigureStage,
    EndpointInfo,
> {
    match task {
        ConfigureStage::Checking(check, name) => match install_check_step(check, answer) {
            Move::Continue(next, action) => Move::Continue(
                ConfigureStage::Checking(next, name),
                action,
            ),
            Move::Done(true) => Move::Continue(
                ConfigureStage::AwaitRunning(name),
                Action::Run(Call::Cli(Request::ServiceStatus)),
            ),
            _ => Move::Failed(Failure::NotInstalled),
        },
        ConfigureStage::AwaitRunning(name) => match answer {
            Answer::Exited(status) => match service_running(status) {
                Ok(true) => configure_downloading(name, ensure_downloaded_start(name)),
                Ok(false) => configure_starting(name, timed_start(START_TIMEOUT_MS)),
                Err(e) => Move::Failed(e),
            },
            other => Move::Failed(other.failure()),
        },
        ConfigureStage::Starting(start, name) => configure_starting(
            name,
            timed_start_step(start, answer),
        ),
        ConfigureStage::Downloading(download, name) => configure_downloading(
            name,
            ensure_downloaded_step(download, answer),
        ),
        ConfigureStage::Waiting(polling) => configure_waiting(
            polling_step(polling, answer),
        ),
        ConfigureStage::Discovering(query) => configure_discovering(
            endpoint_info_step(query, answer),
        ),
    }
}

impl ConfigureStage {
    /// Whether an address that the task holds is an endpoint address.
    pub open spec fn wf(self) -> bool {
        self matches ConfigureStage::Discovering(query) ==> query.wf()
    }
}

/// The configuration ends with an endpoint address: one that ends with the
/// version segment, whatever the program printed.
pub proof fn lemma_configure_ends_normalized(task: ConfigureStage, answer: Answer)
    requires
        task.wf(),
    ensures
        match configure_step(task, answer) {
            Move::Continue(next, _) => next.wf(),
            Move::Done(info) => info.wf(),
            Move::Failed(_) => true,
        },
{
    if let ConfigureStage::Discovering(query) = task {
        lemma_endpoint_info_is_normalized(query, answer);
    }
}

/// A step of the discovery as a step of the configuration.
fn lift_discover(step: Step<EndpointQuery, FoundryConfig>) -> (lifted: Step<
    Configure,
    FoundryConfig,
>)
    ensures
        lifted@ == configure_discovering(step@),
{
    match step {
        Step::Continue(next, effect) => Step::Continue(Configure::Discovering(next), effect),
        Step::Done(config) => Step::Done(config),
        Step::Failed(e) => Step::Failed(e),
    }
}

/// A step of the wait for the model as a step of the configuration.
fn lift_wait(step: Step<Polling, Option<String>>) -> (lifted: Step<Configure, FoundryConfig>)
    ensures
        lifted@ == configure_waiting(step@),
{
    match step {
        Step::Continue(next, effect) => Step::Continue(Configure::Waiting(next), effect),
        _ => lift_discover(FoundryManager::get_endpoint_info()),
    }
}

/// A step of the download as a step of the configuration.
fn lift_download(name: String, step: Step<EnsureDownloaded, ()>) -> (lifted: Step<
    Configure,
    FoundryConfig,
>)
    ensures
        lifted@ == configure_downloading(name@, step@),
{
    match step {
        Step::Continue(next, effect) => Step::Continue(Configure::Downloading(next, name), effect),
        Step::Done(()) => lift_wait(start_cache_wait(name)),
        Step::Failed(e) => Step::Failed(e),
    }
}

/// The first step of the download as a step of the configuration.
fn begin_download(name: String) -> (lifted: Step<Configure, FoundryConfig>)
    ensures
        lifted@ == configure_downloading(name@, ensure_downloaded_start(name@)),
{
    let first = FoundryManager::ensure_model_downloaded(name.as_str());
    lift_download(name, first)
}

/// A step of the service start as a step of the configuration.
fn lift_starting(name: String, step: Step<TimedStart, ()>) -> (lifted: Step<
    Configure,
    FoundryConfig,
>)
    ensures
        lifted@ == configure_starting(name@, step@),
{
    match step {
        Step::Continue(next, effect) => Step::Continue(Configure::Starting(next, name), effect),
        Step::Done(()) => begin_download(name),
        Step::Failed(e) => Step::Failed(e),
    }
}

impl Configure {
    /// Takes the step that `event` calls for. An address that the task
    /// holds or ends with is an endpoint address.
    pub fn resume(self, event: &Event) -> (step: Step<Configure, FoundryConfig>)
        ensures
            step@ == configure_step(self@, event@),
            self@.wf() ==> match step {
                Step::Continue(next, _) => next@.wf(),
                Step::Done(config) => config@.wf(),
                Step::Failed(_) => true,
            },
    {
        proof {
            if self@.wf() {
                lemma_configure_ends_normalized(self@, event@);
            }
        }
        match self {
            Configure::Checking(check, name) => match check.resume(event) {
                Step::Continue(next, effect) => Step::Continue(
                    Configure::Checking(next, name),
                    effect,
                ),
                Step::Done(true) => Step::Continue(
                    Configure::AwaitRunning(name),
                    Effect::Run(Invocation::Cli(Verb::ServiceStatus)),
                ),
                _ => Step::Failed(FoundryError::NotInstalled),
            },
            Configure::AwaitRunning(name) => match event {
                Event::Exited(status) => match FoundryManager::is_service_running(status) {
                    Ok(true) => begin_download(name),
                    Ok(false) => lift_starting(
                        name,
                        FoundryManager::start_service_with_timeout(START_TIMEOUT_MS),
                    ),
                    Err(e) => Step::Failed(e),
                },
                other => Step::Failed(other.failure()),
            },
            Configure::Starting(start, name) => lift_starting(name, start.resume(event)),
            Configure::Downloading(download, name) => lift_download(
                name,
                download.resume(event),
            ),
            Configure::Waiting(polling) => {
                let inner = polling.resume(event);
                lift_wait(inner)
            },
            Configure::Discovering(query) => {
                let inner = query.resume(event);
                lift_discover(inner)
            },
        }
    }
}

/// Begins to configure the integration: to make sure that the service runs
/// with the model `model_name`, and to discover where it answers. The caller
/// hands what the task ends with to the settings store.
pub fn configure_foundry_integration_command(model_name: &str) -> (step: Step<
    Configure,
    FoundryConfig,
>)
    ensures
        step@ == configure_start(model_name@),
{
    Step::Continue(
        Configure::Checking(InstallCheck::AwaitHelp, model_name.to_owned()),
        Effect::Run(Invocation::Cli(Verb::Help)),
    )
}

/// Begins to install the program on `platform` for the user. The task ends
/// with the version of the installed program.
pub fn install_foundry_local_command(platform: Platform) -> (step: Step<Install, String>)
    ensures
        step@ == install_start(platform),
{
    FoundryManager::install_foundry_local(platform)
}

/// Tells the user what came of the request to load the model `model_name`,
/// by the result of that request. The failure names the model.
pub fn run_foundry_model_command(model_name: &str, result: &CommandResult) -> (out: Result<
    (),
    String,
>)
    ensures
        match out {
            Ok(()) => completed(load_call(model_name@), result@) is Ok,
            Err(text) => completed(load_call(model_name@), result@) matches Err(e) && text@
                == e.message(),
        },
{
    match FoundryManager::run_model(model_name, result) {
        Ok(()) => Ok(()),
        Err(e) => Err(e.message()),
    }
}

/// Tells the user which models can be had, by the result of the model
/// listing.
pub fn get_foundry_available_models_command(listing: &CommandResult) -> (out: Result<
    Vec<String>,
    String,
>)
    ensures
        match out {
            Ok(names) => available_models(listing@) == Ok::<Seq<Seq<char>>, Failure>(
                names.deep_view(),
            ),
            Err(text) => available_models(listing@) matches Err(e) && text@ == failure_text(
                "Failed to get available Foundry models"@,
                e,
            ),
        },
{
    match FoundryManager::get_available_models(listing) {
        Ok(names) => Ok(names),
        Err(e) => Err(failure_message("Failed to get available Foundry models", &e)),
    }
}

} // verus!
