use foundry::command::{CommandResult, Invocation, Platform, Verb};
use foundry::commands::{
    configure_foundry_integration_command, failure_message, get_foundry_available_models_command,
    install_foundry_local_command, run_foundry_model_command, start_foundry_service_command,
    Configure, StartService, Warmup, WarmupReport,
};
use foundry::error::{Field, FoundryError, Operation};
use foundry::manager::FoundryManager;
use foundry::model::{EnsureDownloaded, EnsureLoaded};
use foundry::polling::{wait_for_model_cached, Polling, RetryPolicy, Watch};
use foundry::probe::{Install, InstallCheck, VersionQuery};
use foundry::start::{PlainStart, TimedStart};
use foundry::status::{get_foundry_status, EndpointQuery, FoundryConfig, FoundryStatus, StatusQuery};
use foundry::task::{Effect, Event, Step};

const STATUS_TEXT: &str = "Model management service is running on http://127.0.0.1:49798/openai/status";
const LIST_TEXT: &str = "\u{1F7E2}  phi-4-mini   Phi-4-mini-instruct-openvino-gpu:1";
const CACHE_TEXT: &str = "Models cached on device:\n\u{1F4BE} phi-4-mini   Phi-4-mini-instruct-openvino-gpu:1";

fn exited(stdout: &str) -> Event {
    Event::Exited(CommandResult::new(true, stdout, ""))
}

fn failed(stderr: &str) -> Event {
    Event::Exited(CommandResult::new(false, "", stderr))
}

fn command_failed(invocation: Invocation, stderr: &str) -> FoundryError {
    FoundryError::CommandFailed { invocation, exit_code: None, stderr: Some(stderr.to_string()) }
}

fn run(verb: Verb) -> Effect {
    Effect::Run(Invocation::Cli(verb))
}

/// Feeds `events` to a polling task; returns the effects it asked for and how it ended.
fn poll(first: Step<Polling, Option<String>>, events: Vec<Event>) -> (Vec<Effect>, Option<Result<Option<String>, FoundryError>>) {
    let mut effects = Vec::new();
    let mut step = first;
    let mut events = events.into_iter();
    loop {
        match step {
            Step::Continue(task, effect) => {
                effects.push(effect);
                match events.next() {
                    Some(event) => step = task.resume(&event),
                    None => return (effects, None),
                }
            }
            Step::Done(value) => return (effects, Some(Ok(value))),
            Step::Failed(e) => return (effects, Some(Err(e))),
        }
    }
}

#[test]
fn retry_policy_needs_an_attempt() {
    assert_eq!(RetryPolicy::new(0, 10), None);
    assert_eq!(RetryPolicy::new(3, 10), Some(RetryPolicy { attempts: 3, delay_ms: 10 }));
}

#[test]
fn waiting_for_cache_gives_up_after_three_misses() {
    let miss = || exited("Cache is void\n");
    let (effects, end) = poll(
        wait_for_model_cached("m", 3, 500),
        vec![miss(), Event::Woke, miss(), Event::Woke, miss(), Event::Woke, miss()],
    );
    assert_eq!(
        effects,
        vec![
            run(Verb::CacheList),
            Effect::Sleep(500),
            run(Verb::CacheList),
            Effect::Sleep(500),
            run(Verb::CacheList),
        ]
    );
    assert_eq!(end, Some(Err(FoundryError::Timeout(Operation::ModelCached))));
}

#[test]
fn waiting_for_cache_ends_on_first_sighting() {
    let (effects, end) = poll(
        wait_for_model_cached("phi-4-mini", 3, 500),
        vec![exited(""), Event::Woke, exited(CACHE_TEXT), Event::Woke],
    );
    assert_eq!(effects, vec![run(Verb::CacheList), Effect::Sleep(500), run(Verb::CacheList)]);
    assert_eq!(end, Some(Ok(None)));
}

#[test]
fn waiting_without_attempts_fails_at_once() {
    let (effects, end) = poll(wait_for_model_cached("m", 0, 500), vec![]);
    assert!(effects.is_empty());
    assert_eq!(end, Some(Err(FoundryError::Timeout(Operation::ModelCached))));
}

#[test]
fn waiting_retries_a_failed_question() {
    let (effects, end) = poll(
        FoundryManager::wait_for_service_ready(2, 100),
        vec![failed("access denied"), Event::Woke, failed("access denied")],
    );
    assert_eq!(effects, vec![run(Verb::ServiceStatus), Effect::Sleep(100), run(Verb::ServiceStatus)]);
    assert_eq!(end, Some(Err(FoundryError::Timeout(Operation::ServiceReady))));
}

#[test]
fn waiting_stops_when_the_program_cannot_run() {
    let (effects, end) = poll(FoundryManager::wait_for_service_ready(5, 100), vec![Event::SpawnFailed]);
    assert_eq!(effects, vec![run(Verb::ServiceStatus)]);
    assert_eq!(end, Some(Err(FoundryError::ProcessSpawnFailed)));
    let (_, end) = poll(FoundryManager::wait_for_service_ready(5, 100), vec![Event::NotFound]);
    assert_eq!(end, Some(Err(FoundryError::NotInstalled)));
}

#[test]
fn service_becomes_ready_after_startup() {
    let (effects, end) = poll(
        FoundryManager::wait_for_service_ready(4, 100),
        vec![
            exited("service is not running"),
            Event::Woke,
            exited("running on http://h:1/x, startup in progress"),
            Event::Woke,
            exited(STATUS_TEXT),
        ],
    );
    assert_eq!(effects.len(), 5);
    assert_eq!(end, Some(Ok(None)));
}

#[test]
fn model_id_is_asked_for_until_it_shows() {
    let (effects, end) = poll(
        FoundryManager::get_model_id_with_retry(10, 2000),
        vec![
            exited("No models are currently loaded"),
            Event::Woke,
            exited("garbage"),
            Event::Woke,
            exited(LIST_TEXT),
        ],
    );
    assert_eq!(
        effects,
        vec![
            run(Verb::ServiceList),
            Effect::Sleep(2000),
            run(Verb::ServiceList),
            Effect::Sleep(2000),
            run(Verb::ServiceList),
        ]
    );
    assert_eq!(end, Some(Ok(Some("Phi-4-mini-instruct-openvino-gpu:1".to_string()))));
}

#[test]
fn polling_counts_its_attempts() {
    let task = Polling { watch: Watch::ServiceReady, policy: RetryPolicy { attempts: 2, delay_ms: 7 }, made: 1, resting: true };
    match task.resume(&Event::Woke) {
        Step::Continue(next, effect) => {
            assert_eq!(next.made, 2);
            assert!(!next.resting);
            assert_eq!(effect, run(Verb::ServiceStatus));
        }
        other => panic!("unexpected step {:?}", other),
    }
}

#[test]
fn cached_model_is_not_downloaded() {
    let step = FoundryManager::ensure_model_downloaded("phi-4-mini");
    let task = match step {
        Step::Continue(task, effect) => {
            assert_eq!(effect, run(Verb::CacheList));
            task
        }
        other => panic!("unexpected step {:?}", other),
    };
    assert_eq!(task, EnsureDownloaded::AwaitCache("phi-4-mini".to_string()));
    assert_eq!(task.resume(&exited(CACHE_TEXT)), Step::Done(()));
}

#[test]
fn missing_model_is_downloaded_once() {
    let task = EnsureDownloaded::AwaitCache("phi-4-mini".to_string());
    let next = match task.resume(&exited("Models cached on device:\n")) {
        Step::Continue(next, effect) => {
            assert_eq!(effect, run(Verb::ModelDownload("phi-4-mini".to_string())));
            next
        }
        other => panic!("unexpected step {:?}", other),
    };
    assert_eq!(next, EnsureDownloaded::AwaitDownload("phi-4-mini".to_string()));
    assert_eq!(next.clone().resume(&exited("done")), Step::Done(()));
    assert_eq!(
        next.resume(&failed("disk full")),
        Step::Failed(command_failed(
            Invocation::Cli(Verb::ModelDownload("phi-4-mini".to_string())),
            "disk full"
        ))
    );
}

#[test]
fn unreadable_cache_downloads_nothing() {
    let task = EnsureDownloaded::AwaitCache("m".to_string());
    assert_eq!(
        task.clone().resume(&failed("disk error")),
        Step::Failed(command_failed(Invocation::Cli(Verb::CacheList), "disk error"))
    );
    assert_eq!(task.resume(&Event::SpawnFailed), Step::Failed(FoundryError::ProcessSpawnFailed));
}

/// Feeds `events` to a loading task; returns the effects it asked for and how it ended.
fn load(events: Vec<Event>) -> (Vec<Effect>, Option<Result<String, FoundryError>>) {
    let mut effects = Vec::new();
    let mut step = FoundryManager::ensure_model_loaded("phi-4-mini");
    let mut events = events.into_iter();
    loop {
        match step {
            Step::Continue(task, effect) => {
                effects.push(effect);
                match events.next() {
                    Some(event) => step = task.resume(&event),
                    None => return (effects, None),
                }
            }
            Step::Done(value) => return (effects, Some(Ok(value))),
            Step::Failed(e) => return (effects, Some(Err(e))),
        }
    }
}

#[test]
fn loaded_model_reports_its_identifier() {
    let (effects, end) = load(vec![exited("loaded"), exited("No models are currently loaded"), Event::Woke, exited(LIST_TEXT)]);
    assert_eq!(
        effects,
        vec![
            run(Verb::ModelLoad("phi-4-mini".to_string())),
            run(Verb::ServiceList),
            Effect::Sleep(2000),
            run(Verb::ServiceList),
        ]
    );
    assert_eq!(end, Some(Ok("Phi-4-mini-instruct-openvino-gpu:1".to_string())));
}

#[test]
fn loading_gives_up_after_three_attempts() {
    let (effects, end) = load(vec![
        failed("busy"),
        Event::Woke,
        failed("busy"),
        Event::Woke,
        failed("busy"),
    ]);
    let load_request = run(Verb::ModelLoad("phi-4-mini".to_string()));
    assert_eq!(
        effects,
        vec![load_request.clone(), Effect::Sleep(2000), load_request.clone(), Effect::Sleep(2000), load_request]
    );
    assert_eq!(end, Some(Err(FoundryError::RetryExhausted(Operation::ModelLoad))));
}

#[test]
fn loading_tries_again_when_no_identifier_shows() {
    let mut events = vec![exited("loaded")];
    for _ in 0..9 {
        events.push(exited("No models are currently loaded"));
        events.push(Event::Woke);
    }
    events.push(exited("No models are currently loaded"));
    events.push(Event::Woke);
    let (effects, end) = load(events);
    assert_eq!(end, None);
    assert_eq!(effects.len(), 1 + 10 + 9 + 1 + 1);
    assert_eq!(effects[20], Effect::Sleep(2000));
    assert_eq!(effects[21], run(Verb::ModelLoad("phi-4-mini".to_string())));
    let loads = effects.iter().filter(|e| matches!(e, Effect::Run(Invocation::Cli(Verb::ModelLoad(_))))).count();
    assert_eq!(loads, 2);
}

#[test]
fn loading_stops_when_the_program_cannot_run() {
    let (effects, end) = load(vec![Event::NotFound]);
    assert_eq!(effects.len(), 1);
    assert_eq!(end, Some(Err(FoundryError::NotInstalled)));
    let task = EnsureLoaded { name: "m".to_string(), attempt: 3, phase: foundry::model::LoadPhase::Resting };
    assert_eq!(task.resume(&Event::Woke), Step::Failed(FoundryError::RetryExhausted(Operation::ModelLoad)));
}

#[test]
fn endpoint_info_joins_address_and_identifier() {
    let task = match FoundryManager::get_endpoint_info() {
        Step::Continue(task, effect) => {
            assert_eq!(effect, run(Verb::ServiceStatus));
            task
        }
        other => panic!("unexpected step {:?}", other),
    };
    assert_eq!(task, EndpointQuery::AwaitStatus);
    let task = match task.resume(&exited(STATUS_TEXT)) {
        Step::Continue(task, effect) => {
            assert_eq!(effect, run(Verb::ServiceList));
            task
        }
        other => panic!("unexpected step {:?}", other),
    };
    let task = match task.resume(&exited("No models are currently loaded")) {
        Step::Continue(task, effect) => {
            assert_eq!(effect, Effect::Sleep(2000));
            task
        }
        other => panic!("unexpected step {:?}", other),
    };
    let task = match task.resume(&Event::Woke) {
        Step::Continue(task, effect) => {
            assert_eq!(effect, run(Verb::ServiceList));
            task
        }
        other => panic!("unexpected step {:?}", other),
    };
    assert_eq!(
        task.resume(&exited(LIST_TEXT)),
        Step::Done(FoundryConfig {
            endpoint_url: "http://127.0.0.1:49798/v1".to_string(),
            model_id: "Phi-4-mini-instruct-openvino-gpu:1".to_string(),
        })
    );
}

#[test]
fn endpoint_info_fails_without_address() {
    assert_eq!(
        EndpointQuery::AwaitStatus.resume(&exited("starting")),
        Step::Failed(FoundryError::ParseNotFound(Field::EndpointUrl))
    );
    assert_eq!(
        EndpointQuery::AwaitStatus.resume(&failed("down")),
        Step::Failed(command_failed(Invocation::Cli(Verb::ServiceStatus), "down"))
    );
}

/// Feeds `events` to the status query; returns the effects it asked for and the snapshot.
fn status(events: Vec<Event>) -> (Vec<Effect>, Option<FoundryStatus>) {
    let mut effects = Vec::new();
    let mut step = get_foundry_status("phi-4-mini");
    let mut events = events.into_iter();
    loop {
        match step {
            Step::Continue(task, effect) => {
                effects.push(effect);
                match events.next() {
                    Some(event) => step = task.resume(&event),
                    None => return (effects, None),
                }
            }
            Step::Done(value) => return (effects, Some(value)),
            Step::Failed(e) => panic!("the status query failed: {:?}", e),
        }
    }
}

#[test]
fn status_of_running_service_with_model() {
    let (effects, snapshot) = status(vec![
        exited("usage: foundry"),
        exited(STATUS_TEXT),
        exited(CACHE_TEXT),
        exited(STATUS_TEXT),
        exited(LIST_TEXT),
    ]);
    assert_eq!(
        effects,
        vec![
            run(Verb::Help),
            run(Verb::ServiceStatus),
            run(Verb::CacheList),
            run(Verb::ServiceStatus),
            run(Verb::ServiceList),
        ]
    );
    assert_eq!(
        snapshot,
        Some(FoundryStatus {
            installed: true,
            running: true,
            endpoint_url: Some("http://127.0.0.1:49798/v1".to_string()),
            model_id: Some("Phi-4-mini-instruct-openvino-gpu:1".to_string()),
            model_cached: true,
        })
    );
}

#[test]
fn status_without_program_runs_nothing_else() {
    let (effects, snapshot) = status(vec![Event::NotFound, Event::Located(false)]);
    assert_eq!(effects, vec![run(Verb::Help), Effect::Locate]);
    assert_eq!(
        snapshot,
        Some(FoundryStatus {
            installed: false,
            running: false,
            endpoint_url: None,
            model_id: None,
            model_cached: false,
        })
    );
    assert_eq!(snapshot, Some(FoundryStatus::stopped(false)));
}

#[test]
fn status_of_stopped_service() {
    let (effects, snapshot) = status(vec![Event::SpawnFailed, Event::Located(true), failed("service is not running")]);
    assert_eq!(effects, vec![run(Verb::Help), Effect::Locate, run(Verb::ServiceStatus)]);
    assert_eq!(snapshot, Some(FoundryStatus::stopped(true)));
    let (_, snapshot) = status(vec![exited("usage"), failed("access denied")]);
    assert_eq!(snapshot, Some(FoundryStatus::stopped(true)));
}

#[test]
fn status_survives_failing_questions() {
    let (effects, snapshot) = status(vec![
        exited("usage"),
        exited("running"),
        failed("disk error"),
        Event::SpawnFailed,
        exited("garbage"),
    ]);
    assert_eq!(effects.len(), 5);
    assert_eq!(
        snapshot,
        Some(FoundryStatus {
            installed: true,
            running: true,
            endpoint_url: None,
            model_id: None,
            model_cached: false,
        })
    );
}

#[test]
fn status_query_starts_with_installation_check() {
    match get_foundry_status("m") {
        Step::Continue(task, _) => {
            assert_eq!(task, StatusQuery::Checking(InstallCheck::AwaitHelp, "m".to_string()))
        }
        other => panic!("unexpected step {:?}", other),
    }
}

#[test]
fn installation_check_prefers_help() {
    assert_eq!(InstallCheck::start(), Step::Continue(InstallCheck::AwaitHelp, run(Verb::Help)));
    assert_eq!(InstallCheck::AwaitHelp.resume(&exited("usage")), Step::Done(true));
    assert_eq!(
        InstallCheck::AwaitHelp.resume(&failed("crash")),
        Step::Continue(InstallCheck::AwaitLocation, Effect::Locate)
    );
    assert_eq!(InstallCheck::AwaitLocation.resume(&Event::Located(true)), Step::Done(true));
    assert_eq!(InstallCheck::AwaitLocation.resume(&Event::Located(false)), Step::Done(false));
    assert_eq!(InstallCheck::AwaitLocation.resume(&Event::Woke), Step::Done(false));
}

#[test]
fn version_query_falls_back_to_install_location() {
    assert_eq!(VersionQuery::start(), Step::Continue(VersionQuery::First, run(Verb::Version)));
    assert_eq!(VersionQuery::First.resume(&exited("0.8.117\n")), Step::Done("0.8.117".to_string()));
    assert_eq!(
        VersionQuery::First.resume(&Event::SpawnFailed),
        Step::Continue(VersionQuery::Second, Effect::Run(Invocation::Installed(Verb::Version)))
    );
    assert_eq!(VersionQuery::Second.resume(&exited("0.9\n")), Step::Done("0.9".to_string()));
    assert_eq!(VersionQuery::Second.resume(&Event::NotFound), Step::Failed(FoundryError::NotInstalled));
    assert_eq!(VersionQuery::Second.resume(&Event::SpawnFailed), Step::Failed(FoundryError::ProcessSpawnFailed));
    assert_eq!(
        VersionQuery::First.resume(&failed("bad")),
        Step::Failed(command_failed(Invocation::Cli(Verb::Version), "bad"))
    );
}

#[test]
fn install_is_a_no_op_when_installed() {
    let step = FoundryManager::install_foundry_local(Platform::Other);
    assert_eq!(step, Step::Continue(Install::Checking(InstallCheck::AwaitHelp, Platform::Other), run(Verb::Help)));
    let task = Install::Checking(InstallCheck::AwaitHelp, Platform::Other);
    assert_eq!(
        task.resume(&exited("usage")),
        Step::Continue(Install::Confirming(VersionQuery::First), run(Verb::Version))
    );
    assert_eq!(Install::Confirming(VersionQuery::First).resume(&exited("1.2.3")), Step::Done("1.2.3".to_string()));
}

#[test]
fn install_runs_package_manager_on_windows_only() {
    let absent = Install::Checking(InstallCheck::AwaitLocation, Platform::Windows);
    assert_eq!(
        absent.resume(&Event::Located(false)),
        Step::Continue(Install::Installing, Effect::Run(Invocation::Installer))
    );
    let elsewhere = Install::Checking(InstallCheck::AwaitLocation, Platform::Other);
    assert_eq!(elsewhere.resume(&Event::Located(false)), Step::Failed(FoundryError::PlatformUnsupported));
    assert_eq!(
        Install::Installing.resume(&exited("ok")),
        Step::Continue(Install::Confirming(VersionQuery::First), run(Verb::Version))
    );
    assert_eq!(
        Install::Installing.resume(&failed("no network")),
        Step::Failed(command_failed(Invocation::Installer, "no network"))
    );
    assert_eq!(Install::Installing.resume(&Event::NotFound), Step::Failed(FoundryError::NotInstalled));
    assert_eq!(
        install_foundry_local_command(Platform::Windows),
        FoundryManager::install_foundry_local(Platform::Windows)
    );
}

#[test]
fn timed_start_succeeds_at_deadline() {
    let task = match FoundryManager::start_service_with_timeout(1000) {
        Step::Continue(task, effect) => {
            assert_eq!(effect, Effect::Spawn(Invocation::Cli(Verb::ServiceStart)));
            task
        }
        other => panic!("unexpected step {:?}", other),
    };
    let task = match task.resume(&Event::Spawned) {
        Step::Continue(task, Effect::Poll) => task,
        other => panic!("unexpected step {:?}", other),
    };
    let resting = match task.resume(&Event::ChildRunning(999)) {
        Step::Continue(task, effect) => {
            assert_eq!(effect, Effect::Sleep(250));
            task
        }
        other => panic!("unexpected step {:?}", other),
    };
    let task = match resting.resume(&Event::Woke) {
        Step::Continue(task, Effect::Poll) => task,
        other => panic!("unexpected step {:?}", other),
    };
    assert_eq!(task.resume(&Event::ChildRunning(1000)), Step::Done(()));
    assert_eq!(task.resume(&Event::ChildExited(Some(0))), Step::Done(()));
    assert_eq!(
        task.resume(&Event::ChildExited(Some(2))),
        Step::Failed(FoundryError::CommandFailed {
            invocation: Invocation::Cli(Verb::ServiceStart),
            exit_code: Some(2),
            stderr: None,
        })
    );
    assert_eq!(
        task.resume(&Event::ChildExited(None)),
        Step::Failed(FoundryError::CommandFailed {
            invocation: Invocation::Cli(Verb::ServiceStart),
            exit_code: None,
            stderr: None,
        })
    );
    assert_eq!(task.resume(&Event::SpawnFailed), Step::Failed(FoundryError::ProcessSpawnFailed));
}

#[test]
fn timed_start_fails_when_program_cannot_start() {
    let task = TimedStart { timeout_ms: 10, phase: foundry::start::StartPhase::Spawning };
    assert_eq!(task.resume(&Event::NotFound), Step::Failed(FoundryError::NotInstalled));
    assert_eq!(task.resume(&Event::SpawnFailed), Step::Failed(FoundryError::ProcessSpawnFailed));
}

#[test]
fn start_command_needs_the_program() {
    let task = match start_foundry_service_command() {
        Step::Continue(task, effect) => {
            assert_eq!(effect, run(Verb::Help));
            task
        }
        other => panic!("unexpected step {:?}", other),
    };
    let task = match task.resume(&Event::NotFound) {
        Step::Continue(task, Effect::Locate) => task,
        other => panic!("unexpected step {:?}", other),
    };
    assert_eq!(task.resume(&Event::Located(false)), Step::Failed(FoundryError::NotInstalled));
    match StartService::Checking(InstallCheck::AwaitHelp).resume(&exited("usage")) {
        Step::Continue(StartService::Starting(start), effect) => {
            assert_eq!(start.timeout_ms, 8000);
            assert_eq!(effect, Effect::Spawn(Invocation::Cli(Verb::ServiceStart)));
        }
        other => panic!("unexpected step {:?}", other),
    }
}

#[test]
fn warmup_downloads_loads_and_waits() {
    let mut effects = Vec::new();
    let mut step = Warmup::start("phi-4-mini");
    let mut events = vec![exited("Models cached on device:\n"), exited("downloaded"), exited("loaded"), exited(CACHE_TEXT)].into_iter();
    let report = loop {
        match step {
            Step::Continue(task, effect) => {
                effects.push(effect);
                step = task.resume(&events.next().unwrap());
            }
            Step::Done(report) => break report,
            Step::Failed(e) => panic!("the preparation failed: {:?}", e),
        }
    };
    assert_eq!(
        effects,
        vec![
            run(Verb::CacheList),
            run(Verb::ModelDownload("phi-4-mini".to_string())),
            run(Verb::ModelLoad("phi-4-mini".to_string())),
            run(Verb::CacheList),
        ]
    );
    assert_eq!(report, WarmupReport { load_failure: None, cache_failure: None });
}

#[test]
fn warmup_reports_what_went_wrong() {
    let mut step = Warmup::start("phi-4-mini");
    let mut effects = Vec::new();
    let mut events = vec![exited(""), failed("disk full"), Event::SpawnFailed].into_iter();
    let report = loop {
        match step {
            Step::Continue(task, effect) => {
                effects.push(effect);
                step = task.resume(&events.next().unwrap());
            }
            Step::Done(report) => break report,
            Step::Failed(e) => panic!("the preparation failed: {:?}", e),
        }
    };
    assert_eq!(
        effects,
        vec![run(Verb::CacheList), run(Verb::ModelDownload("phi-4-mini".to_string())), run(Verb::CacheList)]
    );
    assert_eq!(
        report,
        WarmupReport {
            load_failure: Some(command_failed(
                Invocation::Cli(Verb::ModelDownload("phi-4-mini".to_string())),
                "disk full",
            )),
            cache_failure: Some(FoundryError::ProcessSpawnFailed),
        }
    );
}

#[test]
fn configure_discovers_endpoint_of_running_service() {
    let mut effects = Vec::new();
    let mut step = configure_foundry_integration_command("phi-4-mini");
    let mut events = vec![
        exited("usage"),
        exited(STATUS_TEXT),
        exited(CACHE_TEXT),
        exited(CACHE_TEXT),
        exited(STATUS_TEXT),
        exited(LIST_TEXT),
    ]
    .into_iter();
    let config = loop {
        match step {
            Step::Continue(task, effect) => {
                effects.push(effect);
                step = task.resume(&events.next().unwrap());
            }
            Step::Done(config) => break config,
            Step::Failed(e) => panic!("the configuration failed: {:?}", e),
        }
    };
    assert_eq!(
        effects,
        vec![
            run(Verb::Help),
            run(Verb::ServiceStatus),
            run(Verb::CacheList),
            run(Verb::CacheList),
            run(Verb::ServiceStatus),
            run(Verb::ServiceList),
        ]
    );
    assert_eq!(
        config,
        FoundryConfig {
            endpoint_url: "http://127.0.0.1:49798/v1".to_string(),
            model_id: "Phi-4-mini-instruct-openvino-gpu:1".to_string(),
        }
    );
}

#[test]
fn configure_starts_a_stopped_service() {
    let task = Configure::AwaitRunning("phi-4-mini".to_string());
    match task.resume(&failed("service is not running")) {
        Step::Continue(Configure::Starting(start, name), effect) => {
            assert_eq!(name, "phi-4-mini");
            assert_eq!(start.timeout_ms, 8000);
            assert_eq!(effect, Effect::Spawn(Invocation::Cli(Verb::ServiceStart)));
        }
        other => panic!("unexpected step {:?}", other),
    }
    assert_eq!(
        Configure::AwaitRunning("m".to_string()).resume(&failed("access denied")),
        Step::Failed(command_failed(Invocation::Cli(Verb::ServiceStatus), "access denied"))
    );
    assert_eq!(
        Configure::Checking(InstallCheck::AwaitLocation, "m".to_string()).resume(&Event::Located(false)),
        Step::Failed(FoundryError::NotInstalled)
    );
}

#[test]
fn commands_describe_their_failures() {
    let bad = CommandResult::new(false, "", "no such model");
    assert_eq!(
        run_foundry_model_command("phi", &bad),
        Err("Failed to run Foundry model 'phi': no such model".to_string())
    );
    assert_eq!(run_foundry_model_command("phi", &CommandResult::new(true, "", "")), Ok(()));
    assert_eq!(
        get_foundry_available_models_command(&bad),
        Err("Failed to get available Foundry models: Foundry 'model list' command failed: no such model"
            .to_string())
    );
    assert_eq!(
        get_foundry_available_models_command(&CommandResult::new(true, "phi 1GB\n", "")),
        Ok(vec!["phi".to_string()])
    );
    assert_eq!(
        failure_message("Failed to start Foundry service", &FoundryError::NotInstalled),
        "Foundry Local is not installed."
    );
    assert_eq!(
        failure_message("Failed to start Foundry service", &FoundryError::ProcessSpawnFailed),
        "Failed to start Foundry service: The Foundry program could not be started."
    );
}

#[test]
fn plain_start_lets_the_service_settle() {
    assert_eq!(
        FoundryManager::start_service(),
        Step::Continue(PlainStart::AwaitStart, run(Verb::ServiceStart))
    );
    assert_eq!(
        PlainStart::AwaitStart.resume(&exited("started")),
        Step::Continue(PlainStart::Settling, Effect::Sleep(5000))
    );
    assert_eq!(PlainStart::Settling.resume(&Event::Woke), Step::Done(()));
    assert_eq!(
        PlainStart::AwaitStart.resume(&failed("port in use")),
        Step::Failed(command_failed(Invocation::Cli(Verb::ServiceStart), "port in use"))
    );
    assert_eq!(PlainStart::AwaitStart.resume(&Event::SpawnFailed), Step::Failed(FoundryError::ProcessSpawnFailed));
}

#[test]
fn status_asks_the_cache_for_the_named_model() {
    let (_, snapshot) = status(vec![
        exited("usage"),
        exited(STATUS_TEXT),
        exited("Models cached on device:\n  qwen2.5  qwen2.5-0.5b-generic-cpu:3"),
        exited(STATUS_TEXT),
        exited("No models are currently loaded"),
    ]);
    assert_eq!(
        snapshot,
        Some(FoundryStatus {
            installed: true,
            running: true,
            endpoint_url: Some("http://127.0.0.1:49798/v1".to_string()),
            model_id: None,
            model_cached: false,
        })
    );
}

#[test]
fn loading_succeeds_on_second_attempt() {
    let (effects, end) = load(vec![failed("busy"), Event::Woke, exited("loaded"), exited("\u{1F7E2} a X:1")]);
    let load_request = run(Verb::ModelLoad("phi-4-mini".to_string()));
    assert_eq!(
        effects,
        vec![load_request.clone(), Effect::Sleep(2000), load_request, run(Verb::ServiceList)]
    );
    assert_eq!(end, Some(Ok("X:1".to_string())));
}

#[test]
fn identifier_shows_after_two_questions_and_one_pause() {
    let (effects, end) = poll(
        FoundryManager::get_model_id_with_retry(10, 2000),
        vec![exited("starting up"), Event::Woke, exited("\u{1F7E2} a X:1")],
    );
    assert_eq!(effects, vec![run(Verb::ServiceList), Effect::Sleep(2000), run(Verb::ServiceList)]);
    assert_eq!(end, Some(Ok(Some("X:1".to_string()))));
}

#[test]
fn failed_service_listing_blanks_the_model_alone() {
    let (_, snapshot) = status(vec![
        exited("usage"),
        exited(STATUS_TEXT),
        exited(CACHE_TEXT),
        exited(STATUS_TEXT),
        failed("listing broke"),
    ]);
    assert_eq!(
        snapshot,
        Some(FoundryStatus {
            installed: true,
            running: true,
            endpoint_url: Some("http://127.0.0.1:49798/v1".to_string()),
            model_id: None,
            model_cached: true,
        })
    );
}
