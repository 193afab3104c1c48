use foundry::command::{
    log_excerpt, log_request, CommandResult, Invocation, Platform, Verb,
};
use foundry::error::{Field, FoundryError};
use foundry::manager::FoundryManager;
use foundry::status::ServiceState;

fn ok(stdout: &str) -> CommandResult {
    CommandResult::new(true, stdout, "")
}

fn failed(stdout: &str, stderr: &str) -> CommandResult {
    CommandResult::new(false, stdout, stderr)
}

fn command_failed(verb: Verb, stderr: &str) -> FoundryError {
    FoundryError::CommandFailed {
        invocation: Invocation::Cli(verb),
        exit_code: None,
        stderr: Some(stderr.to_string()),
    }
}

#[test]
fn command_result_keeps_its_parts() {
    let result = CommandResult::new(false, "out", "err");
    assert!(!result.exit_success);
    assert_eq!(result.stdout, "out");
    assert_eq!(result.stderr, "err");
}

#[test]
fn verbs_have_their_arguments() {
    assert_eq!(Verb::Help.args(), vec!["--help"]);
    assert_eq!(Verb::Version.args(), vec!["--version"]);
    assert_eq!(Verb::ServiceStart.args(), vec!["service", "start"]);
    assert_eq!(Verb::ServiceStatus.args(), vec!["service", "status"]);
    assert_eq!(Verb::ServiceList.args(), vec!["service", "list"]);
    assert_eq!(Verb::ModelList.args(), vec!["model", "list"]);
    assert_eq!(Verb::ModelLoad("phi-4-mini".to_string()).args(), vec!["model", "load", "phi-4-mini"]);
    assert_eq!(Verb::ModelDownload("m".to_string()).args(), vec!["model", "download", "m"]);
    assert_eq!(Verb::CacheList.args(), vec!["cache", "list"]);
    assert_eq!(Invocation::Cli(Verb::CacheList).args(), vec!["cache", "list"]);
    assert_eq!(Invocation::Installed(Verb::Version).args(), vec!["--version"]);
    assert_eq!(Invocation::Installer.args(), vec!["install", "Microsoft.FoundryLocal"]);
}

#[test]
fn install_locations_by_platform() {
    assert_eq!(
        FoundryManager::install_locations(Platform::Windows),
        vec![
            "C:\\Program Files\\FoundryLocal\\foundry.exe",
            "C:\\Program Files (x86)\\FoundryLocal\\foundry.exe"
        ]
    );
    assert!(FoundryManager::install_locations(Platform::Other).is_empty());
}

#[test]
fn executable_path_is_first_present_location() {
    let windows = Platform::Windows;
    assert_eq!(
        FoundryManager::get_executable_path(windows, &vec![true, true]),
        Some("C:\\Program Files\\FoundryLocal\\foundry.exe".to_string())
    );
    assert_eq!(
        FoundryManager::get_executable_path(windows, &vec![false, true]),
        Some("C:\\Program Files (x86)\\FoundryLocal\\foundry.exe".to_string())
    );
    assert_eq!(FoundryManager::get_executable_path(windows, &vec![false, false]), None);
    assert_eq!(FoundryManager::get_executable_path(windows, &vec![false]), None);
    assert_eq!(FoundryManager::get_executable_path(windows, &vec![]), None);
    assert_eq!(FoundryManager::get_executable_path(windows, &vec![false, false, true]), None);
    assert_eq!(FoundryManager::get_executable_path(Platform::Other, &vec![true, true]), None);
}

#[test]
fn installed_by_help_or_by_location() {
    assert!(FoundryManager::is_installed(Some(&ok("usage")), false));
    assert!(FoundryManager::is_installed(Some(&failed("", "oops")), true));
    assert!(!FoundryManager::is_installed(Some(&failed("", "oops")), false));
    assert!(FoundryManager::is_installed(None, true));
    assert!(!FoundryManager::is_installed(None, false));
}

#[test]
fn version_is_first_line() {
    assert_eq!(FoundryManager::get_version(&ok(" 0.8.117 \nbuild x\n")).unwrap(), "0.8.117");
    assert_eq!(
        FoundryManager::get_version(&ok("")),
        Err(FoundryError::ParseNotFound(Field::Version))
    );
    assert_eq!(
        FoundryManager::get_version(&ok("   \n0.8")),
        Err(FoundryError::ParseNotFound(Field::Version))
    );
    assert_eq!(FoundryManager::get_version(&failed("0.8", "bad flag")), Err(command_failed(Verb::Version, "bad flag")));
}

#[test]
fn stopped_service_is_not_an_error() {
    for phrase in ["service is not running", "not running", "the service is not responding"] {
        assert_eq!(FoundryManager::is_service_running(&failed("", phrase)), Ok(false));
        assert_eq!(FoundryManager::is_service_running(&failed(phrase, "")), Ok(false));
        assert_eq!(FoundryManager::is_service_ready(&failed("", phrase)), Ok(false));
    }
    assert_eq!(FoundryManager::is_service_running(&ok("Service is not running.")), Ok(false));
    assert_eq!(FoundryManager::is_service_running(&ok("Service is NOT RUNNING.")), Ok(false));
    assert_eq!(
        FoundryManager::is_service_running(&CommandResult::new(true, "not running", "noise")),
        Ok(false)
    );
}

#[test]
fn service_runs_unless_told_otherwise() {
    assert_eq!(FoundryManager::is_service_running(&ok("running on http://h:1/x")), Ok(true));
    assert_eq!(FoundryManager::is_service_running(&ok("")), Ok(true));
    assert_eq!(FoundryManager::is_service_running(&ok("not responding")), Ok(true));
    assert_eq!(
        FoundryManager::is_service_running(&CommandResult::new(true, "fine", "not running")),
        Ok(true)
    );
}

#[test]
fn other_failure_of_status_is_an_error() {
    assert_eq!(FoundryManager::is_service_running(&failed("", "access denied")), Err(command_failed(Verb::ServiceStatus, "access denied")));
    assert_eq!(FoundryManager::is_service_running(&failed("x", "Not Running")), Err(command_failed(Verb::ServiceStatus, "Not Running")));
    assert_eq!(FoundryManager::is_service_ready(&failed("running on", "boom")), Err(command_failed(Verb::ServiceStatus, "boom")));
}

#[test]
fn service_is_ready_when_running_and_settled() {
    assert_eq!(
        FoundryManager::is_service_ready(&ok("Service is Running on http://127.0.0.1:5273/openai/status")),
        Ok(true)
    );
    assert_eq!(
        FoundryManager::is_service_ready(&ok("running on http://h:1/x, model load in progress")),
        Ok(false)
    );
    assert_eq!(FoundryManager::is_service_ready(&ok("starting")), Ok(false));
    assert_eq!(FoundryManager::is_service_ready(&ok("not running on anything")), Ok(false));
}

#[test]
fn model_is_cached_when_a_line_names_it() {
    let listing = "Models cached on device:\n   Alias         Model ID\n\u{1F4BE} phi-4-mini    Phi-4-mini-instruct-generic-cpu:4\n";
    assert_eq!(FoundryManager::is_model_cached("phi-4-mini", &ok(listing)), Ok(true));
    assert_eq!(FoundryManager::is_model_cached("PHI-4-MINI", &ok(listing)), Ok(true));
    assert_eq!(FoundryManager::is_model_cached("qwen", &ok(listing)), Ok(false));
    assert_eq!(FoundryManager::is_model_cached("m", &ok("")), Ok(false));
}

#[test]
fn offline_cache_is_empty_not_an_error() {
    assert_eq!(FoundryManager::is_model_cached("m", &failed("", "Service is Not Running")), Ok(false));
    assert_eq!(FoundryManager::is_model_cached("m", &failed("not running", "")), Ok(false));
    assert_eq!(FoundryManager::is_model_cached("m", &ok("m\nservice not running")), Ok(true));
    assert_eq!(FoundryManager::is_model_cached("phi", &ok("qwen\nservice not running")), Ok(false));
    assert_eq!(
        FoundryManager::is_model_cached("phi", &CommandResult::new(true, "phi-4 1GB", "not running")),
        Ok(true)
    );
    assert_eq!(FoundryManager::is_model_cached("m", &failed("m", "not running")), Ok(false));
    assert_eq!(FoundryManager::is_model_cached("m", &failed("m", "disk error")), Err(command_failed(Verb::CacheList, "disk error")));
}

#[test]
fn endpoint_comes_from_status_text() {
    assert_eq!(
        FoundryManager::get_endpoint_url(&ok("running on http://127.0.0.1:49798/openai/status")).unwrap(),
        "http://127.0.0.1:49798/v1"
    );
    assert_eq!(
        FoundryManager::get_endpoint_url(&ok("running")),
        Err(FoundryError::ParseNotFound(Field::EndpointUrl))
    );
    assert_eq!(
        FoundryManager::get_endpoint_url(&failed("running on http://h:1/x", "bad")),
        Err(command_failed(Verb::ServiceStatus, "bad"))
    );
}

#[test]
fn sentinel_means_no_model() {
    for text in [
        "No models are currently loaded in the service",
        "no models are currently loaded",
        "\u{1F7E2} alias id:1\nno models are currently loaded\nname:3",
        "NO MODELS ARE CURRENTLY LOADED",
        "No models are currently loaded\n\u{1F7E2} alias-foo model-id-bar:3",
        "\u{3a3}\u{130} No Models Are Currently Loaded \u{3a3}",
    ] {
        assert_eq!(FoundryManager::get_model_id_once(&ok(text)), Ok(None));
    }
}

#[test]
fn model_id_comes_from_service_listing() {
    let listing = "Models running in service:\n    Alias    Model ID\n\u{1F7E2}  phi-4-mini   Phi-4-mini-instruct-openvino-gpu:1\n";
    assert_eq!(
        FoundryManager::get_model_id_once(&ok(listing)),
        Ok(Some("Phi-4-mini-instruct-openvino-gpu:1".to_string()))
    );
    assert_eq!(
        FoundryManager::get_model_id_once(&ok("nothing here")),
        Err(FoundryError::ParseNotFound(Field::ModelId))
    );
    assert_eq!(
        FoundryManager::get_model_id_once(&failed("no models are currently loaded", "down")),
        Err(command_failed(Verb::ServiceList, "down"))
    );
}

#[test]
fn available_models_are_first_columns() {
    assert_eq!(
        FoundryManager::get_available_models(&ok("NAME  SIZE\n--------\nphi-4-mini 3GB\nqwen 1GB\n")),
        Ok(vec!["phi-4-mini".to_string(), "qwen".to_string()])
    );
    assert_eq!(FoundryManager::get_available_models(&failed("phi", "no net")), Err(command_failed(Verb::ModelList, "no net")));
}

#[test]
fn changing_requests_succeed_by_exit_status() {
    assert_eq!(FoundryManager::run_model("phi", &ok("loaded")), Ok(()));
    assert_eq!(
        FoundryManager::run_model("phi", &failed("", "no such model")),
        Err(command_failed(Verb::ModelLoad("phi".to_string()), "no such model"))
    );
    assert_eq!(FoundryManager::download_model("phi", &ok("")), Ok(()));
    assert_eq!(
        FoundryManager::download_model("phi", &failed("", "disk full")),
        Err(command_failed(Verb::ModelDownload("phi".to_string()), "disk full"))
    );
}

#[test]
fn failures_have_messages() {
    assert_eq!(FoundryError::NotInstalled.message(), "Foundry Local is not installed.");
    assert_eq!(
        FoundryError::PlatformUnsupported.message(),
        "Foundry Local installation is only supported on Windows."
    );
    assert_eq!(
        command_failed(Verb::ModelDownload("phi".to_string()), "disk full").message(),
        "Failed to download Foundry model 'phi': disk full"
    );
    assert_eq!(
        command_failed(Verb::ModelLoad("phi".to_string()), "no such model").message(),
        "Failed to run Foundry model 'phi': no such model"
    );
    assert_eq!(
        command_failed(Verb::ServiceStatus, "boom").message(),
        "Foundry 'service status' command failed: boom"
    );
    assert_eq!(
        FoundryError::ParseNotFound(Field::Version).message(),
        "Foundry '--version' output was empty"
    );
    assert!(command_failed(Verb::CacheList, "x").is_transient());
    assert!(FoundryError::ParseNotFound(Field::ModelId).is_transient());
    assert!(!FoundryError::ProcessSpawnFailed.is_transient());
    assert!(!FoundryError::NotInstalled.is_transient());
    let hint = "Could not find model ID in Foundry service list output. Ensure a model is loaded and 'foundry service list' returns its ID.";
    assert_eq!(FoundryError::ParseNotFound(Field::ModelId).message(), hint);
    assert_eq!(FoundryError::Timeout(foundry::error::Operation::ModelId).message(), hint);
    assert_eq!(
        FoundryError::ParseNotFound(Field::EndpointUrl).message(),
        "Could not find endpoint URL in Foundry service status output"
    );
    assert_eq!(
        FoundryError::Timeout(foundry::error::Operation::ServiceReady).message(),
        "Foundry service did not become ready in time."
    );
    assert_eq!(
        FoundryError::Timeout(foundry::error::Operation::ModelCached).message(),
        "Foundry model was not cached in time."
    );
    assert_eq!(
        FoundryError::RetryExhausted(foundry::error::Operation::ModelLoad).message(),
        "Failed to load Foundry model after multiple attempts."
    );
}

#[test]
fn state_is_what_the_last_look_showed() {
    let ready = ok("running on http://h:1/x");
    let unready = ok("running on http://h:1/x, load in progress");
    let stopped = failed("", "service is not running");
    assert_eq!(ServiceState::observe(false, true, Some(&ready)), ServiceState::Uninstalled);
    assert_eq!(ServiceState::observe(true, false, Some(&ready)), ServiceState::Ready);
    assert_eq!(ServiceState::observe(true, true, Some(&unready)), ServiceState::RunningUnready);
    assert_eq!(ServiceState::observe(true, true, Some(&stopped)), ServiceState::Starting);
    assert_eq!(ServiceState::observe(true, false, Some(&stopped)), ServiceState::InstalledStopped);
    assert_eq!(ServiceState::observe(true, false, None), ServiceState::InstalledStopped);
    assert_eq!(ServiceState::observe(true, false, Some(&failed("", "boom"))), ServiceState::InstalledStopped);
}

#[test]
fn log_records_are_abbreviated() {
    assert_eq!(log_excerpt("  short \n"), "short");
    assert_eq!(log_excerpt(""), "");
    let long = "x".repeat(401);
    assert_eq!(log_excerpt(&long), format!("{}...", "x".repeat(400)));
    assert_eq!(log_excerpt(&"y".repeat(400)), "y".repeat(400));
    assert_eq!(
        CommandResult::new(true, " out \n", "").log_record(),
        "Foundry CLI response: status=ok stdout=out stderr="
    );
    assert_eq!(
        CommandResult::new(false, "", "boom").log_record(),
        "Foundry CLI response: status=failed stdout= stderr=boom"
    );
    assert_eq!(
        log_request("foundry", &Verb::ModelLoad("phi".to_string()).args()),
        "Foundry CLI request: foundry model load phi"
    );
    assert_eq!(log_request("winget", &Vec::new()), "Foundry CLI request: winget");
}

#[test]
fn failure_keeps_the_exit_status() {
    let result = CommandResult::exited(Some(3), "", "no such model");
    assert!(!result.exit_success);
    assert_eq!(result.exit_code, Some(3));
    let failure = FoundryManager::run_model("phi", &result).unwrap_err();
    assert_eq!(
        failure,
        FoundryError::CommandFailed {
            invocation: Invocation::Cli(Verb::ModelLoad("phi".to_string())),
            exit_code: Some(3),
            stderr: Some("no such model".to_string()),
        }
    );
    assert_eq!(failure.message(), "Failed to run Foundry model 'phi': no such model");
    let download = FoundryManager::download_model("phi", &CommandResult::exited(Some(-1), "", "x"));
    assert_eq!(
        download.unwrap_err().message(),
        "Failed to download Foundry model 'phi': x"
    );
    let killed = FoundryManager::get_version(&CommandResult::exited(None, "", "killed"));
    assert_eq!(killed.unwrap_err().message(), "Foundry '--version' command failed: killed");
    let installer = FoundryError::CommandFailed {
        invocation: Invocation::Installer,
        exit_code: Some(i32::MIN),
        stderr: Some("denied".to_string()),
    };
    assert_eq!(installer.message(), "winget install failed: denied");
    let silent = |exit_code: Option<i32>| FoundryError::CommandFailed {
        invocation: Invocation::Cli(Verb::ServiceStart),
        exit_code,
        stderr: None,
    };
    assert_eq!(silent(Some(2)).message(), "Failed to start Foundry service: exit status: 2");
    assert_eq!(
        silent(Some(i32::MIN)).message(),
        "Failed to start Foundry service: exit status: -2147483648"
    );
    assert_eq!(silent(None).message(), "Failed to start Foundry service: no exit status");
    assert!(CommandResult::exited(Some(0), "out", "").exit_success);
    assert_eq!(CommandResult::new(true, "", "").exit_code, Some(0));
    assert_eq!(CommandResult::new(false, "", "").exit_code, None);
}
