//! Questions about the service, each answered from what one invocation of
//! the program printed.
//!
//! Nothing here runs the program. A function takes the `CommandResult` of the
//! invocation that its documentation names and says what the result means.
//! States that are expected (not installed, not running, not cached) are
//! values; only a failure that nothing explains is an error.

use crate::command::{Call, CommandOutcome, CommandResult, Invocation, Platform, Request, Verb};
use crate::error::{outcome, Failure, Field, FoundryError};
use crate::parser::{
    ends_with_version_segment, endpoint_url, extract_endpoint_url, extract_first_line,
    extract_model_id, extract_model_names, first_line, lemma_said_is_mentioned, listed_names,
    listing_names, mentions, says,
    model_id, some_row_names, text_contains, text_mentions,
};
use crate::text::{contains, has_no_capital, lines};
use vstd::prelude::*;

verus! {

/// With this phrase the program says that the service does not run.
pub const NOT_RUNNING: &'static str = "not running";

/// With this phrase the program says that the service does not answer.
pub const NOT_RESPONDING: &'static str = "not responding";

/// With this phrase the status text gives the address of a running service.
pub const RUNNING_ON: &'static str = "running on";

/// With this phrase the status text says that the service is still starting.
pub const IN_PROGRESS: &'static str = "in progress";

/// With this phrase the listing says that the service has no model loaded.
pub const NO_MODELS_LOADED: &'static str = "no models are currently loaded";

/// The name of the model that is used where the caller names none.
pub const DEFAULT_FOUNDRY_MODEL: &'static str = "phi-4-mini";

/// The entry point of the library: every question and every operation is an
/// associated function of this type.
pub struct FoundryManager;

/// Where the product's installer puts the program, most likely place first.
pub open spec fn install_locations(platform: Platform) -> Seq<Seq<char>> {
    match platform {
        Platform::Windows => seq![
            "C:\\Program Files\\FoundryLocal\\foundry.exe"@,
            "C:\\Program Files (x86)\\FoundryLocal\\foundry.exe"@,
        ],
        Platform::Other => Seq::<Seq<char>>::empty(),
    }
}

/// The first install location at or after index `from` that is marked
/// present. `present[i]` says whether location `i` exists on disk; a location
/// without a mark counts as absent.
pub open spec fn present_location(platform: Platform, present: Seq<bool>, from: int) -> Option<
    Seq<char>,
>
    decreases install_locations(platform).len() - from,
{
    if from < 0 || from >= install_locations(platform).len() || from >= present.len() {
        None
    } else if present[from] {
        Some(install_locations(platform)[from])
    } else {
        present_location(platform, present, from + 1)
    }
}

/// The failure of the invocation `call` that exited without success, with
/// the result `result`.
pub open spec fn command_failed(call: Call, result: CommandOutcome) -> Failure {
    Failure::CommandFailed { call, exit_code: result.exit_code, stderr: Some(result.stderr) }
}

/// Whether the program counts as installed: its help text could be had, or
/// one of the install locations exists.
pub open spec fn installed(help: Option<CommandOutcome>, install_path_found: bool) -> bool {
    (help matches Some(result) && result.exit_success) || install_path_found
}

/// The version that the result of the version request reports.
pub open spec fn version(result: CommandOutcome) -> Result<Seq<char>, Failure> {
    if !result.exit_success {
        Err(command_failed(Call::Cli(Request::Version), result))
    } else if first_line(result.stdout).len() == 0 {
        Err(Failure::ParseNotFound(Field::Version))
    } else {
        Ok(first_line(result.stdout))
    }
}

/// Whether one of the two streams says, in these words, that the service
/// does not run or does not answer.
pub open spec fn reports_stopped(status: CommandOutcome) -> bool {
    ||| contains(status.stderr, NOT_RUNNING@)
    ||| contains(status.stderr, NOT_RESPONDING@)
    ||| contains(status.stdout, NOT_RUNNING@)
    ||| contains(status.stdout, NOT_RESPONDING@)
}

/// Whether the service runs, by the result of the status request.
pub open spec fn service_running(status: CommandOutcome) -> Result<bool, Failure> {
    if !status.exit_success {
        if reports_stopped(status) {
            Ok(false)
        } else {
            Err(command_failed(Call::Cli(Request::ServiceStatus), status))
        }
    } else {
        Ok(!mentions(status.stdout, NOT_RUNNING@))
    }
}

/// Whether the service runs and has finished starting, by the result of the
/// status request.
pub open spec fn service_ready(status: CommandOutcome) -> Result<bool, Failure> {
    match service_running(status) {
        Ok(running) => Ok(
            running && mentions(status.stdout, RUNNING_ON@) && !mentions(
                status.stdout,
                IN_PROGRESS@,
            ),
        ),
        Err(e) => Err(e),
    }
}

/// Whether the cache holds the model `name`, by the result of the cache
/// listing.
///
/// A listing that succeeded is decided by its lines alone. A listing that
/// failed and says in either stream that the service does not run shows an
/// empty cache, which is no error; any other failed listing is one.
pub open spec fn model_cached(name: Seq<char>, listing: CommandOutcome) -> Result<bool, Failure> {
    if listing.exit_success {
        Ok(some_row_names(lines(listing.stdout), name))
    } else if mentions(listing.stdout, NOT_RUNNING@) || mentions(listing.stderr, NOT_RUNNING@) {
        Ok(false)
    } else {
        Err(command_failed(Call::Cli(Request::CacheList), listing))
    }
}

/// The names of the models that the result of the model listing holds.
pub open spec fn available_models(listing: CommandOutcome) -> Result<Seq<Seq<char>>, Failure> {
    if !listing.exit_success {
        Err(command_failed(Call::Cli(Request::ModelList), listing))
    } else {
        Ok(listed_names(lines(listing.stdout)))
    }
}

/// Whether the invocation `call`, which changes something, went well, by its
/// result.
pub open spec fn completed(call: Call, result: CommandOutcome) -> Result<(), Failure> {
    if result.exit_success {
        Ok(())
    } else {
        Err(command_failed(call, result))
    }
}

/// The invocation that loads the model `name`.
pub open spec fn load_call(name: Seq<char>) -> Call {
    Call::Cli(Request::ModelLoad(name))
}

/// The invocation that downloads the model `name`.
pub open spec fn download_call(name: Seq<char>) -> Call {
    Call::Cli(Request::ModelDownload(name))
}

/// The endpoint that the result of the status request reports.
pub open spec fn reported_endpoint(status: CommandOutcome) -> Result<Seq<char>, Failure> {
    if !status.exit_success {
        Err(command_failed(Call::Cli(Request::ServiceStatus), status))
    } else {
        match endpoint_url(status.stdout) {
            Some(url) => Ok(url),
            None => Err(Failure::ParseNotFound(Field::EndpointUrl)),
        }
    }
}

/// The identifier of the loaded model that the result of the service listing
/// reports; `None` where the listing says that no model is loaded.
pub open spec fn reported_model_id(listing: CommandOutcome) -> Result<Option<Seq<char>>, Failure> {
    if !listing.exit_success {
        Err(command_failed(Call::Cli(Request::ServiceList), listing))
    } else if mentions(listing.stdout, NO_MODELS_LOADED@) {
        Ok(None)
    } else {
        match model_id(listing.stdout) {
            Some(id) => Ok(Some(id)),
            None => Err(Failure::ParseNotFound(Field::ModelId)),
        }
    }
}

/// The phrases that the library looks for hold no capital letter, so that
/// each is found in a text in whatever case the text has it.
pub proof fn lemma_phrases_have_no_capital()
    ensures
        has_no_capital(NOT_RUNNING@),
        has_no_capital(NOT_RESPONDING@),
        has_no_capital(RUNNING_ON@),
        has_no_capital(IN_PROGRESS@),
        has_no_capital(NO_MODELS_LOADED@),
{
    reveal_strlit("not running");
    reveal_strlit("not responding");
    reveal_strlit("running on");
    reveal_strlit("in progress");
    reveal_strlit("no models are currently loaded");
}

/// A status text that says the service does not run or does not answer is
/// no error: the service is reported as not running, whatever else the text
/// holds. Where the program exited with success only its output stream
/// counts, and there only the first phrase, in whatever case it stands.
pub proof fn lemma_stopped_service_is_not_an_error(status: CommandOutcome)
    requires
        if status.exit_success {
            says(status.stdout, NOT_RUNNING@)
        } else {
            reports_stopped(status)
        },
    ensures
        service_running(status) == Ok::<bool, Failure>(false),
        service_ready(status) == Ok::<bool, Failure>(false),
{
    lemma_phrases_have_no_capital();
    if status.exit_success {
        lemma_said_is_mentioned(status.stdout, NOT_RUNNING@);
    }
}

/// A listing that holds the sentinel phrase, in whatever case, reports that
/// no model is loaded, whatever else it holds.
pub proof fn lemma_sentinel_means_no_model(listing: CommandOutcome)
    requires
        listing.exit_success,
        says(listing.stdout, NO_MODELS_LOADED@),
    ensures
        reported_model_id(listing) == Ok::<Option<Seq<char>>, Failure>(None),
{
    lemma_phrases_have_no_capital();
    lemma_said_is_mentioned(listing.stdout, NO_MODELS_LOADED@);
}

/// A failed cache listing that says that the service does not run shows an
/// empty cache, which is no error.
pub proof fn lemma_offline_cache_is_empty(name: Seq<char>, listing: CommandOutcome)
    requires
        !listing.exit_success,
        says(listing.stdout, NOT_RUNNING@) || says(listing.stderr, NOT_RUNNING@),
    ensures
        model_cached(name, listing) == Ok::<bool, Failure>(false),
{
    lemma_phrases_have_no_capital();
    if says(listing.stdout, NOT_RUNNING@) {
        lemma_said_is_mentioned(listing.stdout, NOT_RUNNING@);
    } else {
        lemma_said_is_mentioned(listing.stderr, NOT_RUNNING@);
    }
}

/// The error of the invocation `invocation` that exited without success,
/// with the result `result`.
pub fn failure_of(invocation: Invocation, result: &CommandResult) -> (e: FoundryError)
    ensures
        e@ == command_failed(invocation@, result@),
{
    FoundryError::CommandFailed {
        invocation,
        exit_code: result.exit_code,
        stderr: Some(result.stderr.clone()),
    }
}

impl FoundryManager {
    /// The install locations of `platform`, most likely place first.
    pub fn install_locations(platform: Platform) -> (places: Vec<String>)
        ensures
            places.deep_view() == install_locations(platform),
    {
        let mut places: Vec<String> = Vec::new();
        match platform {
            Platform::Windows => {
                places.push("C:\\Program Files\\FoundryLocal\\foundry.exe".to_owned());
                places.push("C:\\Program Files (x86)\\FoundryLocal\\foundry.exe".to_owned());
                assert(places.deep_view() =~= install_locations(platform));
            },
            Platform::Other => {
                assert(places.deep_view() =~= install_locations(platform));
            },
        }
        places
    }

    /// Picks the program's path: the first install location of `platform`
    /// that exists. `present[i]` says whether location `i` of
    /// `install_locations` exists on disk.
    pub fn get_executable_path(platform: Platform, present: &Vec<bool>) -> (path: Option<String>)
        ensures
            path.deep_view() == present_location(platform, present@, 0),
    {
        let mut places = FoundryManager::install_locations(platform);
        let mut i: usize = 0;
        while i < places.len() && i < present.len()
            invariant
                places.deep_view() == install_locations(platform),
                present_location(platform, present@, 0) == present_location(
                    platform,
                    present@,
                    i as int,
                ),
            decreases places.len() - i,
        {
            if present[i] {
                assert(places.deep_view()[i as int] == places@[i as int]@);
                return Some(places[i].clone());
            }
            i += 1;
        }
        assert(places.deep_view().len() == places.len());
        None
    }

    /// Decides whether the program is installed. `help` is the result of the
    /// help request, or `None` where the program could not be started;
    /// `install_path_found` says whether an install location exists.
    pub fn is_installed(help: Option<&CommandResult>, install_path_found: bool) -> (found: bool)
        ensures
            found == installed(help.deep_view(), install_path_found),
    {
        match help {
            Some(result) => result.exit_success || install_path_found,
            None => install_path_found,
        }
    }

    /// Reads the version out of the result of the version request: the first
    /// line of the output, trimmed.
    pub fn get_version(result: &CommandResult) -> (out: Result<String, FoundryError>)
        ensures
            outcome(out) == version(result@),
    {
        if !result.exit_success {
            return Err(failure_of(Invocation::Cli(Verb::Version), result));
        }
        let line = extract_first_line(result.stdout.as_str());
        if line.as_str().unicode_len() == 0 {
            return Err(FoundryError::ParseNotFound(Field::Version));
        }
        Ok(line)
    }

    /// Decides from the result of the status request whether the service
    /// runs.
    pub fn is_service_running(status: &CommandResult) -> (out: Result<bool, FoundryError>)
        ensures
            outcome(out) == service_running(status@),
    {
        if !status.exit_success {
            if text_contains(status.stderr.as_str(), NOT_RUNNING) || text_contains(
                status.stderr.as_str(),
                NOT_RESPONDING,
            ) || text_contains(status.stdout.as_str(), NOT_RUNNING) || text_contains(
                status.stdout.as_str(),
                NOT_RESPONDING,
            ) {
                return Ok(false);
            }
            return Err(failure_of(Invocation::Cli(Verb::ServiceStatus), status));
        }
        Ok(!text_mentions(status.stdout.as_str(), NOT_RUNNING))
    }

    /// Decides from the result of the status request whether the service
    /// runs and has finished starting.
    pub fn is_service_ready(status: &CommandResult) -> (out: Result<bool, FoundryError>)
        ensures
            outcome(out) == service_ready(status@),
    {
        match FoundryManager::is_service_running(status) {
            Ok(running) => Ok(
                running && text_mentions(status.stdout.as_str(), RUNNING_ON) && !text_mentions(
                    status.stdout.as_str(),
                    IN_PROGRESS,
                ),
            ),
            Err(e) => Err(e),
        }
    }

    /// Decides from the result of the cache listing whether the cache holds
    /// the model `model_name`.
    pub fn is_model_cached(model_name: &str, listing: &CommandResult) -> (out: Result<
        bool,
        FoundryError,
    >)
        ensures
            outcome(out) == model_cached(model_name@, listing@),
    {
        if listing.exit_success {
            return Ok(listing_names(listing.stdout.as_str(), model_name));
        }
        if text_mentions(listing.stdout.as_str(), NOT_RUNNING) || text_mentions(
            listing.stderr.as_str(),
            NOT_RUNNING,
        ) {
            return Ok(false);
        }
        Err(failure_of(Invocation::Cli(Verb::CacheList), listing))
    }

    /// Reads the names of the models that can be had out of the result of the
    /// model listing.
    pub fn get_available_models(listing: &CommandResult) -> (out: Result<
        Vec<String>,
        FoundryError,
    >)
        ensures
            outcome(out) == available_models(listing@),
    {
        if !listing.exit_success {
            return Err(failure_of(Invocation::Cli(Verb::ModelList), listing));
        }
        Ok(extract_model_names(listing.stdout.as_str()))
    }

    /// Decides from the result of the request to load the model
    /// `model_name` whether the model was loaded. The failure names the
    /// model.
    pub fn run_model(model_name: &str, result: &CommandResult) -> (out: Result<(), FoundryError>)
        ensures
            outcome(out) == completed(load_call(model_name@), result@),
    {
        if !result.exit_success {
            return Err(failure_of(Invocation::Cli(Verb::ModelLoad(model_name.to_owned())), result));
        }
        Ok(())
    }

    /// Decides from the result of the request to download the model
    /// `model_name` whether the model was downloaded. The failure names the
    /// model.
    pub fn download_model(model_name: &str, result: &CommandResult) -> (out: Result<
        (),
        FoundryError,
    >)
        ensures
            outcome(out) == completed(download_call(model_name@), result@),
    {
        if !result.exit_success {
            return Err(
                failure_of(Invocation::Cli(Verb::ModelDownload(model_name.to_owned())), result),
            );
        }
        Ok(())
    }

    /// Reads the endpoint out of the result of the status request.
    pub fn get_endpoint_url(status: &CommandResult) -> (out: Result<String, FoundryError>)
        ensures
            outcome(out) == reported_endpoint(status@),
            out matches Ok(url) ==> ends_with_version_segment(url@),
    {
        if !status.exit_success {
            return Err(failure_of(Invocation::Cli(Verb::ServiceStatus), status));
        }
        extract_endpoint_url(status.stdout.as_str())
    }

    /// Reads the identifier of the loaded model out of the result of the
    /// service listing; `None` where the listing says that no model is loaded.
    pub fn get_model_id_once(listing: &CommandResult) -> (out: Result<
        Option<String>,
        FoundryError,
    >)
        ensures
            outcome(out) == reported_model_id(listing@),
    {
        if !listing.exit_success {
            return Err(failure_of(Invocation::Cli(Verb::ServiceList), listing));
        }
        if text_mentions(listing.stdout.as_str(), NO_MODELS_LOADED) {
            return Ok(None);
        }
        match extract_model_id(listing.stdout.as_str()) {
            Ok(id) => Ok(Some(id)),
            Err(e) => Err(e),
        }
    }
}

} // verus!
