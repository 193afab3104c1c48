//! The ways in which an operation on the service fails.

use crate::command::{Call, Invocation, Request, Verb};
use crate::text::{from_chars, signed_decimal, signed_decimal_of};
use vstd::prelude::*;
use vstd::string::StringExecFns;

verus! {

/// A field that is read out of the program's console text.
#[derive(Clone, Copy, Debug, PartialEq, Eq, Structural)]
pub enum Field {
    /// The address at which the service answers.
    EndpointUrl,
    /// The identifier of the loaded model.
    ModelId,
    /// The version of the installed program.
    Version,
}

/// An operation that waits or tries again.
#[derive(Clone, Copy, Debug, PartialEq, Eq, Structural)]
pub enum Operation {
    /// Waiting for the service to report that it is ready.
    ServiceReady,
    /// Waiting for a model to appear in the cache.
    ModelCached,
    /// Asking for the identifier of the loaded model.
    ModelId,
    /// Loading a model and waiting for its identifier.
    ModelLoad,
}

/// Why an operation failed.
#[derive(Clone, Debug, PartialEq, Eq)]
pub enum FoundryError {
    /// The program is not installed.
    NotInstalled,
    /// The installer exists on another platform only.
    PlatformUnsupported,
    /// The program could not be started.
    ProcessSpawnFailed,
    /// The program ran and reported failure: which invocation it was, the
    /// status it exited with, where it has one, and what it wrote to its
    /// error stream, where that was caught.
    CommandFailed { invocation: Invocation, exit_code: Option<i32>, stderr: Option<String> },
    /// The console text does not hold the field.
    ParseNotFound(Field),
    /// The attempts of a polling operation ran out.
    Timeout(Operation),
    /// The attempts of a compound operation ran out.
    RetryExhausted(Operation),
}

/// A `FoundryError` as a mathematical value.
pub enum Failure {
    NotInstalled,
    PlatformUnsupported,
    ProcessSpawnFailed,
    CommandFailed { call: Call, exit_code: Option<i32>, stderr: Option<Seq<char>> },
    ParseNotFound(Field),
    Timeout(Operation),
    RetryExhausted(Operation),
}

impl View for FoundryError {
    type V = Failure;

    open spec fn view(&self) -> Failure {
        match *self {
            FoundryError::NotInstalled => Failure::NotInstalled,
            FoundryError::PlatformUnsupported => Failure::PlatformUnsupported,
            FoundryError::ProcessSpawnFailed => Failure::ProcessSpawnFailed,
            FoundryError::CommandFailed { invocation, exit_code, stderr } => Failure::CommandFailed {
                call: invocation@,
                exit_code,
                stderr: stderr.deep_view(),
            },
            FoundryError::ParseNotFound(field) => Failure::ParseNotFound(field),
            FoundryError::Timeout(operation) => Failure::Timeout(operation),
            FoundryError::RetryExhausted(operation) => Failure::RetryExhausted(operation),
        }
    }
}

impl DeepView for FoundryError {
    type V = Failure;

    open spec fn deep_view(&self) -> Failure {
        self@
    }
}

/// The result of an operation as a mathematical value.
pub open spec fn outcome<T: DeepView>(result: Result<T, FoundryError>) -> Result<T::V, Failure> {
    match result {
        Ok(value) => Ok(value.deep_view()),
        Err(e) => Err(e@),
    }
}

/// What the user is told when the service lists no identifier of a model.
pub const MODEL_ID_NOT_FOUND: &'static str =
    "Could not find model ID in Foundry service list output. Ensure a model is loaded and 'foundry service list' returns its ID.";

/// What the user is told that a request was for, when it failed.
pub open spec fn failed_request(request: Request) -> Seq<char> {
    match request {
        Request::Help => "Foundry '--help' command failed"@,
        Request::Version => "Foundry '--version' command failed"@,
        Request::ServiceStart => "Failed to start Foundry service"@,
        Request::ServiceStatus => "Foundry 'service status' command failed"@,
        Request::ServiceList => "Foundry 'service list' command failed"@,
        Request::ModelList => "Foundry 'model list' command failed"@,
        Request::ModelLoad(name) => "Failed to run Foundry model '"@ + name + "'"@,
        Request::ModelDownload(name) => "Failed to download Foundry model '"@ + name + "'"@,
        Request::CacheList => "Foundry 'cache list' command failed"@,
    }
}

/// What the user is told that an invocation was for, when it failed.
pub open spec fn failed_call(call: Call) -> Seq<char> {
    match call {
        Call::Cli(request) => failed_request(request),
        Call::Installed(request) => failed_request(request),
        Call::Installer => "winget install failed"@,
    }
}

/// What the user is told about the exit status of a failed invocation.
pub open spec fn exit_status_text(exit_code: Option<i32>) -> Seq<char> {
    match exit_code {
        Some(code) => "exit status: "@ + signed_decimal(code as int),
        None => "no exit status"@,
    }
}

/// What the user is told of the reason of a failed invocation: what the
/// program wrote to its error stream, or, where that was not caught, the
/// status it exited with.
pub open spec fn failure_detail(exit_code: Option<i32>, stderr: Option<Seq<char>>) -> Seq<char> {
    match stderr {
        Some(text) => text,
        None => exit_status_text(exit_code),
    }
}

/// What the user is told that a request was for, when it failed.
fn describe_request(verb: &Verb) -> (text: String)
    ensures
        text@ == failed_request(verb@),
{
    match verb {
        Verb::Help => "Foundry '--help' command failed".to_owned(),
        Verb::Version => "Foundry '--version' command failed".to_owned(),
        Verb::ServiceStart => "Failed to start Foundry service".to_owned(),
        Verb::ServiceStatus => "Foundry 'service status' command failed".to_owned(),
        Verb::ServiceList => "Foundry 'service list' command failed".to_owned(),
        Verb::ModelList => "Foundry 'model list' command failed".to_owned(),
        Verb::ModelLoad(name) => "Failed to run Foundry model '".to_owned().concat(
            name.as_str(),
        ).concat("'"),
        Verb::ModelDownload(name) => "Failed to download Foundry model '".to_owned().concat(
            name.as_str(),
        ).concat("'"),
        Verb::CacheList => "Foundry 'cache list' command failed".to_owned(),
    }
}

/// What the user is told about the exit status of a failed invocation.
fn describe_exit(exit_code: Option<i32>) -> (text: String)
    ensures
        text@ == exit_status_text(exit_code),
{
    match exit_code {
        Some(code) => "exit status: ".to_owned().concat(
            from_chars(&signed_decimal_of(code)).as_str(),
        ),
        None => "no exit status".to_owned(),
    }
}

impl Failure {
    /// What the user is told about the failure.
    pub open spec fn message(self) -> Seq<char> {
        match self {
            Failure::NotInstalled => "Foundry Local is not installed."@,
            Failure::PlatformUnsupported =>
                "Foundry Local installation is only supported on Windows."@,
            Failure::ProcessSpawnFailed => "The Foundry program could not be started."@,
            Failure::CommandFailed { call, exit_code, stderr } => failed_call(call) + ": "@
                + failure_detail(exit_code, stderr),
            Failure::ParseNotFound(Field::EndpointUrl) =>
                "Could not find endpoint URL in Foundry service status output"@,
            Failure::ParseNotFound(Field::ModelId) => MODEL_ID_NOT_FOUND@,
            Failure::ParseNotFound(Field::Version) => "Foundry '--version' output was empty"@,
            Failure::Timeout(Operation::ServiceReady) =>
                "Foundry service did not become ready in time."@,
            Failure::Timeout(Operation::ModelCached) => "Foundry model was not cached in time."@,
            Failure::Timeout(_) => MODEL_ID_NOT_FOUND@,
            Failure::RetryExhausted(_) =>
                "Failed to load Foundry model after multiple attempts."@,
        }
    }

    /// Whether a driver that still has attempts left tries again after this
    /// failure: a command that reported failure, or a field that was not
    /// found, may fare better the next time.
    pub open spec fn is_transient(self) -> bool {
        self is CommandFailed || self is ParseNotFound
    }
}

impl FoundryError {
    /// What the user is told about the failure.
    pub fn message(&self) -> (text: String)
        ensures
            text@ == self@.message(),
    {
        match self {
            FoundryError::NotInstalled => "Foundry Local is not installed.".to_owned(),
            FoundryError::PlatformUnsupported =>
                "Foundry Local installation is only supported on Windows.".to_owned(),
            FoundryError::ProcessSpawnFailed =>
                "The Foundry program could not be started.".to_owned(),
            FoundryError::CommandFailed { invocation, exit_code, stderr } => {
                let what = match invocation {
                    Invocation::Cli(verb) => describe_request(verb),
                    Invocation::Installed(verb) => describe_request(verb),
                    Invocation::Installer => "winget install failed".to_owned(),
                };
                match stderr {
                    Some(text) => what.concat(": ").concat(text.as_str()),
                    None => what.concat(": ").concat(describe_exit(*exit_code).as_str()),
                }
            },
            FoundryError::ParseNotFound(Field::EndpointUrl) =>
                "Could not find endpoint URL in Foundry service status output".to_owned(),
            FoundryError::ParseNotFound(Field::ModelId) => MODEL_ID_NOT_FOUND.to_owned(),
            FoundryError::ParseNotFound(Field::Version) =>
                "Foundry '--version' output was empty".to_owned(),
            FoundryError::Timeout(Operation::ServiceReady) =>
                "Foundry service did not become ready in time.".to_owned(),
            FoundryError::Timeout(Operation::ModelCached) =>
                "Foundry model was not cached in time.".to_owned(),
            FoundryError::Timeout(_) => MODEL_ID_NOT_FOUND.to_owned(),
            FoundryError::RetryExhausted(_) =>
                "Failed to load Foundry model after multiple attempts.".to_owned(),
        }
    }

    /// Whether a driver that still has attempts left tries again after this
    /// failure.
    pub fn is_transient(&self) -> (transient: bool)
        ensures
            transient == self@.is_transient(),
    {
        match self {
            FoundryError::CommandFailed { .. } => true,
            FoundryError::ParseNotFound(_) => true,
            _ => false,
        }
    }
}

} // verus!
