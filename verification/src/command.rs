//! What is asked of the program, and what comes back.

use crate::text::{append, from_chars, slice, to_chars, trim, trimmed};
use vstd::prelude::*;

verus! {

/// The most characters of a stream that a log record shows.
pub const EXCERPT_CHARS: usize = 400;

/// What a log record shows of a stream: the text without the whitespace
/// around it, cut after `EXCERPT_CHARS` characters and marked where it was
/// cut.
pub open spec fn excerpt(text: Seq<char>) -> Seq<char> {
    if trimmed(text).len() <= EXCERPT_CHARS {
        trimmed(text)
    } else {
        trimmed(text).take(EXCERPT_CHARS as int) + "..."@
    }
}

/// The words of `words` with a space before each.
pub open spec fn spaced(words: Seq<Seq<char>>) -> Seq<char>
    decreases words.len(),
{
    if words.len() == 0 {
        Seq::<char>::empty()
    } else {
        spaced(words.drop_last()) + " "@ + words.last()
    }
}

/// An excerpt is never longer than `EXCERPT_CHARS` characters and the mark:
/// a log record does not grow with what the program printed.
pub proof fn lemma_excerpt_is_bounded(text: Seq<char>)
    ensures
        excerpt(text).len() <= EXCERPT_CHARS + 3,
{
    reveal_strlit("...");
}

/// What a log record shows of a stream.
pub fn log_excerpt(text: &str) -> (shown: String)
    ensures
        shown@ == excerpt(text@),
{
    let bare = trim(&to_chars(text));
    if bare.len() <= EXCERPT_CHARS {
        from_chars(&bare)
    } else {
        assert(bare@.subrange(0, EXCERPT_CHARS as int) =~= bare@.take(EXCERPT_CHARS as int));
        from_chars(&append(&slice(&bare, 0, EXCERPT_CHARS), &to_chars("...")))
    }
}

/// What an invocation of the program left behind.
#[derive(Clone, Debug, PartialEq, Eq)]
pub struct CommandResult {
    /// Whether the program exited with status zero.
    pub exit_success: bool,
    /// The status with which the program exited, where it has one.
    pub exit_code: Option<i32>,
    /// What it wrote to its output stream.
    pub stdout: String,
    /// What it wrote to its error stream.
    pub stderr: String,
}

/// A `CommandResult` as a mathematical value.
pub struct CommandOutcome {
    pub exit_success: bool,
    pub exit_code: Option<i32>,
    pub stdout: Seq<char>,
    pub stderr: Seq<char>,
}

impl View for CommandResult {
    type V = CommandOutcome;

    open spec fn view(&self) -> CommandOutcome {
        CommandOutcome {
            exit_success: self.exit_success,
            exit_code: self.exit_code,
            stdout: self.stdout@,
            stderr: self.stderr@,
        }
    }
}

impl DeepView for CommandResult {
    type V = CommandOutcome;

    open spec fn deep_view(&self) -> CommandOutcome {
        self@
    }
}

/// The log record of the result `result`: how the program exited, and an
/// excerpt of each stream.
pub open spec fn response_record(result: CommandOutcome) -> Seq<char> {
    "Foundry CLI response: status="@ + (if result.exit_success {
        "ok"@
    } else {
        "failed"@
    }) + " stdout="@ + excerpt(result.stdout) + " stderr="@ + excerpt(result.stderr)
}

/// The log record of a request with the arguments `arguments` to the program
/// named `program`.
pub open spec fn request_record(program: Seq<char>, arguments: Seq<Seq<char>>) -> Seq<char> {
    "Foundry CLI request: "@ + program + spaced(arguments)
}

/// The log record of a request with the arguments `arguments` to the program
/// named `program`.
pub fn log_request(program: &str, arguments: &Vec<String>) -> (record: String)
    ensures
        record@ == request_record(program@, arguments.deep_view()),
{
    let mut record = append(&to_chars("Foundry CLI request: "), &to_chars(program));
    let mut i: usize = 0;
    assert(arguments.deep_view().take(0) =~= Seq::<Seq<char>>::empty());
    while i < arguments.len()
        invariant
            i <= arguments.len(),
            record@ == "Foundry CLI request: "@ + program@ + spaced(
                arguments.deep_view().take(i as int),
            ),
        decreases arguments.len() - i,
    {
        let ghost before = arguments.deep_view().take(i as int);
        let ghost now = arguments.deep_view().take(i + 1);
        assert(now.drop_last() =~= before);
        assert(now.last() == arguments@[i as int]@);
        record = append(&append(&record, &to_chars(" ")), &to_chars(arguments[i].as_str()));
        assert(record@ =~= "Foundry CLI request: "@ + program@ + spaced(now));
        i += 1;
    }
    assert(arguments.deep_view().take(arguments.len() as int) =~= arguments.deep_view());
    from_chars(&record)
}

impl CommandResult {
    /// The log record of the result.
    pub fn log_record(&self) -> (record: String)
        ensures
            record@ == response_record(self@),
    {
        let status = if self.exit_success {
            "ok"
        } else {
            "failed"
        };
        let head = append(&to_chars("Foundry CLI response: status="), &to_chars(status));
        let out = append(
            &append(&head, &to_chars(" stdout=")),
            &to_chars(log_excerpt(self.stdout.as_str()).as_str()),
        );
        let all = append(
            &append(&out, &to_chars(" stderr=")),
            &to_chars(log_excerpt(self.stderr.as_str()).as_str()),
        );
        from_chars(&all)
    }

    /// The result of an invocation that exited with or without success and
    /// wrote `stdout` and `stderr`. The exit status is zero for a success and
    /// unknown for a failure.
    pub fn new(exit_success: bool, stdout: &str, stderr: &str) -> (result: CommandResult)
        ensures
            result@ == (CommandOutcome {
                exit_success,
                exit_code: if exit_success {
                    Some(0i32)
                } else {
                    None
                },
                stdout: stdout@,
                stderr: stderr@,
            }),
            result@.wf(),
    {
        CommandResult {
            exit_success,
            exit_code: if exit_success {
                Some(0)
            } else {
                None
            },
            stdout: stdout.to_owned(),
            stderr: stderr.to_owned(),
        }
    }

    /// The result of an invocation that exited with the status `exit_code`,
    /// or without one, and wrote `stdout` and `stderr`. Status zero is the
    /// success.
    pub fn exited(exit_code: Option<i32>, stdout: &str, stderr: &str) -> (result: CommandResult)
        ensures
            result@ == (CommandOutcome {
                exit_success: exit_code == Some(0i32),
                exit_code,
                stdout: stdout@,
                stderr: stderr@,
            }),
            result@.wf(),
    {
        let exit_success = match exit_code {
            Some(code) => code == 0,
            None => false,
        };
        CommandResult {
            exit_success,
            exit_code,
            stdout: stdout.to_owned(),
            stderr: stderr.to_owned(),
        }
    }
}

impl CommandOutcome {
    /// Whether the two accounts of the exit agree: the program succeeded
    /// exactly where it exited with status zero.
    pub open spec fn wf(self) -> bool {
        self.exit_success == (self.exit_code == Some(0i32))
    }
}

/// The machine on which the program runs, as far as the library cares.
#[derive(Clone, Copy, Debug, PartialEq, Eq, Structural)]
pub enum Platform {
    /// The platform that the product and its installer are made for.
    Windows,
    /// Any other.
    Other,
}

/// A request that the program understands.
#[derive(Clone, Debug, PartialEq, Eq)]
pub enum Verb {
    /// Print the usage text.
    Help,
    /// Print the version.
    Version,
    /// Start the service.
    ServiceStart,
    /// Report whether the service runs, and where.
    ServiceStatus,
    /// List the models that the service has loaded.
    ServiceList,
    /// List the models that can be had.
    ModelList,
    /// Load the named model into the service.
    ModelLoad(String),
    /// Download the named model into the cache.
    ModelDownload(String),
    /// List the models in the cache.
    CacheList,
}

/// A `Verb` as a mathematical value.
pub enum Request {
    Help,
    Version,
    ServiceStart,
    ServiceStatus,
    ServiceList,
    ModelList,
    ModelLoad(Seq<char>),
    ModelDownload(Seq<char>),
    CacheList,
}

impl View for Verb {
    type V = Request;

    open spec fn view(&self) -> Request {
        match *self {
            Verb::Help => Request::Help,
            Verb::Version => Request::Version,
            Verb::ServiceStart => Request::ServiceStart,
            Verb::ServiceStatus => Request::ServiceStatus,
            Verb::ServiceList => Request::ServiceList,
            Verb::ModelList => Request::ModelList,
            Verb::ModelLoad(name) => Request::ModelLoad(name@),
            Verb::ModelDownload(name) => Request::ModelDownload(name@),
            Verb::CacheList => Request::CacheList,
        }
    }
}

impl DeepView for Verb {
    type V = Request;

    open spec fn deep_view(&self) -> Request {
        self@
    }
}

impl Request {
    /// The arguments that the program is started with.
    pub open spec fn arguments(self) -> Seq<Seq<char>> {
        match self {
            Request::Help => seq!["--help"@],
            Request::Version => seq!["--version"@],
            Request::ServiceStart => seq!["service"@, "start"@],
            Request::ServiceStatus => seq!["service"@, "status"@],
            Request::ServiceList => seq!["service"@, "list"@],
            Request::ModelList => seq!["model"@, "list"@],
            Request::ModelLoad(name) => seq!["model"@, "load"@, name],
            Request::ModelDownload(name) => seq!["model"@, "download"@, name],
            Request::CacheList => seq!["cache"@, "list"@],
        }
    }
}

/// The vector of the two strings.
fn pair(first: &str, second: &str) -> (args: Vec<String>)
    ensures
        args.deep_view() == seq![first@, second@],
{
    let mut args: Vec<String> = Vec::new();
    args.push(first.to_owned());
    args.push(second.to_owned());
    assert(args.deep_view() =~= seq![first@, second@]);
    args
}

impl Verb {
    /// The arguments that the program is started with.
    pub fn args(&self) -> (args: Vec<String>)
        ensures
            args.deep_view() == self@.arguments(),
    {
        match self {
            Verb::Help => {
                let mut args: Vec<String> = Vec::new();
                args.push("--help".to_owned());
                assert(args.deep_view() =~= seq!["--help"@]);
                args
            },
            Verb::Version => {
                let mut args: Vec<String> = Vec::new();
                args.push("--version".to_owned());
                assert(args.deep_view() =~= seq!["--version"@]);
                args
            },
            Verb::ServiceStart => pair("service", "start"),
            Verb::ServiceStatus => pair("service", "status"),
            Verb::ServiceList => pair("service", "list"),
            Verb::ModelList => pair("model", "list"),
            Verb::ModelLoad(name) => {
                let mut args = pair("model", "load");
                let ghost before = args.deep_view();
                args.push(name.clone());
                assert(args.deep_view() =~= before.push(name@));
                assert(args.deep_view() =~= seq!["model"@, "load"@, name@]);
                args
            },
            Verb::ModelDownload(name) => {
                let mut args = pair("model", "download");
                let ghost before = args.deep_view();
                args.push(name.clone());
                assert(args.deep_view() =~= before.push(name@));
                assert(args.deep_view() =~= seq!["model"@, "download"@, name@]);
                args
            },
            Verb::CacheList => pair("cache", "list"),
        }
    }
}

/// Which program is run, and with which request.
#[derive(Clone, Debug, PartialEq, Eq)]
pub enum Invocation {
    /// The program at its install location where there is one, else by its
    /// name on the search path.
    Cli(Verb),
    /// The program at its install location, and nowhere else.
    Installed(Verb),
    /// The package manager, asked to install the product.
    Installer,
}

/// An `Invocation` as a mathematical value.
pub enum Call {
    Cli(Request),
    Installed(Request),
    Installer,
}

impl View for Invocation {
    type V = Call;

    open spec fn view(&self) -> Call {
        match *self {
            Invocation::Cli(verb) => Call::Cli(verb@),
            Invocation::Installed(verb) => Call::Installed(verb@),
            Invocation::Installer => Call::Installer,
        }
    }
}

/// The name of the program on the search path.
pub const PROGRAM_NAME: &'static str = "foundry";

/// The name of the package manager on the search path.
pub const INSTALLER_NAME: &'static str = "winget";

/// The name under which the package manager knows the product.
pub const PACKAGE_ID: &'static str = "Microsoft.FoundryLocal";

impl Call {
    /// The arguments that the program is started with.
    pub open spec fn arguments(self) -> Seq<Seq<char>> {
        match self {
            Call::Cli(request) => request.arguments(),
            Call::Installed(request) => request.arguments(),
            Call::Installer => seq!["install"@, PACKAGE_ID@],
        }
    }
}

impl Invocation {
    /// The arguments that the program is started with.
    pub fn args(&self) -> (args: Vec<String>)
        ensures
            args.deep_view() == self@.arguments(),
    {
        match self {
            Invocation::Cli(verb) => verb.args(),
            Invocation::Installed(verb) => verb.args(),
            Invocation::Installer => {
                let mut args: Vec<String> = Vec::new();
                args.push("install".to_owned());
                args.push(PACKAGE_ID.to_owned());
                assert(args.deep_view() =~= seq!["install"@, PACKAGE_ID@]);
                args
            },
        }
    }
}

} // verus!
