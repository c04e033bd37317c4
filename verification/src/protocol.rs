//! What passes between the orchestration and its host. An operation is a
//! function from its state and the event that answers its last request to
//! its next state and its next request; the host performs requests and
//! reports events, and decides nothing.

use crate::command::{
    CommandError, CommandErrorView, Fault, HostCommand, HostCommandView, LinuxCommandBuilder,
    LinuxCommandView, ProcessOutput, ProcessOutputView,
};
use crate::config::{
    EnvSecret, EnvSecretView, HostDir, HostDirView, LinuxPath, MachineConfig, MachineConfigView,
};
use crate::status::PlatformStatus;
use crate::text::concat3;
use vstd::prelude::*;
use vstd::string::*;

verus! {

/// A request to the host that is no command: what was asked, with what it
/// was asked about.
#[derive(Debug, PartialEq, Eq)]
pub enum Request {
    CheckBackend,
    Status { instance: String },
    Import { rootfs: String, instance: String, data: HostDir },
    SetSparse { instance: String },
    WriteFile { dir: HostDir, file: String },
    Marker { dir: HostDir, name: String },
    Eval { cwd: LinuxPath, attr: String },
    OpenConfig { name: String },
    WriteConfig { name: String },
    Prompt { message: String },
    Confirm { message: String },
    Shortcuts { name: String, present: bool },
}

/// Mathematical value of a [`Request`].
#[verifier::ext_equal]
pub enum RequestView {
    CheckBackend,
    Status { instance: Seq<char> },
    Import { rootfs: Seq<char>, instance: Seq<char>, data: HostDirView },
    SetSparse { instance: Seq<char> },
    WriteFile { dir: HostDirView, file: Seq<char> },
    Marker { dir: HostDirView, name: Seq<char> },
    Eval { cwd: Seq<char>, attr: Seq<char> },
    OpenConfig { name: Seq<char> },
    WriteConfig { name: Seq<char> },
    Prompt { message: Seq<char> },
    Confirm { message: Seq<char> },
    Shortcuts { name: Seq<char>, present: bool },
}

impl View for Request {
    type V = RequestView;

    open spec fn view(&self) -> RequestView {
        match self {
            Request::CheckBackend => RequestView::CheckBackend,
            Request::Status { instance } => RequestView::Status { instance: instance@ },
            Request::Import { rootfs, instance, data } => RequestView::Import {
                rootfs: rootfs@,
                instance: instance@,
                data: data@,
            },
            Request::SetSparse { instance } => RequestView::SetSparse { instance: instance@ },
            Request::WriteFile { dir, file } => RequestView::WriteFile { dir: dir@, file: file@ },
            Request::Marker { dir, name } => RequestView::Marker { dir: dir@, name: name@ },
            Request::Eval { cwd, attr } => RequestView::Eval { cwd: cwd@, attr: attr@ },
            Request::OpenConfig { name } => RequestView::OpenConfig { name: name@ },
            Request::WriteConfig { name } => RequestView::WriteConfig { name: name@ },
            Request::Prompt { message } => RequestView::Prompt { message: message@ },
            Request::Confirm { message } => RequestView::Confirm { message: message@ },
            Request::Shortcuts { name, present } => RequestView::Shortcuts {
                name: name@,
                present: *present,
            },
        }
    }
}

impl DeepView for Request {
    type V = RequestView;

    open spec fn deep_view(&self) -> RequestView {
        self@
    }
}

/// Why an operation gave up.
#[derive(Debug, PartialEq, Eq)]
pub enum Error {
    /// A command inside an instance failed; `context` says in words which
    /// step of the operation it belonged to, where the operation names one.
    Command { error: CommandError, context: Option<String> },
    /// A call of the backend itself failed.
    Backend(HostCommand),
    /// The host could not perform a request that is no command.
    Action(Request),
    /// The machine uses local modules but has no container yet.
    LocalModules(String),
    /// The machine was not built and installed yet.
    NotInstalled(String),
    /// The user declined.
    Canceled,
    /// The store container runs, but its package daemon does not answer.
    Misconfigured,
    /// No machine of that name is configured.
    NotFound(String),
    /// The event does not answer the pending request.
    Unexpected,
}

/// Mathematical value of an [`Error`].
#[verifier::ext_equal]
pub enum ErrorView {
    Command { error: CommandErrorView, context: Option<Seq<char>> },
    Backend(HostCommandView),
    Action(RequestView),
    LocalModules(Seq<char>),
    NotInstalled(Seq<char>),
    Canceled,
    Misconfigured,
    NotFound(Seq<char>),
    Unexpected,
}

impl View for Error {
    type V = ErrorView;

    open spec fn view(&self) -> ErrorView {
        match self {
            Error::Command { error, context } => ErrorView::Command {
                error: error@,
                context: context.deep_view(),
            },
            Error::Backend(c) => ErrorView::Backend(c@),
            Error::Action(request) => ErrorView::Action(request@),
            Error::LocalModules(n) => ErrorView::LocalModules(n@),
            Error::NotInstalled(n) => ErrorView::NotInstalled(n@),
            Error::Canceled => ErrorView::Canceled,
            Error::Misconfigured => ErrorView::Misconfigured,
            Error::NotFound(n) => ErrorView::NotFound(n@),
            Error::Unexpected => ErrorView::Unexpected,
        }
    }
}

impl DeepView for Error {
    type V = ErrorView;

    open spec fn deep_view(&self) -> ErrorView {
        self@
    }
}

/// The words in which an error is reported, for the errors that have fixed
/// words. A failed command without a context is described by its data.
pub open spec fn error_text(e: ErrorView) -> Option<Seq<char>> {
    match e {
        ErrorView::Command { error, context } => context,
        ErrorView::LocalModules(name) => Some(
            "Can't build machine "@ + name
                + " as it uses local modules but wasn't installed yet!"@,
        ),
        ErrorView::NotInstalled(name) => Some(
            "Machine "@ + name + " wasn't installed yet. Install with `codchi rebuild "@ + name
                + "`."@,
        ),
        ErrorView::Canceled => Some("Canceled deletion."@),
        ErrorView::Misconfigured => Some(
            "The store container was started incorrectly. Please try again!"@,
        ),
        _ => None,
    }
}

impl Error {
    /// The words in which this error is reported, if it has fixed words.
    pub fn message(&self) -> (r: Option<String>)
        ensures
            r.deep_view() == error_text(self@),
    {
        match self {
            Error::Command { error, context } => match context {
                Some(c) => Some(c.clone()),
                None => None,
            },
            Error::LocalModules(name) => Some(
                concat3(
                    "Can't build machine ",
                    name.as_str(),
                    " as it uses local modules but wasn't installed yet!",
                ),
            ),
            Error::NotInstalled(name) => {
                let mut r = String::from_str("Machine ");
                r.append(name.as_str());
                r.append(" wasn't installed yet. Install with `codchi rebuild ");
                r.append(name.as_str());
                r.append("`.");
                Some(r)
            },
            Error::Canceled => Some(String::from_str("Canceled deletion.")),
            Error::Misconfigured => Some(
                String::from_str("The store container was started incorrectly. Please try again!"),
            ),
            _ => None,
        }
    }
}

/// Starting a machine: write its one-shot environment file, then follow its
/// init log in the background.
#[derive(Debug, PartialEq, Eq)]
pub struct StartPlan {
    /// Waits until an earlier environment file is consumed, then writes the
    /// new one. Its output goes to the debug log; its result is the event.
    pub write_env: LinuxCommandBuilder,
    /// Follows the init log until a line marks success or failure. It runs
    /// in the background and nobody waits for it.
    pub tail_log: LinuxCommandBuilder,
}

/// Mathematical value of a [`StartPlan`].
#[verifier::ext_equal]
pub struct StartPlanView {
    pub write_env: LinuxCommandView,
    pub tail_log: LinuxCommandView,
}

impl View for StartPlan {
    type V = StartPlanView;

    open spec fn view(&self) -> StartPlanView {
        StartPlanView { write_env: self.write_env@, tail_log: self.tail_log@ }
    }
}

/// A request to the host.
#[derive(Debug, PartialEq, Eq)]
pub enum Action {
    /// Check that the backend can be used at all. Answer: `Performed` or
    /// `Failed`.
    CheckBackend,
    /// Ask the backend for the run-state of an instance. Answer: `Status`.
    Status { instance: String },
    /// Register a new instance from a root file system archive, with the
    /// given host directory, created if missing, as its storage. Answer:
    /// `Performed` or `Failed`.
    Import { rootfs: String, instance: String, data: HostDir },
    /// Let the backend store the instance's disk sparsely. Answer:
    /// `Performed` or `Failed`.
    SetSparse { instance: String },
    /// Call the backend itself and wait. Answer: `Exit`, or `Failed` where
    /// the call could not be started.
    Host(HostCommand),
    /// Run a command in an instance and collect its output. Answer: `Exit`,
    /// or `Failed` where the command could not be started.
    Run(LinuxCommandBuilder),
    /// Run a command in an instance and hand its output line by line to the
    /// debug log. Answer: `Exit`, or `Failed` where the command could not be
    /// started.
    Stream(LinuxCommandBuilder),
    /// Run a command in an instance in the background; its result is logged
    /// and never waited for. Answer: `Performed`, or `Failed` where it could
    /// not be spawned.
    Spawn(LinuxCommandBuilder),
    /// Replace this process by a command in an instance. No answer.
    Exec(LinuxCommandBuilder),
    /// Run a command in an instance in the background, with its output line
    /// by line in the debug log; how it ends is logged and never waited
    /// for. Answer: `Performed`.
    Follow(LinuxCommandBuilder),
    /// Write a file into a host directory, which is created if it is
    /// missing. Answer: `Performed` or `Failed`.
    WriteFile { dir: HostDir, file: String, text: String },
    /// Ask whether `dir` holds an entry called `name`. Answer: `Answer`.
    Marker { dir: HostDir, name: String },
    /// Evaluate an attribute of the flake in `cwd` inside the store. Answer:
    /// `Secrets` or `Failed`.
    Eval { cwd: LinuxPath, attr: String },
    /// Open a machine's stored configuration, holding its lock if asked.
    /// Answer: `Config` or `Failed`.
    OpenConfig { name: String, lock: bool },
    /// Write a machine's configuration and release the lock. Answer:
    /// `Performed` or `Failed`.
    WriteConfig(MachineConfig),
    /// Ask the user for a secret, masked, without asking twice. Answer:
    /// `Text` or `Failed`.
    Prompt { message: String, help: String },
    /// Ask the user to confirm. Answer: `Answer` or `Failed`.
    Confirm { message: String, help: String },
    /// Remove host directories with all they hold. A directory that cannot
    /// be removed is logged and otherwise ignored. Answer: `Performed`.
    RemoveDirs(Vec<HostDir>),
    /// Bring the host's shortcuts for a machine up to date: written if
    /// `present`, removed otherwise. Answer: `Performed` or `Failed`.
    Shortcuts { name: String, present: bool },
    /// Wait. Answer: `Performed`.
    Sleep { millis: u64 },
    /// The operation is complete.
    Done,
    /// The operation has failed.
    Fail(Error),
}

/// Mathematical value of an [`Action`].
#[verifier::ext_equal]
pub enum ActionView {
    CheckBackend,
    Status { instance: Seq<char> },
    Import { rootfs: Seq<char>, instance: Seq<char>, data: HostDirView },
    SetSparse { instance: Seq<char> },
    Host(HostCommandView),
    Run(LinuxCommandView),
    Stream(LinuxCommandView),
    Spawn(LinuxCommandView),
    Exec(LinuxCommandView),
    Follow(LinuxCommandView),
    WriteFile { dir: HostDirView, file: Seq<char>, text: Seq<char> },
    Marker { dir: HostDirView, name: Seq<char> },
    Eval { cwd: Seq<char>, attr: Seq<char> },
    OpenConfig { name: Seq<char>, lock: bool },
    WriteConfig(MachineConfigView),
    Prompt { message: Seq<char>, help: Seq<char> },
    Confirm { message: Seq<char>, help: Seq<char> },
    RemoveDirs(Seq<HostDirView>),
    Shortcuts { name: Seq<char>, present: bool },
    Sleep { millis: u64 },
    Done,
    Fail(ErrorView),
}

impl View for Action {
    type V = ActionView;

    open spec fn view(&self) -> ActionView {
        match self {
            Action::CheckBackend => ActionView::CheckBackend,
            Action::Status { instance } => ActionView::Status { instance: instance@ },
            Action::Import { rootfs, instance, data } => ActionView::Import {
                rootfs: rootfs@,
                instance: instance@,
                data: data@,
            },
            Action::SetSparse { instance } => ActionView::SetSparse { instance: instance@ },
            Action::Host(c) => ActionView::Host(c@),
            Action::Run(c) => ActionView::Run(c@),
            Action::Stream(c) => ActionView::Stream(c@),
            Action::Spawn(c) => ActionView::Spawn(c@),
            Action::Exec(c) => ActionView::Exec(c@),
            Action::Follow(c) => ActionView::Follow(c@),
            Action::WriteFile { dir, file, text } => ActionView::WriteFile {
                dir: dir@,
                file: file@,
                text: text@,
            },
            Action::Marker { dir, name } => ActionView::Marker { dir: dir@, name: name@ },
            Action::Eval { cwd, attr } => ActionView::Eval { cwd: cwd@, attr: attr@ },
            Action::OpenConfig { name, lock } => ActionView::OpenConfig {
                name: name@,
                lock: *lock,
            },
            Action::WriteConfig(c) => ActionView::WriteConfig(c@),
            Action::Prompt { message, help } => ActionView::Prompt {
                message: message@,
                help: help@,
            },
            Action::Confirm { message, help } => ActionView::Confirm {
                message: message@,
                help: help@,
            },
            Action::RemoveDirs(dirs) => ActionView::RemoveDirs(dirs.deep_view()),
            Action::Shortcuts { name, present } => ActionView::Shortcuts {
                name: name@,
                present: *present,
            },
            Action::Sleep { millis } => ActionView::Sleep { millis: *millis },
            Action::Done => ActionView::Done,
            Action::Fail(e) => ActionView::Fail(e@),
        }
    }
}

/// What the host reports back.
#[derive(Debug, PartialEq, Eq)]
pub enum Event {
    /// The operation begins: nothing was requested yet.
    Begin,
    /// The request was performed.
    Performed,
    /// The request could not be performed.
    Failed,
    /// The requested process has ended.
    Exit(ProcessOutput),
    /// The run-state of the instance asked about.
    Status(PlatformStatus),
    /// Yes or no.
    Answer(bool),
    /// What the user typed.
    Text(String),
    /// The secrets that the evaluated configuration declares.
    Secrets(Vec<EnvSecret>),
    /// The stored configuration that was opened.
    Config(MachineConfig),
}

/// Mathematical value of an [`Event`].
#[verifier::ext_equal]
pub enum EventView {
    Begin,
    Performed,
    Failed,
    Exit(ProcessOutputView),
    Status(PlatformStatus),
    Answer(bool),
    Text(Seq<char>),
    Secrets(Seq<EnvSecretView>),
    Config(MachineConfigView),
}

impl View for Event {
    type V = EventView;

    open spec fn view(&self) -> EventView {
        match self {
            Event::Begin => EventView::Begin,
            Event::Performed => EventView::Performed,
            Event::Failed => EventView::Failed,
            Event::Exit(out) => EventView::Exit(out@),
            Event::Status(s) => EventView::Status(*s),
            Event::Answer(b) => EventView::Answer(*b),
            Event::Text(t) => EventView::Text(t@),
            Event::Secrets(s) => EventView::Secrets(s.deep_view()),
            Event::Config(c) => EventView::Config(c@),
        }
    }
}

/// One answer of an operation: a line for the user, if the operation has
/// one to show at this point, and the next request.
#[derive(Debug, PartialEq, Eq)]
pub struct Reply {
    pub message: Option<String>,
    pub action: Action,
}

/// Mathematical value of a [`Reply`].
#[verifier::ext_equal]
pub struct ReplyView {
    pub message: Option<Seq<char>>,
    pub action: ActionView,
}

impl View for Reply {
    type V = ReplyView;

    open spec fn view(&self) -> ReplyView {
        ReplyView { message: self.message.deep_view(), action: self.action@ }
    }
}

/// A request without a line for the user.
pub open spec fn silent(action: ActionView) -> ReplyView {
    ReplyView { message: None, action }
}

/// A request with a line for the user.
pub open spec fn saying(message: Seq<char>, action: ActionView) -> ReplyView {
    ReplyView { message: Some(message), action }
}

/// The reply that gives up with `e`.
pub open spec fn failing(e: ErrorView) -> ReplyView {
    silent(ActionView::Fail(e))
}

/// The error for a command that did not succeed.
pub open spec fn command_failed(error: CommandErrorView) -> ErrorView {
    ErrorView::Command { error, context: None }
}

/// The error for a command that ended with a non-zero exit code.
pub open spec fn exit_error(command: LinuxCommandView) -> ErrorView {
    command_failed(CommandErrorView { command, fault: Fault::Exit })
}

/// The error for a command that could not be started.
pub open spec fn start_error(command: LinuxCommandView) -> ErrorView {
    command_failed(CommandErrorView { command, fault: Fault::Start })
}

/// How a command has ended, as an error: with a non-zero exit code where
/// it ran, and as not started otherwise.
pub open spec fn ended_badly(command: LinuxCommandView, ran: bool) -> ErrorView {
    if ran {
        exit_error(command)
    } else {
        start_error(command)
    }
}

impl Error {
    /// The error for `command`, ended with a non-zero exit code.
    pub fn exit(command: LinuxCommandBuilder) -> (r: Error)
        ensures
            r@ == exit_error(command@),
    {
        Error::Command { error: CommandError { command, fault: Fault::Exit }, context: None }
    }

    /// The error for `command`, which ran to a non-zero exit code or, if it
    /// did not run, could not be started.
    pub fn ended(command: LinuxCommandBuilder, ran: bool) -> (r: Error)
        ensures
            r@ == ended_badly(command@, ran),
    {
        let fault = if ran {
            Fault::Exit
        } else {
            Fault::Start
        };
        Error::Command { error: CommandError { command, fault }, context: None }
    }
}

impl Reply {
    /// A request without a line for the user.
    pub fn silent(action: Action) -> (r: Reply)
        ensures
            r@ == silent(action@),
    {
        Reply { message: None, action }
    }

    /// A request with a line for the user.
    pub fn saying(message: String, action: Action) -> (r: Reply)
        ensures
            r@ == saying(message@, action@),
    {
        Reply { message: Some(message), action }
    }

    /// The reply that gives up with `e`.
    pub fn failing(e: Error) -> (r: Reply)
        ensures
            r@ == failing(e@),
    {
        Reply { message: None, action: Action::Fail(e) }
    }
}

} // verus!
