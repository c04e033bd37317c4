//! Bringing up the store container: import it on first use, initialise it
//! in the order that avoids the deadlock of the generic init path, and wait
//! until its package daemon answers.

use crate::command::{
    backend_call, backend_command, captured, HostCommand, HostCommandView, LinuxCommandBuilder,
    LinuxCommandDriver, LinuxCommandView, ProcessOutput, ProcessOutputView,
};
use crate::config::{HostDir, HostDirView, LinuxPath, Settings, SettingsView};
use crate::machine::{store_driver, store_run, store_script};
use crate::protocol::{
    command_failed, exit_error, failing, saying, silent, start_error, Action, ActionView, Error,
    ErrorView, Event, EventView, Reply, ReplyView, Request, RequestView,
};
use crate::scripts::{render_runtime, runtime_script};
use crate::status::PlatformStatus;
use crate::text::{
    concat3, contains, has_substring, lemma_trimmed_core, trim, trimmed, white_space,
};
use vstd::utf8::{decode_utf8, valid_utf8};
use vstd::prelude::*;
use vstd::string::*;

verus! {

/// The time between two looks at a store that is still initialising.
pub const POLL_MILLIS: u64 = 500;

/// The store container of this backend.
#[derive(Debug, PartialEq, Eq)]
pub struct StoreImpl {}

/// Where the bootstrap stands: which answer it waits for.
#[derive(Debug, PartialEq, Eq, Clone, Copy, Structural)]
pub enum StoreStep {
    /// Nothing was requested yet.
    Start,
    /// The backend is being checked.
    Checking,
    /// The run-state of the store was asked for.
    Querying,
    /// The store is being imported.
    Importing,
    /// What a failed import has registered is being removed again.
    Reverting,
    /// The store's disk is being made sparse.
    Sparsing,
    /// The store's processes are being listed.
    Polling,
    /// The bootstrap waits before it looks again.
    Waiting,
    /// The package daemon is being pinged.
    Pinging,
    /// The store that started incorrectly is being terminated.
    Terminating,
    /// The init sequence runs up to the build of the runtime.
    PartialInit,
    /// The store's runtime is being built.
    BuildingRuntime,
    /// The full init sequence runs.
    FullInit,
    /// What a failed first-time install left on the host is being removed.
    CleaningUp,
    /// The store is ready.
    Ready,
    /// The bootstrap has failed.
    Failed,
}

/// The state of one bootstrap.
#[derive(Debug, PartialEq, Eq)]
pub struct StoreState {
    pub step: StoreStep,
    /// Whether this bootstrap has imported the store.
    pub importing: bool,
    /// Whether the import and the sparsing are done.
    pub after_install: bool,
    /// The error that is reported once cleaning up is over.
    pub error: Option<Error>,
}

/// Mathematical value of a [`StoreState`].
#[verifier::ext_equal]
pub struct StoreStateView {
    pub step: StoreStep,
    pub importing: bool,
    pub after_install: bool,
    pub error: Option<ErrorView>,
}

impl View for StoreState {
    type V = StoreStateView;

    open spec fn view(&self) -> StoreStateView {
        StoreStateView {
            step: self.step,
            importing: self.importing,
            after_install: self.after_install,
            error: self.error.deep_view(),
        }
    }
}

/// The state of a bootstrap that has not begun.
pub open spec fn initial_store() -> StoreStateView {
    StoreStateView { step: StoreStep::Start, importing: false, after_install: false, error: None }
}

/// The command that lists the store's processes.
pub open spec fn ps_command(settings: SettingsView) -> LinuxCommandView {
    store_run(settings, "ps"@, Seq::empty(), None)
}

/// The command that pings the store's package daemon.
pub open spec fn ping_command(settings: SettingsView) -> LinuxCommandView {
    store_run(settings, "nix"@, seq!["store"@, "ping"@, "--store"@, "daemon"@], None)
}

/// The init sequence up to the build of the runtime.
pub open spec fn partial_init_command(settings: SettingsView) -> LinuxCommandView {
    store_run(settings, "/sbin/init"@, seq!["--until-build"@], None)
}

/// The full init sequence.
pub open spec fn full_init_command(settings: SettingsView) -> LinuxCommandView {
    store_run(settings, "/sbin/init"@, Seq::empty(), None)
}

/// The build of the store's runtime.
pub open spec fn runtime_command(settings: SettingsView) -> LinuxCommandView {
    store_script(settings, runtime_script(settings), None)
}

/// The call of the backend that kills the store.
pub open spec fn terminate_store(settings: SettingsView) -> HostCommandView {
    backend_call(settings, seq!["--terminate"@, settings.store_name])
}

/// The call of the backend that unregisters the store.
pub open spec fn unregister_store(settings: SettingsView) -> HostCommandView {
    backend_call(settings, seq!["--unregister"@, settings.store_name])
}

/// The import of the store, as a request that can fail.
pub open spec fn store_import_asked(settings: SettingsView) -> RequestView {
    RequestView::Import {
        rootfs: settings.store_rootfs,
        instance: settings.store_name,
        data: HostDirView::StoreData,
    }
}

/// The question for the run-state of the store.
pub open spec fn store_query(settings: SettingsView) -> ActionView {
    ActionView::Status { instance: settings.store_name }
}

/// The import of the store.
pub open spec fn store_import(settings: SettingsView) -> ActionView {
    ActionView::Import {
        rootfs: settings.store_rootfs,
        instance: settings.store_name,
        data: HostDirView::StoreData,
    }
}

/// The host directories of the store.
pub open spec fn store_dirs() -> Seq<HostDirView> {
    seq![HostDirView::StoreConfig, HostDirView::StoreData]
}

/// The command that translates a path inside the store to a host path.
pub open spec fn host_path_command(settings: SettingsView, path: Seq<char>) -> LinuxCommandView {
    store_run(settings, "/bin/wslpath"@, seq!["-w"@, path], None)
}

/// The words that say which translation failed.
pub open spec fn host_path_context(path: Seq<char>) -> Seq<char> {
    "Failed to run 'wslpath' with path '"@ + path + "'."@
}

/// The host path that the translation printed: its output without
/// surrounding white space.
pub open spec fn host_path(
    settings: SettingsView,
    path: Seq<char>,
    out: ProcessOutputView,
) -> Result<Seq<char>, ErrorView> {
    match captured(host_path_command(settings, path), out) {
        Ok(text) => Ok(trimmed(text)),
        Err(error) => Err(ErrorView::Command { error, context: Some(host_path_context(path)) }),
    }
}

/// The state `s` at another step.
pub open spec fn store_at(s: StoreStateView, step: StoreStep) -> StoreStateView {
    StoreStateView { step, ..s }
}

/// The bootstrap ends with `e`. A bootstrap that has imported the store
/// first removes the store's host directories, so that nothing of a failed
/// first-time install remains.
pub open spec fn store_fail(s: StoreStateView, e: ErrorView) -> (StoreStateView, ReplyView) {
    if s.importing {
        (
            StoreStateView { step: StoreStep::CleaningUp, error: Some(e), ..s },
            saying(
                "Removing leftovers of store files..."@,
                ActionView::RemoveDirs(store_dirs()),
            ),
        )
    } else {
        (store_at(s, StoreStep::Failed), failing(e))
    }
}

/// The store's processes are listed.
pub open spec fn poll(settings: SettingsView, s: StoreStateView) -> (StoreStateView, ReplyView) {
    (store_at(s, StoreStep::Polling), silent(ActionView::Run(ps_command(settings))))
}

/// The run-state of the store is known.
pub open spec fn on_store_status(
    settings: SettingsView,
    s: StoreStateView,
    status: PlatformStatus,
) -> (StoreStateView, ReplyView) {
    match status {
        PlatformStatus::NotInstalled => (
            StoreStateView { step: StoreStep::Importing, importing: true, ..s },
            silent(store_import(settings)),
        ),
        PlatformStatus::Running => poll(settings, s),
        PlatformStatus::Stopped => if s.after_install {
            (
                store_at(s, StoreStep::PartialInit),
                saying(
                    "Initializing store container. This takes a while the first time..."@,
                    ActionView::Stream(partial_init_command(settings)),
                ),
            )
        } else {
            (
                store_at(s, StoreStep::FullInit),
                silent(ActionView::Stream(full_init_command(settings))),
            )
        },
    }
}

/// The store's processes were listed. While the boot supervisor is among
/// them the store is still initialising; after that the package daemon has
/// to answer.
pub open spec fn on_polled(
    settings: SettingsView,
    s: StoreStateView,
    out: ProcessOutputView,
) -> (StoreStateView, ReplyView) {
    match captured(ps_command(settings), out) {
        Err(error) => store_fail(s, command_failed(error)),
        Ok(text) => if has_substring(text, "/sbin/init"@) {
            (
                store_at(s, StoreStep::Waiting),
                saying(
                    "The store is currently initializing. Please wait a moment..."@,
                    ActionView::Sleep { millis: POLL_MILLIS },
                ),
            )
        } else {
            (store_at(s, StoreStep::Pinging), silent(ActionView::Run(ping_command(settings))))
        },
    }
}

/// A command of the init sequence has ended.
pub open spec fn on_init(
    s: StoreStateView,
    event: EventView,
    command: LinuxCommandView,
    next: (StoreStateView, ReplyView),
) -> (StoreStateView, ReplyView) {
    match event {
        EventView::Exit(out) => if out.success {
            next
        } else {
            store_fail(s, exit_error(command))
        },
        EventView::Failed => store_fail(s, start_error(command)),
        _ => (store_at(s, StoreStep::Failed), failing(ErrorView::Unexpected)),
    }
}

/// The next step of the bootstrap.
pub open spec fn store_step(settings: SettingsView, s: StoreStateView, event: EventView) -> (
    StoreStateView,
    ReplyView,
) {
    let unexpected = (store_at(s, StoreStep::Failed), failing(ErrorView::Unexpected));
    match s.step {
        StoreStep::Start => match event {
            EventView::Begin => (
                store_at(s, StoreStep::Checking),
                silent(ActionView::CheckBackend),
            ),
            _ => unexpected,
        },
        StoreStep::Checking => match event {
            EventView::Performed => (
                store_at(s, StoreStep::Querying),
                silent(store_query(settings)),
            ),
            EventView::Failed => store_fail(s, ErrorView::Action(RequestView::CheckBackend)),
            _ => unexpected,
        },
        StoreStep::Querying => match event {
            EventView::Status(status) => on_store_status(settings, s, status),
            EventView::Failed => store_fail(
                s,
                ErrorView::Action(RequestView::Status { instance: settings.store_name }),
            ),
            _ => unexpected,
        },
        StoreStep::Importing => match event {
            EventView::Performed => (
                store_at(s, StoreStep::Sparsing),
                silent(ActionView::SetSparse { instance: settings.store_name }),
            ),
            EventView::Failed => (
                store_at(s, StoreStep::Reverting),
                silent(ActionView::Host(unregister_store(settings))),
            ),
            _ => unexpected,
        },
        StoreStep::Reverting => store_fail(s, ErrorView::Action(store_import_asked(settings))),
        StoreStep::Sparsing => match event {
            EventView::Performed => (
                StoreStateView { step: StoreStep::Querying, after_install: true, ..s },
                silent(store_query(settings)),
            ),
            EventView::Failed => store_fail(
                s,
                ErrorView::Action(RequestView::SetSparse { instance: settings.store_name }),
            ),
            _ => unexpected,
        },
        StoreStep::Polling => match event {
            EventView::Exit(out) => on_polled(settings, s, out),
            EventView::Failed => store_fail(s, start_error(ps_command(settings))),
            _ => unexpected,
        },
        StoreStep::Waiting => poll(settings, s),
        StoreStep::Pinging => match event {
            EventView::Exit(out) => if out.success {
                (store_at(s, StoreStep::Ready), silent(ActionView::Done))
            } else {
                (
                    store_at(s, StoreStep::Terminating),
                    silent(ActionView::Host(terminate_store(settings))),
                )
            },
            EventView::Failed => (
                store_at(s, StoreStep::Terminating),
                silent(ActionView::Host(terminate_store(settings))),
            ),
            _ => unexpected,
        },
        StoreStep::Terminating => store_fail(s, ErrorView::Misconfigured),
        StoreStep::PartialInit => on_init(
            s,
            event,
            partial_init_command(settings),
            (
                store_at(s, StoreStep::BuildingRuntime),
                silent(ActionView::Stream(runtime_command(settings))),
            ),
        ),
        StoreStep::BuildingRuntime => on_init(
            s,
            event,
            runtime_command(settings),
            (
                store_at(s, StoreStep::FullInit),
                silent(ActionView::Stream(full_init_command(settings))),
            ),
        ),
        StoreStep::FullInit => on_init(
            s,
            event,
            full_init_command(settings),
            (store_at(s, StoreStep::Ready), silent(ActionView::Done)),
        ),
        StoreStep::CleaningUp => match s.error {
            Some(e) => (StoreStateView { step: StoreStep::Failed, error: None, ..s }, failing(e)),
            None => (
                StoreStateView { step: StoreStep::Failed, error: None, ..s },
                failing(ErrorView::Unexpected),
            ),
        },
        StoreStep::Ready => (s, silent(ActionView::Done)),
        StoreStep::Failed => unexpected,
    }
}

impl StoreState {
    /// The state of a bootstrap that has not begun.
    pub fn new() -> (r: StoreState)
        ensures
            r@ == initial_store(),
    {
        StoreState { step: StoreStep::Start, importing: false, after_install: false, error: None }
    }

    /// Whether no further event is expected.
    pub fn is_final(&self) -> (r: bool)
        ensures
            r == (self.step == StoreStep::Ready || self.step == StoreStep::Failed),
    {
        self.step == StoreStep::Ready || self.step == StoreStep::Failed
    }

    fn to(self, step: StoreStep) -> (r: StoreState)
        ensures
            r@ == store_at(self@, step),
    {
        StoreState { step, ..self }
    }

    fn unexpected(self) -> (r: (StoreState, Reply))
        ensures
            (r.0@, r.1@) == (store_at(self@, StoreStep::Failed), failing(ErrorView::Unexpected)),
    {
        (self.to(StoreStep::Failed), Reply::failing(Error::Unexpected))
    }

    fn fail(self, e: Error) -> (r: (StoreState, Reply))
        ensures
            (r.0@, r.1@) == store_fail(self@, e@),
    {
        if self.importing {
            let mut dirs: Vec<HostDir> = Vec::new();
            dirs.push(HostDir::StoreConfig);
            dirs.push(HostDir::StoreData);
            (
                StoreState { step: StoreStep::CleaningUp, error: Some(e), ..self },
                Reply::saying(
                    String::from_str("Removing leftovers of store files..."),
                    Action::RemoveDirs(dirs),
                ),
            )
        } else {
            (self.to(StoreStep::Failed), Reply::failing(e))
        }
    }
}

impl StoreImpl {
    /// The driver that reaches the store container.
    pub fn cmd(&self, settings: &Settings) -> (r: LinuxCommandDriver)
        ensures
            r@ == settings@.store_name,
    {
        store_driver(settings)
    }

    /// The command that lists the store's processes.
    pub fn ps(&self, settings: &Settings) -> (r: LinuxCommandBuilder)
        ensures
            r@ == ps_command(settings@),
    {
        let args: Vec<&str> = Vec::new();
        self.cmd(settings).run_words("ps", args)
    }

    /// The command that pings the store's package daemon.
    pub fn ping(&self, settings: &Settings) -> (r: LinuxCommandBuilder)
        ensures
            r@ == ping_command(settings@),
    {
        let mut args: Vec<&str> = Vec::new();
        args.push("store");
        args.push("ping");
        args.push("--store");
        args.push("daemon");
        self.cmd(settings).run_words("nix", args)
    }

    /// The init sequence of the store, whole or up to the build of the
    /// runtime.
    pub fn init(&self, until_build: bool, settings: &Settings) -> (r: LinuxCommandBuilder)
        ensures
            r@ == if until_build {
                partial_init_command(settings@)
            } else {
                full_init_command(settings@)
            },
    {
        let mut args: Vec<&str> = Vec::new();
        if until_build {
            args.push("--until-build");
        } else {
            assert(args.deep_view() =~= Seq::<Seq<char>>::empty());
        }
        self.cmd(settings).run_words("/sbin/init", args)
    }

    /// The build of the store's runtime.
    pub fn build_runtime(&self, settings: &Settings) -> (r: LinuxCommandBuilder)
        ensures
            r@ == runtime_command(settings@),
    {
        self.cmd(settings).script(render_runtime(settings))
    }

    /// The call of the backend that kills the store.
    pub fn terminate(&self, settings: &Settings) -> (r: HostCommand)
        ensures
            r@ == terminate_store(settings@),
    {
        backend_command(settings, "--terminate", settings.store_name.as_str())
    }

    /// The call of the backend that unregisters the store.
    pub fn unregister(&self, settings: &Settings) -> (r: HostCommand)
        ensures
            r@ == unregister_store(settings@),
    {
        backend_command(settings, "--unregister", settings.store_name.as_str())
    }

    /// The command that translates the path `path` inside the store to the
    /// path of the same file on the host.
    pub fn store_path_query(&self, path: &LinuxPath, settings: &Settings) -> (r:
        LinuxCommandBuilder)
        ensures
            r@ == host_path_command(settings@, path@),
    {
        let mut args: Vec<&str> = Vec::new();
        args.push("-w");
        args.push(path.0.as_str());
        self.cmd(settings).run_words("/bin/wslpath", args)
    }

    /// The host path that the translation of `path` has printed, or the
    /// error that says which translation failed.
    pub fn _store_path_to_host(
        &self,
        path: &LinuxPath,
        out: &ProcessOutput,
        settings: &Settings,
    ) -> (r: Result<String, Error>)
        ensures
            match host_path(settings@, path@, out@) {
                Ok(text) => r matches Ok(s) && s@ == text,
                Err(e) => r matches Err(err) && err@ == e,
            },
    {
        match self.store_path_query(path, settings).output_utf8_ok(out) {
            Ok(text) => Ok(trim(text.as_str())),
            Err(error) => Err(
                Error::Command {
                    error,
                    context: Some(
                        concat3("Failed to run 'wslpath' with path '", path.0.as_str(), "'."),
                    ),
                },
            ),
        }
    }

    fn poll(&self, state: StoreState, settings: &Settings) -> (r: (StoreState, Reply))
        ensures
            (r.0@, r.1@) == poll(settings@, state@),
    {
        (state.to(StoreStep::Polling), Reply::silent(Action::Run(self.ps(settings))))
    }

    fn on_status(&self, state: StoreState, status: PlatformStatus, settings: &Settings) -> (r: (
        StoreState,
        Reply,
    ))
        ensures
            (r.0@, r.1@) == on_store_status(settings@, state@, status),
    {
        match status {
            PlatformStatus::NotInstalled => (
                StoreState { step: StoreStep::Importing, importing: true, ..state },
                Reply::silent(
                    Action::Import {
                        rootfs: settings.store_rootfs.clone(),
                        instance: settings.store_name.clone(),
                        data: HostDir::StoreData,
                    },
                ),
            ),
            PlatformStatus::Running => self.poll(state, settings),
            PlatformStatus::Stopped => if state.after_install {
                (
                    state.to(StoreStep::PartialInit),
                    Reply::saying(
                        String::from_str(
                            "Initializing store container. This takes a while the first time...",
                        ),
                        Action::Stream(self.init(true, settings)),
                    ),
                )
            } else {
                (
                    state.to(StoreStep::FullInit),
                    Reply::silent(Action::Stream(self.init(false, settings))),
                )
            },
        }
    }

    fn on_polled(
        &self,
        state: StoreState,
        out: &ProcessOutput,
        settings: &Settings,
    ) -> (r: (StoreState, Reply))
        ensures
            (r.0@, r.1@) == on_polled(settings@, state@, out@),
    {
        match self.ps(settings).output_utf8_ok(out) {
            Err(error) => state.fail(Error::Command { error, context: None }),
            Ok(text) => if contains(text.as_str(), "/sbin/init") {
                (
                    state.to(StoreStep::Waiting),
                    Reply::saying(
                        String::from_str(
                            "The store is currently initializing. Please wait a moment...",
                        ),
                        Action::Sleep { millis: POLL_MILLIS },
                    ),
                )
            } else {
                (state.to(StoreStep::Pinging), Reply::silent(Action::Run(self.ping(settings))))
            },
        }
    }

    fn on_init(
        &self,
        state: StoreState,
        event: Event,
        command: LinuxCommandBuilder,
        next_step: StoreStep,
        next_action: Action,
    ) -> (r: (StoreState, Reply))
        ensures
            (r.0@, r.1@) == on_init(
                state@,
                event@,
                command@,
                (store_at(state@, next_step), silent(next_action@)),
            ),
    {
        match event {
            Event::Exit(out) => if out.success {
                (state.to(next_step), Reply::silent(next_action))
            } else {
                state.fail(Error::ended(command, true))
            },
            Event::Failed => state.fail(Error::ended(command, false)),
            _ => state.unexpected(),
        }
    }

    fn terminating(&self, state: StoreState, settings: &Settings) -> (r: (StoreState, Reply))
        ensures
            (r.0@, r.1@) == (
                store_at(state@, StoreStep::Terminating),
                silent(ActionView::Host(terminate_store(settings@))),
            ),
    {
        (state.to(StoreStep::Terminating), Reply::silent(Action::Host(self.terminate(settings))))
    }

    /// The next step of the bootstrap of the store: from its state and the
    /// answer to its last request to the next state and the next request.
    pub fn start_or_init_container(state: StoreState, event: Event, settings: &Settings) -> (r: (
        StoreState,
        Reply,
    ))
        ensures
            (r.0@, r.1@) == store_step(settings@, state@, event@),
    {
        let store = StoreImpl {  };
        match state.step {
            StoreStep::Start => match event {
                Event::Begin => (
                    state.to(StoreStep::Checking),
                    Reply::silent(Action::CheckBackend),
                ),
                _ => state.unexpected(),
            },
            StoreStep::Checking => match event {
                Event::Performed => (
                    state.to(StoreStep::Querying),
                    Reply::silent(Action::Status { instance: settings.store_name.clone() }),
                ),
                Event::Failed => state.fail(Error::Action(Request::CheckBackend)),
                _ => state.unexpected(),
            },
            StoreStep::Querying => match event {
                Event::Status(status) => store.on_status(state, status, settings),
                Event::Failed => state.fail(
                    Error::Action(Request::Status { instance: settings.store_name.clone() }),
                ),
                _ => state.unexpected(),
            },
            StoreStep::Importing => match event {
                Event::Performed => (
                    state.to(StoreStep::Sparsing),
                    Reply::silent(Action::SetSparse { instance: settings.store_name.clone() }),
                ),
                Event::Failed => (
                    state.to(StoreStep::Reverting),
                    Reply::silent(Action::Host(store.unregister(settings))),
                ),
                _ => state.unexpected(),
            },
            StoreStep::Reverting => state.fail(
                Error::Action(
                    Request::Import {
                        rootfs: settings.store_rootfs.clone(),
                        instance: settings.store_name.clone(),
                        data: HostDir::StoreData,
                    },
                ),
            ),
            StoreStep::Sparsing => match event {
                Event::Performed => (
                    StoreState { step: StoreStep::Querying, after_install: true, ..state },
                    Reply::silent(Action::Status { instance: settings.store_name.clone() }),
                ),
                Event::Failed => state.fail(
                    Error::Action(Request::SetSparse { instance: settings.store_name.clone() }),
                ),
                _ => state.unexpected(),
            },
            StoreStep::Polling => match event {
                Event::Exit(out) => store.on_polled(state, &out, settings),
                Event::Failed => state.fail(Error::ended(store.ps(settings), false)),
                _ => state.unexpected(),
            },
            StoreStep::Waiting => store.poll(state, settings),
            StoreStep::Pinging => match event {
                Event::Exit(out) => if out.success {
                    (state.to(StoreStep::Ready), Reply::silent(Action::Done))
                } else {
                    store.terminating(state, settings)
                },
                Event::Failed => store.terminating(state, settings),
                _ => state.unexpected(),
            },
            StoreStep::Terminating => state.fail(Error::Misconfigured),
            StoreStep::PartialInit => store.on_init(
                state,
                event,
                store.init(true, settings),
                StoreStep::BuildingRuntime,
                Action::Stream(store.build_runtime(settings)),
            ),
            StoreStep::BuildingRuntime => store.on_init(
                state,
                event,
                store.build_runtime(settings),
                StoreStep::FullInit,
                Action::Stream(store.init(false, settings)),
            ),
            StoreStep::FullInit => store.on_init(
                state,
                event,
                store.init(false, settings),
                StoreStep::Ready,
                Action::Done,
            ),
            StoreStep::CleaningUp => {
                let StoreState { step, importing, after_install, error } = state;
                let reply = match error {
                    Some(e) => Reply::failing(e),
                    None => Reply::failing(Error::Unexpected),
                };
                (
                    StoreState { step: StoreStep::Failed, importing, after_install, error: None },
                    reply,
                )
            },
            StoreStep::Ready => (state, Reply::silent(Action::Done)),
            StoreStep::Failed => state.unexpected(),
        }
    }
}

/// Nothing of a failed first-time install remains: once the bootstrap has
/// requested the import, every failure leads to the removal of the store's
/// two host directories before the error is reported.
pub proof fn lemma_store_failure_cleans_up(s: StoreStateView, e: ErrorView)
    requires
        s.importing,
    ensures
        store_fail(s, e).0.step == StoreStep::CleaningUp,
        store_fail(s, e).1.action == ActionView::RemoveDirs(store_dirs()),
        store_fail(s, e).0.error == Some(e),
        forall|settings: SettingsView, event: EventView|
            (#[trigger] store_step(settings, store_fail(s, e).0, event)).1 == failing(e),
{
}

/// A store that runs but whose package daemon does not answer is
/// terminated and reported as started incorrectly; the bootstrap does not
/// try again by itself.
pub proof fn lemma_store_misconfigured(
    settings: SettingsView,
    s: StoreStateView,
    out: ProcessOutputView,
    event: EventView,
)
    requires
        s.step == StoreStep::Pinging,
        !out.success,
        !s.importing,
    ensures
        store_step(settings, s, EventView::Exit(out)) == (
            store_at(s, StoreStep::Terminating),
            silent(ActionView::Host(terminate_store(settings))),
        ),
        store_step(settings, store_at(s, StoreStep::Terminating), event) == (
            store_at(s, StoreStep::Failed),
            failing(ErrorView::Misconfigured),
        ),
{
}

/// The first initialisation goes in three steps: after the import, a
/// stopped store runs the init sequence up to the build of the runtime,
/// then builds the runtime by itself, then runs the full init sequence, and
/// is ready. A store that was installed before runs the full init sequence
/// only.
pub proof fn lemma_init_sequence(settings: SettingsView, s: StoreStateView, ok: ProcessOutputView)
    requires
        s.step == StoreStep::Querying,
        ok.success,
    ensures
        s.after_install ==> ({
            let stopped = EventView::Status(PlatformStatus::Stopped);
            let first = store_step(settings, s, stopped);
            let second = store_step(settings, first.0, EventView::Exit(ok));
            let third = store_step(settings, second.0, EventView::Exit(ok));
            let last = store_step(settings, third.0, EventView::Exit(ok));
            &&& first.1.action == ActionView::Stream(partial_init_command(settings))
            &&& second.1.action == ActionView::Stream(runtime_command(settings))
            &&& third.1.action == ActionView::Stream(full_init_command(settings))
            &&& last == (store_at(s, StoreStep::Ready), silent(ActionView::Done))
        }),
        !s.after_install ==> ({
            let stopped = EventView::Status(PlatformStatus::Stopped);
            let first = store_step(settings, s, stopped);
            let last = store_step(settings, first.0, EventView::Exit(ok));
            &&& first.1 == silent(ActionView::Stream(full_init_command(settings)))
            &&& last == (store_at(s, StoreStep::Ready), silent(ActionView::Done))
        }),
{
}

/// A failed import of the store leaves nothing behind: the instance is
/// unregistered, then the store's host directories are removed, and only
/// then the failed import is reported.
pub proof fn lemma_failed_store_import(
    settings: SettingsView,
    s: StoreStateView,
    event: EventView,
)
    requires
        s.step == StoreStep::Importing,
        s.importing,
    ensures
        ({
            let revert = store_step(settings, s, EventView::Failed);
            let clean = store_step(settings, revert.0, event);
            let last = store_step(settings, clean.0, event);
            &&& revert.1.action == ActionView::Host(unregister_store(settings))
            &&& clean.1.action == ActionView::RemoveDirs(store_dirs())
            &&& last.1 == failing(ErrorView::Action(store_import_asked(settings)))
            &&& last.0.step == StoreStep::Failed
        }),
{
}

/// The translated path is the printed line: where the output is a text
/// that begins and ends with characters that are no white space, followed
/// by nothing but white space such as the end of the line, the host path
/// is that text.
pub proof fn lemma_host_path_is_the_line(
    settings: SettingsView,
    path: Seq<char>,
    out: ProcessOutputView,
    line: Seq<char>,
    rest: Seq<char>,
)
    requires
        out.success,
        valid_utf8(out.stdout),
        decode_utf8(out.stdout) == line + rest,
        line.len() > 0,
        !white_space(line[0]),
        !white_space(line.last()),
        forall|i: int| 0 <= i < rest.len() ==> white_space(#[trigger] rest[i]),
    ensures
        host_path(settings, path, out) == Ok::<Seq<char>, ErrorView>(line),
{
    lemma_trimmed_core(Seq::empty(), line, rest);
    assert(Seq::<char>::empty() + line + rest =~= line + rest);
}

} // verus!
