//! Deleting a machine and running a command in it.

use crate::command::{
    CommandError, CommandErrorView, Fault, LinuxCommandBuilder, LinuxCommandView,
    ProcessOutputView,
};
use crate::config::{machine_dir, Settings, SettingsView};
use crate::install::start_failed;
use crate::machine::{
    exec_command, start_plan, store_driver, store_run, terminate_call, unregister_call, Machine,
    MachineDriver, MachineView,
};
use crate::pipeline::{machine_dirs, starting_text};
use crate::protocol::{
    exit_error, failing, saying, silent, start_error, Action, ActionView, Error, ErrorView, Event,
    EventView, Reply, ReplyView, Request, RequestView,
};
use crate::status::{ConfigStatus, PlatformStatus};
use crate::text::{as_strs, concat2, concat3};
use vstd::prelude::*;
use vstd::string::*;

verus! {

/// Where a deletion stands: which answer it waits for.
#[derive(Debug, PartialEq, Eq, Clone, Copy, Structural)]
pub enum DeleteStep {
    /// Nothing was requested yet.
    Start,
    /// The user is being asked to confirm.
    Confirming,
    /// The running container is being stopped.
    Stopping,
    /// The container is being unregistered.
    Unregistering,
    /// The machine's files inside the store are being removed.
    RemovingData,
    /// The machine's directories on the host are being removed.
    RemovingDirs,
    /// The host's shortcuts are being removed.
    RemovingShortcuts,
    /// The machine is deleted.
    Done,
    /// The deletion has failed or was declined.
    Failed,
}

/// Where a session stands: which answer it waits for.
#[derive(Debug, PartialEq, Eq, Clone, Copy, Structural)]
pub enum ExecStep {
    /// Nothing was requested yet.
    Start,
    /// The machine is being started.
    Starting,
    /// The init log of that start is being followed.
    Following,
    /// The session was handed over to the backend.
    Done,
    /// The session could not be opened.
    Failed,
}

pub open spec fn confirm_text(name: Seq<char>) -> Seq<char> {
    "Delete '"@ + name + "'?"@
}

pub open spec fn confirm_help(name: Seq<char>) -> Seq<char> {
    "This will remove all files associated with '"@ + name + "'"@
}

pub open spec fn stopping_text(name: Seq<char>) -> Seq<char> {
    "Stopping "@ + name
}

pub open spec fn unregistering_text(name: Seq<char>) -> Seq<char> {
    "Deleting container of "@ + name
}

pub open spec fn removing_text(name: Seq<char>) -> Seq<char> {
    "Deleting files from "@ + name
}

pub open spec fn deleted_text(name: Seq<char>) -> Seq<char> {
    "Successfully deleted "@ + name
        + ". You might also want to run a garbage collection (`codchi gc`)."@
}

/// The store-side command that removes the files of machine `name`.
pub open spec fn remove_command(settings: SettingsView, name: Seq<char>) -> LinuxCommandView {
    store_run(
        settings,
        "rm"@,
        seq![
            "-rf"@,
            machine_dir(settings.store_dir_data, name),
            machine_dir(settings.store_dir_config, name),
        ],
        None,
    )
}

/// The error for the failed removal of the machine's files: the command
/// ended with a non-zero exit code where it ran, and could not be started
/// otherwise.
pub open spec fn remove_error(settings: SettingsView, name: Seq<char>, ran: bool) -> ErrorView {
    ErrorView::Command {
        error: CommandErrorView {
            command: remove_command(settings, name),
            fault: if ran {
                Fault::Exit
            } else {
                Fault::Start
            },
        },
        context: Some("Failed deleting data."@),
    }
}

/// The machine's files inside the store are removed.
pub open spec fn remove_data(m: MachineView, settings: SettingsView) -> (DeleteStep, ReplyView) {
    (
        DeleteStep::RemovingData,
        saying(
            removing_text(m.config.name),
            ActionView::Run(remove_command(settings, m.config.name)),
        ),
    )
}

/// A machine with a container loses it.
pub open spec fn unregister(m: MachineView, settings: SettingsView) -> (DeleteStep, ReplyView) {
    if m.platform_status != PlatformStatus::NotInstalled {
        (
            DeleteStep::Unregistering,
            saying(
                unregistering_text(m.config.name),
                ActionView::Host(unregister_call(settings, m.config.name)),
            ),
        )
    } else {
        remove_data(m, settings)
    }
}

/// A running machine is stopped by force.
pub open spec fn stop_running(m: MachineView, settings: SettingsView) -> (DeleteStep, ReplyView) {
    if m.platform_status == PlatformStatus::Running {
        (
            DeleteStep::Stopping,
            saying(
                stopping_text(m.config.name),
                ActionView::Host(terminate_call(settings, m.config.name)),
            ),
        )
    } else {
        unregister(m, settings)
    }
}

/// The next step of a deletion. Unless it is confirmed beforehand, the user
/// is asked first, and nothing else happens before the answer. A failure to
/// stop or unregister the container, or to remove the files inside the
/// store, ends the deletion; the host directories are removed as far as
/// possible.
pub open spec fn delete_step(
    m: MachineView,
    confirmed: bool,
    settings: SettingsView,
    step: DeleteStep,
    event: EventView,
) -> (DeleteStep, ReplyView) {
    let name = m.config.name;
    match step {
        DeleteStep::Start => match event {
            EventView::Begin => if confirmed {
                stop_running(m, settings)
            } else {
                (
                    DeleteStep::Confirming,
                    silent(
                        ActionView::Confirm {
                            message: confirm_text(name),
                            help: confirm_help(name),
                        },
                    ),
                )
            },
            _ => (DeleteStep::Failed, failing(ErrorView::Unexpected)),
        },
        DeleteStep::Confirming => match event {
            EventView::Answer(yes) => if yes {
                stop_running(m, settings)
            } else {
                (DeleteStep::Failed, failing(ErrorView::Canceled))
            },
            EventView::Failed => (
                DeleteStep::Failed,
                failing(ErrorView::Action(RequestView::Confirm { message: confirm_text(name) })),
            ),
            _ => (DeleteStep::Failed, failing(ErrorView::Unexpected)),
        },
        DeleteStep::Stopping => match event {
            EventView::Exit(out) => if out.success {
                unregister(m, settings)
            } else {
                (DeleteStep::Failed, failing(ErrorView::Backend(terminate_call(settings, name))))
            },
            EventView::Failed => (
                DeleteStep::Failed,
                failing(ErrorView::Backend(terminate_call(settings, name))),
            ),
            _ => (DeleteStep::Failed, failing(ErrorView::Unexpected)),
        },
        DeleteStep::Unregistering => match event {
            EventView::Exit(out) => if out.success {
                remove_data(m, settings)
            } else {
                (DeleteStep::Failed, failing(ErrorView::Backend(unregister_call(settings, name))))
            },
            EventView::Failed => (
                DeleteStep::Failed,
                failing(ErrorView::Backend(unregister_call(settings, name))),
            ),
            _ => (DeleteStep::Failed, failing(ErrorView::Unexpected)),
        },
        DeleteStep::RemovingData => match event {
            EventView::Exit(out) => if out.success {
                (DeleteStep::RemovingDirs, silent(ActionView::RemoveDirs(machine_dirs(name))))
            } else {
                (DeleteStep::Failed, failing(remove_error(settings, name, true)))
            },
            EventView::Failed => (
                DeleteStep::Failed,
                failing(remove_error(settings, name, false)),
            ),
            _ => (DeleteStep::Failed, failing(ErrorView::Unexpected)),
        },
        DeleteStep::RemovingDirs => (
            DeleteStep::RemovingShortcuts,
            saying(
                "Deleting start menu shortcuts..."@,
                ActionView::Shortcuts { name, present: false },
            ),
        ),
        DeleteStep::RemovingShortcuts => match event {
            EventView::Performed => (
                DeleteStep::Done,
                saying(deleted_text(name), ActionView::Done),
            ),
            EventView::Failed => (
                DeleteStep::Failed,
                failing(ErrorView::Action(RequestView::Shortcuts { name, present: false })),
            ),
            _ => (DeleteStep::Failed, failing(ErrorView::Unexpected)),
        },
        DeleteStep::Done => (DeleteStep::Done, silent(ActionView::Done)),
        DeleteStep::Failed => (DeleteStep::Failed, failing(ErrorView::Unexpected)),
    }
}

/// The next step of a session. A machine that was never built, or that has
/// no container, cannot run anything; otherwise the machine is started and
/// the command takes the place of this process.
pub open spec fn exec_step(
    m: MachineView,
    words: Seq<Seq<char>>,
    settings: SettingsView,
    step: ExecStep,
    event: EventView,
) -> (ExecStep, ReplyView) {
    let name = m.config.name;
    match step {
        ExecStep::Start => match event {
            EventView::Begin => if m.config_status == ConfigStatus::NotInstalled
                || m.platform_status == PlatformStatus::NotInstalled {
                (ExecStep::Failed, failing(ErrorView::NotInstalled(name)))
            } else {
                (
                    ExecStep::Starting,
                    saying(
                        starting_text(name),
                        ActionView::Stream(start_plan(m.config, settings).write_env),
                    ),
                )
            },
            _ => (ExecStep::Failed, failing(ErrorView::Unexpected)),
        },
        ExecStep::Starting => match event {
            EventView::Exit(out) => if out.success {
                (
                    ExecStep::Following,
                    silent(ActionView::Follow(start_plan(m.config, settings).tail_log)),
                )
            } else {
                (
                    ExecStep::Failed,
                    failing(exit_error(start_plan(m.config, settings).write_env)),
                )
            },
            EventView::Failed => (
                ExecStep::Failed,
                failing(start_error(start_plan(m.config, settings).write_env)),
            ),
            _ => (ExecStep::Failed, failing(ErrorView::Unexpected)),
        },
        ExecStep::Following => (
            ExecStep::Done,
            silent(ActionView::Exec(exec_command(settings, name, words))),
        ),
        ExecStep::Done => (ExecStep::Done, silent(ActionView::Done)),
        ExecStep::Failed => (ExecStep::Failed, failing(ErrorView::Unexpected)),
    }
}

impl Machine {
    /// The store-side command that removes the machine's files.
    pub fn remove_files(&self, settings: &Settings) -> (r: LinuxCommandBuilder)
        ensures
            r@ == remove_command(settings@, self.config@.name),
    {
        let data = settings.machine_data_dir(self.config.name.as_str());
        let config = settings.machine_config_dir(self.config.name.as_str());
        let mut args: Vec<&str> = Vec::new();
        args.push("-rf");
        args.push(data.0.as_str());
        args.push(config.0.as_str());
        assert(args.deep_view() =~= seq![
            "-rf"@,
            machine_dir(settings@.store_dir_data, self.config@.name),
            machine_dir(settings@.store_dir_config, self.config@.name),
        ]);
        store_driver(settings).run_words("rm", args)
    }

    fn remove_failed(&self, settings: &Settings, ran: bool) -> (r: Error)
        ensures
            r@ == remove_error(settings@, self.config@.name, ran),
    {
        let fault = if ran {
            Fault::Exit
        } else {
            Fault::Start
        };
        Error::Command {
            error: CommandError { command: self.remove_files(settings), fault },
            context: Some(String::from_str("Failed deleting data.")),
        }
    }

    fn remove_data(&self, settings: &Settings) -> (r: (DeleteStep, Reply))
        ensures
            (r.0, r.1@) == remove_data(self@, settings@),
    {
        (
            DeleteStep::RemovingData,
            Reply::saying(
                concat2("Deleting files from ", self.config.name.as_str()),
                Action::Run(self.remove_files(settings)),
            ),
        )
    }

    fn unregister(&self, settings: &Settings) -> (r: (DeleteStep, Reply))
        ensures
            (r.0, r.1@) == unregister(self@, settings@),
    {
        if self.platform_status != PlatformStatus::NotInstalled {
            (
                DeleteStep::Unregistering,
                Reply::saying(
                    concat2("Deleting container of ", self.config.name.as_str()),
                    Action::Host(self.delete_container(settings)),
                ),
            )
        } else {
            self.remove_data(settings)
        }
    }

    fn stop_running(&self, settings: &Settings) -> (r: (DeleteStep, Reply))
        ensures
            (r.0, r.1@) == stop_running(self@, settings@),
    {
        if self.platform_status == PlatformStatus::Running {
            (
                DeleteStep::Stopping,
                Reply::saying(
                    concat2("Stopping ", self.config.name.as_str()),
                    Action::Host(self.stop(true, settings)),
                ),
            )
        } else {
            self.unregister(settings)
        }
    }

    /// The next step of the deletion of this machine. `im_really_sure`
    /// says that the user has confirmed already.
    pub fn delete(
        &self,
        im_really_sure: bool,
        step: DeleteStep,
        event: Event,
        settings: &Settings,
    ) -> (r: (DeleteStep, Reply))
        ensures
            (r.0, r.1@) == delete_step(self@, im_really_sure, settings@, step, event@),
    {
        match step {
            DeleteStep::Start => match event {
                Event::Begin => if im_really_sure {
                    self.stop_running(settings)
                } else {
                    (
                        DeleteStep::Confirming,
                        Reply::silent(
                            Action::Confirm {
                                message: concat3("Delete '", self.config.name.as_str(), "'?"),
                                help: concat3(
                                    "This will remove all files associated with '",
                                    self.config.name.as_str(),
                                    "'",
                                ),
                            },
                        ),
                    )
                },
                _ => (DeleteStep::Failed, Reply::failing(Error::Unexpected)),
            },
            DeleteStep::Confirming => match event {
                Event::Answer(yes) => if yes {
                    self.stop_running(settings)
                } else {
                    (DeleteStep::Failed, Reply::failing(Error::Canceled))
                },
                Event::Failed => (
                    DeleteStep::Failed,
                    Reply::failing(
                        Error::Action(
                            Request::Confirm {
                                message: concat3("Delete '", self.config.name.as_str(), "'?"),
                            },
                        ),
                    ),
                ),
                _ => (DeleteStep::Failed, Reply::failing(Error::Unexpected)),
            },
            DeleteStep::Stopping => match event {
                Event::Exit(out) => if out.success {
                    self.unregister(settings)
                } else {
                    (DeleteStep::Failed, Reply::failing(Error::Backend(self.stop(true, settings))))
                },
                Event::Failed => (
                    DeleteStep::Failed,
                    Reply::failing(Error::Backend(self.stop(true, settings))),
                ),
                _ => (DeleteStep::Failed, Reply::failing(Error::Unexpected)),
            },
            DeleteStep::Unregistering => match event {
                Event::Exit(out) => if out.success {
                    self.remove_data(settings)
                } else {
                    (
                        DeleteStep::Failed,
                        Reply::failing(Error::Backend(self.delete_container(settings))),
                    )
                },
                Event::Failed => (
                    DeleteStep::Failed,
                    Reply::failing(Error::Backend(self.delete_container(settings))),
                ),
                _ => (DeleteStep::Failed, Reply::failing(Error::Unexpected)),
            },
            DeleteStep::RemovingData => match event {
                Event::Exit(out) => if out.success {
                    (DeleteStep::RemovingDirs, Reply::silent(Action::RemoveDirs(self.host_dirs())))
                } else {
                    (DeleteStep::Failed, Reply::failing(self.remove_failed(settings, true)))
                },
                Event::Failed => (
                    DeleteStep::Failed,
                    Reply::failing(self.remove_failed(settings, false)),
                ),
                _ => (DeleteStep::Failed, Reply::failing(Error::Unexpected)),
            },
            DeleteStep::RemovingDirs => (
                DeleteStep::RemovingShortcuts,
                Reply::saying(
                    String::from_str("Deleting start menu shortcuts..."),
                    Action::Shortcuts { name: self.config.name.clone(), present: false },
                ),
            ),
            DeleteStep::RemovingShortcuts => match event {
                Event::Performed => (
                    DeleteStep::Done,
                    Reply::saying(
                        concat3(
                            "Successfully deleted ",
                            self.config.name.as_str(),
                            ". You might also want to run a garbage collection (`codchi gc`).",
                        ),
                        Action::Done,
                    ),
                ),
                Event::Failed => (
                    DeleteStep::Failed,
                    Reply::failing(
                        Error::Action(
                            Request::Shortcuts { name: self.config.name.clone(), present: false },
                        ),
                    ),
                ),
                _ => (DeleteStep::Failed, Reply::failing(Error::Unexpected)),
            },
            DeleteStep::Done => (DeleteStep::Done, Reply::silent(Action::Done)),
            DeleteStep::Failed => (DeleteStep::Failed, Reply::failing(Error::Unexpected)),
        }
    }

    /// The next step of a session that runs the command line `cmd` in this
    /// machine.
    pub fn exec(
        &self,
        cmd: &[String],
        step: ExecStep,
        event: Event,
        settings: &Settings,
    ) -> (r: (ExecStep, Reply))
        ensures
            (r.0, r.1@) == exec_step(self@, cmd.deep_view(), settings@, step, event@),
    {
        match step {
            ExecStep::Start => match event {
                Event::Begin => if self.config_status == ConfigStatus::NotInstalled
                    || self.platform_status == PlatformStatus::NotInstalled {
                    (
                        ExecStep::Failed,
                        Reply::failing(Error::NotInstalled(self.config.name.clone())),
                    )
                } else {
                    (
                        ExecStep::Starting,
                        Reply::saying(
                            concat3("Starting ", self.config.name.as_str(), "..."),
                            Action::Stream(self.start(settings).write_env),
                        ),
                    )
                },
                _ => (ExecStep::Failed, Reply::failing(Error::Unexpected)),
            },
            ExecStep::Starting => match event {
                Event::Exit(out) => if out.success {
                    (
                        ExecStep::Following,
                        Reply::silent(Action::Follow(self.start(settings).tail_log)),
                    )
                } else {
                    (ExecStep::Failed, Reply::failing(start_failed(self, settings, true)))
                },
                Event::Failed => (
                    ExecStep::Failed,
                    Reply::failing(start_failed(self, settings, false)),
                ),
                _ => (ExecStep::Failed, Reply::failing(Error::Unexpected)),
            },
            ExecStep::Following => {
                let words = as_strs(cmd);
                let slice = words.as_slice();
                assert(slice.deep_view() =~= words.deep_view());
                (
                    ExecStep::Done,
                    Reply::silent(Action::Exec(self.create_exec_cmd(slice, settings))),
                )
            },
            ExecStep::Done => (ExecStep::Done, Reply::silent(Action::Done)),
            ExecStep::Failed => (ExecStep::Failed, Reply::failing(Error::Unexpected)),
        }
    }
}

/// Declining a deletion: without a confirmation beforehand the first
/// request is the question to the user, and after a "no" the deletion ends
/// as cancelled, so that neither the backend nor a file was touched.
pub proof fn lemma_delete_declined(m: MachineView, settings: SettingsView)
    ensures
        delete_step(m, false, settings, DeleteStep::Start, EventView::Begin) == (
            DeleteStep::Confirming,
            silent(
                ActionView::Confirm {
                    message: confirm_text(m.config.name),
                    help: confirm_help(m.config.name),
                },
            ),
        ),
        delete_step(m, false, settings, DeleteStep::Confirming, EventView::Answer(false)) == (
            DeleteStep::Failed,
            failing(ErrorView::Canceled),
        ),
{
}

/// A session needs an installed machine: on a machine that was never built
/// or has no container, the first step fails and requests nothing.
pub proof fn lemma_exec_needs_install(m: MachineView, words: Seq<Seq<char>>, settings: SettingsView)
    ensures
        (m.config_status == ConfigStatus::NotInstalled || m.platform_status
            == PlatformStatus::NotInstalled) <==> exec_step(
            m,
            words,
            settings,
            ExecStep::Start,
            EventView::Begin,
        ) == (ExecStep::Failed, failing(ErrorView::NotInstalled(m.config.name))),
{
}

/// How far a deletion has come.
pub open spec fn delete_rank(step: DeleteStep) -> nat {
    match step {
        DeleteStep::Start => 0,
        DeleteStep::Confirming => 1,
        DeleteStep::Stopping => 2,
        DeleteStep::Unregistering => 3,
        DeleteStep::RemovingData => 4,
        DeleteStep::RemovingDirs => 5,
        DeleteStep::RemovingShortcuts => 6,
        DeleteStep::Done => 7,
        DeleteStep::Failed => 7,
    }
}

/// A deletion always moves on, and in its order: the container is stopped
/// before it is unregistered, and files are removed only after that.
pub proof fn lemma_delete_moves_on(
    m: MachineView,
    confirmed: bool,
    settings: SettingsView,
    step: DeleteStep,
    event: EventView,
)
    requires
        step != DeleteStep::Done,
        step != DeleteStep::Failed,
    ensures
        delete_rank(delete_step(m, confirmed, settings, step, event).0) > delete_rank(step),
{
}

/// Nothing is touched before the user has agreed: a deletion that is not
/// confirmed beforehand requests a backend call, a command or a removal
/// only after the user has answered yes.
pub proof fn lemma_delete_waits_for_consent(
    m: MachineView,
    settings: SettingsView,
    step: DeleteStep,
    event: EventView,
)
    requires
        step == DeleteStep::Start || (step == DeleteStep::Confirming && event
            != EventView::Answer(true)),
    ensures
        ({
            let reply = delete_step(m, false, settings, step, event).1;
            reply.action is Confirm || reply.action is Fail
        }),
{
}

/// What a deletion asks of the backend follows from the run-state that
/// the machine was read with: a running container is terminated first, a
/// stopped one is unregistered at once, and without a container the
/// backend is not called at all.
pub proof fn lemma_delete_backend_calls(
    m: MachineView,
    settings: SettingsView,
    ok: ProcessOutputView,
)
    requires
        ok.success,
    ensures
        m.platform_status == PlatformStatus::Running ==> ({
            let stop = delete_step(m, true, settings, DeleteStep::Start, EventView::Begin);
            let unregister = delete_step(m, true, settings, stop.0, EventView::Exit(ok));
            &&& stop.1.action == ActionView::Host(terminate_call(settings, m.config.name))
            &&& unregister.1.action == ActionView::Host(
                unregister_call(settings, m.config.name),
            )
        }),
        m.platform_status == PlatformStatus::Stopped ==> delete_step(
            m,
            true,
            settings,
            DeleteStep::Start,
            EventView::Begin,
        ).1.action == ActionView::Host(unregister_call(settings, m.config.name)),
        m.platform_status == PlatformStatus::NotInstalled ==> delete_step(
            m,
            true,
            settings,
            DeleteStep::Start,
            EventView::Begin,
        ).1.action == ActionView::Run(remove_command(settings, m.config.name)),
{
}

} // verus!
