//! Installing a machine: import its container from the root file system
//! archive, unless it exists already, and start it for the first time after
//! a fresh import.

use crate::backend::{imported, status_in};
use crate::config::{
    machine_instance, HostDir, HostDirView, MachineConfigView, Settings, SettingsView,
};
use crate::machine::{start_plan, unregister_call, Machine, MachineDriver};
use crate::protocol::{
    ended_badly, exit_error, failing, silent, start_error, Action, ActionView, Error, ErrorView,
    Event, EventView, Reply, ReplyView, Request, RequestView,
};
use crate::status::PlatformStatus;
use vstd::prelude::*;
use vstd::string::*;

verus! {

/// Where an installation stands: which answer it waits for.
#[derive(Debug, PartialEq, Eq, Clone, Copy, Structural)]
pub enum InstallStep {
    /// Nothing was requested yet.
    Start,
    /// The backend was asked whether the container exists.
    Checking,
    /// The import was requested.
    Importing,
    /// What a failed import has registered is being removed again.
    Reverting,
    /// The environment file of the first start is being written.
    Starting,
    /// The init log of the first start is being followed.
    Following,
    /// The container exists.
    Done,
    /// The installation has failed.
    Failed,
}

/// The import of the container of machine `name`.
pub open spec fn import_request(name: Seq<char>, settings: SettingsView) -> ActionView {
    ActionView::Import {
        rootfs: settings.machine_rootfs,
        instance: machine_instance(settings, name),
        data: HostDirView::MachineData(name),
    }
}

/// The request whose failure ends an installation at the import.
pub open spec fn import_asked(name: Seq<char>, settings: SettingsView) -> RequestView {
    RequestView::Import {
        rootfs: settings.machine_rootfs,
        instance: machine_instance(settings, name),
        data: HostDirView::MachineData(name),
    }
}

/// The next step of an installation. A container that exists is left alone
/// and not started; the first start follows a fresh import only, and what a
/// failed import has registered is unregistered before the failure is
/// reported.
pub open spec fn install_step(
    config: MachineConfigView,
    settings: SettingsView,
    step: InstallStep,
    event: EventView,
) -> (InstallStep, ReplyView) {
    match step {
        InstallStep::Start => match event {
            EventView::Begin => (
                InstallStep::Checking,
                silent(ActionView::Status { instance: machine_instance(settings, config.name) }),
            ),
            _ => (InstallStep::Failed, failing(ErrorView::Unexpected)),
        },
        InstallStep::Checking => match event {
            EventView::Status(status) => if status == PlatformStatus::NotInstalled {
                (InstallStep::Importing, silent(import_request(config.name, settings)))
            } else {
                (InstallStep::Done, silent(ActionView::Done))
            },
            EventView::Failed => (
                InstallStep::Failed,
                failing(
                    ErrorView::Action(
                        RequestView::Status { instance: machine_instance(settings, config.name) },
                    ),
                ),
            ),
            _ => (InstallStep::Failed, failing(ErrorView::Unexpected)),
        },
        InstallStep::Importing => match event {
            EventView::Performed => (
                InstallStep::Starting,
                silent(ActionView::Stream(start_plan(config, settings).write_env)),
            ),
            EventView::Failed => (
                InstallStep::Reverting,
                silent(ActionView::Host(unregister_call(settings, config.name))),
            ),
            _ => (InstallStep::Failed, failing(ErrorView::Unexpected)),
        },
        InstallStep::Reverting => (
            InstallStep::Failed,
            failing(ErrorView::Action(import_asked(config.name, settings))),
        ),
        InstallStep::Starting => match event {
            EventView::Exit(out) => if out.success {
                (
                    InstallStep::Following,
                    silent(ActionView::Follow(start_plan(config, settings).tail_log)),
                )
            } else {
                (
                    InstallStep::Failed,
                    failing(exit_error(start_plan(config, settings).write_env)),
                )
            },
            EventView::Failed => (
                InstallStep::Failed,
                failing(start_error(start_plan(config, settings).write_env)),
            ),
            _ => (InstallStep::Failed, failing(ErrorView::Unexpected)),
        },
        InstallStep::Following => (InstallStep::Done, silent(ActionView::Done)),
        InstallStep::Done => (InstallStep::Done, silent(ActionView::Done)),
        InstallStep::Failed => (InstallStep::Failed, failing(ErrorView::Unexpected)),
    }
}

/// The error for the start of `machine` that ended badly: with a non-zero
/// exit code where the command ran, as not started otherwise.
pub fn start_failed(machine: &Machine, settings: &Settings, ran: bool) -> (r: Error)
    ensures
        r@ == ended_badly(start_plan(machine.config@, settings@).write_env, ran),
{
    Error::ended(machine.start(settings).write_env, ran)
}

/// The next step of the installation of `machine`.
pub fn install_machine(
    machine: &Machine,
    step: InstallStep,
    event: Event,
    settings: &Settings,
) -> (r: (InstallStep, Reply))
    ensures
        (r.0, r.1@) == install_step(machine.config@, settings@, step, event@),
{
    match step {
        InstallStep::Start => match event {
            Event::Begin => (
                InstallStep::Checking,
                Reply::silent(
                    Action::Status {
                        instance: settings.machine_name(machine.config.name.as_str()),
                    },
                ),
            ),
            _ => (InstallStep::Failed, Reply::failing(Error::Unexpected)),
        },
        InstallStep::Checking => match event {
            Event::Status(status) => if status == PlatformStatus::NotInstalled {
                (
                    InstallStep::Importing,
                    Reply::silent(
                        Action::Import {
                            rootfs: settings.machine_rootfs.clone(),
                            instance: settings.machine_name(machine.config.name.as_str()),
                            data: HostDir::MachineData(machine.config.name.clone()),
                        },
                    ),
                )
            } else {
                (InstallStep::Done, Reply::silent(Action::Done))
            },
            Event::Failed => (
                InstallStep::Failed,
                Reply::failing(
                    Error::Action(
                        Request::Status {
                            instance: settings.machine_name(machine.config.name.as_str()),
                        },
                    ),
                ),
            ),
            _ => (InstallStep::Failed, Reply::failing(Error::Unexpected)),
        },
        InstallStep::Importing => match event {
            Event::Performed => (
                InstallStep::Starting,
                Reply::silent(Action::Stream(machine.start(settings).write_env)),
            ),
            Event::Failed => (
                InstallStep::Reverting,
                Reply::silent(Action::Host(machine.delete_container(settings))),
            ),
            _ => (InstallStep::Failed, Reply::failing(Error::Unexpected)),
        },
        InstallStep::Reverting => (
            InstallStep::Failed,
            Reply::failing(
                Error::Action(
                    Request::Import {
                        rootfs: settings.machine_rootfs.clone(),
                        instance: settings.machine_name(machine.config.name.as_str()),
                        data: HostDir::MachineData(machine.config.name.clone()),
                    },
                ),
            ),
        ),
        InstallStep::Starting => match event {
            Event::Exit(out) => if out.success {
                (
                    InstallStep::Following,
                    Reply::silent(Action::Follow(machine.start(settings).tail_log)),
                )
            } else {
                (InstallStep::Failed, Reply::failing(start_failed(machine, settings, true)))
            },
            Event::Failed => (
                InstallStep::Failed,
                Reply::failing(start_failed(machine, settings, false)),
            ),
            _ => (InstallStep::Failed, Reply::failing(Error::Unexpected)),
        },
        InstallStep::Following => (InstallStep::Done, Reply::silent(Action::Done)),
        InstallStep::Done => (InstallStep::Done, Reply::silent(Action::Done)),
        InstallStep::Failed => (InstallStep::Failed, Reply::failing(Error::Unexpected)),
    }
}

/// Installing twice: an installation that finds the container registered
/// requests neither an import nor a start, and is done at once.
pub proof fn lemma_install_skips_existing(
    config: MachineConfigView,
    settings: SettingsView,
    status: PlatformStatus,
)
    requires
        status != PlatformStatus::NotInstalled,
    ensures
        install_step(config, settings, InstallStep::Checking, EventView::Status(status)) == (
            InstallStep::Done,
            silent(ActionView::Done),
        ),
{
}

/// The first start belongs to a fresh import: its environment file is
/// written exactly as the answer to an import that was performed, its log
/// is followed exactly after that file was written, and an import is
/// requested exactly where the backend reports no container.
pub proof fn lemma_install_starts_after_import(
    config: MachineConfigView,
    settings: SettingsView,
    step: InstallStep,
    event: EventView,
)
    ensures
        install_step(config, settings, step, event).1.action is Stream <==> step
            == InstallStep::Importing && event is Performed,
        install_step(config, settings, step, event).1.action is Follow <==> step
            == InstallStep::Starting && (event matches EventView::Exit(out) && out.success),
        install_step(config, settings, step, event).1.action is Import <==> step
            == InstallStep::Checking && event == EventView::Status(PlatformStatus::NotInstalled),
{
}

/// A failed import leaves nothing registered: the instance is unregistered
/// before the installation reports which import failed.
pub proof fn lemma_failed_import_is_reverted(
    config: MachineConfigView,
    settings: SettingsView,
    event: EventView,
)
    ensures
        install_step(config, settings, InstallStep::Importing, EventView::Failed) == (
            InstallStep::Reverting,
            silent(ActionView::Host(unregister_call(settings, config.name))),
        ),
        install_step(config, settings, InstallStep::Reverting, event) == (
            InstallStep::Failed,
            failing(ErrorView::Action(import_asked(config.name, settings))),
        ),
{
}

/// Installing is idempotent: once the container was imported, whatever
/// the backend held before, an installation finds it and is done without
/// a further import or start, and the import itself changes nothing.
pub proof fn lemma_second_install_is_noop(
    backend: Map<Seq<char>, bool>,
    config: MachineConfigView,
    settings: SettingsView,
)
    ensures
        ({
            let instance = machine_instance(settings, config.name);
            let after = imported(backend, instance);
            &&& install_step(
                config,
                settings,
                InstallStep::Checking,
                EventView::Status(status_in(after, instance)),
            ) == (InstallStep::Done, silent(ActionView::Done))
            &&& imported(after, instance) == after
        }),
{
}

} // verus!
